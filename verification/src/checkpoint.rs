//! Zone checkpoints: the records a checkpoint carries, the SHA-256 state root
//! that commits to a zone, and the digests that bind ground-drop claims.
use vstd::prelude::*;
use vstd::string::StrSliceExecFns;
use sha2::{Digest, Sha256};
use crate::types::SessionId;

verus! {

/// A ground drop as a checkpoint carries it: its object, its owner and its
/// canonical serialized payload.
#[derive(Debug)]
pub struct GroundDropSnapshot {
    pub object_id: u32,
    pub owner_object_id: Option<u32>,
    pub canonical_bytes: Vec<u8>,
}

/// A ground drop lying in the zone with its claim authority.
#[derive(Debug)]
pub struct StoredGroundDrop {
    pub object_id: u32,
    pub drop: GroundDropSnapshot,
    pub owner_expires_at_ms: Option<u64>,
    pub drop_generation: u64,
    pub payload_digest: String,
}

/// The proof that one claim of one drop generation was granted.
#[derive(Debug)]
pub struct GroundDropClaimTicket {
    pub claim_id: u64,
    pub object_id: u32,
    pub drop_generation: u64,
    pub payload_digest: String,
    pub idempotency_key: String,
    pub session_id: SessionId,
    pub owner_object_id: Option<u32>,
    pub drop: GroundDropSnapshot,
}

/// A claimed ground drop awaiting settlement.
#[derive(Debug)]
pub struct GroundDropClaim {
    pub object_id: u32,
    pub session_id: SessionId,
    pub drop: GroundDropSnapshot,
    pub ticket: Option<GroundDropClaimTicket>,
}

/// What SHA-256 gives for `data`.
pub uninterp spec fn spec_sha256(data: Seq<u8>) -> Seq<u8>;

/// Wrapper of `sha2::Sha256::digest` (the `Digest` trait's one-shot hash).
/// Claims only that the 32 digest bytes are SHA-256 of exactly `data`.
#[verifier::external_body]
pub(crate) fn sha256(data: &[u8]) -> (r: Vec<u8>)
    ensures
        r@ == spec_sha256(data@),
        r@.len() == 32,
{
    Sha256::digest(data).to_vec()
}

/// Wrapper of `String::push`, which appends one character.
#[verifier::external_body]
fn push_char(s: &mut String, c: char)
    ensures
        final(s)@ == old(s)@.push(c),
{
    s.push(c);
}

/// The lower-case hexadecimal digit of a nibble.
pub open spec fn spec_hex_digit(n: u8) -> char {
    if n < 10 {
        ((48 + n) as u8) as char
    } else {
        ((87 + n) as u8) as char
    }
}

/// Two lower-case hexadecimal digits per byte, high nibble first.
pub open spec fn spec_hex_lower(bytes: Seq<u8>) -> Seq<char>
    decreases bytes.len(),
{
    if bytes.len() == 0 {
        Seq::empty()
    } else {
        let b = bytes.last();
        spec_hex_lower(bytes.drop_last()) + seq![spec_hex_digit(b >> 4u8), spec_hex_digit(b & 15u8)]
    }
}

/// Whether `c` is a lower-case hexadecimal digit (`0`-`9`, `a`-`f`).
pub open spec fn spec_is_hex_lower_char(c: char) -> bool {
    ('0' <= c && c <= '9') || ('a' <= c && c <= 'f')
}

/// Hexadecimal text of bytes has two characters per byte, each a
/// lower-case hexadecimal digit.
pub proof fn lemma_hex_lower_shape(bytes: Seq<u8>)
    ensures
        spec_hex_lower(bytes).len() == 2 * bytes.len(),
        forall|i: int| 0 <= i < spec_hex_lower(bytes).len() ==> spec_is_hex_lower_char(#[trigger] spec_hex_lower(bytes)[i]),
    decreases bytes.len(),
{
    if bytes.len() > 0 {
        lemma_hex_lower_shape(bytes.drop_last());
        let b = bytes.last();
        assert(b >> 4u8 < 16u8) by (bit_vector);
        assert(b & 15u8 < 16u8) by (bit_vector);
        let hi = b >> 4u8;
        let lo = b & 15u8;
        assert(spec_is_hex_lower_char(spec_hex_digit(hi)));
        assert(spec_is_hex_lower_char(spec_hex_digit(lo)));
        let prefix = spec_hex_lower(bytes.drop_last());
        let whole = spec_hex_lower(bytes);
        assert(whole == prefix + seq![spec_hex_digit(hi), spec_hex_digit(lo)]);
        assert forall|i: int| 0 <= i < whole.len() implies spec_is_hex_lower_char(#[trigger] whole[i]) by {
            if i < prefix.len() {
                assert(whole[i] == prefix[i]);
            }
        }
    }
}

/// `width` lower-case hexadecimal digits of `n`, most significant first.
pub open spec fn spec_hex_number(n: nat, width: nat) -> Seq<char>
    decreases width,
{
    if width == 0 {
        Seq::empty()
    } else {
        spec_hex_number(n / 16, (width - 1) as nat).push(spec_hex_digit((n % 16) as u8))
    }
}

fn hex_digit(n: u8) -> (c: char)
    requires
        n < 16,
    ensures
        c == spec_hex_digit(n),
{
    if n < 10 {
        (48u8 + n) as char
    } else {
        (87u8 + n) as char
    }
}

/// Lower-case hexadecimal text of `bytes`.
pub fn hex_lower(bytes: &[u8]) -> (s: String)
    ensures
        s@ == spec_hex_lower(bytes@),
{
    let mut out = String::new();
    let mut i: usize = 0;
    while i < bytes.len()
        invariant
            0 <= i <= bytes@.len(),
            out@ == spec_hex_lower(bytes@.subrange(0, i as int)),
        decreases bytes@.len() - i,
    {
        let b = bytes[i];
        assert(bytes@.subrange(0, i + 1).drop_last() == bytes@.subrange(0, i as int));
        assert(b >> 4u8 < 16u8) by (bit_vector);
        assert(b & 15u8 < 16u8) by (bit_vector);
        push_char(&mut out, hex_digit(b >> 4));
        push_char(&mut out, hex_digit(b & 15));
        i += 1;
    }
    assert(bytes@.subrange(0, bytes@.len() as int) == bytes@);
    out
}

/// Appends `width` hexadecimal digits of `n` to `out`.
fn push_hex_number(out: &mut String, n: u64, width: u32)
    ensures
        final(out)@ == old(out)@ + spec_hex_number(n as nat, width as nat),
    decreases width,
{
    if width > 0 {
        push_hex_number(out, n / 16, width - 1);
        push_char(out, hex_digit((n % 16) as u8));
        assert(old(out)@ + spec_hex_number(n as nat, width as nat) == old(out)@
            + spec_hex_number((n / 16) as nat, (width - 1) as nat) + seq![
            spec_hex_digit((n % 16) as u8),
        ]);
    } else {
        assert(old(out)@ + spec_hex_number(n as nat, 0) == old(out)@);
    }
}

/// The bytes of an ASCII text.
pub open spec fn spec_ascii_bytes(text: Seq<char>) -> Seq<u8> {
    text.map_values(|c: char| c as u8)
}

/// The bytes of an ASCII literal.
fn ascii_bytes(text: &str) -> (r: Vec<u8>)
    ensures
        r@ == spec_ascii_bytes(text@),
{
    let n = text.unicode_len();
    let mut out: Vec<u8> = Vec::new();
    let mut i: usize = 0;
    while i < n
        invariant
            n == text@.len(),
            0 <= i <= n,
            out@ == spec_ascii_bytes(text@.subrange(0, i as int)),
        decreases n - i,
    {
        let c = text.get_char(i);
        out.push(c as u8);
        assert(spec_ascii_bytes(text@.subrange(0, i + 1)) == spec_ascii_bytes(
            text@.subrange(0, i as int),
        ).push(c as u8));
        i += 1;
    }
    assert(text@.subrange(0, n as int) == text@);
    out
}

/// The checkpoint schema whose canonical state is committed with the
/// version-1 domain; every other supported schema uses version 2.
pub open spec fn spec_is_legacy(version: u32) -> bool {
    version == 1
}

/// The domain separator hashed in front of the canonical state of a schema.
pub open spec fn spec_state_domain(version: u32) -> Seq<u8> {
    if spec_is_legacy(version) {
        spec_ascii_bytes("obelisk.mir2.zone-state.v1\0"@)
    } else {
        spec_ascii_bytes("obelisk.mir2.zone-state.v2\0"@)
    }
}

/// The state root of a canonical zone-state serialization.
pub open spec fn spec_state_root(version: u32, canonical: Seq<u8>) -> Seq<char> {
    spec_hex_lower(spec_sha256(spec_state_domain(version) + canonical))
}

/// The state root committed by `canonical`, the canonical serialization of a
/// zone under the schema of checkpoint `version`.
pub fn state_root(version: u32, canonical: &[u8]) -> (r: String)
    ensures
        r@ == spec_state_root(version, canonical@),
        r@.len() == 64,
        forall|i: int| 0 <= i < r@.len() ==> spec_is_hex_lower_char(#[trigger] r@[i]),
{
    let mut framed = if version == 1 {
        ascii_bytes("obelisk.mir2.zone-state.v1\0")
    } else {
        ascii_bytes("obelisk.mir2.zone-state.v2\0")
    };
    let ghost domain = framed@;
    let mut i: usize = 0;
    while i < canonical.len()
        invariant
            0 <= i <= canonical@.len(),
            framed@ == domain + canonical@.subrange(0, i as int),
        decreases canonical@.len() - i,
    {
        framed.push(canonical[i]);
        assert(domain + canonical@.subrange(0, i + 1) == (domain + canonical@.subrange(
            0,
            i as int,
        )).push(canonical@[i as int]));
        i += 1;
    }
    assert(canonical@.subrange(0, canonical@.len() as int) == canonical@);
    let digest = sha256(framed.as_slice());
    proof {
        lemma_hex_lower_shape(digest@);
    }
    hex_lower(digest.as_slice())
}

/// The digest that binds a ground drop's payload: the hexadecimal SHA-256 of
/// its canonical bytes.
pub open spec fn spec_payload_digest(drop: GroundDropSnapshot) -> Seq<char> {
    spec_hex_lower(spec_sha256(drop.canonical_bytes@))
}

/// The payload digest of a ground drop.
pub fn payload_digest(drop: &GroundDropSnapshot) -> (r: String)
    ensures
        r@ == spec_payload_digest(*drop),
        r@.len() == 64,
        forall|i: int| 0 <= i < r@.len() ==> spec_is_hex_lower_char(#[trigger] r@[i]),
{
    let digest = sha256(drop.canonical_bytes.as_slice());
    proof {
        lemma_hex_lower_shape(digest@);
    }
    hex_lower(digest.as_slice())
}

/// The idempotency key of one claim: the zone's map name, then the drop's
/// object id, generation and claim id as fixed-width hexadecimal, then the
/// payload digest, separated by slashes.
pub open spec fn spec_claim_idempotency_key(
    map: Seq<char>,
    object_id: u32,
    drop_generation: u64,
    claim_id: u64,
    digest: Seq<char>,
) -> Seq<char> {
    map + seq!['/'] + spec_hex_number(object_id as nat, 8) + seq!['/'] + spec_hex_number(
        drop_generation as nat,
        16,
    ) + seq!['/'] + spec_hex_number(claim_id as nat, 16) + seq!['/'] + digest
}

/// The idempotency key of one claim of one drop generation in a zone.
pub fn claim_idempotency_key(
    map: &String,
    object_id: u32,
    drop_generation: u64,
    claim_id: u64,
    digest: &String,
) -> (r: String)
    ensures
        r@ == spec_claim_idempotency_key(map@, object_id, drop_generation, claim_id, digest@),
{
    let mut out = map.clone();
    push_char(&mut out, '/');
    push_hex_number(&mut out, object_id as u64, 8);
    push_char(&mut out, '/');
    push_hex_number(&mut out, drop_generation, 16);
    push_char(&mut out, '/');
    push_hex_number(&mut out, claim_id, 16);
    push_char(&mut out, '/');
    out.append(digest.as_str());
    out
}

/// Whether two snapshots describe the same drop.
pub open spec fn spec_same_snapshot(a: GroundDropSnapshot, b: GroundDropSnapshot) -> bool {
    &&& a.object_id == b.object_id
    &&& a.owner_object_id == b.owner_object_id
    &&& a.canonical_bytes@ == b.canonical_bytes@
}

/// Whether two snapshots describe the same drop.
pub fn same_snapshot(a: &GroundDropSnapshot, b: &GroundDropSnapshot) -> (r: bool)
    ensures
        r == spec_same_snapshot(*a, *b),
{
    if a.object_id != b.object_id || a.owner_object_id != b.owner_object_id
        || a.canonical_bytes.len() != b.canonical_bytes.len() {
        return false;
    }
    let mut i: usize = 0;
    while i < a.canonical_bytes.len()
        invariant
            a.canonical_bytes@.len() == b.canonical_bytes@.len(),
            0 <= i <= a.canonical_bytes@.len(),
            forall|j: int| 0 <= j < i ==> a.canonical_bytes@[j] == b.canonical_bytes@[j],
        decreases a.canonical_bytes@.len() - i,
    {
        if a.canonical_bytes[i] != b.canonical_bytes[i] {
            return false;
        }
        i += 1;
    }
    assert(a.canonical_bytes@ =~= b.canonical_bytes@);
    true
}

/// A copy of a snapshot.
pub fn copy_snapshot(s: &GroundDropSnapshot) -> (r: GroundDropSnapshot)
    ensures
        spec_same_snapshot(r, *s),
{
    GroundDropSnapshot {
        object_id: s.object_id,
        owner_object_id: s.owner_object_id,
        canonical_bytes: s.canonical_bytes.clone(),
    }
}

} // verus!
