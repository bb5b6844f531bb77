//! Guild friendship: guild names compare ASCII-case-insensitively.
use vstd::prelude::*;
use vstd::utf8::encode_utf8;

verus! {

/// ASCII lower-casing of one byte.
pub open spec fn spec_ascii_lower(b: u8) -> u8 {
    if 65 <= b <= 90 {
        (b + 32) as u8
    } else {
        b
    }
}

/// Byte strings equal up to ASCII case.
pub open spec fn spec_ascii_ci_eq(a: Seq<u8>, b: Seq<u8>) -> bool {
    a.len() == b.len() && forall|i: int| 0 <= i < a.len() ==> spec_ascii_lower(#[trigger] a[i])
        == spec_ascii_lower(b[i])
}

/// Whether a monster friendly to guild `friendly` spares a member of `guild`.
pub open spec fn spec_guild_friend(friendly: Option<String>, guild: Option<String>) -> bool {
    match (friendly, guild) {
        (Some(f), Some(g)) => spec_ascii_ci_eq(encode_utf8(f@), encode_utf8(g@)),
        _ => false,
    }
}

fn ascii_lower(b: u8) -> (r: u8)
    ensures
        r == spec_ascii_lower(b),
{
    if 65 <= b && b <= 90 {
        b + 32
    } else {
        b
    }
}

/// Two names equal up to ASCII case (as `str::eq_ignore_ascii_case`).
pub fn names_equal_ignoring_case(a: &String, b: &String) -> (r: bool)
    ensures
        r == spec_ascii_ci_eq(encode_utf8(a@), encode_utf8(b@)),
{
    let x = a.as_str().as_bytes();
    let y = b.as_str().as_bytes();
    if x.len() != y.len() {
        return false;
    }
    let mut i: usize = 0;
    while i < x.len()
        invariant
            0 <= i <= x.len(),
            x.len() == y.len(),
            x@ == encode_utf8(a@),
            y@ == encode_utf8(b@),
            forall|j: int| 0 <= j < i ==> spec_ascii_lower(#[trigger] x@[j]) == spec_ascii_lower(y@[j]),
        decreases x.len() - i,
    {
        if ascii_lower(x[i]) != ascii_lower(y[i]) {
            return false;
        }
        i += 1;
    }
    true
}

/// Whether a monster friendly to `friendly` spares a member of `guild`.
pub fn guild_friend(friendly: &Option<String>, guild: &Option<String>) -> (r: bool)
    ensures
        r == spec_guild_friend(*friendly, *guild),
{
    match (friendly, guild) {
        (Some(f), Some(g)) => names_equal_ignoring_case(f, g),
        _ => false,
    }
}

} // verus!
