//! Restoring a zone from a checkpoint: the consistency checks on the decoded
//! record, the rebuilt runtime, the state-root check and the ground-drop claim
//! authority (validated for current checkpoints, rebuilt for legacy ones).
use vstd::prelude::*;
use crate::types::{Disposition, Point, SessionId};
use crate::monster::{NativeMonster, ZonePlayer};
use crate::zone::{
    OccupiedTile, PendingNativeMonsterHit, PendingNativePlayerHit, PendingNativeProjectile,
    ZoneKey, ZoneObject, ZoneRuntime,
};
use crate::checkpoint::{
    claim_idempotency_key, copy_snapshot, payload_digest, same_snapshot, spec_claim_idempotency_key,
    spec_is_legacy, spec_payload_digest, spec_same_snapshot, spec_state_root, state_root,
    GroundDropClaim, GroundDropClaimTicket, StoredGroundDrop,
};

verus! {

/// How a restore treats a state root that does not match the restored state.
#[derive(Clone, Copy, Debug, PartialEq, Eq, Structural)]
pub enum StateRootPolicy {
    /// The checkpoint's own root must match.
    Strict,
    /// A higher-level commitment already covers the bytes; the zone is
    /// re-anchored to the root of the restored state.
    ReanchorVerifiedWorldCheckpoint,
}

/// Why a checkpoint was refused.
#[derive(Debug)]
pub enum CheckpointError {
    UnsupportedVersion { version: u32 },
    PlayerKeyMismatch { key: SessionId, embedded: SessionId },
    ObjectKeyMismatch { object_key: u32, embedded_id: u32 },
    MultiplePlayersAt { x: i32, y: i32 },
    StateRootMismatch { expected: String, got: String },
    GenerationSpaceExhausted,
    InvalidGroundDrop { object_id: u32 },
    MissingTicket { object_id: u32 },
    InvalidTicket { object_id: u32 },
    CountersBehind,
}

/// One entry of the checkpoint's player map: the key and the player it names.
#[derive(Debug)]
pub struct PlayerEntry {
    pub key: SessionId,
    pub player: ZonePlayer,
}

/// One entry of the checkpoint's object map.
#[derive(Debug)]
pub struct ObjectEntry {
    pub key: u32,
    pub object: ZoneObject,
}

/// A decoded zone checkpoint; its map-shaped collections are listed in key
/// order.
#[derive(Debug)]
pub struct ZoneRuntimeCheckpoint {
    pub version: u32,
    pub state_root: String,
    pub key: ZoneKey,
    pub players: Vec<PlayerEntry>,
    pub objects: Vec<ObjectEntry>,
    pub dead_object_ids: Vec<u32>,
    pub revived_object_ids: Vec<u32>,
    pub removed_object_ids: Vec<u32>,
    pub harvested_object_ids: Vec<u32>,
    pub native_monsters: Vec<NativeMonster>,
    pub pending_native_hits: Vec<PendingNativeMonsterHit>,
    pub pending_native_projectiles: Vec<PendingNativeProjectile>,
    pub pending_native_player_hits: Vec<PendingNativePlayerHit>,
    pub ground_drops: Vec<StoredGroundDrop>,
    pub claimed_ground_drops: Vec<GroundDropClaim>,
    pub next_ground_drop_generation: u64,
    pub next_ground_drop_claim_id: u64,
    pub open_doors: Vec<(u8, u64)>,
    pub next_object_id: u32,
}

/// The checkpoint versions this runtime reads.
pub open spec fn spec_version_supported(version: u32) -> bool {
    version == 1 || version == 2
}

pub open spec fn spec_player_key_ok(e: PlayerEntry) -> bool {
    e.key@ == e.player.session_id@
}

pub open spec fn spec_object_key_ok(e: ObjectEntry) -> bool {
    e.key == e.object.object_id
}

/// Whether player `j` stands on a tile that an earlier player holds.
pub open spec fn spec_tile_taken_before(players: Seq<ZonePlayer>, j: int) -> bool {
    exists|i: int| 0 <= i < j && players[i].position == players[j].position
}

pub open spec fn spec_player_list(entries: Seq<PlayerEntry>) -> Seq<ZonePlayer> {
    entries.map_values(|e: PlayerEntry| e.player)
}

pub open spec fn spec_object_list(entries: Seq<ObjectEntry>) -> Seq<ZoneObject> {
    entries.map_values(|e: ObjectEntry| e.object)
}

/// A monster whose player hostility is re-derived from its authored
/// disposition: only an explicitly hostile monster targets players.
pub open spec fn spec_with_derived_hostility(m: NativeMonster) -> NativeMonster {
    NativeMonster { hostile_to_player: m.disposition == Some(Disposition::Hostile), ..m }
}

/// Whether a checkpoint passes every check that precedes the state root.
pub open spec fn spec_rebuild_ok(c: ZoneRuntimeCheckpoint) -> bool {
    &&& spec_version_supported(c.version)
    &&& forall|i: int| 0 <= i < c.players@.len() ==> spec_player_key_ok(#[trigger] c.players@[i])
    &&& forall|i: int| 0 <= i < c.objects@.len() ==> spec_object_key_ok(#[trigger] c.objects@[i])
    &&& forall|j: int|
        0 <= j < c.players@.len() ==> !spec_tile_taken_before(spec_player_list(c.players@), j)
}

/// The error a failed rebuild reports: the first failing check, and within a
/// check the first entry in key order.
pub open spec fn spec_rebuild_error(c: ZoneRuntimeCheckpoint, e: CheckpointError) -> bool {
    if !spec_version_supported(c.version) {
        e == CheckpointError::UnsupportedVersion { version: c.version }
    } else if exists|i: int| 0 <= i < c.players@.len() && !spec_player_key_ok(c.players@[i]) {
        exists|i: int|
            0 <= i < c.players@.len() && !spec_player_key_ok(c.players@[i]) && (forall|k: int|
                0 <= k < i ==> spec_player_key_ok(#[trigger] c.players@[k])) && (e matches CheckpointError::PlayerKeyMismatch { key, embedded } && key@ == c.players@[i].key@
                && embedded@ == c.players@[i].player.session_id@)
    } else if exists|i: int| 0 <= i < c.objects@.len() && !spec_object_key_ok(c.objects@[i]) {
        exists|i: int|
            0 <= i < c.objects@.len() && !spec_object_key_ok(c.objects@[i]) && (forall|k: int|
                0 <= k < i ==> spec_object_key_ok(#[trigger] c.objects@[k])) && e
                == CheckpointError::ObjectKeyMismatch {
                object_key: c.objects@[i].key,
                embedded_id: c.objects@[i].object.object_id,
            }
    } else {
        exists|j: int|
            0 <= j < c.players@.len() && spec_tile_taken_before(spec_player_list(c.players@), j)
                && (forall|k: int|
                0 <= k < j ==> !spec_tile_taken_before(spec_player_list(c.players@), k)) && e
                == CheckpointError::MultiplePlayersAt {
                x: c.players@[j].player.position.x,
                y: c.players@[j].player.position.y,
            }
    }
}

/// The runtime a checkpoint rebuilds to: every authoritative collection as
/// the checkpoint holds it, monster hostility re-derived, the doors of
/// `open_doors` opened and each player holding its tile.
pub open spec fn spec_rebuilt(c: ZoneRuntimeCheckpoint, rt: ZoneRuntime) -> bool {
    &&& rt.key == c.key
    &&& rt.players@ == spec_player_list(c.players@)
    &&& rt.objects@ == spec_object_list(c.objects@)
    &&& rt.dead_object_ids@ == c.dead_object_ids@
    &&& rt.revived_object_ids@ == c.revived_object_ids@
    &&& rt.removed_object_ids@ == c.removed_object_ids@
    &&& rt.harvested_object_ids@ == c.harvested_object_ids@
    &&& rt.native_monsters@ == c.native_monsters@.map_values(
        |m: NativeMonster| spec_with_derived_hostility(m),
    )
    &&& rt.pending_native_hits@ == c.pending_native_hits@
    &&& rt.pending_native_projectiles@ == c.pending_native_projectiles@
    &&& rt.pending_native_player_hits@ == c.pending_native_player_hits@
    &&& rt.ground_drops@ == c.ground_drops@
    &&& rt.claimed_ground_drops@ == c.claimed_ground_drops@
    &&& rt.next_ground_drop_generation == c.next_ground_drop_generation
    &&& rt.next_ground_drop_claim_id == c.next_ground_drop_claim_id
    &&& rt.open_doors@ == c.open_doors@
    &&& rt.next_object_id == c.next_object_id
    &&& rt.opened_doors@ == c.open_doors@.map_values(|d: (u8, u64)| d.0)
    &&& rt.occupancy@.len() == c.players@.len()
    &&& forall|i: int|
        0 <= i < rt.occupancy@.len() ==> (#[trigger] rt.occupancy@[i]).tile
            == c.players@[i].player.position && rt.occupancy@[i].session_id@
            == c.players@[i].player.session_id@
    &&& rt.entity_combat is None
    &&& rt.hell_world is None
    &&& rt.horned_encounter_world is None
    &&& rt.pet_special_world is None
    &&& rt.native_periodic_player_poisons@.len() == 0
}

/// The first player entry whose key differs from the session it holds.
fn first_player_key_mismatch(entries: &Vec<PlayerEntry>) -> (r: Option<usize>)
    ensures
        match r {
            Some(i) => i < entries@.len() && !spec_player_key_ok(entries@[i as int]) && forall|
                k: int,
            | 0 <= k < i ==> spec_player_key_ok(#[trigger] entries@[k]),
            None => forall|k: int|
                0 <= k < entries@.len() ==> spec_player_key_ok(#[trigger] entries@[k]),
        },
{
    let mut i: usize = 0;
    while i < entries.len()
        invariant
            0 <= i <= entries@.len(),
            forall|k: int| 0 <= k < i ==> spec_player_key_ok(#[trigger] entries@[k]),
        decreases entries@.len() - i,
    {
        if !entries[i].key.same(&entries[i].player.session_id) {
            return Some(i);
        }
        i += 1;
    }
    None
}

/// The first object entry whose key differs from the id it holds.
fn first_object_key_mismatch(entries: &Vec<ObjectEntry>) -> (r: Option<usize>)
    ensures
        match r {
            Some(i) => i < entries@.len() && !spec_object_key_ok(entries@[i as int]) && forall|
                k: int,
            | 0 <= k < i ==> spec_object_key_ok(#[trigger] entries@[k]),
            None => forall|k: int|
                0 <= k < entries@.len() ==> spec_object_key_ok(#[trigger] entries@[k]),
        },
{
    let mut i: usize = 0;
    while i < entries.len()
        invariant
            0 <= i <= entries@.len(),
            forall|k: int| 0 <= k < i ==> spec_object_key_ok(#[trigger] entries@[k]),
        decreases entries@.len() - i,
    {
        if entries[i].key != entries[i].object.object_id {
            return Some(i);
        }
        i += 1;
    }
    None
}

/// The players of the entries, in key order.
fn take_players(entries: Vec<PlayerEntry>) -> (r: Vec<ZonePlayer>)
    ensures
        r@ == spec_player_list(entries@),
{
    let ghost orig = entries@;
    let mut rest = entries;
    let mut out: Vec<ZonePlayer> = Vec::new();
    while rest.len() > 0
        invariant
            out@.len() + rest@.len() == orig.len(),
            rest@ == orig.subrange(out@.len() as int, orig.len() as int),
            out@ == spec_player_list(orig.subrange(0, out@.len() as int)),
        decreases rest@.len(),
    {
        let ghost k = out@.len() as int;
        let e = rest.remove(0);
        out.push(e.player);
        assert(orig.subrange(0, k + 1) == orig.subrange(0, k).push(e));
        assert(rest@ =~= orig.subrange(k + 1, orig.len() as int));
    }
    assert(orig.subrange(0, orig.len() as int) == orig);
    out
}

/// The objects of the entries, in key order.
fn take_objects(entries: Vec<ObjectEntry>) -> (r: Vec<ZoneObject>)
    ensures
        r@ == spec_object_list(entries@),
{
    let ghost orig = entries@;
    let mut rest = entries;
    let mut out: Vec<ZoneObject> = Vec::new();
    while rest.len() > 0
        invariant
            out@.len() + rest@.len() == orig.len(),
            rest@ == orig.subrange(out@.len() as int, orig.len() as int),
            out@ == spec_object_list(orig.subrange(0, out@.len() as int)),
        decreases rest@.len(),
    {
        let ghost k = out@.len() as int;
        let e = rest.remove(0);
        out.push(e.object);
        assert(orig.subrange(0, k + 1) == orig.subrange(0, k).push(e));
        assert(rest@ =~= orig.subrange(k + 1, orig.len() as int));
    }
    assert(orig.subrange(0, orig.len() as int) == orig);
    out
}

/// Re-derives every monster's player hostility from its disposition.
fn derive_hostility(monsters: &mut Vec<NativeMonster>)
    ensures
        final(monsters)@ == old(monsters)@.map_values(
            |m: NativeMonster| spec_with_derived_hostility(m),
        ),
{
    let ghost orig = old(monsters)@;
    let mut i: usize = 0;
    while i < monsters.len()
        invariant
            monsters@.len() == orig.len(),
            0 <= i <= orig.len(),
            forall|k: int|
                0 <= k < i ==> #[trigger] monsters@[k] == spec_with_derived_hostility(orig[k]),
            forall|k: int| i <= k < orig.len() ==> #[trigger] monsters@[k] == orig[k],
        decreases orig.len() - i,
    {
        let hostile = match monsters[i].disposition {
            Some(Disposition::Hostile) => true,
            _ => false,
        };
        monsters[i].hostile_to_player = hostile;
        i += 1;
    }
    assert(monsters@ =~= orig.map_values(|m: NativeMonster| spec_with_derived_hostility(m)));
}

/// The door index of every open door.
fn door_indices(doors: &Vec<(u8, u64)>) -> (r: Vec<u8>)
    ensures
        r@ == doors@.map_values(|d: (u8, u64)| d.0),
{
    let mut out: Vec<u8> = Vec::new();
    let mut i: usize = 0;
    while i < doors.len()
        invariant
            0 <= i <= doors@.len(),
            out@ == doors@.subrange(0, i as int).map_values(|d: (u8, u64)| d.0),
        decreases doors@.len() - i,
    {
        out.push(doors[i].0);
        assert(doors@.subrange(0, i + 1) == doors@.subrange(0, i as int).push(doors@[i as int]));
        i += 1;
    }
    assert(doors@.subrange(0, doors@.len() as int) == doors@);
    out
}

/// Each player's tile, claimed in order; the index of the first player whose
/// tile an earlier player already holds is the error.
fn occupy_tiles(players: &Vec<ZonePlayer>) -> (r: Result<Vec<OccupiedTile>, usize>)
    ensures
        match r {
            Ok(tiles) => {
                &&& forall|j: int|
                    0 <= j < players@.len() ==> !spec_tile_taken_before(players@, j)
                &&& tiles@.len() == players@.len()
                &&& forall|i: int|
                    0 <= i < tiles@.len() ==> (#[trigger] tiles@[i]).tile == players@[i].position
                        && tiles@[i].session_id@ == players@[i].session_id@
            },
            Err(j) => {
                &&& j < players@.len()
                &&& spec_tile_taken_before(players@, j as int)
                &&& forall|k: int| 0 <= k < j ==> !spec_tile_taken_before(players@, k)
            },
        },
{
    let mut tiles: Vec<OccupiedTile> = Vec::new();
    let mut j: usize = 0;
    while j < players.len()
        invariant
            0 <= j <= players@.len(),
            tiles@.len() == j,
            forall|k: int| 0 <= k < j ==> !spec_tile_taken_before(players@, k),
            forall|i: int|
                0 <= i < j ==> (#[trigger] tiles@[i]).tile == players@[i].position
                    && tiles@[i].session_id@ == players@[i].session_id@,
        decreases players@.len() - j,
    {
        let tile = players[j].position;
        let mut i: usize = 0;
        while i < j
            invariant
                0 <= i <= j < players@.len(),
                tiles@.len() == j,
                tile == players@[j as int].position,
                forall|k: int|
                    0 <= k < j ==> (#[trigger] tiles@[k]).tile == players@[k].position,
                forall|k: int| 0 <= k < i ==> players@[k].position != tile,
                forall|k: int| 0 <= k < j ==> !spec_tile_taken_before(players@, k),
            decreases j - i,
        {
            if tiles[i].tile.x == tile.x && tiles[i].tile.y == tile.y {
                assert(players@[i as int].position == players@[j as int].position);
                assert(spec_tile_taken_before(players@, j as int));
                return Err(j);
            }
            i += 1;
        }
        tiles.push(OccupiedTile { tile, session_id: players[j].session_id.duplicate() });
        j += 1;
    }
    Ok(tiles)
}

/// Checks a decoded checkpoint and rebuilds the zone it describes; the state
/// root and the claim authority are checked afterwards.
pub fn rebuild_checkpoint(c: ZoneRuntimeCheckpoint) -> (r: Result<ZoneRuntime, CheckpointError>)
    ensures
        r is Ok <==> spec_rebuild_ok(c),
        match r {
            Ok(rt) => spec_rebuilt(c, rt),
            Err(e) => spec_rebuild_error(c, e),
        },
{
    let ghost c0 = c;
    if c.version != 1 && c.version != 2 {
        return Err(CheckpointError::UnsupportedVersion { version: c.version });
    }
    if let Some(i) = first_player_key_mismatch(&c.players) {
        let key = c.players[i].key.duplicate();
        let embedded = c.players[i].player.session_id.duplicate();
        return Err(CheckpointError::PlayerKeyMismatch { key, embedded });
    }
    if let Some(i) = first_object_key_mismatch(&c.objects) {
        return Err(
            CheckpointError::ObjectKeyMismatch {
                object_key: c.objects[i].key,
                embedded_id: c.objects[i].object.object_id,
            },
        );
    }
    let ZoneRuntimeCheckpoint {
        version: _,
        state_root: _,
        key,
        players,
        objects,
        dead_object_ids,
        revived_object_ids,
        removed_object_ids,
        harvested_object_ids,
        native_monsters,
        pending_native_hits,
        pending_native_projectiles,
        pending_native_player_hits,
        ground_drops,
        claimed_ground_drops,
        next_ground_drop_generation,
        next_ground_drop_claim_id,
        open_doors,
        next_object_id,
    } = c;
    let mut runtime = ZoneRuntime::new(key);
    runtime.players = take_players(players);
    runtime.objects = take_objects(objects);
    runtime.dead_object_ids = dead_object_ids;
    runtime.revived_object_ids = revived_object_ids;
    runtime.removed_object_ids = removed_object_ids;
    runtime.harvested_object_ids = harvested_object_ids;
    let mut monsters = native_monsters;
    derive_hostility(&mut monsters);
    runtime.native_monsters = monsters;
    runtime.pending_native_hits = pending_native_hits;
    runtime.pending_native_projectiles = pending_native_projectiles;
    runtime.pending_native_player_hits = pending_native_player_hits;
    runtime.ground_drops = ground_drops;
    runtime.claimed_ground_drops = claimed_ground_drops;
    runtime.next_ground_drop_generation = next_ground_drop_generation;
    runtime.next_ground_drop_claim_id = next_ground_drop_claim_id;
    runtime.opened_doors = door_indices(&open_doors);
    runtime.open_doors = open_doors;
    runtime.next_object_id = next_object_id;
    match occupy_tiles(&runtime.players) {
        Ok(tiles) => {
            runtime.occupancy = tiles;
            Ok(runtime)
        },
        Err(j) => {
            let p: Point = runtime.players[j].position;
            Err(CheckpointError::MultiplePlayersAt { x: p.x, y: p.y })
        },
    }
}

/// Whether a stored drop carries a valid authority: it is stored under its
/// own object id, has a generation, and its digest binds its payload.
pub open spec fn spec_drop_ok(d: StoredGroundDrop) -> bool {
    &&& d.drop.object_id == d.object_id
    &&& d.drop_generation != 0
    &&& d.payload_digest@ == spec_payload_digest(d.drop)
}

/// Whether a claim ticket grants exactly this claim in the zone named `map`.
pub open spec fn spec_ticket_ok(map: Seq<char>, c: GroundDropClaim, t: GroundDropClaimTicket) -> bool {
    &&& t.object_id == c.object_id
    &&& t.session_id@ == c.session_id@
    &&& t.owner_object_id == c.drop.owner_object_id
    &&& spec_same_snapshot(t.drop, c.drop)
    &&& t.payload_digest@ == spec_payload_digest(c.drop)
    &&& t.idempotency_key@ == spec_claim_idempotency_key(
        map,
        t.object_id,
        t.drop_generation,
        t.claim_id,
        t.payload_digest@,
    )
}

/// Whether a claim holds a ticket that grants it.
pub open spec fn spec_claim_ok(map: Seq<char>, c: GroundDropClaim) -> bool {
    match c.ticket {
        Some(t) => spec_ticket_ok(map, c, t),
        None => false,
    }
}

/// The largest generation among stored drops (0 when there are none).
pub open spec fn spec_max_drop_generation(drops: Seq<StoredGroundDrop>) -> int
    decreases drops.len(),
{
    if drops.len() == 0 {
        0
    } else {
        let m = spec_max_drop_generation(drops.drop_last());
        let g = drops.last().drop_generation as int;
        if g > m {
            g
        } else {
            m
        }
    }
}

/// The largest generation among claim tickets (0 when there are none).
pub open spec fn spec_max_ticket_generation(claims: Seq<GroundDropClaim>) -> int
    decreases claims.len(),
{
    if claims.len() == 0 {
        0
    } else {
        let m = spec_max_ticket_generation(claims.drop_last());
        let g = match claims.last().ticket {
            Some(t) => t.drop_generation as int,
            None => 0,
        };
        if g > m {
            g
        } else {
            m
        }
    }
}

/// The largest claim id among claim tickets (0 when there are none).
pub open spec fn spec_max_claim_id(claims: Seq<GroundDropClaim>) -> int
    decreases claims.len(),
{
    if claims.len() == 0 {
        0
    } else {
        let m = spec_max_claim_id(claims.drop_last());
        let g = match claims.last().ticket {
            Some(t) => t.claim_id as int,
            None => 0,
        };
        if g > m {
            g
        } else {
            m
        }
    }
}

/// Whether the allocation counters lie beyond every persisted value.
pub open spec fn spec_counters_ahead(
    drops: Seq<StoredGroundDrop>,
    claims: Seq<GroundDropClaim>,
    next_generation: u64,
    next_claim_id: u64,
) -> bool {
    &&& next_generation > spec_max_drop_generation(drops)
    &&& next_generation > spec_max_ticket_generation(claims)
    &&& next_claim_id > spec_max_claim_id(claims)
}

/// Whether a ground-drop claim authority is valid.
pub open spec fn spec_authority_valid(
    map: Seq<char>,
    drops: Seq<StoredGroundDrop>,
    claims: Seq<GroundDropClaim>,
    next_generation: u64,
    next_claim_id: u64,
) -> bool {
    &&& forall|i: int| 0 <= i < drops.len() ==> spec_drop_ok(#[trigger] drops[i])
    &&& forall|j: int| 0 <= j < claims.len() ==> spec_claim_ok(map, #[trigger] claims[j])
    &&& spec_counters_ahead(drops, claims, next_generation, next_claim_id)
}

/// The error an invalid authority reports: the first invalid drop, else the
/// first claim without a granting ticket, else the counters.
pub open spec fn spec_authority_error(
    map: Seq<char>,
    drops: Seq<StoredGroundDrop>,
    claims: Seq<GroundDropClaim>,
    e: CheckpointError,
) -> bool {
    if exists|i: int| 0 <= i < drops.len() && !spec_drop_ok(drops[i]) {
        exists|i: int|
            0 <= i < drops.len() && !spec_drop_ok(drops[i]) && (forall|k: int|
                0 <= k < i ==> spec_drop_ok(#[trigger] drops[k])) && e
                == CheckpointError::InvalidGroundDrop { object_id: drops[i].object_id }
    } else if exists|j: int| 0 <= j < claims.len() && !spec_claim_ok(map, claims[j]) {
        exists|j: int|
            0 <= j < claims.len() && !spec_claim_ok(map, claims[j]) && (forall|k: int|
                0 <= k < j ==> spec_claim_ok(map, #[trigger] claims[k])) && (if claims[j].ticket
                is None {
                e == CheckpointError::MissingTicket { object_id: claims[j].object_id }
            } else {
                e == CheckpointError::InvalidTicket { object_id: claims[j].object_id }
            })
    } else {
        e == CheckpointError::CountersBehind
    }
}

fn drop_authority_ok(d: &StoredGroundDrop) -> (r: bool)
    ensures
        r == spec_drop_ok(*d),
{
    if d.drop.object_id != d.object_id || d.drop_generation == 0 {
        return false;
    }
    let digest = payload_digest(&d.drop);
    d.payload_digest == digest
}

fn ticket_grants(map: &String, c: &GroundDropClaim, t: &GroundDropClaimTicket) -> (r: bool)
    ensures
        r == spec_ticket_ok(map@, *c, *t),
{
    if t.object_id != c.object_id || !t.session_id.same(&c.session_id) || t.owner_object_id
        != c.drop.owner_object_id || !same_snapshot(&t.drop, &c.drop) {
        return false;
    }
    let digest = payload_digest(&c.drop);
    if !(t.payload_digest == digest) {
        return false;
    }
    let key = claim_idempotency_key(
        map,
        t.object_id,
        t.drop_generation,
        t.claim_id,
        &t.payload_digest,
    );
    t.idempotency_key == key
}

/// Checks the ground-drop claim authority a current checkpoint carries.
pub fn validate_ground_drop_claim_authority(rt: &ZoneRuntime) -> (r: Result<(), CheckpointError>)
    ensures
        r is Ok <==> spec_authority_valid(
            rt.key.map_file_name@,
            rt.ground_drops@,
            rt.claimed_ground_drops@,
            rt.next_ground_drop_generation,
            rt.next_ground_drop_claim_id,
        ),
        match r {
            Ok(_) => true,
            Err(e) => spec_authority_error(
                rt.key.map_file_name@,
                rt.ground_drops@,
                rt.claimed_ground_drops@,
                e,
            ),
        },
{
    let ghost map = rt.key.map_file_name@;
    let ghost drops = rt.ground_drops@;
    let ghost claims = rt.claimed_ground_drops@;
    let mut max_generation: u64 = 0;
    let mut max_claim_id: u64 = 0;
    let mut i: usize = 0;
    while i < rt.ground_drops.len()
        invariant
            drops == rt.ground_drops@,
            0 <= i <= drops.len(),
            forall|k: int| 0 <= k < i ==> spec_drop_ok(#[trigger] drops[k]),
            max_generation == spec_max_drop_generation(drops.subrange(0, i as int)),
        decreases drops.len() - i,
    {
        if !drop_authority_ok(&rt.ground_drops[i]) {
            return Err(CheckpointError::InvalidGroundDrop { object_id: rt.ground_drops[i].object_id });
        }
        assert(drops.subrange(0, i + 1).drop_last() == drops.subrange(0, i as int));
        if rt.ground_drops[i].drop_generation > max_generation {
            max_generation = rt.ground_drops[i].drop_generation;
        }
        i += 1;
    }
    assert(drops.subrange(0, drops.len() as int) == drops);
    let ghost max_drop = max_generation;
    let mut j: usize = 0;
    while j < rt.claimed_ground_drops.len()
        invariant
            claims == rt.claimed_ground_drops@,
            drops == rt.ground_drops@,
            map == rt.key.map_file_name@,
            forall|k: int| 0 <= k < drops.len() ==> spec_drop_ok(#[trigger] drops[k]),
            0 <= j <= claims.len(),
            forall|k: int| 0 <= k < j ==> spec_claim_ok(map, #[trigger] claims[k]),
            max_drop == spec_max_drop_generation(drops),
            max_generation == (if max_drop > spec_max_ticket_generation(claims.subrange(0, j as int)) {
                max_drop as int
            } else {
                spec_max_ticket_generation(claims.subrange(0, j as int))
            }),
            max_claim_id == spec_max_claim_id(claims.subrange(0, j as int)),
        decreases claims.len() - j,
    {
        let c = &rt.claimed_ground_drops[j];
        match &c.ticket {
            None => {
                assert(!spec_claim_ok(map, claims[j as int]));
                return Err(CheckpointError::MissingTicket { object_id: c.object_id });
            },
            Some(t) => {
                if !ticket_grants(&rt.key.map_file_name, c, t) {
                    assert(!spec_claim_ok(map, claims[j as int]));
                    return Err(CheckpointError::InvalidTicket { object_id: c.object_id });
                }
                assert(claims.subrange(0, j + 1).drop_last() == claims.subrange(0, j as int));
                if t.drop_generation > max_generation {
                    max_generation = t.drop_generation;
                }
                if t.claim_id > max_claim_id {
                    max_claim_id = t.claim_id;
                }
            },
        }
        j += 1;
    }
    assert(claims.subrange(0, claims.len() as int) == claims);
    if rt.next_ground_drop_generation <= max_generation || rt.next_ground_drop_claim_id
        <= max_claim_id {
        return Err(CheckpointError::CountersBehind);
    }
    Ok(())
}

/// A stored drop whose authority was rebuilt with generation `generation`.
pub open spec fn spec_drop_hydrated(a: StoredGroundDrop, b: StoredGroundDrop, generation: int) -> bool {
    &&& b.object_id == a.object_id
    &&& b.drop == a.drop
    &&& b.owner_expires_at_ms == a.owner_expires_at_ms
    &&& b.drop_generation == generation
    &&& b.payload_digest@ == spec_payload_digest(a.drop)
}

/// A claim granted a fresh ticket for `generation` and `claim_id` in the zone
/// named `map`.
pub open spec fn spec_claim_hydrated(
    map: Seq<char>,
    a: GroundDropClaim,
    b: GroundDropClaim,
    generation: int,
    claim_id: int,
) -> bool {
    &&& b.object_id == a.object_id
    &&& b.session_id == a.session_id
    &&& b.drop == a.drop
    &&& b.ticket matches Some(t) && {
        &&& t.claim_id == claim_id
        &&& t.drop_generation == generation
        &&& t.object_id == a.object_id
        &&& t.session_id@ == a.session_id@
        &&& t.owner_object_id == a.drop.owner_object_id
        &&& spec_same_snapshot(t.drop, a.drop)
        &&& t.payload_digest@ == spec_payload_digest(a.drop)
        &&& t.idempotency_key@ == spec_claim_idempotency_key(
            map,
            a.object_id,
            t.drop_generation,
            t.claim_id,
            t.payload_digest@,
        )
    }
}

/// The legacy authority rebuilt from the payload alone: drops take
/// generations 1, 2, .. in order, then each claim takes the next generation
/// and claim ids 1, 2, .. in order; the counters follow the last values, and
/// nothing else changes.
pub open spec fn spec_hydrated(a: ZoneRuntime, b: ZoneRuntime) -> bool {
    let n = a.ground_drops@.len();
    let m = a.claimed_ground_drops@.len();
    &&& b == ZoneRuntime {
        ground_drops: b.ground_drops,
        claimed_ground_drops: b.claimed_ground_drops,
        next_ground_drop_generation: b.next_ground_drop_generation,
        next_ground_drop_claim_id: b.next_ground_drop_claim_id,
        ..a
    }
    &&& b.ground_drops@.len() == n
    &&& forall|i: int|
        0 <= i < n ==> spec_drop_hydrated(a.ground_drops@[i], #[trigger] b.ground_drops@[i], i + 1)
    &&& b.claimed_ground_drops@.len() == m
    &&& forall|j: int|
        0 <= j < m ==> spec_claim_hydrated(
            a.key.map_file_name@,
            a.claimed_ground_drops@[j],
            #[trigger] b.claimed_ground_drops@[j],
            n + j + 1,
            j + 1,
        )
    &&& b.next_ground_drop_generation == n + m + 1
    &&& b.next_ground_drop_claim_id == m + 1
}

/// Rebuilds the ground-drop claim authority of a legacy checkpoint, whose
/// root commits to none of it, from the drops and claims alone.
pub fn hydrate_legacy_ground_drop_claim_authority(rt: &mut ZoneRuntime) -> (r: Result<(), CheckpointError>)
    ensures
        r is Err <==> old(rt).ground_drops@.len() + old(rt).claimed_ground_drops@.len() >= u64::MAX,
        match r {
            Ok(_) => spec_hydrated(*old(rt), *final(rt)),
            Err(e) => e == CheckpointError::GenerationSpaceExhausted && *final(rt) == *old(rt),
        },
{
    let n = rt.ground_drops.len();
    let m = rt.claimed_ground_drops.len();
    if n as u128 + m as u128 >= u64::MAX as u128 {
        return Err(CheckpointError::GenerationSpaceExhausted);
    }
    let ghost a = *rt;
    let mut drops: Vec<StoredGroundDrop> = Vec::new();
    std::mem::swap(&mut drops, &mut rt.ground_drops);
    let mut i: usize = 0;
    while i < n
        invariant
            n == a.ground_drops@.len(),
            drops@.len() == n,
            n + a.claimed_ground_drops@.len() < u64::MAX,
            0 <= i <= n,
            forall|k: int|
                0 <= k < i ==> spec_drop_hydrated(a.ground_drops@[k], #[trigger] drops@[k], k + 1),
            forall|k: int| i <= k < n ==> #[trigger] drops@[k] == a.ground_drops@[k],
        decreases n - i,
    {
        let digest = payload_digest(&drops[i].drop);
        drops[i].drop_generation = i as u64 + 1;
        drops[i].payload_digest = digest;
        i += 1;
    }
    let mut claims: Vec<GroundDropClaim> = Vec::new();
    std::mem::swap(&mut claims, &mut rt.claimed_ground_drops);
    let mut j: usize = 0;
    while j < m
        invariant
            m == a.claimed_ground_drops@.len(),
            claims@.len() == m,
            n + m < u64::MAX,
            rt.key == a.key,
            0 <= j <= m,
            forall|k: int|
                0 <= k < j ==> spec_claim_hydrated(
                    a.key.map_file_name@,
                    a.claimed_ground_drops@[k],
                    #[trigger] claims@[k],
                    n + k + 1,
                    k + 1,
                ),
            forall|k: int| j <= k < m ==> #[trigger] claims@[k] == a.claimed_ground_drops@[k],
        decreases m - j,
    {
        let generation: u64 = n as u64 + j as u64 + 1;
        let claim_id: u64 = j as u64 + 1;
        let digest = payload_digest(&claims[j].drop);
        let key = claim_idempotency_key(
            &rt.key.map_file_name,
            claims[j].object_id,
            generation,
            claim_id,
            &digest,
        );
        let ticket = GroundDropClaimTicket {
            claim_id,
            object_id: claims[j].object_id,
            drop_generation: generation,
            payload_digest: digest,
            idempotency_key: key,
            session_id: claims[j].session_id.duplicate(),
            owner_object_id: claims[j].drop.owner_object_id,
            drop: copy_snapshot(&claims[j].drop),
        };
        claims[j].ticket = Some(ticket);
        j += 1;
    }
    rt.ground_drops = drops;
    rt.claimed_ground_drops = claims;
    rt.next_ground_drop_generation = n as u64 + m as u64 + 1;
    rt.next_ground_drop_claim_id = m as u64 + 1;
    Ok(())
}

/// Whether the restored state root is acceptable under `policy`.
pub open spec fn spec_root_accepted(
    c: ZoneRuntimeCheckpoint,
    canonical: Seq<u8>,
    policy: StateRootPolicy,
) -> bool {
    policy == StateRootPolicy::ReanchorVerifiedWorldCheckpoint || spec_state_root(
        c.version,
        canonical,
    ) == c.state_root@
}

/// What restoring checkpoint `c` gives, where `canonical` is the canonical
/// serialization of the state that `c` rebuilds to under the schema of its
/// version: the checks run in order (record, state root, claim authority),
/// and the first that fails decides the error.
pub open spec fn spec_restore_outcome(
    c: ZoneRuntimeCheckpoint,
    canonical: Seq<u8>,
    policy: StateRootPolicy,
    r: Result<ZoneRuntime, CheckpointError>,
) -> bool {
    if !spec_rebuild_ok(c) {
        r matches Err(e) && spec_rebuild_error(c, e)
    } else if !spec_root_accepted(c, canonical, policy) {
        r matches Err(CheckpointError::StateRootMismatch { expected, got }) && expected@
            == c.state_root@ && got@ == spec_state_root(c.version, canonical)
    } else if spec_is_legacy(c.version) {
        if c.ground_drops@.len() + c.claimed_ground_drops@.len() >= u64::MAX {
            r matches Err(CheckpointError::GenerationSpaceExhausted)
        } else {
            r matches Ok(rt) && exists|mid: ZoneRuntime| spec_rebuilt(c, mid) && spec_hydrated(mid, rt)
        }
    } else if spec_authority_valid(
        c.key.map_file_name@,
        c.ground_drops@,
        c.claimed_ground_drops@,
        c.next_ground_drop_generation,
        c.next_ground_drop_claim_id,
    ) {
        r matches Ok(rt) && spec_rebuilt(c, rt)
    } else {
        r matches Err(e) && spec_authority_error(
            c.key.map_file_name@,
            c.ground_drops@,
            c.claimed_ground_drops@,
            e,
        )
    }
}

/// Restores a zone from a decoded checkpoint under a state-root policy.
/// `canonical_state` is the canonical serialization of the state the
/// checkpoint rebuilds to.
pub fn restore_checkpoint_with_policy(
    c: ZoneRuntimeCheckpoint,
    canonical_state: &[u8],
    policy: StateRootPolicy,
) -> (r: Result<ZoneRuntime, CheckpointError>)
    ensures
        spec_restore_outcome(c, canonical_state@, policy, r),
{
    let ghost c0 = c;
    let version = c.version;
    let expected = c.state_root.clone();
    let mut runtime = match rebuild_checkpoint(c) {
        Ok(rt) => rt,
        Err(e) => {
            return Err(e);
        },
    };
    let restored_root = state_root(version, canonical_state);
    let strict = match policy {
        StateRootPolicy::Strict => true,
        StateRootPolicy::ReanchorVerifiedWorldCheckpoint => false,
    };
    if strict && !(restored_root == expected) {
        return Err(CheckpointError::StateRootMismatch { expected, got: restored_root });
    }
    if version == 1 {
        let ghost mid = runtime;
        match hydrate_legacy_ground_drop_claim_authority(&mut runtime) {
            Ok(_) => {},
            Err(e) => {
                return Err(e);
            },
        }
        assert(spec_rebuilt(c0, mid) && spec_hydrated(mid, runtime));
        Ok(runtime)
    } else {
        match validate_ground_drop_claim_authority(&runtime) {
            Ok(_) => Ok(runtime),
            Err(e) => Err(e),
        }
    }
}

impl ZoneRuntime {
    /// Restores a zone from a decoded checkpoint whose own state root must
    /// match the restored state.
    pub fn restore_checkpoint(c: ZoneRuntimeCheckpoint, canonical_state: &[u8]) -> (r: Result<
        ZoneRuntime,
        CheckpointError,
    >)
        ensures
            spec_restore_outcome(c, canonical_state@, StateRootPolicy::Strict, r),
    {
        restore_checkpoint_with_policy(c, canonical_state, StateRootPolicy::Strict)
    }

    /// Restores a zone whose checkpoint bytes a verified higher-level
    /// commitment already covers, re-anchoring it to the root of the restored
    /// state (which depends on collision data a newer game module may change).
    pub fn restore_verified_world_checkpoint(
        c: ZoneRuntimeCheckpoint,
        canonical_state: &[u8],
    ) -> (r: Result<ZoneRuntime, CheckpointError>)
        ensures
            spec_restore_outcome(
                c,
                canonical_state@,
                StateRootPolicy::ReanchorVerifiedWorldCheckpoint,
                r,
            ),
    {
        restore_checkpoint_with_policy(
            c,
            canonical_state,
            StateRootPolicy::ReanchorVerifiedWorldCheckpoint,
        )
    }
}

proof fn lemma_max_drop_generation_at_most(drops: Seq<StoredGroundDrop>, bound: int)
    requires
        0 <= bound,
        forall|i: int| 0 <= i < drops.len() ==> (#[trigger] drops[i]).drop_generation <= bound,
    ensures
        spec_max_drop_generation(drops) <= bound,
    decreases drops.len(),
{
    if drops.len() > 0 {
        lemma_max_drop_generation_at_most(drops.drop_last(), bound);
    }
}

proof fn lemma_max_ticket_values_at_most(
    claims: Seq<GroundDropClaim>,
    generation_bound: int,
    id_bound: int,
)
    requires
        0 <= generation_bound,
        0 <= id_bound,
        forall|j: int|
            0 <= j < claims.len() ==> match (#[trigger] claims[j]).ticket {
                Some(t) => t.drop_generation <= generation_bound && t.claim_id <= id_bound,
                None => true,
            },
    ensures
        spec_max_ticket_generation(claims) <= generation_bound,
        spec_max_claim_id(claims) <= id_bound,
    decreases claims.len(),
{
    if claims.len() > 0 {
        lemma_max_ticket_values_at_most(claims.drop_last(), generation_bound, id_bound);
    }
}

/// Law: the authority rebuilt for a legacy checkpoint is one that the check
/// applied to current checkpoints accepts, whenever every stored drop's
/// snapshot names the object it is stored under.
pub proof fn lemma_hydrated_authority_validates(before: ZoneRuntime, after: ZoneRuntime)
    requires
        spec_hydrated(before, after),
        forall|i: int|
            0 <= i < before.ground_drops@.len() ==> (#[trigger] before.ground_drops@[i]).drop.object_id
                == before.ground_drops@[i].object_id,
    ensures
        spec_authority_valid(
            after.key.map_file_name@,
            after.ground_drops@,
            after.claimed_ground_drops@,
            after.next_ground_drop_generation,
            after.next_ground_drop_claim_id,
        ),
{
    let n = before.ground_drops@.len() as int;
    let m = before.claimed_ground_drops@.len() as int;
    let drops = after.ground_drops@;
    let claims = after.claimed_ground_drops@;
    assert forall|i: int| 0 <= i < drops.len() implies spec_drop_ok(#[trigger] drops[i]) by {
        assert(spec_drop_hydrated(before.ground_drops@[i], drops[i], i + 1));
    }
    assert forall|j: int| 0 <= j < claims.len() implies spec_claim_ok(
        after.key.map_file_name@,
        #[trigger] claims[j],
    ) by {
        assert(spec_claim_hydrated(
            before.key.map_file_name@,
            before.claimed_ground_drops@[j],
            claims[j],
            n + j + 1,
            j + 1,
        ));
    }
    assert forall|i: int| 0 <= i < drops.len() implies (#[trigger] drops[i]).drop_generation
        <= n by {
        assert(spec_drop_hydrated(before.ground_drops@[i], drops[i], i + 1));
    }
    lemma_max_drop_generation_at_most(drops, n);
    assert forall|j: int| 0 <= j < claims.len() implies match (#[trigger] claims[j]).ticket {
        Some(t) => t.drop_generation <= n + m && t.claim_id <= m,
        None => true,
    } by {
        assert(spec_claim_hydrated(
            before.key.map_file_name@,
            before.claimed_ground_drops@[j],
            claims[j],
            n + j + 1,
            j + 1,
        ));
    }
    lemma_max_ticket_values_at_most(claims, n + m, m);
}

/// Law: a strict restore succeeds exactly when the re-anchoring restore of
/// the same checkpoint succeeds and the checkpoint's root is the root of the
/// restored state.
pub proof fn lemma_strict_restore_is_reanchor_with_matching_root(
    c: ZoneRuntimeCheckpoint,
    canonical: Seq<u8>,
    strict: Result<ZoneRuntime, CheckpointError>,
    reanchored: Result<ZoneRuntime, CheckpointError>,
)
    requires
        spec_restore_outcome(c, canonical, StateRootPolicy::Strict, strict),
        spec_restore_outcome(
            c,
            canonical,
            StateRootPolicy::ReanchorVerifiedWorldCheckpoint,
            reanchored,
        ),
    ensures
        strict is Ok <==> (reanchored is Ok && spec_state_root(c.version, canonical)
            == c.state_root@),
{
}

/// Whether checkpoint `c` records zone `z`: its entries are keyed by the
/// sessions and ids they hold, and every authoritative field is `z`'s.
pub open spec fn spec_captures(c: ZoneRuntimeCheckpoint, z: ZoneRuntime) -> bool {
    &&& c.key == z.key
    &&& forall|i: int| 0 <= i < c.players@.len() ==> spec_player_key_ok(#[trigger] c.players@[i])
    &&& forall|i: int| 0 <= i < c.objects@.len() ==> spec_object_key_ok(#[trigger] c.objects@[i])
    &&& spec_player_list(c.players@) == z.players@
    &&& spec_object_list(c.objects@) == z.objects@
    &&& c.dead_object_ids@ == z.dead_object_ids@
    &&& c.revived_object_ids@ == z.revived_object_ids@
    &&& c.removed_object_ids@ == z.removed_object_ids@
    &&& c.harvested_object_ids@ == z.harvested_object_ids@
    &&& c.native_monsters@ == z.native_monsters@
    &&& c.pending_native_hits@ == z.pending_native_hits@
    &&& c.pending_native_projectiles@ == z.pending_native_projectiles@
    &&& c.pending_native_player_hits@ == z.pending_native_player_hits@
    &&& c.ground_drops@ == z.ground_drops@
    &&& c.claimed_ground_drops@ == z.claimed_ground_drops@
    &&& c.next_ground_drop_generation == z.next_ground_drop_generation
    &&& c.next_ground_drop_claim_id == z.next_ground_drop_claim_id
    &&& c.open_doors@ == z.open_doors@
    &&& c.next_object_id == z.next_object_id
}

/// Whether two zones agree on every authoritative field.
pub open spec fn spec_same_authoritative(a: ZoneRuntime, b: ZoneRuntime) -> bool {
    &&& a.key == b.key
    &&& a.players@ == b.players@
    &&& a.objects@ == b.objects@
    &&& a.dead_object_ids@ == b.dead_object_ids@
    &&& a.revived_object_ids@ == b.revived_object_ids@
    &&& a.removed_object_ids@ == b.removed_object_ids@
    &&& a.harvested_object_ids@ == b.harvested_object_ids@
    &&& a.native_monsters@ == b.native_monsters@
    &&& a.pending_native_hits@ == b.pending_native_hits@
    &&& a.pending_native_projectiles@ == b.pending_native_projectiles@
    &&& a.pending_native_player_hits@ == b.pending_native_player_hits@
    &&& a.ground_drops@ == b.ground_drops@
    &&& a.claimed_ground_drops@ == b.claimed_ground_drops@
    &&& a.next_ground_drop_generation == b.next_ground_drop_generation
    &&& a.next_ground_drop_claim_id == b.next_ground_drop_claim_id
    &&& a.open_doors@ == b.open_doors@
    &&& a.next_object_id == b.next_object_id
}

/// Law: a current checkpoint of a consistent zone restores that zone. When
/// checkpoint `c` records zone `z` (players on distinct tiles, each
/// monster's player hostility its authored disposition, a valid ground-drop
/// claim authority) under the root of `canonical`, the strict restore
/// succeeds and gives back every authoritative field of `z`.
pub proof fn lemma_checkpoint_restores_its_zone(
    c: ZoneRuntimeCheckpoint,
    z: ZoneRuntime,
    canonical: Seq<u8>,
    r: Result<ZoneRuntime, CheckpointError>,
)
    requires
        spec_captures(c, z),
        c.version == 2,
        c.state_root@ == spec_state_root(2, canonical),
        forall|j: int| 0 <= j < z.players@.len() ==> !spec_tile_taken_before(z.players@, j),
        forall|k: int|
            0 <= k < z.native_monsters@.len() ==> (#[trigger] z.native_monsters@[k]).hostile_to_player
                == (z.native_monsters@[k].disposition == Some(Disposition::Hostile)),
        spec_authority_valid(
            z.key.map_file_name@,
            z.ground_drops@,
            z.claimed_ground_drops@,
            z.next_ground_drop_generation,
            z.next_ground_drop_claim_id,
        ),
        spec_restore_outcome(c, canonical, StateRootPolicy::Strict, r),
    ensures
        r matches Ok(rt) && spec_same_authoritative(rt, z),
{
    assert(spec_rebuild_ok(c));
    assert(spec_root_accepted(c, canonical, StateRootPolicy::Strict));
    let rt = r->Ok_0;
    assert(rt.native_monsters@ =~= z.native_monsters@) by {
        assert forall|k: int| 0 <= k < z.native_monsters@.len() implies rt.native_monsters@[k]
            == z.native_monsters@[k] by {
            let m = z.native_monsters@[k];
            assert(spec_with_derived_hostility(m) == m);
        }
    }
}

} // verus!
