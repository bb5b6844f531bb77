//! The zone runtime: every authoritative collection a zone owns.
use vstd::prelude::*;
use crate::types::{Point, SessionId};
use crate::monster::{NativeMonster, ZonePlayer};
use crate::entity::EntityCombatState;
use crate::checkpoint::{GroundDropClaim, StoredGroundDrop};

verus! {

/// Which zone a runtime simulates.
#[derive(Debug)]
pub struct ZoneKey {
    pub map_file_name: String,
}

/// A retained display object (monster body, spell, effect).
#[derive(Debug)]
pub struct ZoneObject {
    pub object_id: u32,
    pub position: Point,
    pub packet_frame: Vec<u8>,
    pub hidden: bool,
    pub expires_at_ms: Option<u64>,
}

/// A delayed monster attack on a player.
#[derive(Debug)]
pub struct PendingNativePlayerHit {
    pub ready_at_ms: u64,
    pub attacker_object_id: u32,
    pub attacker_ai: u8,
    pub target_session_id: SessionId,
    pub target_object_id: u32,
    pub damage: i32,
    pub magic: bool,
}

/// A delayed attack on a native monster.
#[derive(Debug)]
pub struct PendingNativeMonsterHit {
    pub object_id: u32,
    pub attacker_object_id: u32,
    pub due_ms: u64,
    pub damage: i32,
}

/// A projectile in flight between two objects.
#[derive(Debug)]
pub struct PendingNativeProjectile {
    pub source_id: u32,
    pub destination_id: u32,
    pub due_ms: u64,
    pub damage: i32,
}

/// A counted periodic poison lease on a player.
#[derive(Debug)]
pub struct NativePeriodicPlayerPoison {
    pub owner: u32,
    pub source_removed: bool,
    pub session: SessionId,
    pub target: u32,
    pub mask: u16,
    pub value: i32,
    pub count: u64,
    pub ticks: u64,
    pub tick_speed_ms: u64,
    pub next_tick: u64,
}

/// Hell-encounter bookkeeping shared by the whole zone.
#[derive(Debug)]
pub struct HellWorldState {
    pub stage_updates: Vec<u32>,
    pub stage_update_lives: Vec<(u32, u64)>,
}

/// A ground spell cast by a Horned encounter monster.
#[derive(Debug)]
pub struct HornedMapSpell {
    pub object_id: u32,
    pub source: u32,
    pub source_removed: bool,
    pub expires: u64,
}

/// Horned-encounter ground spells.
#[derive(Debug)]
pub struct HornedEncounterWorld {
    pub spells: Vec<HornedMapSpell>,
}

/// A vampire-pet heal owed to its owner.
#[derive(Debug)]
pub struct PetVampirePool {
    pub owner: SessionId,
    pub owner_id: u32,
    pub amount: u16,
    pub due: u64,
}

/// A spitting-toad hit in flight.
#[derive(Debug)]
pub struct PetToadHit {
    pub source: u32,
    pub target: u32,
    pub owner: SessionId,
    pub owner_id: u32,
    pub damage: i32,
    pub due: u64,
}

/// Pet special effects shared by the zone.
#[derive(Debug)]
pub struct PetSpecialWorld {
    pub vampire: Vec<PetVampirePool>,
    pub toad_hits: Vec<PetToadHit>,
}

/// A tile held by a player.
#[derive(Debug)]
pub struct OccupiedTile {
    pub tile: Point,
    pub session_id: SessionId,
}

/// One zone's authoritative state. `native_monsters` is kept in ascending
/// object-id order, the order in which every sweep visits monsters.
#[derive(Debug)]
pub struct ZoneRuntime {
    pub key: ZoneKey,
    pub players: Vec<ZonePlayer>,
    pub objects: Vec<ZoneObject>,
    pub dead_object_ids: Vec<u32>,
    pub revived_object_ids: Vec<u32>,
    pub removed_object_ids: Vec<u32>,
    pub harvested_object_ids: Vec<u32>,
    pub native_monsters: Vec<NativeMonster>,
    pub pending_native_hits: Vec<PendingNativeMonsterHit>,
    pub pending_native_projectiles: Vec<PendingNativeProjectile>,
    pub pending_native_player_hits: Vec<PendingNativePlayerHit>,
    pub ground_drops: Vec<StoredGroundDrop>,
    pub claimed_ground_drops: Vec<GroundDropClaim>,
    pub next_ground_drop_generation: u64,
    pub next_ground_drop_claim_id: u64,
    pub open_doors: Vec<(u8, u64)>,
    pub next_object_id: u32,
    pub entity_combat: Option<EntityCombatState>,
    pub hell_world: Option<HellWorldState>,
    pub horned_encounter_world: Option<HornedEncounterWorld>,
    pub pet_special_world: Option<PetSpecialWorld>,
    pub native_periodic_player_poisons: Vec<NativePeriodicPlayerPoison>,
    pub opened_doors: Vec<u8>,
    pub occupancy: Vec<OccupiedTile>,
}

/// The first index of the monster with object id `id`.
#[verifier::opaque]
pub open spec fn spec_monster_index(monsters: Seq<NativeMonster>, id: u32) -> Option<int> {
    if exists|i: int| 0 <= i < monsters.len() && monsters[i].object_id == id {
        Some(
            choose|i: int|
                0 <= i < monsters.len() && monsters[i].object_id == id && forall|j: int|
                    0 <= j < i ==> monsters[j].object_id != id,
        )
    } else {
        None
    }
}

/// Replacing a monster by one with the same object id leaves the index of
/// every object id as it was.
pub proof fn lemma_monster_index_update(ms: Seq<NativeMonster>, i: int, m: NativeMonster, id: u32)
    requires
        0 <= i < ms.len(),
        m.object_id == ms[i].object_id,
    ensures
        spec_monster_index(ms.update(i, m), id) == spec_monster_index(ms, id),
{
    let ns = ms.update(i, m);
    assert forall|k: int| 0 <= k < ms.len() implies #[trigger] ns[k].object_id == ms[k].object_id by {
        if k != i {
            assert(ns[k] == ms[k]);
        }
    }
    if exists|k: int| 0 <= k < ms.len() && #[trigger] ms[k].object_id == id {
        let w = choose|k: int| 0 <= k < ms.len() && #[trigger] ms[k].object_id == id;
        let c = lemma_first_index(ms, id, w);
        assert forall|j: int| 0 <= j < c implies #[trigger] ns[j].object_id != id by {
            assert(ms[j].object_id != id);
        }
        lemma_monster_index_is(ms, id, c);
        lemma_monster_index_is(ns, id, c);
    } else {
        assert forall|k: int| 0 <= k < ns.len() implies #[trigger] ns[k].object_id != id by {
            assert(ns[k].object_id == ms[k].object_id);
        }
        reveal(spec_monster_index);
    }
}

/// The index of an object id names a monster with that id.
pub proof fn lemma_monster_index_in_range(ms: Seq<NativeMonster>, id: u32)
    ensures
        spec_monster_index(ms, id) matches Some(i) ==> 0 <= i < ms.len() && ms[i].object_id == id,
{
    if exists|k: int| 0 <= k < ms.len() && #[trigger] ms[k].object_id == id {
        let w = choose|k: int| 0 <= k < ms.len() && #[trigger] ms[k].object_id == id;
        let c = lemma_first_index(ms, id, w);
        lemma_monster_index_is(ms, id, c);
    } else {
        lemma_monster_index_none(ms, id);
    }
}

/// Without a monster of object id `id` there is no index for it.
proof fn lemma_monster_index_none(ms: Seq<NativeMonster>, id: u32)
    requires
        forall|k: int| 0 <= k < ms.len() ==> #[trigger] ms[k].object_id != id,
    ensures
        spec_monster_index(ms, id) is None,
{
    reveal(spec_monster_index);
}

/// A monster with object id `id` at `w` means there is a first one.
proof fn lemma_first_index(ms: Seq<NativeMonster>, id: u32, w: int) -> (c: int)
    requires
        0 <= w < ms.len(),
        ms[w].object_id == id,
    ensures
        0 <= c <= w,
        ms[c].object_id == id,
        forall|j: int| 0 <= j < c ==> #[trigger] ms[j].object_id != id,
    decreases w,
{
    if exists|j: int| 0 <= j < w && #[trigger] ms[j].object_id == id {
        let j = choose|j: int| 0 <= j < w && #[trigger] ms[j].object_id == id;
        lemma_first_index(ms, id, j)
    } else {
        w
    }
}

/// The first monster with object id `id` is at `c`.
proof fn lemma_monster_index_is(ms: Seq<NativeMonster>, id: u32, c: int)
    requires
        0 <= c < ms.len(),
        ms[c].object_id == id,
        forall|j: int| 0 <= j < c ==> #[trigger] ms[j].object_id != id,
    ensures
        spec_monster_index(ms, id) == Some(c),
{
    reveal(spec_monster_index);
    let d = choose|d: int| 0 <= d < ms.len() && ms[d].object_id == id && forall|j: int| 0 <= j < d ==> ms[j].object_id != id;
    if d < c {
        assert(ms[d].object_id != id);
    } else if c < d {
        assert(ms[c].object_id != id);
    }
}

/// The first index of the player with session `session`.
#[verifier::opaque]
pub open spec fn spec_player_index(players: Seq<ZonePlayer>, session: Seq<char>) -> Option<int> {
    if exists|i: int| 0 <= i < players.len() && players[i].session_id@ == session {
        Some(
            choose|i: int|
                0 <= i < players.len() && players[i].session_id@ == session && forall|j: int|
                    0 <= j < i ==> players[j].session_id@ != session,
        )
    } else {
        None
    }
}

/// The first index of the player whose object id is `id`.
#[verifier::opaque]
pub open spec fn spec_player_index_by_object(players: Seq<ZonePlayer>, id: u32) -> Option<int> {
    if exists|i: int| 0 <= i < players.len() && players[i].object_id == id {
        Some(
            choose|i: int|
                0 <= i < players.len() && players[i].object_id == id && forall|j: int|
                    0 <= j < i ==> players[j].object_id != id,
        )
    } else {
        None
    }
}

/// Whether a retained object with id `id` exists.
pub open spec fn spec_has_object(objects: Seq<ZoneObject>, id: u32) -> bool {
    exists|i: int| 0 <= i < objects.len() && objects[i].object_id == id
}

/// The index of the monster with object id `id`, if any.
pub fn find_monster(monsters: &Vec<NativeMonster>, id: u32) -> (r: Option<usize>)
    ensures
        match r {
            Some(i) => i < monsters@.len() && spec_monster_index(monsters@, id) == Some(i as int),
            None => spec_monster_index(monsters@, id) is None,
        },
{
    reveal(spec_monster_index);
    let mut i: usize = 0;
    while i < monsters.len()
        invariant
            0 <= i <= monsters.len(),
            forall|j: int| 0 <= j < i ==> monsters@[j].object_id != id,
        decreases monsters.len() - i,
    {
        if monsters[i].object_id == id {
            let ghost k = i as int;
            assert(0 <= k < monsters@.len() && monsters@[k].object_id == id);
            assert(spec_monster_index(monsters@, id) == Some(k)) by {
                reveal(spec_monster_index);
                let c = choose|c: int|
                    0 <= c < monsters@.len() && monsters@[c].object_id == id && forall|j: int|
                        0 <= j < c ==> monsters@[j].object_id != id;
                if c < k {
                } else if c > k {
                    assert(monsters@[k].object_id != id);
                }
            }
            return Some(i);
        }
        i += 1;
    }
    None
}

/// The index of the player with session `session`, if any.
pub fn find_player(players: &Vec<ZonePlayer>, session: &SessionId) -> (r: Option<usize>)
    ensures
        match r {
            Some(i) => i < players@.len() && spec_player_index(players@, session@) == Some(i as int),
            None => spec_player_index(players@, session@) is None,
        },
{
    reveal(spec_player_index);
    let mut i: usize = 0;
    while i < players.len()
        invariant
            0 <= i <= players.len(),
            forall|j: int| 0 <= j < i ==> players@[j].session_id@ != session@,
        decreases players.len() - i,
    {
        if players[i].session_id.same(session) {
            let ghost k = i as int;
            assert(spec_player_index(players@, session@) == Some(k)) by {
                reveal(spec_player_index);
                let c = choose|c: int|
                    0 <= c < players@.len() && players@[c].session_id@ == session@ && forall|
                        j: int,
                    | 0 <= j < c ==> players@[j].session_id@ != session@;
                if c > k {
                    assert(players@[k].session_id@ != session@);
                }
            }
            return Some(i);
        }
        i += 1;
    }
    None
}

/// The index of the player whose object id is `id`, if any.
pub fn find_player_by_object(players: &Vec<ZonePlayer>, id: u32) -> (r: Option<usize>)
    ensures
        match r {
            Some(i) => i < players@.len() && spec_player_index_by_object(players@, id) == Some(i as int),
            None => spec_player_index_by_object(players@, id) is None,
        },
{
    reveal(spec_player_index_by_object);
    let mut i: usize = 0;
    while i < players.len()
        invariant
            0 <= i <= players.len(),
            forall|j: int| 0 <= j < i ==> players@[j].object_id != id,
        decreases players.len() - i,
    {
        if players[i].object_id == id {
            let ghost k = i as int;
            assert(spec_player_index_by_object(players@, id) == Some(k)) by {
                reveal(spec_player_index_by_object);
                let c = choose|c: int|
                    0 <= c < players@.len() && players@[c].object_id == id && forall|j: int|
                        0 <= j < c ==> players@[j].object_id != id;
                if c > k {
                    assert(players@[k].object_id != id);
                }
            }
            return Some(i);
        }
        i += 1;
    }
    None
}

/// Whether a retained object with id `id` exists.
pub fn has_object(objects: &Vec<ZoneObject>, id: u32) -> (r: bool)
    ensures
        r == spec_has_object(objects@, id),
{
    let mut i: usize = 0;
    while i < objects.len()
        invariant
            0 <= i <= objects.len(),
            forall|j: int| 0 <= j < i ==> objects@[j].object_id != id,
        decreases objects.len() - i,
    {
        if objects[i].object_id == id {
            return true;
        }
        i += 1;
    }
    false
}

impl ZoneRuntime {
    /// An empty zone for `key`: no players, objects, monsters, drops or
    /// pending actions, and allocation counters at their first value.
    pub fn new(key: ZoneKey) -> (r: ZoneRuntime)
        ensures
            r.key == key,
            r.players@.len() == 0,
            r.objects@.len() == 0,
            r.dead_object_ids@.len() == 0,
            r.revived_object_ids@.len() == 0,
            r.removed_object_ids@.len() == 0,
            r.harvested_object_ids@.len() == 0,
            r.native_monsters@.len() == 0,
            r.pending_native_hits@.len() == 0,
            r.pending_native_projectiles@.len() == 0,
            r.pending_native_player_hits@.len() == 0,
            r.ground_drops@.len() == 0,
            r.claimed_ground_drops@.len() == 0,
            r.next_ground_drop_generation == 1,
            r.next_ground_drop_claim_id == 1,
            r.open_doors@.len() == 0,
            r.next_object_id == 1,
            r.entity_combat is None,
            r.hell_world is None,
            r.horned_encounter_world is None,
            r.pet_special_world is None,
            r.native_periodic_player_poisons@.len() == 0,
            r.opened_doors@.len() == 0,
            r.occupancy@.len() == 0,
    {
        ZoneRuntime {
            key,
            players: Vec::new(),
            objects: Vec::new(),
            dead_object_ids: Vec::new(),
            revived_object_ids: Vec::new(),
            removed_object_ids: Vec::new(),
            harvested_object_ids: Vec::new(),
            native_monsters: Vec::new(),
            pending_native_hits: Vec::new(),
            pending_native_projectiles: Vec::new(),
            pending_native_player_hits: Vec::new(),
            ground_drops: Vec::new(),
            claimed_ground_drops: Vec::new(),
            next_ground_drop_generation: 1,
            next_ground_drop_claim_id: 1,
            open_doors: Vec::new(),
            next_object_id: 1,
            entity_combat: None,
            hell_world: None,
            horned_encounter_world: None,
            pet_special_world: None,
            native_periodic_player_poisons: Vec::new(),
            opened_doors: Vec::new(),
            occupancy: Vec::new(),
        }
    }
}

} // verus!
