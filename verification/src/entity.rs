//! The shared entity-combat ledger: wild monsters attacking player lives and
//! player-owned monsters, the delayed hits they launch, the poison, slow and
//! control leases those hits leave behind, and the target relations that
//! bind a source to one life of its victim.
use vstd::prelude::*;
use crate::types::{
    EntityRef, EntityRefView, Point, SessionId, opt_ref_view, spec_tile_distance, tile_distance,
};
use crate::monster::{NativeMonster, ZonePlayer, buff_stat_total, spec_buff_stat_total};
use crate::zone::{
    ZoneObject, ZoneRuntime, find_monster, find_player, has_object, spec_has_object,
    spec_monster_index, spec_player_index,
};
use crate::guild::{guild_friend, spec_guild_friend};

verus! {

/// Why a target is being checked.
#[derive(Clone, Copy, Debug, PartialEq, Eq, Structural)]
pub enum EntityTargetPurpose {
    /// Acquisition: the source must be alive and must see the target.
    Search,
    /// A visible effect landing: a dead source may still finish it.
    VisibleImpact,
    /// Any landing effect: hidden targets are hit too.
    Impact,
}

/// The defence a hit is rolled against.
#[derive(Clone, Copy, Debug, PartialEq, Eq, Structural)]
pub enum EntityDefence {
    ACAgility,
    AC,
    MACAgility,
    MAC,
    Agility,
    NoDefence,
}

/// A candidate target with its position.
#[derive(Debug)]
pub struct NativeEntityTarget {
    pub reference: EntityRef,
    pub object_id: u32,
    pub position: Point,
}

/// A launched hit that lands at `due_ms`.
#[derive(Debug)]
pub struct EntityHit {
    pub source: EntityRef,
    pub target: EntityRef,
    pub damage: i32,
    pub defence: EntityDefence,
    pub due_ms: u64,
}

/// A counted damage-over-time lease (green poison, bit 1, or bleeding, bit 128).
#[derive(Debug)]
pub struct EntityGreenPoison {
    pub poison: u16,
    pub source: EntityRef,
    pub target: EntityRef,
    pub value: i32,
    pub duration: u64,
    pub count: u64,
    pub tick_speed_ms: u64,
    pub next_tick_ms: u64,
    pub source_removed: bool,
}

/// A counted slow lease, remembering the speeds it restores.
#[derive(Debug)]
pub struct EntitySlowPoison {
    pub source: EntityRef,
    pub target: EntityRef,
    pub duration: u64,
    pub count: u64,
    pub tick_speed_ms: u64,
    pub next_tick_ms: u64,
    pub source_removed: bool,
    pub base_move_speed_ms: u64,
    pub base_attack_speed_ms: u64,
}

/// The spell node that owns a control lease instead of its caster.
#[derive(Clone, Copy, Debug, PartialEq, Eq, Structural)]
pub enum EntityPoisonOrigin {
    TreeQueenRoot { id: u32, start: u64, expires: u64 },
}

/// A counted control lease (red 2, frozen 8, paralysis 32, dazed 1024).
#[derive(Debug)]
pub struct EntityStatusPoison {
    pub source: EntityRef,
    pub target: EntityRef,
    pub poison: u16,
    pub duration: u64,
    pub count: u64,
    pub tick_speed_ms: u64,
    pub next_tick_ms: u64,
    pub source_removed: bool,
    pub origin: Option<EntityPoisonOrigin>,
}

/// A source monster's current target life.
#[derive(Debug)]
pub struct EntityTargetRelation {
    pub source_id: u32,
    pub source: EntityRef,
    pub target: EntityRef,
}

/// Everything the entity-combat ledger holds. `targets` is kept in
/// ascending source-id order with one relation per source.
#[derive(Debug)]
pub struct EntityCombatState {
    pub hits: Vec<EntityHit>,
    pub poisons: Vec<EntityGreenPoison>,
    pub slows: Vec<EntitySlowPoison>,
    pub controls: Vec<EntityStatusPoison>,
    pub targets: Vec<EntityTargetRelation>,
}

impl EntityCombatState {
    /// An empty ledger.
    pub fn new() -> (r: EntityCombatState)
        ensures
            r.hits@.len() == 0,
            r.poisons@.len() == 0,
            r.slows@.len() == 0,
            r.controls@.len() == 0,
            r.targets@.len() == 0,
    {
        EntityCombatState {
            hits: Vec::new(),
            poisons: Vec::new(),
            slows: Vec::new(),
            controls: Vec::new(),
            targets: Vec::new(),
        }
    }
}

/// The default poison bit of a serialized damage lease (green).
pub fn entity_green_bit() -> (r: u16)
    ensures
        r == 1,
{
    1
}

/// Whether a serialized damage lease carries the default green bit.
pub fn entity_is_green_bit(bit: &u16) -> (r: bool)
    ensures
        r == (*bit == 1),
{
    *bit == 1
}

/// A dazed monster (entity status bit 1024) cannot launch attacks.
pub fn native_entity_attack_blocked(monster: &NativeMonster, _now: u64) -> (r: bool)
    ensures
        r == (monster.entity_poison & 1024 != 0),
{
    monster.entity_poison & 1024 != 0
}

// ---------------------------------------------------------------------------
// References and their liveness
// ---------------------------------------------------------------------------

/// The monster at object id `id`, if one exists.
pub open spec fn spec_monster(rt: ZoneRuntime, id: u32) -> Option<NativeMonster> {
    match spec_monster_index(rt.native_monsters@, id) {
        Some(i) => Some(rt.native_monsters@[i]),
        None => None,
    }
}

/// The player of session `s`, if one exists.
pub open spec fn spec_player(rt: ZoneRuntime, s: Seq<char>) -> Option<ZonePlayer> {
    match spec_player_index(rt.players@, s) {
        Some(i) => Some(rt.players@[i]),
        None => None,
    }
}

/// The reference to the current life of monster `id`.
pub open spec fn spec_monster_ref(rt: ZoneRuntime, id: u32) -> Option<EntityRefView> {
    match spec_monster(rt, id) {
        Some(m) => Some(EntityRefView::Monster { object_id: id, incarnation: m.incarnation }),
        None => None,
    }
}

/// The reference to the current life of the player of session `s`.
pub open spec fn spec_player_ref(rt: ZoneRuntime, s: Seq<char>) -> Option<EntityRefView> {
    match spec_player(rt, s) {
        Some(p) => Some(
            EntityRefView::Player {
                session: s,
                object_id: p.object_id,
                life_generation: p.life_generation,
            },
        ),
        None => None,
    }
}

/// Whether the life a reference names is still current (and, unless
/// `allow_dead`, alive). A monster life also needs its retained object.
pub open spec fn spec_ref_exists(rt: ZoneRuntime, r: EntityRefView, allow_dead: bool) -> bool {
    match r {
        EntityRefView::Player { session, object_id, life_generation } => match spec_player(
            rt,
            session,
        ) {
            Some(p) => p.object_id == object_id && p.life_generation == life_generation && (
            allow_dead || (!p.dead && p.hp > 0)),
            None => false,
        },
        EntityRefView::Monster { object_id, incarnation } => match spec_monster(rt, object_id) {
            Some(m) => m.incarnation == incarnation && spec_has_object(rt.objects@, object_id) && (
            allow_dead || (!m.dead && m.hp > 0)),
            None => false,
        },
    }
}

impl ZoneRuntime {
    /// The reference to the current life of monster `object_id`.
    pub fn native_entity_monster_ref(&self, object_id: u32) -> (r: Option<EntityRef>)
        ensures
            opt_ref_view(r) == spec_monster_ref(*self, object_id),
    {
        match find_monster(&self.native_monsters, object_id) {
            Some(i) => Some(
                EntityRef::Monster { object_id, incarnation: self.native_monsters[i].incarnation },
            ),
            None => None,
        }
    }

    /// The reference to the current life of the player of `session_id`.
    pub fn native_entity_player_ref(&self, session_id: &SessionId) -> (r: Option<EntityRef>)
        ensures
            opt_ref_view(r) == spec_player_ref(*self, session_id@),
    {
        match find_player(&self.players, session_id) {
            Some(i) => Some(
                EntityRef::Player {
                    session_id: session_id.duplicate(),
                    object_id: self.players[i].object_id,
                    life_generation: self.players[i].life_generation,
                },
            ),
            None => None,
        }
    }

    /// Whether `reference` still names a current (and, unless `allow_dead`,
    /// living) life.
    pub fn entity_ref_exists(&self, reference: &EntityRef, allow_dead: bool) -> (r: bool)
        ensures
            r == spec_ref_exists(*self, reference@, allow_dead),
    {
        match reference {
            EntityRef::Player { session_id, object_id, life_generation } => {
                match find_player(&self.players, session_id) {
                    Some(i) => {
                        let p = &self.players[i];
                        p.object_id == *object_id && p.life_generation == *life_generation && (
                        allow_dead || (!p.dead && p.hp > 0))
                    },
                    None => false,
                }
            },
            EntityRef::Monster { object_id, incarnation } => {
                match find_monster(&self.native_monsters, *object_id) {
                    Some(i) => {
                        let m = &self.native_monsters[i];
                        m.incarnation == *incarnation && has_object(&self.objects, *object_id) && (
                        allow_dead || (!m.dead && m.hp > 0))
                    },
                    None => false,
                }
            },
        }
    }
}

// ---------------------------------------------------------------------------
// Hostility
// ---------------------------------------------------------------------------

/// Whether the retained object of `id` is a hidden monster body.
pub open spec fn spec_object_hidden(objects: Seq<ZoneObject>, id: u32) -> bool {
    exists|i: int|
        0 <= i < objects.len() && objects[i].object_id == id && objects[i].hidden && forall|j: int|
            0 <= j < i ==> objects[j].object_id != id
}

/// Whether the retained object of `id` is a hidden monster body.
pub fn object_hidden(objects: &Vec<ZoneObject>, id: u32) -> (r: bool)
    ensures
        r == spec_object_hidden(objects@, id),
{
    let mut i: usize = 0;
    while i < objects.len()
        invariant
            0 <= i <= objects.len(),
            forall|j: int| 0 <= j < i ==> objects@[j].object_id != id,
        decreases objects.len() - i,
    {
        if objects[i].object_id == id {
            let r = objects[i].hidden;
            assert(r == spec_object_hidden(objects@, id)) by {
                if !r {
                    if spec_object_hidden(objects@, id) {
                        let k = choose|k: int|
                            0 <= k < objects@.len() && objects@[k].object_id == id
                                && objects@[k].hidden && forall|j: int|
                                0 <= j < k ==> objects@[j].object_id != id;
                        if k > i as int {
                            assert(objects@[i as int].object_id != id);
                        }
                    }
                } else {
                    assert(0 <= i < objects@.len() && objects@[i as int].object_id == id);
                }
            }
            return r;
        }
        i += 1;
    }
    false
}

/// A source with cool eyes sees a hidden target of no higher level.
pub open spec fn spec_cool_eye_sees(source: NativeMonster, target_level: u16) -> bool {
    source.level >= target_level && source.cool_eye_sees
}

/// Whether `source` sees through a hidden target of `target_level`.
pub fn entity_cool_eye_sees(source: &NativeMonster, target_level: u16) -> (r: bool)
    ensures
        r == spec_cool_eye_sees(*source, target_level),
{
    source.level >= target_level && source.cool_eye_sees
}

/// Whether guards (AI 6/113) and the ranged guard (AI 58) may hit a pet
/// of AI `pet_ai` whose owner has these PK points and attack mode.
pub open spec fn spec_guard_allows_pet(source_ai: u8, pet_ai: u8, owner: ZonePlayer) -> bool {
    if source_ai == 6 || source_ai == 113 {
        !(pet_ai == 1 || pet_ai == 2 || pet_ai == 3) && owner.pk_points >= 200
    } else if source_ai == 58 {
        !(pet_ai == 1 || pet_ai == 2 || pet_ai == 3) && owner.attack_mode != 0
    } else {
        true
    }
}

/// Whether the wild monster `sm` may act against player `p`: never against
/// GMs, players in a safe zone or its friendly guild; not while searching
/// during its hallucination; a hidden player only with cool eyes unless the
/// effect is already landing; guards only against PK players.
pub open spec fn spec_can_attack_player(
    sm: NativeMonster,
    p: ZonePlayer,
    purpose: EntityTargetPurpose,
    now: u64,
) -> bool {
    &&& !p.is_gm
    &&& !p.gm_never_die
    &&& !p.in_safe_zone
    &&& !spec_guild_friend(sm.friendly_guild, p.guild_name)
    &&& !(purpose == EntityTargetPurpose::Search && now < sm.hallucination_until_ms)
    &&& !(purpose != EntityTargetPurpose::Impact && p.hidden && !spec_cool_eye_sees(sm, p.level))
    &&& !((sm.ai == 6 || sm.ai == 113) && p.pk_points < 200)
}

/// Whether the wild monster `sm` may act against the pet `m` of `owner`
/// (whose retained body is hidden when `hidden`): the pet must belong to
/// that owner's current life, be attackable and not of the monster's
/// friendly guild; a hidden pet needs cool eyes unless the effect is
/// already landing; guards spare the pets of non-PK owners.
pub open spec fn spec_can_attack_pet(
    sm: NativeMonster,
    m: NativeMonster,
    owner: ZonePlayer,
    hidden: bool,
    purpose: EntityTargetPurpose,
) -> bool {
    &&& owner.object_id == m.owner_player_object_id
    &&& !spec_guild_friend(sm.friendly_guild, owner.guild_name)
    &&& m.attackable
    &&& !(purpose != EntityTargetPurpose::Impact && hidden && !spec_cool_eye_sees(sm, m.level))
    &&& spec_guard_allows_pet(sm.ai, m.ai, owner)
}

/// Whether the wild monster `source` may act against `target`: never
/// itself, never as a pet or passive NPC, and otherwise by the player or
/// pet rule above.
pub open spec fn spec_can_attack(
    rt: ZoneRuntime,
    source: EntityRefView,
    target: EntityRefView,
    purpose: EntityTargetPurpose,
    now: u64,
) -> bool {
    &&& source.object_id() != target.object_id()
    &&& spec_ref_exists(rt, source, purpose != EntityTargetPurpose::Search)
    &&& spec_ref_exists(rt, target, false)
    &&& source is Monster
    &&& spec_monster(rt, source.object_id()) is Some
    &&& {
        let sm = spec_monster(rt, source.object_id()).unwrap();
        &&& sm.owner_session_id is None
        &&& sm.hostile_to_player
        &&& match target {
            EntityRefView::Player { session, .. } => spec_player(rt, session) is Some
                && spec_can_attack_player(sm, spec_player(rt, session).unwrap(), purpose, now),
            EntityRefView::Monster { object_id, .. } => spec_monster(rt, object_id) is Some && {
                let m = spec_monster(rt, object_id).unwrap();
                &&& m.owner_session_id is Some
                &&& spec_player(rt, m.owner_session_id.unwrap()@) is Some
                &&& spec_can_attack_pet(
                    sm,
                    m,
                    spec_player(rt, m.owner_session_id.unwrap()@).unwrap(),
                    spec_object_hidden(rt.objects@, object_id),
                    purpose,
                )
            },
        }
    }
}

/// The player rule of [`spec_can_attack_player`].
pub fn can_attack_player(
    sm: &NativeMonster,
    p: &ZonePlayer,
    purpose: EntityTargetPurpose,
    now: u64,
) -> (r: bool)
    ensures
        r == spec_can_attack_player(*sm, *p, purpose, now),
{
    if p.is_gm || p.gm_never_die || p.in_safe_zone {
        return false;
    }
    if guild_friend(&sm.friendly_guild, &p.guild_name) {
        return false;
    }
    if purpose == EntityTargetPurpose::Search && now < sm.hallucination_until_ms {
        return false;
    }
    if purpose != EntityTargetPurpose::Impact && p.hidden && !entity_cool_eye_sees(sm, p.level) {
        return false;
    }
    !((sm.ai == 6 || sm.ai == 113) && p.pk_points < 200)
}

/// The pet rule of [`spec_can_attack_pet`].
pub fn can_attack_pet(
    sm: &NativeMonster,
    m: &NativeMonster,
    owner: &ZonePlayer,
    hidden: bool,
    purpose: EntityTargetPurpose,
) -> (r: bool)
    ensures
        r == spec_can_attack_pet(*sm, *m, *owner, hidden, purpose),
{
    if owner.object_id != m.owner_player_object_id {
        return false;
    }
    if guild_friend(&sm.friendly_guild, &owner.guild_name) {
        return false;
    }
    if !m.attackable {
        return false;
    }
    if purpose != EntityTargetPurpose::Impact {
        if hidden {
            if !entity_cool_eye_sees(sm, m.level) {
                return false;
            }
        }
    }
    if sm.ai == 6 || sm.ai == 113 {
        return !(m.ai == 1 || m.ai == 2 || m.ai == 3) && owner.pk_points >= 200;
    }
    if sm.ai == 58 {
        return !(m.ai == 1 || m.ai == 2 || m.ai == 3) && owner.attack_mode != 0;
    }
    true
}

impl ZoneRuntime {
    /// Whether the wild monster named by `source` may act against `target`
    /// for `purpose` at `now`.
    pub fn native_entity_can_attack(
        &self,
        source: &EntityRef,
        target: &EntityRef,
        purpose: EntityTargetPurpose,
        now: u64,
    ) -> (r: bool)
        ensures
            r == spec_can_attack(*self, source@, target@, purpose, now),
    {
        if source.object_id() == target.object_id() || !self.entity_ref_exists(
            source,
            purpose != EntityTargetPurpose::Search,
        ) || !self.entity_ref_exists(target, false) {
            return false;
        }
        let source_id = match source {
            EntityRef::Monster { object_id, .. } => *object_id,
            EntityRef::Player { .. } => {
                return false;
            },
        };
        let si = match find_monster(&self.native_monsters, source_id) {
            Some(i) => i,
            None => {
                return false;
            },
        };
        let sm = &self.native_monsters[si];
        if sm.owner_session_id.is_some() || !sm.hostile_to_player {
            return false;
        }
        match target {
            EntityRef::Player { session_id, .. } => {
                match find_player(&self.players, session_id) {
                    Some(pi) => can_attack_player(sm, &self.players[pi], purpose, now),
                    None => false,
                }
            },
            EntityRef::Monster { object_id, .. } => {
                let mi = match find_monster(&self.native_monsters, *object_id) {
                    Some(i) => i,
                    None => {
                        return false;
                    },
                };
                let m = &self.native_monsters[mi];
                let owner_session = match &m.owner_session_id {
                    Some(s) => s,
                    None => {
                        return false;
                    },
                };
                match find_player(&self.players, owner_session) {
                    Some(oi) => can_attack_pet(
                        sm,
                        m,
                        &self.players[oi],
                        object_hidden(&self.objects, *object_id),
                        purpose,
                    ),
                    None => false,
                }
            },
        }
    }
}

} // verus!
verus! {

// ---------------------------------------------------------------------------
// Candidate lists
// ---------------------------------------------------------------------------

/// The ordering of candidates: nearest to the centre first, then by row,
/// column and object id.
pub open spec fn spec_target_le(a: NativeEntityTarget, b: NativeEntityTarget, centre: Point) -> bool {
    let da = spec_tile_distance(a.position, centre);
    let db = spec_tile_distance(b.position, centre);
    da < db || (da == db && (a.position.y < b.position.y || (a.position.y == b.position.y && (
    a.position.x < b.position.x || (a.position.x == b.position.x && a.object_id
        <= b.object_id)))))
}

/// Whether candidate `a` comes strictly before `b` in the order of
/// [`spec_target_le`].
pub open spec fn spec_target_lt(a: NativeEntityTarget, b: NativeEntityTarget, centre: Point) -> bool {
    spec_target_le(a, b, centre) && a.object_id != b.object_id
}

/// A candidate list in strictly increasing order, each object once.
pub open spec fn spec_targets_strictly_sorted(s: Seq<NativeEntityTarget>, centre: Point) -> bool {
    forall|i: int, j: int| 0 <= i < j < s.len() ==> spec_target_lt(s[i], s[j], centre)
}

/// Whether no two monsters share an object id (the zone keys its
/// monsters by object id).
pub open spec fn spec_unique_monster_ids(ms: Seq<NativeMonster>) -> bool {
    forall|a: int, b: int| 0 <= a < b < ms.len() ==> #[trigger] ms[a].object_id != #[trigger] ms[b].object_id
}

/// A candidate list in that order.
pub open spec fn spec_targets_sorted(s: Seq<NativeEntityTarget>, centre: Point) -> bool {
    forall|i: int, j: int| 0 <= i < j < s.len() ==> spec_target_le(s[i], s[j], centre)
}

fn target_le(a: &NativeEntityTarget, b: &NativeEntityTarget, centre: &Point) -> (r: bool)
    ensures
        r == spec_target_le(*a, *b, *centre),
{
    let da = tile_distance(&a.position, centre);
    let db = tile_distance(&b.position, centre);
    da < db || (da == db && (a.position.y < b.position.y || (a.position.y == b.position.y && (
    a.position.x < b.position.x || (a.position.x == b.position.x && a.object_id
        <= b.object_id)))))
}

/// The plain value of a candidate.
pub struct TargetView {
    pub reference: EntityRefView,
    pub object_id: u32,
    pub position: Point,
}

/// The plain value of a candidate.
pub open spec fn tview(t: NativeEntityTarget) -> TargetView {
    TargetView { reference: t.reference@, object_id: t.object_id, position: t.position }
}

/// The plain values of a candidate list.
pub open spec fn tviews(s: Seq<NativeEntityTarget>) -> Seq<TargetView> {
    s.map_values(|t: NativeEntityTarget| tview(t))
}

/// Inserts `x` into the sorted list `out` after every element ordered no
/// later than it.
pub(crate) fn insert_sorted(out: &mut Vec<NativeEntityTarget>, x: NativeEntityTarget, centre: &Point)
    requires
        spec_targets_sorted(old(out)@, *centre),
    ensures
        spec_targets_sorted(final(out)@, *centre),
        tviews(final(out)@).to_multiset() == tviews(old(out)@).to_multiset().insert(tview(x)),
        exists|k: int| 0 <= k <= old(out)@.len() && final(out)@ == old(out)@.insert(k, x),
{
    let mut p: usize = 0;
    while p < out.len() && target_le(&out[p], &x, centre)
        invariant
            0 <= p <= out@.len(),
            spec_targets_sorted(out@, *centre),
            forall|j: int| 0 <= j < p ==> spec_target_le(out@[j], x, *centre),
        decreases out@.len() - p,
    {
        p += 1;
    }
    let ghost before = out@;
    proof {
        if p < before.len() {
            assert(!spec_target_le(before[p as int], x, *centre));
            assert(forall|j: int| p <= j < before.len() ==> spec_target_le(x, before[j], *centre)) by {
                assert forall|j: int| p <= j < before.len() implies spec_target_le(
                    x,
                    before[j],
                    *centre,
                ) by {
                    if j > p {
                        assert(spec_target_le(before[p as int], before[j], *centre));
                    }
                }
            }
        }
        vstd::seq_lib::to_multiset_insert(tviews(before), p as int, tview(x));
    }
    let ghost xv = tview(x);
    out.insert(p, x);
    proof {
        let s = out@;
        assert(s =~= before.insert(p as int, x));
        assert(0 <= p <= before.len() && out@ == before.insert(p as int, x));
        assert(tviews(s) =~= tviews(before).insert(p as int, xv));
        assert forall|i: int, j: int| 0 <= i < j < s.len() implies spec_target_le(
            s[i],
            s[j],
            *centre,
        ) by {
            if j < p {
            } else if j == p {
            } else if i < p {
                assert(s[j] == before[j - 1]);
                assert(spec_target_le(before[i], x, *centre));
                assert(spec_target_le(x, before[j - 1], *centre));
            } else if i == p {
                assert(s[j] == before[j - 1]);
            } else {
                assert(s[i] == before[i - 1]);
                assert(s[j] == before[j - 1]);
            }
        }
    }
}


/// Whether monster `m` is a candidate of `source` within `radius` of `centre`.
pub open spec fn spec_monster_candidate(
    rt: ZoneRuntime,
    source: EntityRefView,
    m: NativeMonster,
    centre: Point,
    radius: i32,
    purpose: EntityTargetPurpose,
    now: u64,
) -> bool {
    &&& spec_monster_ref(rt, m.object_id) is Some
    &&& spec_tile_distance(m.position, centre) <= radius
    &&& spec_can_attack(rt, source, spec_monster_ref(rt, m.object_id).unwrap(), purpose, now)
}

/// The monster candidates among the first `n` monsters, in id order.
pub open spec fn spec_monster_candidates(
    rt: ZoneRuntime,
    source: EntityRefView,
    centre: Point,
    radius: i32,
    purpose: EntityTargetPurpose,
    now: u64,
    n: int,
) -> Seq<TargetView>
    decreases n,
{
    if n <= 0 {
        Seq::empty()
    } else {
        let prev = spec_monster_candidates(rt, source, centre, radius, purpose, now, n - 1);
        let m = rt.native_monsters@[n - 1];
        if spec_monster_candidate(rt, source, m, centre, radius, purpose, now) {
            prev.push(
                TargetView {
                    reference: spec_monster_ref(rt, m.object_id).unwrap(),
                    object_id: m.object_id,
                    position: m.position,
                },
            )
        } else {
            prev
        }
    }
}

/// Whether `r` names (by object id) exactly the monsters of zone `rt` that
/// are candidates of `source` within `radius` of `centre`.
#[verifier::opaque]
pub open spec fn spec_names_exactly_the_candidates(
    rt: ZoneRuntime,
    source: EntityRefView,
    centre: Point,
    radius: i32,
    purpose: EntityTargetPurpose,
    now: u64,
    r: Seq<NativeEntityTarget>,
) -> bool {
    forall|k: int|
        0 <= k < rt.native_monsters@.len() ==> (#[trigger] spec_monster_candidate(rt, source, rt.native_monsters@[k], centre, radius, purpose, now)
            <==> exists|j: int| 0 <= j < r.len() && r[j].object_id == rt.native_monsters@[k].object_id)
}

/// Every entry of the monster candidate list over the first `n` monsters
/// stands for a candidate monster among them, and every candidate monster
/// among them has an entry.
pub proof fn lemma_candidate_ids(
    rt: ZoneRuntime,
    source: EntityRefView,
    centre: Point,
    radius: i32,
    purpose: EntityTargetPurpose,
    now: u64,
    n: int,
)
    requires
        0 <= n <= rt.native_monsters@.len(),
    ensures
        forall|x: int|
            0 <= x < spec_monster_candidates(rt, source, centre, radius, purpose, now, n).len() ==> exists|k: int|
                0 <= k < n && rt.native_monsters@[k].object_id == (#[trigger] spec_monster_candidates(rt, source, centre, radius, purpose, now, n)[x]).object_id
                    && spec_monster_candidate(rt, source, rt.native_monsters@[k], centre, radius, purpose, now),
        forall|k: int|
            0 <= k < n && #[trigger] spec_monster_candidate(rt, source, rt.native_monsters@[k], centre, radius, purpose, now)
                ==> exists|x: int|
                0 <= x < spec_monster_candidates(rt, source, centre, radius, purpose, now, n).len()
                    && spec_monster_candidates(rt, source, centre, radius, purpose, now, n)[x].object_id == rt.native_monsters@[k].object_id,
    decreases n,
{
    if n > 0 {
        lemma_candidate_ids(rt, source, centre, radius, purpose, now, n - 1);
        let prev = spec_monster_candidates(rt, source, centre, radius, purpose, now, n - 1);
        let cur = spec_monster_candidates(rt, source, centre, radius, purpose, now, n);
        let m = rt.native_monsters@[n - 1];
        if spec_monster_candidate(rt, source, m, centre, radius, purpose, now) {
            assert(cur == prev.push(TargetView {
                reference: spec_monster_ref(rt, m.object_id).unwrap(),
                object_id: m.object_id,
                position: m.position,
            }));
            assert forall|x: int| 0 <= x < cur.len() implies exists|k: int|
                0 <= k < n && rt.native_monsters@[k].object_id == (#[trigger] cur[x]).object_id
                    && spec_monster_candidate(rt, source, rt.native_monsters@[k], centre, radius, purpose, now) by {
                if x < prev.len() {
                    assert(cur[x] == prev[x]);
                } else {
                    assert(rt.native_monsters@[n - 1].object_id == cur[x].object_id);
                }
            }
            assert forall|k: int| 0 <= k < n && #[trigger] spec_monster_candidate(rt, source, rt.native_monsters@[k], centre, radius, purpose, now)
                implies exists|x: int| 0 <= x < cur.len() && cur[x].object_id == rt.native_monsters@[k].object_id by {
                if k < n - 1 {
                    let x = choose|x: int| 0 <= x < prev.len() && prev[x].object_id == rt.native_monsters@[k].object_id;
                    assert(cur[x] == prev[x]);
                } else {
                    assert(cur[prev.len() as int].object_id == rt.native_monsters@[k].object_id);
                }
            }
        } else {
            assert(cur == prev);
        }
    }
}

/// With unique monster ids, a monster is a candidate of `source` exactly
/// when a list holding the candidates (as a multiset) names it.
pub proof fn lemma_monster_targets_members(
    rt: ZoneRuntime,
    source: EntityRefView,
    centre: Point,
    radius: i32,
    purpose: EntityTargetPurpose,
    now: u64,
    r: Seq<NativeEntityTarget>,
)
    requires
        spec_unique_monster_ids(rt.native_monsters@),
        tviews(r).to_multiset() == spec_monster_candidates(rt, source, centre, radius, purpose, now, rt.native_monsters@.len() as int).to_multiset(),
    ensures
        forall|k: int|
            0 <= k < rt.native_monsters@.len() ==> (#[trigger] spec_monster_candidate(rt, source, rt.native_monsters@[k], centre, radius, purpose, now)
                <==> exists|j: int| 0 <= j < r.len() && r[j].object_id == rt.native_monsters@[k].object_id),
{
    lemma_candidate_ids(rt, source, centre, radius, purpose, now, rt.native_monsters@.len() as int);
    assert forall|k: int| 0 <= k < rt.native_monsters@.len() implies (#[trigger] spec_monster_candidate(rt, source, rt.native_monsters@[k], centre, radius, purpose, now)
        <==> exists|j: int| 0 <= j < r.len() && r[j].object_id == rt.native_monsters@[k].object_id) by {
        lemma_member_one(rt, source, centre, radius, purpose, now, r, k);
    }
}

#[verifier::rlimit(60)]
proof fn lemma_member_one(
    rt: ZoneRuntime,
    source: EntityRefView,
    centre: Point,
    radius: i32,
    purpose: EntityTargetPurpose,
    now: u64,
    r: Seq<NativeEntityTarget>,
    k: int,
)
    requires
        0 <= k < rt.native_monsters@.len(),
        spec_unique_monster_ids(rt.native_monsters@),
        tviews(r).to_multiset() == spec_monster_candidates(rt, source, centre, radius, purpose, now, rt.native_monsters@.len() as int).to_multiset(),
        forall|x: int|
            0 <= x < spec_monster_candidates(rt, source, centre, radius, purpose, now, rt.native_monsters@.len() as int).len() ==> exists|k: int|
                0 <= k < rt.native_monsters@.len() && rt.native_monsters@[k].object_id == (#[trigger] spec_monster_candidates(rt, source, centre, radius, purpose, now, rt.native_monsters@.len() as int)[x]).object_id
                    && spec_monster_candidate(rt, source, rt.native_monsters@[k], centre, radius, purpose, now),
        forall|k: int|
            0 <= k < rt.native_monsters@.len() && #[trigger] spec_monster_candidate(rt, source, rt.native_monsters@[k], centre, radius, purpose, now)
                ==> exists|x: int|
                0 <= x < spec_monster_candidates(rt, source, centre, radius, purpose, now, rt.native_monsters@.len() as int).len()
                    && spec_monster_candidates(rt, source, centre, radius, purpose, now, rt.native_monsters@.len() as int)[x].object_id == rt.native_monsters@[k].object_id,
    ensures
        spec_monster_candidate(rt, source, rt.native_monsters@[k], centre, radius, purpose, now)
            <==> exists|j: int| 0 <= j < r.len() && r[j].object_id == rt.native_monsters@[k].object_id,
{
    let ms = rt.native_monsters@;
    let n = ms.len() as int;
    let cands = spec_monster_candidates(rt, source, centre, radius, purpose, now, n);
    let tv = tviews(r);
    let id = ms[k].object_id;
    let cand = spec_monster_candidate(rt, source, ms[k], centre, radius, purpose, now);
    if cand {
        let x = choose|x: int| 0 <= x < cands.len() && cands[x].object_id == id;
        vstd::seq_lib::to_multiset_contains(cands, cands[x]);
        assert(cands.contains(cands[x]));
        vstd::seq_lib::to_multiset_contains(tv, cands[x]);
        let j = choose|j: int| 0 <= j < tv.len() && tv[j] == cands[x];
        assert(tv[j] == tview(r[j]));
        assert(r[j].object_id == id);
    }
    if exists|j: int| 0 <= j < r.len() && r[j].object_id == id {
        let j = choose|j: int| 0 <= j < r.len() && r[j].object_id == id;
        assert(tv[j] == tview(r[j]));
        vstd::seq_lib::to_multiset_contains(tv, tv[j]);
        assert(tv.contains(tv[j]));
        vstd::seq_lib::to_multiset_contains(cands, tv[j]);
        let x = choose|x: int| 0 <= x < cands.len() && cands[x] == tv[j];
        let k2 = choose|k2: int| 0 <= k2 < n && ms[k2].object_id == (#[trigger] cands[x]).object_id
            && spec_monster_candidate(rt, source, ms[k2], centre, radius, purpose, now);
        if k2 < k {
            assert(ms[k2].object_id != ms[k].object_id);
        } else if k < k2 {
            assert(ms[k].object_id != ms[k2].object_id);
        }
    }
}

/// Whether player `p` is a candidate of `source` within `radius` of `centre`.
pub open spec fn spec_player_candidate(
    rt: ZoneRuntime,
    source: EntityRefView,
    p: ZonePlayer,
    centre: Point,
    radius: i32,
    purpose: EntityTargetPurpose,
    now: u64,
) -> bool {
    &&& spec_player_ref(rt, p.session_id@) is Some
    &&& spec_tile_distance(p.position, centre) <= radius
    &&& spec_can_attack(rt, source, spec_player_ref(rt, p.session_id@).unwrap(), purpose, now)
}

/// The player candidates among the first `n` players, in player order.
pub open spec fn spec_player_candidates(
    rt: ZoneRuntime,
    source: EntityRefView,
    centre: Point,
    radius: i32,
    purpose: EntityTargetPurpose,
    now: u64,
    n: int,
) -> Seq<TargetView>
    decreases n,
{
    if n <= 0 {
        Seq::empty()
    } else {
        let prev = spec_player_candidates(rt, source, centre, radius, purpose, now, n - 1);
        let p = rt.players@[n - 1];
        if spec_player_candidate(rt, source, p, centre, radius, purpose, now) {
            prev.push(
                TargetView {
                    reference: spec_player_ref(rt, p.session_id@).unwrap(),
                    object_id: p.object_id,
                    position: p.position,
                },
            )
        } else {
            prev
        }
    }
}

/// The targets of the wild monster `source_id` within `radius` of
/// `centre`: the player-owned monsters and the players it may act against
/// for `purpose` at `now` (none when it has no life), nearest first (see
/// [`spec_targets_sorted`]).
pub open spec fn spec_entity_targets(
    rt: ZoneRuntime,
    source_id: u32,
    centre: Point,
    radius: i32,
    purpose: EntityTargetPurpose,
    now: u64,
    r: Seq<NativeEntityTarget>,
) -> bool {
    &&& spec_targets_sorted(r, centre)
    &&& spec_monster_ref(rt, source_id) is None ==> r.len() == 0
    &&& spec_monster_ref(rt, source_id) is Some ==> tviews(r).to_multiset() == (spec_monster_candidates(
        rt,
        spec_monster_ref(rt, source_id).unwrap(),
        centre,
        radius,
        purpose,
        now,
        rt.native_monsters@.len() as int,
    ) + spec_player_candidates(
        rt,
        spec_monster_ref(rt, source_id).unwrap(),
        centre,
        radius,
        purpose,
        now,
        rt.players@.len() as int,
    )).to_multiset()
}

impl ZoneRuntime {
    /// Player-owned monsters that the wild monster `source_id` may act
    /// against within `radius` of `centre`, nearest first (then by row,
    /// column and id).
    pub fn native_entity_monster_targets(
        &self,
        source_id: u32,
        centre: &Point,
        radius: i32,
        purpose: EntityTargetPurpose,
        now: u64,
    ) -> (r: Vec<NativeEntityTarget>)
        ensures
            spec_targets_sorted(r@, *centre),
            spec_unique_monster_ids(self.native_monsters@) ==> spec_targets_strictly_sorted(r@, *centre),
            spec_unique_monster_ids(self.native_monsters@) && spec_monster_ref(*self, source_id) is Some
                ==> spec_names_exactly_the_candidates(*self, spec_monster_ref(*self, source_id).unwrap(), *centre, radius, purpose, now, r@),
            spec_monster_ref(*self, source_id) is None ==> r@.len() == 0,
            spec_monster_ref(*self, source_id) is Some ==> tviews(r@).to_multiset()
                == spec_monster_candidates(
                *self,
                spec_monster_ref(*self, source_id).unwrap(),
                *centre,
                radius,
                purpose,
                now,
                self.native_monsters@.len() as int,
            ).to_multiset(),
    {
        let source = match self.native_entity_monster_ref(source_id) {
            Some(s) => s,
            None => {
                return Vec::new();
            },
        };
        let ghost src = source@;
        let mut out: Vec<NativeEntityTarget> = Vec::new();
        proof {
            assert(tviews(out@) =~= spec_monster_candidates(
                *self,
                src,
                *centre,
                radius,
                purpose,
                now,
                0,
            ));
        }
        let mut i: usize = 0;
        while i < self.native_monsters.len()
            invariant
                0 <= i <= self.native_monsters@.len(),
                source@ == src,
                spec_targets_sorted(out@, *centre),
                forall|k: int| 0 <= k < out@.len() ==> exists|j: int| 0 <= j < i && #[trigger] self.native_monsters@[j].object_id == (#[trigger] out@[k]).object_id,
                spec_unique_monster_ids(self.native_monsters@) ==> forall|a: int, b: int| 0 <= a < b < out@.len() ==> #[trigger] out@[a].object_id != #[trigger] out@[b].object_id,
                tviews(out@).to_multiset() == spec_monster_candidates(
                    *self,
                    src,
                    *centre,
                    radius,
                    purpose,
                    now,
                    i as int,
                ).to_multiset(),
            decreases self.native_monsters@.len() - i,
        {
            let id = self.native_monsters[i].object_id;
            let ghost m = self.native_monsters@[i as int];
            let reference = self.native_entity_monster_ref(id);
            match reference {
                Some(reference) => {
                    let near = tile_distance(&self.native_monsters[i].position, centre)
                        <= radius as i64;
                    if near && self.native_entity_can_attack(&source, &reference, purpose, now) {
                        let t = NativeEntityTarget {
                            reference,
                            object_id: id,
                            position: self.native_monsters[i].position,
                        };
                        proof {
                            vstd::seq_lib::to_multiset_build(
                                spec_monster_candidates(
                                    *self,
                                    src,
                                    *centre,
                                    radius,
                                    purpose,
                                    now,
                                    i as int,
                                ),
                                tview(t),
                            );
                        }
                        let ghost before = out@;
                        insert_sorted(&mut out, t, centre);
                        proof {
                            let k = choose|k: int| 0 <= k <= before.len() && out@ == before.insert(k, t);
                            assert(out@ == before.insert(k, t));
                            assert forall|q: int| 0 <= q < out@.len() implies exists|j: int| 0 <= j < i + 1 && #[trigger] self.native_monsters@[j].object_id == (#[trigger] out@[q]).object_id by {
                                if q < k {
                                    assert(out@[q] == before[q]);
                                } else if q == k {
                                    assert(self.native_monsters@[i as int].object_id == out@[q].object_id);
                                } else {
                                    assert(out@[q] == before[q - 1]);
                                }
                            }
                            if spec_unique_monster_ids(self.native_monsters@) {
                                assert forall|q: int| 0 <= q < before.len() implies #[trigger] before[q].object_id != id by {
                                    let j = choose|j: int| 0 <= j < i && #[trigger] self.native_monsters@[j].object_id == before[q].object_id;
                                    assert(self.native_monsters@[j].object_id != self.native_monsters@[i as int].object_id);
                                }
                                assert forall|a: int, b: int| 0 <= a < b < out@.len() implies #[trigger] out@[a].object_id != #[trigger] out@[b].object_id by {
                                    let xa = if a < k { a } else if a == k { -1 } else { a - 1 };
                                    let xb = if b < k { b } else if b == k { -1 } else { b - 1 };
                                    if a == k {
                                        assert(out@[b] == before[xb]);
                                    } else if b == k {
                                        assert(out@[a] == before[xa]);
                                    } else {
                                        assert(out@[a] == before[xa]);
                                        assert(out@[b] == before[xb]);
                                    }
                                }
                            }
                        }
                    }
                },
                None => {},
            }
            i += 1;
        }
        proof {
            if spec_unique_monster_ids(self.native_monsters@) {
                assert forall|a: int, b: int| 0 <= a < b < out@.len() implies spec_target_lt(out@[a], out@[b], *centre) by {
                    assert(out@[a].object_id != out@[b].object_id);
                }
                lemma_monster_targets_members(*self, src, *centre, radius, purpose, now, out@);
                reveal(spec_names_exactly_the_candidates);
            }
        }
        out
    }

    /// Players and player-owned monsters that the wild monster `source_id`
    /// may act against within `radius` of `centre`, in the same order.
    pub fn native_entity_targets(
        &self,
        source_id: u32,
        centre: &Point,
        radius: i32,
        purpose: EntityTargetPurpose,
        now: u64,
    ) -> (r: Vec<NativeEntityTarget>)
        ensures
            spec_entity_targets(*self, source_id, *centre, radius, purpose, now, r@),
    {
        let mut out = self.native_entity_monster_targets(source_id, centre, radius, purpose, now);
        let source = match self.native_entity_monster_ref(source_id) {
            Some(s) => s,
            None => {
                return out;
            },
        };
        let ghost src = source@;
        let ghost monsters = spec_monster_candidates(
            *self,
            src,
            *centre,
            radius,
            purpose,
            now,
            self.native_monsters@.len() as int,
        );
        proof {
            assert(monsters + spec_player_candidates(*self, src, *centre, radius, purpose, now, 0)
                =~= monsters);
        }
        let mut i: usize = 0;
        while i < self.players.len()
            invariant
                0 <= i <= self.players@.len(),
                source@ == src,
                spec_targets_sorted(out@, *centre),
                tviews(out@).to_multiset() == (monsters + spec_player_candidates(
                    *self,
                    src,
                    *centre,
                    radius,
                    purpose,
                    now,
                    i as int,
                )).to_multiset(),
            decreases self.players@.len() - i,
        {
            let reference = self.native_entity_player_ref(&self.players[i].session_id);
            match reference {
                Some(reference) => {
                    let near = tile_distance(&self.players[i].position, centre) <= radius as i64;
                    if near && self.native_entity_can_attack(&source, &reference, purpose, now) {
                        let t = NativeEntityTarget {
                            reference,
                            object_id: self.players[i].object_id,
                            position: self.players[i].position,
                        };
                        proof {
                            let prev = spec_player_candidates(
                                *self,
                                src,
                                *centre,
                                radius,
                                purpose,
                                now,
                                i as int,
                            );
                            assert((monsters + prev).push(tview(t)) =~= monsters + prev.push(
                                tview(t),
                            ));
                            vstd::seq_lib::to_multiset_build(monsters + prev, tview(t));
                        }
                        insert_sorted(&mut out, t, centre);
                    }
                },
                None => {},
            }
            i += 1;
        }
        out
    }
}


// ---------------------------------------------------------------------------
// Resistances
// ---------------------------------------------------------------------------

/// The poison resistance (0..=10) of the life a reference names; zero for a
/// gone or dead life. Monsters resist only through buffs (stat 31).
pub open spec fn spec_poison_resist(rt: ZoneRuntime, target: EntityRefView) -> int {
    if !spec_ref_exists(rt, target, false) {
        0
    } else {
        let raw: int = match target {
            EntityRefView::Player { session, .. } => spec_player(rt, session).unwrap().poison_resist
                as int,
            EntityRefView::Monster { object_id, .. } => spec_buff_stat_total(
                spec_monster(rt, object_id).unwrap().buffs@,
                31,
            ),
        };
        if raw < 0 {
            0
        } else if raw > 10 {
            10
        } else {
            raw
        }
    }
}

impl ZoneRuntime {
    /// The poison resistance of `target`, clamped to 0..=10.
    pub fn native_entity_poison_resist(&self, target: &EntityRef) -> (r: i32)
        ensures
            r == spec_poison_resist(*self, target@),
    {
        if !self.entity_ref_exists(target, false) {
            return 0;
        }
        let raw: i32 = match target {
            EntityRef::Player { session_id, .. } => match find_player(&self.players, session_id) {
                Some(i) => self.players[i].poison_resist,
                None => 0,
            },
            EntityRef::Monster { object_id, .. } => match find_monster(
                &self.native_monsters,
                *object_id,
            ) {
                Some(i) => buff_stat_total(&self.native_monsters[i], 31),
                None => 0,
            },
        };
        if raw < 0 {
            0
        } else if raw > 10 {
            10
        } else {
            raw
        }
    }
}

} // verus!
