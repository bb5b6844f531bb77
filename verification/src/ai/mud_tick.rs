//! The turn of a MudZombie (AI 108): it keeps or finds a target, walks up
//! to it, and attacks. Its blow strikes along a line (the first life on
//! each of the next two tiles, landing 550 and 600 ms later, with no push);
//! from afar it casts a magic hit on its target landing 500 ms later, and
//! then waits 500 ms longer before its next attack. A BoulderSpirit (AI 170)
//! never attacks on its own.
use vstd::prelude::*;
use crate::types::{
    direction_toward, offset_point, spec_direction_toward, spec_offset, spec_offset_fits, spec_tile_distance,
    tile_distance, Direction, EntityRef, EntityRefView, Point,
};
use crate::monster::{MudBoulderState, MudMonsterHit, NativeMonster, PlayerHitRecord, PlayerTarget, SpecialAi, spec_clamp_i32};
use crate::zone::{find_monster, lemma_monster_index_update, spec_monster_index, ZoneRuntime};
use crate::entity::{spec_player_ref, NativeEntityTarget};
use crate::entity_target::{spec_native_target_set, spec_relations_ordered};
use crate::outbound::ZoneOutbound;
use crate::rng::{first_acceptance, spec_mix, state_after};
use crate::ai::mud::{initialize_mud_boulder, spec_mud_damage_range, spec_mud_targets, spec_is_mud, spec_mud_started, spec_mud_choice};

verus! {

/// The hits on players that a mud attack of `damage` queues at `now` on
/// `victims` (each a life and the delay after which the hit lands), in
/// order.
pub open spec fn spec_mud_player_hits(victims: Seq<(EntityRefView, u64)>, now: u64, damage: i32, magic: bool) -> Seq<
    PlayerHitRecord,
>
    decreases victims.len(),
{
    if victims.len() == 0 {
        Seq::empty()
    } else {
        let rest = spec_mud_player_hits(victims.drop_last(), now, damage, magic);
        match victims.last().0 {
            EntityRefView::Player { object_id, .. } => rest.push(
                PlayerHitRecord { due_ms: now.saturating_add(victims.last().1), target_object_id: object_id, damage, magic },
            ),
            EntityRefView::Monster { .. } => rest,
        }
    }
}

/// The hits on monster lives that a mud attack of `damage` queues at `now`
/// on `victims`, in order.
pub open spec fn spec_mud_monster_hits(victims: Seq<(EntityRefView, u64)>, now: u64, damage: i32, magic: bool) -> Seq<
    MudMonsterHit,
>
    decreases victims.len(),
{
    if victims.len() == 0 {
        Seq::empty()
    } else {
        let rest = spec_mud_monster_hits(victims.drop_last(), now, damage, magic);
        match victims.last().0 {
            EntityRefView::Monster { object_id, incarnation } => rest.push(
                MudMonsterHit { target: object_id, incarnation, due: now.saturating_add(victims.last().1), damage, magic },
            ),
            EntityRefView::Player { .. } => rest,
        }
    }
}

/// The plain values of a victim list.
pub open spec fn spec_victim_views(v: Seq<(EntityRef, u64)>) -> Seq<(EntityRefView, u64)> {
    v.map_values(|x: (EntityRef, u64)| (x.0@, x.1))
}

/// Queues the hits of a mud attack on `victims` (see
/// [`spec_mud_player_hits`] and [`spec_mud_monster_hits`]).
fn queue_mud_hits(s: &mut MudBoulderState, victims: &Vec<(EntityRef, u64)>, now: u64, damage: i32, magic: bool)
    ensures
        final(s).hits@ == old(s).hits@ + spec_mud_player_hits(spec_victim_views(victims@), now, damage, magic),
        final(s).monster_hits@ == old(s).monster_hits@ + spec_mud_monster_hits(spec_victim_views(victims@), now, damage, magic),
        *final(s) == (MudBoulderState { hits: final(s).hits, monster_hits: final(s).monster_hits, ..*old(s) }),
{
    let ghost all = spec_victim_views(victims@);
    let mut k: usize = 0;
    while k < victims.len()
        invariant
            0 <= k <= victims@.len(),
            all == spec_victim_views(victims@),
            s.hits@ == old(s).hits@ + spec_mud_player_hits(all.take(k as int), now, damage, magic),
            s.monster_hits@ == old(s).monster_hits@ + spec_mud_monster_hits(all.take(k as int), now, damage, magic),
            *s == (MudBoulderState { hits: s.hits, monster_hits: s.monster_hits, ..*old(s) }),
        decreases victims@.len() - k,
    {
        assert(all.take(k as int + 1).drop_last() =~= all.take(k as int));
        assert(all.take(k as int + 1).last() == all[k as int]);
        let due = now.saturating_add(victims[k].1);
        match &victims[k].0 {
            EntityRef::Player { object_id, .. } => {
                s.hits.push(PlayerHitRecord { due_ms: due, target_object_id: *object_id, damage, magic });
            },
            EntityRef::Monster { object_id, incarnation } => {
                s.monster_hits.push(MudMonsterHit { target: *object_id, incarnation: *incarnation, due, damage, magic });
            },
        }
        k += 1;
    }
    assert(all.take(k as int) =~= all);
}

/// The victim a line step gives: the first life of `list`, landing `delay`
/// ms after the attack.
pub open spec fn spec_first_victim(list: Seq<NativeEntityTarget>, delay: u64) -> Seq<(EntityRefView, u64)> {
    if list.len() > 0 {
        seq![(list[0].reference@, delay)]
    } else {
        Seq::empty()
    }
}

/// Whether `victims` are those of an attack by mud monster `id` of zone
/// `rt`, standing at `position` facing `d`, on the life `target`: a ranged
/// attack strikes its target alone after 500 ms; a blow strikes the first
/// life on each of the next two tiles in line, after 550 and 600 ms.
pub open spec fn spec_mud_victims(
    rt: ZoneRuntime,
    id: u32,
    position: Point,
    d: Direction,
    ranged: bool,
    target: EntityRefView,
    now: u64,
    victims: Seq<(EntityRefView, u64)>,
) -> bool {
    if ranged {
        victims == seq![(target, 500u64)]
    } else {
        exists|l1: Seq<NativeEntityTarget>, l2: Seq<NativeEntityTarget>|
            #[trigger] spec_mud_targets(rt, id, spec_offset(position, d, 1), 0, false, now, l1)
                && #[trigger] spec_mud_targets(rt, id, spec_offset(position, d, 2), 0, false, now, l2)
                && victims == spec_first_victim(l1, 550) + spec_first_victim(l2, 600)
    }
}

/// Whether `damage` is the damage a mud monster `m` rolls at `now` (magic
/// when `magic`), its stream going from `rng0` to `rng1`.
pub open spec fn spec_mud_damage_drawn(m: NativeMonster, magic: bool, now: u64, rng0: u64, rng1: u64, damage: i32) -> bool {
    let (min, max) = spec_mud_damage_range(m, magic, now);
    let span = (max - min + 1) as u64;
    &&& exists|k: nat| first_acceptance(rng0, span, k) && rng1 == state_after(rng0, k)
    &&& damage == spec_clamp_i32(min + spec_mix(rng1) % span)
}

/// The facing of a monster `m` toward `to`, keeping its facing on its own
/// tile.
pub open spec fn spec_facing(m: NativeMonster, to: Point) -> Direction {
    match spec_direction_toward(m.position, to) {
        Some(d) => d,
        None => m.direction,
    }
}

/// Whether a mud attack reaches from afar: on its own tile or more than two
/// tiles away.
pub open spec fn spec_mud_ranged(from: Point, to: Point) -> bool {
    spec_tile_distance(from, to) == 0 || spec_tile_distance(from, to) > 2
}

/// Mud monster `id` of zone `a` attacks the life `target` at `at` at `now`,
/// giving zone `b` and message `out`. It turns toward the target, acts again
/// in 300 ms and attacks again after its attack delay (500 ms more after a
/// ranged attack). It rolls its damage (magic for a ranged attack); when the
/// damage is positive it queues a hit on each victim (see
/// [`spec_mud_victims`]). It does not move, and nothing else changes. The
/// message is a ranged attack on the target, or a blow in place.
pub open spec fn spec_mud_strike(a: ZoneRuntime, b: ZoneRuntime, id: u32, target: EntityRefView, target_id: u32, at: Point, now: u64, out: ZoneOutbound) -> bool {
    let i = spec_monster_index(a.native_monsters@, id)->0;
    let m = a.native_monsters@[i];
    let s = m.special.mud_boulder->0;
    let d = spec_facing(m, at);
    let ranged = spec_mud_ranged(m.position, at);
    let m2 = b.native_monsters@[i];
    let s2 = m2.special.mud_boulder->0;
    &&& exists|victims: Seq<(EntityRefView, u64)>, damage: i32|
        #[trigger] spec_mud_victims(a, id, m.position, d, ranged, target, now, victims)
            && #[trigger] spec_mud_damage_drawn(m, ranged, now, s.rng, s2.rng, damage)
            && s2.hits@ == s.hits@ + (if damage > 0 { spec_mud_player_hits(victims, now, damage, ranged) } else { Seq::empty() })
            && s2.monster_hits@ == s.monster_hits@ + (if damage > 0 {
            spec_mud_monster_hits(victims, now, damage, ranged)
        } else {
            Seq::empty()
        })
    &&& m2.special.mud_boulder is Some
    &&& s2 == (MudBoulderState { rng: s2.rng, hits: s2.hits, monster_hits: s2.monster_hits, ..s })
    &&& m2 == (NativeMonster {
        direction: d,
        next_ai_ready_at_ms: now.saturating_add(300),
        next_attack_ready_at_ms: now.saturating_add(m.attack_speed_ms).saturating_add(if ranged { 500 } else { 0 }),
        special: SpecialAi { mud_boulder: Some(s2), ..m.special },
        ..m
    })
    &&& b.native_monsters@ == a.native_monsters@.update(i, m2)
    &&& b == (ZoneRuntime { native_monsters: b.native_monsters, ..a })
    &&& out == if ranged {
        ZoneOutbound::ObjectRangeAttack { object_id: id, location: m.position, direction: d, target_id, target: at, attack_type: 0 }
    } else {
        ZoneOutbound::ObjectAttack { object_id: id, location: m.position, direction: d, attack_type: 0 }
    }
}

impl ZoneRuntime {
    /// Mud monster `id` attacks the life `target` (see [`spec_mud_strike`]).
    #[verifier::rlimit(100)]
    #[verifier::spinoff_prover]
    pub fn mud_strike(&mut self, id: u32, target: &NativeEntityTarget, now: u64) -> (out: ZoneOutbound)
        requires
            spec_monster_index(old(self).native_monsters@, id) matches Some(i) && {
                let m = old(self).native_monsters@[i];
                m.special.mud_boulder is Some && m.template is Some && spec_offset_fits(m.position, 2)
            },
        ensures
            spec_mud_strike(*old(self), *final(self), id, target.reference@, target.object_id, target.position, now, out),
    {
        let ghost a = *self;
        let i = find_monster(&self.native_monsters, id).unwrap();
        let position = self.native_monsters[i].position;
        let d = match direction_toward(&position, &target.position) {
            Some(d) => d,
            None => self.native_monsters[i].direction,
        };
        let distance = tile_distance(&position, &target.position);
        let ranged = distance == 0 || distance > 2;
        let mut victims: Vec<(EntityRef, u64)> = Vec::new();
        if ranged {
            victims.push((target.reference.duplicate(), 500));
            assert(spec_victim_views(victims@) =~= seq![(target.reference@, 500u64)]);
        } else {
            let first = offset_point(&position, d, 1);
            let second = offset_point(&position, d, 2);
            let l1 = self.mud_targets(id, &first, 0, false, now);
            let l2 = self.mud_targets(id, &second, 0, false, now);
            if l1.len() > 0 {
                victims.push((l1[0].reference.duplicate(), 550));
            }
            if l2.len() > 0 {
                victims.push((l2[0].reference.duplicate(), 600));
            }
            assert(spec_victim_views(victims@) =~= spec_first_victim(l1@, 550) + spec_first_victim(l2@, 600));
            assert(spec_mud_victims(a, id, position, d, ranged, target.reference@, now, spec_victim_views(victims@)));
        }
        let damage = self.mud_boulder_damage(id, ranged, now);
        let ghost b1 = *self;
        let ghost m0 = self.native_monsters@;
        let mut m = self.native_monsters.remove(i);
        let mut s = m.special.mud_boulder.take().unwrap();
        if damage > 0 {
            queue_mud_hits(&mut s, &victims, now, damage, ranged);
        }
        m.special.mud_boulder = Some(s);
        m.direction = d;
        m.next_ai_ready_at_ms = now.saturating_add(300);
        m.next_attack_ready_at_ms = now.saturating_add(m.attack_speed_ms).saturating_add(if ranged { 500 } else { 0 });
        self.native_monsters.insert(i, m);
        assert(self.native_monsters@ =~= m0.update(i as int, self.native_monsters@[i as int]));
        assert(self.native_monsters@ =~= a.native_monsters@.update(i as int, self.native_monsters@[i as int]));
        proof {
            let s2 = self.native_monsters@[i as int].special.mud_boulder->0;
            assert(spec_mud_damage_drawn(a.native_monsters@[i as int], ranged, now, a.native_monsters@[i as int].special.mud_boulder->0.rng, s2.rng, damage));
            assert(spec_mud_victims(a, id, position, d, ranged, target.reference@, now, spec_victim_views(victims@)));
        }
        if ranged {
            ZoneOutbound::ObjectRangeAttack {
                object_id: id,
                location: position,
                direction: d,
                target_id: target.object_id,
                target: target.position,
                attack_type: 0,
            }
        } else {
            ZoneOutbound::ObjectAttack { object_id: id, location: position, direction: d, attack_type: 0 }
        }
    }
}

/// Zone `b` is zone `a` with monster `i` (id `id`) given its mud state at
/// `now` (see [`initialize_mud_boulder`]).
pub open spec fn spec_mud_initialized(a: ZoneRuntime, b: ZoneRuntime, i: int, id: u32, now: u64) -> bool {
    let m = a.native_monsters@[i];
    let m1 = b.native_monsters@[i];
    &&& b.native_monsters@ == a.native_monsters@.update(i, m1)
    &&& b == (ZoneRuntime { native_monsters: b.native_monsters, ..a })
    &&& (m.special.mud_boulder is Some ==> m1 == m)
    &&& m.special.mud_boulder is None ==> {
        &&& m1.special.mud_boulder matches Some(s) && spec_mud_started(m, s, id, now)
        &&& m1 == (NativeMonster {
            special: SpecialAi { mud_boulder: m1.special.mud_boulder, ..m.special },
            next_ai_ready_at_ms: if m.ai == 108 && m.next_ai_ready_at_ms < now.saturating_add(2000) {
                now.saturating_add(2000)
            } else {
                m.next_ai_ready_at_ms
            },
            ..m
        })
    }
}

/// Mud monster `id` of zone `a` chose target `r` at `now`, giving zone `b`
/// (see [`ZoneRuntime::mud_select_target`]): the target it keeps, else the
/// first candidate within its view range it may still hit; its target is
/// bound from then on, and without a target it forgets those it
/// remembered.
pub open spec fn spec_mud_selected(a: ZoneRuntime, b: ZoneRuntime, id: u32, now: u64, r: Option<NativeEntityTarget>) -> bool {
    let i = spec_monster_index(a.native_monsters@, id)->0;
    let m = a.native_monsters@[i];
    let s0 = m.special.mud_boulder->0;
    let s1 = if r is None {
        MudBoulderState { target_bound: true, target: None, monster_target: None, ..s0 }
    } else {
        MudBoulderState { target_bound: true, ..s0 }
    };
    &&& exists|list: Seq<NativeEntityTarget>|
        #[trigger] spec_mud_targets(a, id, m.position, m.template->0.view_range as i32, true, now, list) && match r {
            None => spec_mud_choice(a, id, m, s0, now, list) is None,
            Some(t) => spec_mud_choice(a, id, m, s0, now, list) == Some((t.reference@, t.position)),
        }
    &&& b.native_monsters@ == a.native_monsters@.update(
        i,
        NativeMonster { special: SpecialAi { mud_boulder: Some(s1), ..m.special }, ..m },
    )
    &&& b == (ZoneRuntime { native_monsters: b.native_monsters, ..a })
}

/// Whether the life a mud target names is still current in zone `rt`: a
/// player target only while the player is on the same life.
pub open spec fn spec_mud_reference_ok(rt: ZoneRuntime, t: NativeEntityTarget) -> bool {
    match t.reference@ {
        EntityRefView::Player { session, .. } => spec_player_ref(rt, session) == Some(t.reference@),
        EntityRefView::Monster { .. } => true,
    }
}

/// Zone `b` is zone `a` with mud monster `i` remembering target `t`: a
/// player by session and object id, a monster by object id and life.
pub open spec fn spec_mud_recorded(a: ZoneRuntime, b: ZoneRuntime, i: int, t: NativeEntityTarget) -> bool {
    let m = a.native_monsters@[i];
    let s = m.special.mud_boulder->0;
    let s2 = b.native_monsters@[i].special.mud_boulder->0;
    &&& match t.reference@ {
        EntityRefView::Player { session, .. } => (s2.target matches Some(pt) && pt.session_id@ == session
            && pt.object_id == t.object_id) && s2.monster_target is None,
        EntityRefView::Monster { incarnation, .. } => s2.target is None && s2.monster_target == Some(
            (t.object_id, incarnation),
        ),
    }
    &&& s2 == (MudBoulderState { target: s2.target, monster_target: s2.monster_target, ..s })
    &&& b.native_monsters@ == a.native_monsters@.update(
        i,
        NativeMonster { special: SpecialAi { mud_boulder: Some(s2), ..m.special }, ..m },
    )
    &&& b == (ZoneRuntime { native_monsters: b.native_monsters, ..a })
}

/// Mud monster `id` (index `i`) of zone `a`, its target `t` remembered, acts
/// at `now`: while the target is beyond its view range or its attack is not
/// ready, it turns toward the target and asks to step one tile that way
/// (the step itself is [`ZoneRuntime::mud_boulder_walk`], taken once the tile
/// is found free); otherwise it attacks (see [`spec_mud_strike`]).
pub open spec fn spec_mud_act(a: ZoneRuntime, b: ZoneRuntime, i: int, id: u32, t: NativeEntityTarget, now: u64, r: Option<
    Seq<ZoneOutbound>,
>) -> bool {
    let m = a.native_monsters@[i];
    let d = spec_facing(m, t.position);
    if spec_tile_distance(m.position, t.position) > m.template->0.view_range || now <= m.next_attack_ready_at_ms {
        &&& r == Some(seq![ZoneOutbound::ObjectStep { object_id: id, destination: spec_offset(m.position, d, 1), direction: d }])
        &&& b.native_monsters@ == a.native_monsters@.update(i, NativeMonster { direction: d, ..m })
        &&& b == (ZoneRuntime { native_monsters: b.native_monsters, ..a })
    } else {
        exists|out: ZoneOutbound|
            #[trigger] spec_mud_strike(a, b, id, t.reference@, t.object_id, t.position, now, out) && r == Some(seq![out])
    }
}

/// Mud monster `id` (index `i`) of zone `a` engages its chosen target `t` at
/// `now`: a player target no longer current ends the turn with nothing
/// (`None`); the target is then set in the entity-combat ledger, and a
/// refused target ends the turn quietly; otherwise the monster remembers
/// it and acts (see [`spec_mud_act`]).
pub open spec fn spec_mud_engage(a: ZoneRuntime, b: ZoneRuntime, i: int, id: u32, t: NativeEntityTarget, now: u64, r: Option<
    Seq<ZoneOutbound>,
>) -> bool {
    if !spec_mud_reference_ok(a, t) {
        r is None && b == a
    } else {
        exists|a3: ZoneRuntime, ok: bool|
            #[trigger] spec_native_target_set(a, a3, id, t.reference@, now, ok) && if !ok {
                r == Some(Seq::<ZoneOutbound>::empty()) && b == a3
            } else {
                exists|a4: ZoneRuntime| #[trigger] spec_mud_recorded(a3, a4, i, t) && spec_mud_act(a4, b, i, id, t, now, r)
            }
    }
}

/// The turn of mud monster `id` (index `i`) of zone `a`, its state given:
/// before it is ready, or without a template, nothing happens; then it
/// chooses its target (see [`spec_mud_selected`]) and, with one, engages it
/// (see [`spec_mud_engage`]).
pub open spec fn spec_mud_turn(a: ZoneRuntime, b: ZoneRuntime, i: int, id: u32, now: u64, r: Option<Seq<ZoneOutbound>>) -> bool {
    let m = a.native_monsters@[i];
    if now <= m.next_ai_ready_at_ms || m.template is None {
        r == Some(Seq::<ZoneOutbound>::empty()) && b == a
    } else {
        exists|a2: ZoneRuntime, t: Option<NativeEntityTarget>|
            #[trigger] spec_mud_selected(a, a2, id, now, t) && match t {
                None => r == Some(Seq::<ZoneOutbound>::empty()) && b == a2,
                Some(t) => spec_mud_engage(a2, b, i, id, t, now, r),
            }
    }
}

/// One tick of monster `id` of zone `a` at `now` as a mud monster, giving
/// zone `b` and messages `r`. A monster that is missing or not of AI 108 or
/// 170 gives `None` and nothing changes. A BoulderSpirit (AI 170), a dead
/// monster, one not hostile to players or one without a disposition does
/// nothing. Otherwise the monster gets its mud state if it had none and
/// takes its turn (see [`spec_mud_turn`]).
pub open spec fn spec_mud_boulder_tick(a: ZoneRuntime, b: ZoneRuntime, id: u32, now: u64, r: Option<Seq<ZoneOutbound>>) -> bool {
    match spec_monster_index(a.native_monsters@, id) {
        None => r is None && b == a,
        Some(i) => {
            let m = a.native_monsters@[i];
            if !spec_is_mud(m.ai) {
                r is None && b == a
            } else if m.ai == 170 || m.dead || !m.hostile_to_player || m.disposition is None {
                r == Some(Seq::<ZoneOutbound>::empty()) && b == a
            } else {
                exists|a1: ZoneRuntime| #[trigger] spec_mud_initialized(a, a1, i, id, now) && spec_mud_turn(a1, b, i, id, now, r)
            }
        },
    }
}

/// The plain value of an optional list of messages.
pub open spec fn spec_out_view(r: Option<Vec<ZoneOutbound>>) -> Option<Seq<ZoneOutbound>> {
    match r {
        Some(v) => Some(v@),
        None => None,
    }
}

impl ZoneRuntime {
    /// One tick of mud monster `id` at `now` (see
    /// [`spec_mud_boulder_tick`]).
    #[verifier::rlimit(100)]
    pub fn try_tick_mud_boulder(&mut self, id: u32, now: u64) -> (r: Option<Vec<ZoneOutbound>>)
        requires
            old(self).entity_combat matches Some(st) ==> spec_relations_ordered(st.targets@),
            spec_monster_index(old(self).native_monsters@, id) matches Some(i) ==> spec_offset_fits(
                old(self).native_monsters@[i].position,
                2,
            ),
        ensures
            spec_mud_boulder_tick(*old(self), *final(self), id, now, spec_out_view(r)),
    {
        let ghost a = *self;
        let i = match find_monster(&self.native_monsters, id) {
            Some(i) => i,
            None => {
                return None;
            },
        };
        let ai = self.native_monsters[i].ai;
        if !(ai == 108 || ai == 170) {
            return None;
        }
        if ai == 170 || self.native_monsters[i].dead || !self.native_monsters[i].hostile_to_player
            || self.native_monsters[i].disposition.is_none() {
            let v: Vec<ZoneOutbound> = Vec::new();
            assert(v@ =~= Seq::<ZoneOutbound>::empty());
            return Some(v);
        }
        let ghost m0 = self.native_monsters@;
        let mut m = self.native_monsters.remove(i);
        initialize_mud_boulder(&mut m, id, now);
        self.native_monsters.insert(i, m);
        assert(self.native_monsters@ =~= m0.update(i as int, self.native_monsters@[i as int]));
        proof {
            lemma_monster_index_update(m0, i as int, self.native_monsters@[i as int], id);
        }
        let ghost a1 = *self;
        assert(spec_mud_initialized(a, a1, i as int, id, now));
        self.mud_turn(i, id, now)
    }

    #[verifier::rlimit(100)]
    fn mud_turn(&mut self, i: usize, id: u32, now: u64) -> (r: Option<Vec<ZoneOutbound>>)
        requires
            old(self).entity_combat matches Some(st) ==> spec_relations_ordered(st.targets@),
            spec_monster_index(old(self).native_monsters@, id) == Some(i as int),
            i < old(self).native_monsters@.len(),
            old(self).native_monsters@[i as int].special.mud_boulder is Some,
            spec_offset_fits(old(self).native_monsters@[i as int].position, 2),
        ensures
            spec_mud_turn(*old(self), *final(self), i as int, id, now, spec_out_view(r)),
    {
        let ghost a1 = *self;
        if now <= self.native_monsters[i].next_ai_ready_at_ms || self.native_monsters[i].template.is_none() {
            let v: Vec<ZoneOutbound> = Vec::new();
            assert(v@ =~= Seq::<ZoneOutbound>::empty());
            return Some(v);
        }
        let ghost m1 = self.native_monsters@;
        let chosen = self.mud_select_target(id, now);
        let ghost a2 = *self;
        assert(spec_mud_selected(a1, a2, id, now, chosen));
        proof {
            lemma_monster_index_update(m1, i as int, self.native_monsters@[i as int], id);
        }
        match chosen {
            None => {
                let v: Vec<ZoneOutbound> = Vec::new();
                assert(v@ =~= Seq::<ZoneOutbound>::empty());
                Some(v)
            },
            Some(t) => {
                let r = self.mud_engage(i, id, &t, now);
                assert(spec_mud_engage(a2, *self, i as int, id, t, now, spec_out_view(r)));
                r
            },
        }
    }

    #[verifier::rlimit(100)]
    fn mud_engage(&mut self, i: usize, id: u32, t: &NativeEntityTarget, now: u64) -> (r: Option<Vec<ZoneOutbound>>)
        requires
            old(self).entity_combat matches Some(st) ==> spec_relations_ordered(st.targets@),
            spec_monster_index(old(self).native_monsters@, id) == Some(i as int),
            i < old(self).native_monsters@.len(),
            old(self).native_monsters@[i as int].special.mud_boulder is Some,
            old(self).native_monsters@[i as int].template is Some,
            spec_offset_fits(old(self).native_monsters@[i as int].position, 2),
        ensures
            spec_mud_engage(*old(self), *final(self), i as int, id, *t, now, spec_out_view(r)),
    {
        let ghost a2 = *self;
        let reference = match self.mud_target_reference(t) {
            Some(reference) => reference,
            None => {
                return None;
            },
        };
        let ok = self.set_native_entity_target(id, &reference, now);
        let ghost a3 = *self;
        assert(spec_native_target_set(a2, a3, id, t.reference@, now, ok));
        if !ok {
            let v: Vec<ZoneOutbound> = Vec::new();
            assert(v@ =~= Seq::<ZoneOutbound>::empty());
            return Some(v);
        }
        let ghost m3 = self.native_monsters@;
        let mut m = self.native_monsters.remove(i);
        let mut s = m.special.mud_boulder.take().unwrap();
        match &t.reference {
            EntityRef::Player { session_id, .. } => {
                s.target = Some(PlayerTarget { session_id: session_id.duplicate(), object_id: t.object_id });
                s.monster_target = None;
            },
            EntityRef::Monster { incarnation, .. } => {
                s.target = None;
                s.monster_target = Some((t.object_id, *incarnation));
            },
        }
        m.special.mud_boulder = Some(s);
        self.native_monsters.insert(i, m);
        assert(self.native_monsters@ =~= m3.update(i as int, self.native_monsters@[i as int]));
        proof {
            lemma_monster_index_update(m3, i as int, self.native_monsters@[i as int], id);
        }
        let ghost a4 = *self;
        assert(spec_mud_recorded(a3, a4, i as int, *t));
        let r = self.mud_act(i, id, t, now);
        assert(spec_mud_act(a4, *self, i as int, id, *t, now, spec_out_view(r)));
        r
    }

    #[verifier::rlimit(100)]
    fn mud_act(&mut self, i: usize, id: u32, t: &NativeEntityTarget, now: u64) -> (r: Option<Vec<ZoneOutbound>>)
        requires
            spec_monster_index(old(self).native_monsters@, id) == Some(i as int),
            i < old(self).native_monsters@.len(),
            old(self).native_monsters@[i as int].special.mud_boulder is Some,
            old(self).native_monsters@[i as int].template is Some,
            spec_offset_fits(old(self).native_monsters@[i as int].position, 2),
        ensures
            spec_mud_act(*old(self), *final(self), i as int, id, *t, now, spec_out_view(r)),
    {
        let ghost a4 = *self;
        let position = self.native_monsters[i].position;
        let d = match direction_toward(&position, &t.position) {
            Some(d) => d,
            None => self.native_monsters[i].direction,
        };
        let view: i64 = match self.native_monsters[i].template {
            Some(tp) => tp.view_range as i64,
            None => 0,
        };
        if tile_distance(&position, &t.position) > view || now <= self.native_monsters[i].next_attack_ready_at_ms {
            let destination = offset_point(&position, d, 1);
            let ghost m0 = self.native_monsters@;
            let mut m = self.native_monsters.remove(i);
            m.direction = d;
            self.native_monsters.insert(i, m);
            assert(self.native_monsters@ =~= m0.update(i as int, self.native_monsters@[i as int]));
            let mut v: Vec<ZoneOutbound> = Vec::new();
            v.push(ZoneOutbound::ObjectStep { object_id: id, destination, direction: d });
            assert(v@ =~= seq![ZoneOutbound::ObjectStep { object_id: id, destination, direction: d }]);
            return Some(v);
        }
        let out = self.mud_strike(id, t, now);
        let mut v: Vec<ZoneOutbound> = Vec::new();
        v.push(out);
        assert(v@ =~= seq![out]);
        Some(v)
    }
}

impl ZoneRuntime {
    /// Mud monster `id` walks to `destination`, facing `direction`, once the
    /// caller has found the tile free: it acts again after its move delay.
    /// A missing monster changes nothing.
    pub fn mud_boulder_walk(&mut self, id: u32, destination: &Point, direction: Direction, now: u64)
        ensures
            match spec_monster_index(old(self).native_monsters@, id) {
                Some(i) => {
                    let m = old(self).native_monsters@[i];
                    &&& final(self).native_monsters@ == old(self).native_monsters@.update(
                        i,
                        NativeMonster {
                            position: *destination,
                            direction,
                            next_ai_ready_at_ms: now.saturating_add(m.move_speed_ms),
                            ..m
                        },
                    )
                    &&& *final(self) == (ZoneRuntime { native_monsters: final(self).native_monsters, ..*old(self) })
                },
                None => *final(self) == *old(self),
            },
    {
        let i = match find_monster(&self.native_monsters, id) {
            Some(i) => i,
            None => {
                return;
            },
        };
        let ghost m0 = self.native_monsters@;
        let mut m = self.native_monsters.remove(i);
        m.position = *destination;
        m.direction = direction;
        m.next_ai_ready_at_ms = now.saturating_add(m.move_speed_ms);
        self.native_monsters.insert(i, m);
        assert(self.native_monsters@ =~= m0.update(i as int, self.native_monsters@[i as int]));
    }
}

} // verus!
