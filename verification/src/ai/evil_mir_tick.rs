//! The attack turn of an EvilMir (AI 52): it keeps its bound target or
//! picks one in view, and when both its clocks are ready it launches a
//! breath attack, a mass attack on one roll in eight.
use vstd::prelude::*;
use crate::types::{direction_toward, spec_direction_toward, spec_tile_distance, Direction, EntityRefView, Point};
use crate::monster::{EvilMirState, NativeMonster, PendingSource, SpecialAi};
use crate::entity::{EntityTargetPurpose, NativeEntityTarget, spec_entity_targets};
use crate::entity_target::{spec_relations_ordered, spec_selected_target};
use crate::zone::{find_monster, lemma_monster_index_in_range, lemma_monster_index_update, spec_monster_index, ZoneRuntime};
use crate::outbound::ZoneOutbound;
use crate::rng::{spec_mix, spec_seeded, GOLDEN};
use crate::types::EntityRef;
use crate::ai::evil_mir::{
    evil_mir_choose_target, evil_mir_launch, initialize_evil_mir, spec_candidate_ref, spec_evil_mir_choice,
    spec_evil_mir_due, spec_evil_mir_facing, spec_evil_mir_seed, spec_evil_mir_set_via, spec_fresh_evil_mir,
};

verus! {

/// The view range an EvilMir searches: its template's, or eight tiles.
pub open spec fn spec_evil_mir_view(m: NativeMonster) -> i32 {
    match m.template {
        Some(t) => t.view_range as i32,
        None => 8,
    }
}

/// Zone `b` is zone `a` with EvilMir `i` given its state if it had none.
pub open spec fn spec_evil_mir_initialized(a: ZoneRuntime, b: ZoneRuntime, i: int) -> bool {
    let m = a.native_monsters@[i];
    let m1 = b.native_monsters@[i];
    &&& b.native_monsters@ == a.native_monsters@.update(i, m1)
    &&& b == (ZoneRuntime { native_monsters: b.native_monsters, ..a })
    &&& (m.special.evil_mir is Some ==> m1 == m)
    &&& m.special.evil_mir is None ==> {
        &&& m1.special.evil_mir matches Some(s) && spec_fresh_evil_mir(s)
        &&& m1 == (NativeMonster { special: SpecialAi { evil_mir: m1.special.evil_mir, ..m.special }, direction: Direction::Up, ..m })
    }
}

/// The target EvilMir `id` of zone `rt` aims at at `now`, given the lives
/// `targets` it sees: its bound target while that holds, otherwise the
/// one it remembers among them, otherwise the first of them.
pub open spec fn spec_evil_mir_pick(rt: ZoneRuntime, id: u32, s: EvilMirState, now: u64, targets: Seq<NativeEntityTarget>, t: Option<
    NativeEntityTarget,
>) -> bool {
    match spec_selected_target(rt, id, now) {
        Some((r, pos)) => t matches Some(x) && x.reference@ == r && x.position == pos,
        None => match spec_evil_mir_choice(s, targets) {
            Some(k) => t matches Some(x) && x.reference@ == targets[k].reference@ && x.object_id == targets[k].object_id
                && x.position == targets[k].position,
            None => t is None,
        },
    }
}

/// The life an optional target names.
pub open spec fn spec_opt_target_ref(t: Option<NativeEntityTarget>) -> Option<EntityRefView> {
    match t {
        Some(t) => Some(t.reference@),
        None => None,
    }
}

/// EvilMir `m` after launching at `now` on a target at `at` (see
/// [`evil_mir_launch`]): whether the attack is a mass one, its facing and
/// its landing time.
pub open spec fn spec_evil_mir_launched(m: NativeMonster, m1: NativeMonster, id: u32, at: Point, now: u64, mass: bool, facing: Direction, due: u64) -> bool {
    let s0 = m.special.evil_mir->0;
    let rng = spec_seeded(s0.rng, spec_evil_mir_seed(id)).wrapping_add(GOLDEN);
    &&& mass == (spec_mix(rng) % 8 == 0)
    &&& facing == if mass {
        m.direction
    } else {
        spec_evil_mir_facing(
            match spec_direction_toward(m.position, at) {
                Some(d) => d,
                None => m.direction,
            },
        )
    }
    &&& due == spec_evil_mir_due(mass, now, m.position, at)
    &&& m1.special.evil_mir matches Some(s1) && {
        &&& s1.pending@ == s0.pending@.push(due)
        &&& s1.pending_sources@ == s0.pending_sources@.push(
            PendingSource { due, source: EntityRef::Monster { object_id: id, incarnation: m.incarnation } },
        )
        &&& s1 == (EvilMirState { rng, mass, pending: s1.pending, pending_sources: s1.pending_sources, ..s0 })
        &&& m1 == (NativeMonster {
            direction: facing,
            next_ai_ready_at_ms: (now + 300) as u64,
            next_attack_ready_at_ms: (now + m.attack_speed_ms) as u64,
            special: SpecialAi { evil_mir: Some(s1), ..m.special },
            ..m
        })
    }
}

/// EvilMir `id` (index `i`) of zone `a`, aimed at `t`, fires at `now`: only
/// once its attack is ready and it may act again; it then launches (see
/// [`spec_evil_mir_launched`]) and the message is a mass attack in place or
/// a ranged attack on the target.
pub open spec fn spec_evil_mir_fire(a: ZoneRuntime, b: ZoneRuntime, i: int, id: u32, t: NativeEntityTarget, now: u64, r: Option<
    ZoneOutbound,
>) -> bool {
    let m = a.native_monsters@[i];
    if now <= m.next_attack_ready_at_ms || now < m.next_ai_ready_at_ms {
        r is None && b == a
    } else {
        exists|mass: bool, facing: Direction, due: u64|
            #[trigger] spec_evil_mir_launched(m, b.native_monsters@[i], id, t.position, now, mass, facing, due)
                && b.native_monsters@ == a.native_monsters@.update(i, b.native_monsters@[i])
                && b == (ZoneRuntime { native_monsters: b.native_monsters, ..a })
                && r == Some(
                if mass {
                    ZoneOutbound::ObjectAttack { object_id: id, location: m.position, direction: facing, attack_type: 0 }
                } else {
                    ZoneOutbound::ObjectRangeAttack {
                        object_id: id,
                        location: m.position,
                        direction: facing,
                        target_id: t.object_id,
                        target: t.position,
                        attack_type: 0,
                    }
                },
            )
    }
}

/// The turn of EvilMir `id` (index `i`) of zone `a`, its state given: a
/// dead one, one not hostile to players, one held by a control effect
/// (`control_active`) or one that may not act (`can_act` false) does
/// nothing. Otherwise it picks its target among the lives it sees (see
/// [`spec_evil_mir_pick`]) and is aimed at it, or at nothing (see
/// [`spec_evil_mir_set_via`]); with a target it fires (see
/// [`spec_evil_mir_fire`]).
pub open spec fn spec_evil_mir_turn(a: ZoneRuntime, b: ZoneRuntime, i: int, id: u32, control_active: bool, can_act: bool, now: u64, r: Option<
    ZoneOutbound,
>) -> bool {
    let m = a.native_monsters@[i];
    if m.dead || !m.hostile_to_player || control_active || !can_act {
        r is None && b == a
    } else {
        exists|targets: Seq<NativeEntityTarget>, t: Option<NativeEntityTarget>, mid: ZoneRuntime, a2: ZoneRuntime|
            #[trigger] spec_entity_targets(a, id, m.position, spec_evil_mir_view(m), EntityTargetPurpose::Search, now, targets)
                && spec_evil_mir_pick(a, id, m.special.evil_mir->0, now, targets, t)
                && #[trigger] spec_evil_mir_set_via(a, mid, a2, id, spec_opt_target_ref(t), now)
                && match t {
                None => r is None && b == a2,
                Some(t) => spec_evil_mir_fire(a2, b, i, id, t, now, r),
            }
    }
}

/// The attack turn of monster `id` of zone `a` as an EvilMir at `now`: a
/// monster that is missing or not of AI 52 does nothing; otherwise it gets
/// its state if it had none and takes its turn (see [`spec_evil_mir_turn`]).
pub open spec fn spec_evil_mir_attack_turn(a: ZoneRuntime, b: ZoneRuntime, id: u32, control_active: bool, can_act: bool, now: u64, r: Option<
    ZoneOutbound,
>) -> bool {
    match spec_monster_index(a.native_monsters@, id) {
        None => r is None && b == a,
        Some(i) => if a.native_monsters@[i].ai != 52 {
            r is None && b == a
        } else {
            exists|a1: ZoneRuntime|
                #[trigger] spec_evil_mir_initialized(a, a1, i) && spec_evil_mir_turn(a1, b, i, id, control_active, can_act, now, r)
        },
    }
}

impl ZoneRuntime {
    /// The attack turn of EvilMir `id` at `now` (see
    /// [`spec_evil_mir_attack_turn`]); the caller resolves its landed
    /// attacks first and tells whether a control effect holds it and
    /// whether it may act.
    #[verifier::rlimit(100)]
    pub fn evil_mir_attack_turn(&mut self, id: u32, control_active: bool, can_act: bool, now: u64) -> (r: Option<ZoneOutbound>)
        requires
            old(self).entity_combat matches Some(st) ==> spec_relations_ordered(st.targets@),
            spec_monster_index(old(self).native_monsters@, id) matches Some(i) ==> now + 0x40_0000_0000
                <= u64::MAX && now + old(self).native_monsters@[i].attack_speed_ms <= u64::MAX,
        ensures
            spec_evil_mir_attack_turn(*old(self), *final(self), id, control_active, can_act, now, r),
    {
        let ghost a = *self;
        let i = match find_monster(&self.native_monsters, id) {
            Some(i) => i,
            None => {
                return None;
            },
        };
        if self.native_monsters[i].ai != 52 {
            return None;
        }
        if self.native_monsters[i].special.evil_mir.is_none() {
            let ghost m0 = self.native_monsters@;
            let mut m = self.native_monsters.remove(i);
            initialize_evil_mir(&mut m);
            self.native_monsters.insert(i, m);
            assert(self.native_monsters@ =~= m0.update(i as int, self.native_monsters@[i as int]));
            proof {
                lemma_monster_index_update(m0, i as int, self.native_monsters@[i as int], id);
            }
            assert(spec_evil_mir_initialized(a, *self, i as int));
        } else {
            assert(self.native_monsters@ =~= a.native_monsters@.update(i as int, self.native_monsters@[i as int]));
            assert(spec_evil_mir_initialized(a, *self, i as int));
        }
        let ghost a1 = *self;
        self.evil_mir_turn(i, id, control_active, can_act, now)
    }

    #[verifier::rlimit(100)]
    fn evil_mir_turn(&mut self, i: usize, id: u32, control_active: bool, can_act: bool, now: u64) -> (r: Option<ZoneOutbound>)
        requires
            old(self).entity_combat matches Some(st) ==> spec_relations_ordered(st.targets@),
            spec_monster_index(old(self).native_monsters@, id) == Some(i as int),
            i < old(self).native_monsters@.len(),
            old(self).native_monsters@[i as int].special.evil_mir is Some,
            now + 0x40_0000_0000 <= u64::MAX,
            now + old(self).native_monsters@[i as int].attack_speed_ms <= u64::MAX,
        ensures
            spec_evil_mir_turn(*old(self), *final(self), i as int, id, control_active, can_act, now, r),
    {
        let ghost a1 = *self;
        let m = &self.native_monsters[i];
        if m.dead || !m.hostile_to_player || control_active || !can_act {
            return None;
        }
        let view: i32 = match m.template {
            Some(t) => t.view_range as i32,
            None => 8,
        };
        let position = m.position;
        let targets = self.evil_mir_targets(id, &position, view, true, now);
        let chosen: Option<NativeEntityTarget> = match self.selected_native_entity_target(id, now) {
            Some(t) => Some(t),
            None => {
                let s = self.native_monsters[i].special.evil_mir.as_ref().unwrap();
                match evil_mir_choose_target(s, &targets) {
                    Some(k) => Some(
                        NativeEntityTarget {
                            reference: targets[k].reference.duplicate(),
                            object_id: targets[k].object_id,
                            position: targets[k].position,
                        },
                    ),
                    None => None,
                }
            },
        };
        assert(spec_evil_mir_pick(a1, id, a1.native_monsters@[i as int].special.evil_mir->0, now, targets@, chosen));
        let ghost m1 = self.native_monsters@;
        let chosen_ref = chosen.as_ref();
        assert(spec_candidate_ref(chosen_ref) == spec_opt_target_ref(chosen));
        self.set_evil_mir_target(id, chosen_ref, now);
        let ghost a2 = *self;
        let ghost mid = choose|mid: ZoneRuntime| #[trigger] spec_evil_mir_set_via(a1, mid, a2, id, spec_opt_target_ref(chosen), now);
        assert(spec_evil_mir_set_via(a1, mid, a2, id, spec_opt_target_ref(chosen), now));
        proof {
            lemma_monster_index_update(m1, i as int, mid.native_monsters@[i as int], id);
            assert(mid.native_monsters@ == m1.update(i as int, mid.native_monsters@[i as int]));
            assert(a2.native_monsters == mid.native_monsters);
        }
        assert(view == spec_evil_mir_view(a1.native_monsters@[i as int]));
        assert(spec_entity_targets(a1, id, position, view, EntityTargetPurpose::Search, now, targets@));
        let r = match chosen {
            None => None,
            Some(t) => self.evil_mir_fire(i, id, &t, now),
        };
        assert(match chosen {
            None => r is None && *self == a2,
            Some(t) => spec_evil_mir_fire(a2, *self, i as int, id, t, now, r),
        });
        r
    }

    #[verifier::rlimit(100)]
    fn evil_mir_fire(&mut self, i: usize, id: u32, t: &NativeEntityTarget, now: u64) -> (r: Option<ZoneOutbound>)
        requires
            spec_monster_index(old(self).native_monsters@, id) == Some(i as int),
            i < old(self).native_monsters@.len(),
            old(self).native_monsters@[i as int].special.evil_mir is Some,
            now + 0x40_0000_0000 <= u64::MAX,
            now + old(self).native_monsters@[i as int].attack_speed_ms <= u64::MAX,
        ensures
            spec_evil_mir_fire(*old(self), *final(self), i as int, id, *t, now, r),
    {
        let ghost a2 = *self;
        if now <= self.native_monsters[i].next_attack_ready_at_ms || now < self.native_monsters[i].next_ai_ready_at_ms {
            return None;
        }
        let position = self.native_monsters[i].position;
        let toward = direction_toward(&position, &t.position);
        let ghost m0 = self.native_monsters@;
        let mut m = self.native_monsters.remove(i);
        let (mass, facing, due) = evil_mir_launch(&mut m, id, t.position, toward, now);
        self.native_monsters.insert(i, m);
        assert(self.native_monsters@ =~= m0.update(i as int, self.native_monsters@[i as int]));
        assert(spec_evil_mir_launched(a2.native_monsters@[i as int], self.native_monsters@[i as int], id, t.position, now, mass, facing, due));
        if mass {
            Some(ZoneOutbound::ObjectAttack { object_id: id, location: position, direction: facing, attack_type: 0 })
        } else {
            Some(
                ZoneOutbound::ObjectRangeAttack {
                    object_id: id,
                    location: position,
                    direction: facing,
                    target_id: t.object_id,
                    target: t.position,
                    attack_type: 0,
                },
            )
        }
    }
}

/// An EvilMir's attack turn fires only when it is alive, hostile to players,
/// free to act and both its clocks are ready; a turn that fires resets its
/// clocks (300 ms to act, its attack speed to attack) and queues one
/// landing bound to its life: half a second out for a mass attack (shown in
/// place), 620 ms plus 50 ms per tile to the target for a ranged one.
pub proof fn lemma_evil_mir_fires(
    a: ZoneRuntime,
    b: ZoneRuntime,
    id: u32,
    control_active: bool,
    can_act: bool,
    now: u64,
    r: Option<ZoneOutbound>,
)
    requires
        spec_evil_mir_attack_turn(a, b, id, control_active, can_act, now, r),
        spec_monster_index(a.native_monsters@, id) matches Some(i) && a.native_monsters@[i].special.evil_mir is Some,
        r is Some,
    ensures
        ({
            let i = spec_monster_index(a.native_monsters@, id)->0;
            let m = a.native_monsters@[i];
            let m2 = b.native_monsters@[i];
            let s = m.special.evil_mir->0;
            &&& m.ai == 52 && !m.dead && m.hostile_to_player && !control_active && can_act
            &&& now > m.next_attack_ready_at_ms && now >= m.next_ai_ready_at_ms
            &&& m2.next_ai_ready_at_ms == (now + 300) as u64
            &&& m2.next_attack_ready_at_ms == (now + m.attack_speed_ms) as u64
            &&& m2.special.evil_mir matches Some(s2) && exists|due: u64| {
                &&& s2.pending@ == s.pending@.push(due)
                &&& s2.pending_sources@ == s.pending_sources@.push(
                    PendingSource { due, source: EntityRef::Monster { object_id: id, incarnation: m.incarnation } },
                )
                &&& match r {
                    Some(ZoneOutbound::ObjectAttack { object_id, location, .. }) => object_id == id && location
                        == m.position && due == now + 500,
                    Some(ZoneOutbound::ObjectRangeAttack { object_id, location, target, .. }) => object_id == id
                        && location == m.position && due == now + spec_tile_distance(m.position, target) * 50 + 620,
                    _ => false,
                }
            }
        }),
{
    let i = spec_monster_index(a.native_monsters@, id)->0;
    let a1 = choose|a1: ZoneRuntime| #[trigger] spec_evil_mir_initialized(a, a1, i) && spec_evil_mir_turn(a1, b, i, id, control_active, can_act, now, r);
    lemma_monster_index_in_range(a.native_monsters@, id);
    let m1 = a1.native_monsters@[i];
    assert(m1 == a.native_monsters@[i]);
    assert(a1.native_monsters@ =~= a.native_monsters@);
    assert(spec_monster_index(a1.native_monsters@, id) == Some(i));
    let (targets, t, mid, a2) = choose|targets: Seq<NativeEntityTarget>, t: Option<NativeEntityTarget>, mid: ZoneRuntime, a2: ZoneRuntime|
        #[trigger] spec_entity_targets(a1, id, m1.position, spec_evil_mir_view(m1), EntityTargetPurpose::Search, now, targets)
            && spec_evil_mir_pick(a1, id, m1.special.evil_mir->0, now, targets, t)
            && #[trigger] spec_evil_mir_set_via(a1, mid, a2, id, spec_opt_target_ref(t), now)
            && match t {
            None => r is None && b == a2,
            Some(t) => spec_evil_mir_fire(a2, b, i, id, t, now, r),
        };
    let tt = t->0;
    let m2 = a2.native_monsters@[i];
    assert(a2.native_monsters == mid.native_monsters);
    let (mass, facing, due) = choose|mass: bool, facing: Direction, due: u64|
        #[trigger] spec_evil_mir_launched(m2, b.native_monsters@[i], id, tt.position, now, mass, facing, due)
            && b.native_monsters@ == a2.native_monsters@.update(i, b.native_monsters@[i])
            && b == (ZoneRuntime { native_monsters: b.native_monsters, ..a2 })
            && r == Some(
            if mass {
                ZoneOutbound::ObjectAttack { object_id: id, location: m2.position, direction: facing, attack_type: 0 }
            } else {
                ZoneOutbound::ObjectRangeAttack {
                    object_id: id,
                    location: m2.position,
                    direction: facing,
                    target_id: tt.object_id,
                    target: tt.position,
                    attack_type: 0,
                }
            },
        );
    assert(m2.special.evil_mir->0.pending == m1.special.evil_mir->0.pending);
    assert(m2.special.evil_mir->0.pending_sources == m1.special.evil_mir->0.pending_sources);
    assert(m2.position == m1.position && m2.incarnation == m1.incarnation && m2.attack_speed_ms == m1.attack_speed_ms);
    assert(m2.next_attack_ready_at_ms == m1.next_attack_ready_at_ms && m2.next_ai_ready_at_ms == m1.next_ai_ready_at_ms);
    assert(m2.dead == m1.dead && m2.hostile_to_player == m1.hostile_to_player);
    let bm = b.native_monsters@[i];
    let s0 = m1.special.evil_mir->0;
    let s2 = bm.special.evil_mir->0;
    assert(s2.pending@ == s0.pending@.push(due));
    assert(s2.pending_sources@ == s0.pending_sources@.push(
        PendingSource { due, source: EntityRef::Monster { object_id: id, incarnation: m1.incarnation } },
    ));
    assert(match r {
        Some(ZoneOutbound::ObjectAttack { object_id, location, .. }) => object_id == id && location == m1.position
            && due == now + 500,
        Some(ZoneOutbound::ObjectRangeAttack { object_id, location, target, .. }) => object_id == id && location
            == m1.position && due == now + spec_tile_distance(m1.position, target) * 50 + 620,
        _ => false,
    });
}

} // verus!
