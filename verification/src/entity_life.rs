//! Ending lives in the entity-combat ledger: what a target's death removes,
//! what a source's retirement marks, and what purification lifts.
use vstd::prelude::*;
use crate::types::EntityRefView;
use crate::zone::{ZoneRuntime, find_monster, spec_monster_index};
use crate::entity::{
    EntityCombatState, EntityGreenPoison, EntityHit, EntitySlowPoison, EntityStatusPoison,
    EntityTargetRelation,
};
use crate::seqs::retain_by;

verus! {

/// Every field of two zones other than the monsters and the ledger agrees.
pub open spec fn spec_same_outside_monsters_and_ledger(a: ZoneRuntime, b: ZoneRuntime) -> bool {
    &&& a.key == b.key
    &&& a.players == b.players
    &&& a.objects == b.objects
    &&& a.dead_object_ids == b.dead_object_ids
    &&& a.revived_object_ids == b.revived_object_ids
    &&& a.removed_object_ids == b.removed_object_ids
    &&& a.harvested_object_ids == b.harvested_object_ids
    &&& a.pending_native_hits == b.pending_native_hits
    &&& a.pending_native_projectiles == b.pending_native_projectiles
    &&& a.pending_native_player_hits == b.pending_native_player_hits
    &&& a.ground_drops == b.ground_drops
    &&& a.claimed_ground_drops == b.claimed_ground_drops
    &&& a.next_ground_drop_generation == b.next_ground_drop_generation
    &&& a.next_ground_drop_claim_id == b.next_ground_drop_claim_id
    &&& a.open_doors == b.open_doors
    &&& a.next_object_id == b.next_object_id
    &&& a.hell_world == b.hell_world
    &&& a.horned_encounter_world == b.horned_encounter_world
    &&& a.pet_special_world == b.pet_special_world
    &&& a.native_periodic_player_poisons == b.native_periodic_player_poisons
    &&& a.opened_doors == b.opened_doors
    &&& a.occupancy == b.occupancy
}

/// Relations that touch neither end `id`.
pub open spec fn spec_relation_keeps(id: u32) -> spec_fn(EntityTargetRelation) -> bool {
    |r: EntityTargetRelation| r.source@.object_id() != id && r.target@.object_id() != id
}

/// Hits not aimed at `id`.
pub open spec fn spec_hit_target_keeps(id: u32) -> spec_fn(EntityHit) -> bool {
    |h: EntityHit| h.target@.object_id() != id
}

/// Hits not launched by `id`.
pub open spec fn spec_hit_source_keeps(id: u32) -> spec_fn(EntityHit) -> bool {
    |h: EntityHit| h.source@.object_id() != id
}

/// Damage leases not on `id`.
pub open spec fn spec_poison_keeps(id: u32) -> spec_fn(EntityGreenPoison) -> bool {
    |p: EntityGreenPoison| p.target@.object_id() != id
}

/// Control leases not on `id`.
pub open spec fn spec_control_keeps(id: u32) -> spec_fn(EntityStatusPoison) -> bool {
    |p: EntityStatusPoison| p.target@.object_id() != id
}

/// Slow leases not on `id`.
pub open spec fn spec_slow_keeps(id: u32) -> spec_fn(EntitySlowPoison) -> bool {
    |p: EntitySlowPoison| p.target@.object_id() != id
}

/// The speeds the last slow lease on monster life (`id`, `incarnation`)
/// remembers, if any lease is on that life.
pub open spec fn spec_last_restore(s: Seq<EntitySlowPoison>, id: u32, incarnation: u64) -> Option<
    (u64, u64),
>
    decreases s.len(),
{
    if s.len() == 0 {
        None
    } else if s.last().target@ == (EntityRefView::Monster { object_id: id, incarnation }) {
        Some((s.last().base_move_speed_ms, s.last().base_attack_speed_ms))
    } else {
        spec_last_restore(s.drop_last(), id, incarnation)
    }
}

/// `b` is `a` after the death of object `id`: its target relations (as
/// source or target) end, hits and leases aimed at it are dropped, a slowed
/// monster gets the speeds its last slow lease remembered back, and its
/// entity status bits clear. Hits and leases it launched survive.
pub open spec fn spec_cleared_target_life(a: ZoneRuntime, b: ZoneRuntime, object_id: u32) -> bool {
    &&& (spec_same_outside_monsters_and_ledger(a, b))
    &&& (match a.entity_combat {
                None => b.entity_combat is None,
                Some(st) => b.entity_combat matches Some(f) && {
                    &&& f.targets@ == st.targets@.filter(spec_relation_keeps(object_id))
                    &&& f.hits@ == st.hits@.filter(spec_hit_target_keeps(object_id))
                    &&& f.poisons@ == st.poisons@.filter(spec_poison_keeps(object_id))
                    &&& f.controls@ == st.controls@.filter(spec_control_keeps(object_id))
                    &&& f.slows@ == st.slows@.filter(spec_slow_keeps(object_id))
                },
            })
    &&& (match spec_monster_index(a.native_monsters@, object_id) {
                None => b.native_monsters@ == a.native_monsters@,
                Some(i) => {
                    let m = a.native_monsters@[i];
                    let speeds = match a.entity_combat {
                        Some(st) => spec_last_restore(st.slows@, object_id, m.incarnation),
                        None => None,
                    };
                    let fm = b.native_monsters@[i];
                    &&& b.native_monsters@.len() == a.native_monsters@.len()
                    &&& forall|j: int|
                        0 <= j < a.native_monsters@.len() && j != i
                            ==> b.native_monsters@[j] == a.native_monsters@[j]
                    &&& fm.entity_poison == 0
                    &&& fm.move_speed_ms == match speeds {
                        Some(s) => s.0,
                        None => m.move_speed_ms,
                    }
                    &&& fm.attack_speed_ms == match speeds {
                        Some(s) => s.1,
                        None => m.attack_speed_ms,
                    }
                    &&& fm == (crate::monster::NativeMonster {
                        entity_poison: 0,
                        move_speed_ms: fm.move_speed_ms,
                        attack_speed_ms: fm.attack_speed_ms,
                        ..m
                    })
                },
            })
}

impl ZoneRuntime {
    /// The death of object `object_id` (see [`spec_cleared_target_life`]).
    pub fn clear_entity_combat_target_life(&mut self, object_id: u32)
        ensures
            spec_cleared_target_life(*old(self), *final(self), object_id),
    {
        let idx = find_monster(&self.native_monsters, object_id);
        let ghost spec_relation_keeps_p = spec_relation_keeps(object_id);
        let ghost spec_hit_target_keeps_p = spec_hit_target_keeps(object_id);
        let ghost spec_poison_keeps_p = spec_poison_keeps(object_id);
        let ghost spec_control_keeps_p = spec_control_keeps(object_id);
        let ghost spec_slow_keeps_p = spec_slow_keeps(object_id);
        match self.entity_combat.take() {
            Some(mut st) => {
                retain_by(
                    &mut st.targets,
                    (|r: &EntityTargetRelation| -> (k: bool)
                        ensures
                            k == (r.source@.object_id() != object_id && r.target@.object_id()
                                != object_id),
                        { r.source.object_id() != object_id && r.target.object_id() != object_id }),
                    Ghost(spec_relation_keeps_p),
                );
                retain_by(
                    &mut st.hits,
                    (|h: &EntityHit| -> (k: bool)
                        ensures
                            k == (h.target@.object_id() != object_id),
                        { h.target.object_id() != object_id }),
                    Ghost(spec_hit_target_keeps_p),
                );
                retain_by(
                    &mut st.poisons,
                    (|p: &EntityGreenPoison| -> (k: bool)
                        ensures
                            k == (p.target@.object_id() != object_id),
                        { p.target.object_id() != object_id }),
                    Ghost(spec_poison_keeps_p),
                );
                retain_by(
                    &mut st.controls,
                    (|p: &EntityStatusPoison| -> (k: bool)
                        ensures
                            k == (p.target@.object_id() != object_id),
                        { p.target.object_id() != object_id }),
                    Ghost(spec_control_keeps_p),
                );
                match idx {
                    Some(i) => {
                        let inc = self.native_monsters[i].incarnation;
                        let ghost m0 = self.native_monsters@[i as int];
                        let mut j: usize = 0;
                        while j < st.slows.len()
                            invariant
                                0 <= j <= st.slows@.len(),
                                spec_same_outside_monsters_and_ledger(*old(self), *self),
                                i < self.native_monsters@.len(),
                                self.native_monsters@.len() == old(self).native_monsters@.len(),
                                inc == m0.incarnation,
                                forall|k: int|
                                    0 <= k < self.native_monsters@.len() && k != i
                                        ==> self.native_monsters@[k] == old(
                                        self,
                                    ).native_monsters@[k],
                                self.native_monsters@[i as int] == (crate::monster::NativeMonster {
                                    move_speed_ms: self.native_monsters@[i as int].move_speed_ms,
                                    attack_speed_ms: self.native_monsters@[i as int].attack_speed_ms,
                                    ..m0
                                }),
                                self.native_monsters@[i as int].move_speed_ms == match spec_last_restore(
                                    st.slows@.take(j as int),
                                    object_id,
                                    inc,
                                ) {
                                    Some(s) => s.0,
                                    None => m0.move_speed_ms,
                                },
                                self.native_monsters@[i as int].attack_speed_ms == match spec_last_restore(
                                    st.slows@.take(j as int),
                                    object_id,
                                    inc,
                                ) {
                                    Some(s) => s.1,
                                    None => m0.attack_speed_ms,
                                },
                            decreases st.slows@.len() - j,
                        {
                            proof {
                                assert(st.slows@.take(j + 1).drop_last() =~= st.slows@.take(
                                    j as int,
                                ));
                            }
                            let hit = match &st.slows[j].target {
                                crate::types::EntityRef::Monster { object_id: o, incarnation } => *o
                                    == object_id && *incarnation == inc,
                                _ => false,
                            };
                            if hit {
                                let mv = st.slows[j].base_move_speed_ms;
                                let at = st.slows[j].base_attack_speed_ms;
                                self.native_monsters[i].move_speed_ms = mv;
                                self.native_monsters[i].attack_speed_ms = at;
                            }
                            j += 1;
                        }
                        proof {
                            assert(st.slows@.take(st.slows@.len() as int) =~= st.slows@);
                        }
                    },
                    None => {},
                }
                retain_by(
                    &mut st.slows,
                    (|p: &EntitySlowPoison| -> (k: bool)
                        ensures
                            k == (p.target@.object_id() != object_id),
                        { p.target.object_id() != object_id }),
                    Ghost(spec_slow_keeps_p),
                );
                self.entity_combat = Some(st);
            },
            None => {},
        }
        match idx {
            Some(i) => {
                self.native_monsters[i].entity_poison = 0;
            },
            None => {},
        }
    }
}


/// Damage leases with those launched by `id` marked as orphaned.
pub open spec fn spec_mark_poisons(s: Seq<EntityGreenPoison>, id: u32) -> Seq<EntityGreenPoison> {
    s.map_values(
        |p: EntityGreenPoison|
            if p.source@.object_id() == id {
                EntityGreenPoison { source_removed: true, ..p }
            } else {
                p
            },
    )
}

/// Slow leases with those launched by `id` marked as orphaned.
pub open spec fn spec_mark_slows(s: Seq<EntitySlowPoison>, id: u32) -> Seq<EntitySlowPoison> {
    s.map_values(
        |p: EntitySlowPoison|
            if p.source@.object_id() == id {
                EntitySlowPoison { source_removed: true, ..p }
            } else {
                p
            },
    )
}

/// Control leases cast by `id` itself (not owned by a spell node) marked
/// as orphaned.
pub open spec fn spec_mark_controls(s: Seq<EntityStatusPoison>, id: u32) -> Seq<
    EntityStatusPoison,
> {
    s.map_values(
        |p: EntityStatusPoison|
            if p.source@.object_id() == id && p.origin is None {
                EntityStatusPoison { source_removed: true, ..p }
            } else {
                p
            },
    )
}

/// `b` is `a` after object `id` stops being a source: its hits in flight
/// are dropped and its leases are orphaned; nothing else changes.
pub open spec fn spec_retired_source(a: ZoneRuntime, b: ZoneRuntime, id: u32) -> bool {
    &&& spec_same_outside_monsters_and_ledger(a, b)
    &&& b.native_monsters == a.native_monsters
    &&& match a.entity_combat {
        None => b.entity_combat is None,
        Some(st) => b.entity_combat matches Some(f) && {
            &&& f.hits@ == st.hits@.filter(spec_hit_source_keeps(id))
            &&& f.poisons@ == spec_mark_poisons(st.poisons@, id)
            &&& f.slows@ == spec_mark_slows(st.slows@, id)
            &&& f.controls@ == spec_mark_controls(st.controls@, id)
            &&& f.targets == st.targets
        },
    }
}

fn mark_poisons(v: &mut Vec<EntityGreenPoison>, id: u32)
    ensures
        final(v)@ == spec_mark_poisons(old(v)@, id),
{
    let mut i: usize = 0;
    while i < v.len()
        invariant
            0 <= i <= v@.len(),
            v@.len() == old(v)@.len(),
            forall|j: int| 0 <= j < i ==> v@[j] == spec_mark_poisons(old(v)@, id)[j],
            forall|j: int| i <= j < v@.len() ==> v@[j] == old(v)@[j],
        decreases v@.len() - i,
    {
        if v[i].source.object_id() == id {
            v[i].source_removed = true;
        }
        i += 1;
    }
    assert(v@ =~= spec_mark_poisons(old(v)@, id));
}

fn mark_slows(v: &mut Vec<EntitySlowPoison>, id: u32)
    ensures
        final(v)@ == spec_mark_slows(old(v)@, id),
{
    let mut i: usize = 0;
    while i < v.len()
        invariant
            0 <= i <= v@.len(),
            v@.len() == old(v)@.len(),
            forall|j: int| 0 <= j < i ==> v@[j] == spec_mark_slows(old(v)@, id)[j],
            forall|j: int| i <= j < v@.len() ==> v@[j] == old(v)@[j],
        decreases v@.len() - i,
    {
        if v[i].source.object_id() == id {
            v[i].source_removed = true;
        }
        i += 1;
    }
    assert(v@ =~= spec_mark_slows(old(v)@, id));
}

fn mark_controls(v: &mut Vec<EntityStatusPoison>, id: u32)
    ensures
        final(v)@ == spec_mark_controls(old(v)@, id),
{
    let mut i: usize = 0;
    while i < v.len()
        invariant
            0 <= i <= v@.len(),
            v@.len() == old(v)@.len(),
            forall|j: int| 0 <= j < i ==> v@[j] == spec_mark_controls(old(v)@, id)[j],
            forall|j: int| i <= j < v@.len() ==> v@[j] == old(v)@[j],
        decreases v@.len() - i,
    {
        if v[i].source.object_id() == id && v[i].origin.is_none() {
            v[i].source_removed = true;
        }
        i += 1;
    }
    assert(v@ =~= spec_mark_controls(old(v)@, id));
}

/// Player leases whose target is not a life of player object `id`.
pub open spec fn spec_not_player_target(t: EntityRefView, id: u32) -> bool {
    !(t matches EntityRefView::Player { object_id, .. } && object_id == id)
}

impl ZoneRuntime {
    /// The retirement of object `object_id` as a combat source (despawn or
    /// death): hits it launched are dropped, its leases are orphaned (they
    /// expire on their next tick), then its own life ends as a target.
    pub fn retire_entity_combat_life(&mut self, object_id: u32)
        ensures
            exists|mid: ZoneRuntime|
                spec_retired_source(*old(self), mid, object_id) && spec_cleared_target_life(
                    mid,
                    *final(self),
                    object_id,
                ),
    {
        match self.entity_combat.take() {
            Some(mut st) => {
                let ghost pred = spec_hit_source_keeps(object_id);
                retain_by(
                    &mut st.hits,
                    (|h: &EntityHit| -> (k: bool)
                        ensures
                            k == (h.source@.object_id() != object_id),
                        { h.source.object_id() != object_id }),
                    Ghost(pred),
                );
                mark_poisons(&mut st.poisons, object_id);
                mark_slows(&mut st.slows, object_id);
                mark_controls(&mut st.controls, object_id);
                self.entity_combat = Some(st);
            },
            None => {},
        }
        let ghost mid = *self;
        self.clear_entity_combat_target_life(object_id);
        assert(spec_retired_source(*old(self), mid, object_id));
    }

    /// Purification of player object `object_id`: every damage, slow and
    /// control lease on any life of that player is lifted; hits already in
    /// flight still land.
    pub fn clear_entity_player_poison_leases(&mut self, object_id: u32)
        ensures
            spec_same_outside_monsters_and_ledger(*old(self), *final(self)),
            final(self).native_monsters == old(self).native_monsters,
            match old(self).entity_combat {
                None => final(self).entity_combat is None,
                Some(st) => final(self).entity_combat matches Some(f) && {
                    &&& f.hits == st.hits
                    &&& f.targets == st.targets
                    &&& f.poisons@ == st.poisons@.filter(
                        |p: EntityGreenPoison| spec_not_player_target(p.target@, object_id),
                    )
                    &&& f.slows@ == st.slows@.filter(
                        |p: EntitySlowPoison| spec_not_player_target(p.target@, object_id),
                    )
                    &&& f.controls@ == st.controls@.filter(
                        |p: EntityStatusPoison| spec_not_player_target(p.target@, object_id),
                    )
                },
            },
    {
        match self.entity_combat.take() {
            Some(mut st) => {
                let ghost p1 = |p: EntityGreenPoison| spec_not_player_target(p.target@, object_id);
                let ghost p2 = |p: EntitySlowPoison| spec_not_player_target(p.target@, object_id);
                let ghost p3 = |p: EntityStatusPoison| spec_not_player_target(p.target@, object_id);
                retain_by(
                    &mut st.poisons,
                    (|p: &EntityGreenPoison| -> (k: bool)
                        ensures
                            k == spec_not_player_target(p.target@, object_id),
                        { !targets_player_object(&p.target, object_id) }),
                    Ghost(p1),
                );
                retain_by(
                    &mut st.slows,
                    (|p: &EntitySlowPoison| -> (k: bool)
                        ensures
                            k == spec_not_player_target(p.target@, object_id),
                        { !targets_player_object(&p.target, object_id) }),
                    Ghost(p2),
                );
                retain_by(
                    &mut st.controls,
                    (|p: &EntityStatusPoison| -> (k: bool)
                        ensures
                            k == spec_not_player_target(p.target@, object_id),
                        { !targets_player_object(&p.target, object_id) }),
                    Ghost(p3),
                );
                self.entity_combat = Some(st);
            },
            None => {},
        }
    }
}

/// Whether `t` names a life of player object `id`.
fn targets_player_object(t: &crate::types::EntityRef, id: u32) -> (r: bool)
    ensures
        r == !spec_not_player_target(t@, id),
{
    match t {
        crate::types::EntityRef::Player { object_id, .. } => *object_id == id,
        _ => false,
    }
}

} // verus!
