//! Target relations: which life each wild monster is currently bound to.
use vstd::prelude::*;
use crate::types::{EntityRef, EntityRefView, Point, opt_ref_view, spec_tile_distance, tile_distance};
use crate::zone::{ZoneRuntime, find_monster, find_player};
use crate::entity::{
    EntityCombatState, EntityTargetPurpose, EntityTargetRelation, NativeEntityTarget,
    spec_can_attack, spec_monster, spec_monster_ref, spec_player, spec_ref_exists,
};
use crate::entity_life::spec_same_outside_monsters_and_ledger;
use crate::seqs::retain_by;

verus! {

/// Relations in ascending source order, one per source.
pub open spec fn spec_relations_ordered(s: Seq<EntityTargetRelation>) -> bool {
    forall|i: int, j: int| 0 <= i < j < s.len() ==> s[i].source_id < s[j].source_id
}

/// The relation of source `id`, if any.
pub open spec fn spec_relation_of(s: Seq<EntityTargetRelation>, id: u32) -> Option<
    EntityTargetRelation,
> {
    if exists|i: int| 0 <= i < s.len() && s[i].source_id == id {
        Some(s[choose|i: int| 0 <= i < s.len() && s[i].source_id == id])
    } else {
        None
    }
}

/// The position of the life a reference names, if that entity is present.
pub open spec fn spec_ref_position(rt: ZoneRuntime, r: EntityRefView) -> Option<Point> {
    match r {
        EntityRefView::Player { session, .. } => match spec_player(rt, session) {
            Some(p) => Some(p.position),
            None => None,
        },
        EntityRefView::Monster { object_id, .. } => match spec_monster(rt, object_id) {
            Some(m) => Some(m.position),
            None => None,
        },
    }
}

/// The current target of `source_id`: its relation, while the source lives,
/// may still act on the target, and the target stays within the data range
/// (16 tiles) of the source.
pub open spec fn spec_selected_target(rt: ZoneRuntime, source_id: u32, now: u64) -> Option<
    (EntityRefView, Point),
> {
    match rt.entity_combat {
        None => None,
        Some(st) => match spec_relation_of(st.targets@, source_id) {
            None => None,
            Some(rel) => {
                if !spec_ref_exists(rt, rel.source@, false) || !spec_can_attack(
                    rt,
                    rel.source@,
                    rel.target@,
                    EntityTargetPurpose::Impact,
                    now,
                ) {
                    None
                } else {
                    match (spec_ref_position(rt, rel.target@), spec_monster(rt, source_id)) {
                        (Some(pos), Some(src)) => if spec_tile_distance(src.position, pos) > 16 {
                            None
                        } else {
                            Some((rel.target@, pos))
                        },
                        _ => None,
                    }
                }
            },
        },
    }
}

/// The index of the relation of `id` in an ordered list, or where it goes.
fn relation_position(s: &Vec<EntityTargetRelation>, id: u32) -> (r: usize)
    requires
        spec_relations_ordered(s@),
    ensures
        r <= s@.len(),
        forall|j: int| 0 <= j < r ==> s@[j].source_id < id,
        forall|j: int| r <= j < s@.len() ==> s@[j].source_id >= id,
{
    let mut p: usize = 0;
    while p < s.len() && s[p].source_id < id
        invariant
            0 <= p <= s@.len(),
            forall|j: int| 0 <= j < p ==> s@[j].source_id < id,
        decreases s@.len() - p,
    {
        p += 1;
    }
    if p < s.len() {
        assert forall|j: int| p <= j < s@.len() implies s@[j].source_id >= id by {
            if j > p {
                assert(s@[p as int].source_id < s@[j].source_id);
            }
        }
    }
    p
}

/// The zone `b` after the wild monster `source_id` of zone `a` is bound to
/// `target` at `now`: the binding happens (`r`) exactly when the source
/// lives and may act on the target; it then replaces any earlier relation of
/// that source, keeps every other relation and the relations ordered, and
/// touches nothing else.
pub open spec fn spec_native_target_set(
    a: ZoneRuntime,
    b: ZoneRuntime,
    source_id: u32,
    target: EntityRefView,
    now: u64,
    r: bool,
) -> bool {
    &&& r == (spec_monster_ref(a, source_id) is Some && spec_ref_exists(
        a,
        spec_monster_ref(a, source_id).unwrap(),
        false,
    ) && spec_can_attack(a, spec_monster_ref(a, source_id).unwrap(), target, EntityTargetPurpose::Impact, now))
    &&& spec_same_outside_monsters_and_ledger(a, b)
    &&& b.native_monsters == a.native_monsters
    &&& !r ==> b.entity_combat == a.entity_combat
    &&& r ==> (b.entity_combat matches Some(f) && {
        &&& spec_relations_ordered(f.targets@)
        &&& (spec_relation_of(f.targets@, source_id) matches Some(rel) && rel.source@
            == spec_monster_ref(a, source_id).unwrap() && rel.target@ == target)
        &&& forall|k: u32|
            k != source_id ==> spec_relation_of(f.targets@, k) == match a.entity_combat {
                Some(st) => spec_relation_of(st.targets@, k),
                None => None,
            }
        &&& match a.entity_combat {
            Some(st) => f.hits == st.hits && f.poisons == st.poisons && f.slows == st.slows
                && f.controls == st.controls,
            None => f.hits@.len() == 0 && f.poisons@.len() == 0 && f.slows@.len() == 0
                && f.controls@.len() == 0,
        }
    })
}

/// The zone `b` after the wild monster `source_id` of zone `a` is unbound
/// from its target: its relations leave the ledger, nothing else changes.
pub open spec fn spec_native_target_cleared(a: ZoneRuntime, b: ZoneRuntime, source_id: u32) -> bool {
    &&& spec_same_outside_monsters_and_ledger(a, b)
    &&& b.native_monsters == a.native_monsters
    &&& match a.entity_combat {
        None => b.entity_combat is None,
        Some(st) => b.entity_combat matches Some(f) && f.hits == st.hits
            && f.poisons == st.poisons && f.slows == st.slows && f.controls == st.controls
            && f.targets@ == st.targets@.filter(
            |r: EntityTargetRelation| r.source_id != source_id,
        ),
    }
}

impl ZoneRuntime {
    /// Binds the wild monster `source_id` to `target` (summon inheritance or
    /// forced targeting; no sight needed) when the source lives and may act
    /// on the target; replaces any earlier relation of that source.
    #[verifier::rlimit(80)]
    pub fn set_native_entity_target(&mut self, source_id: u32, target: &EntityRef, now: u64) -> (r:
        bool)
        requires
            old(self).entity_combat matches Some(st) ==> spec_relations_ordered(st.targets@),
        ensures
            spec_native_target_set(*old(self), *final(self), source_id, target@, now, r),
    {
        let source = match self.native_entity_monster_ref(source_id) {
            Some(s) => s,
            None => {
                return false;
            },
        };
        if !self.entity_ref_exists(&source, false) || !self.native_entity_can_attack(
            &source,
            target,
            EntityTargetPurpose::Impact,
            now,
        ) {
            return false;
        }
        let mut st = match self.entity_combat.take() {
            Some(st) => st,
            None => EntityCombatState::new(),
        };
        let ghost before = st.targets@;
        let p = relation_position(&st.targets, source_id);
        let rel = EntityTargetRelation { source_id, source, target: target.duplicate() };
        if p < st.targets.len() && st.targets[p].source_id == source_id {
            st.targets.set(p, rel);
            proof {
                let after = st.targets@;
                assert forall|k: u32| k != source_id implies spec_relation_of(after, k)
                    == spec_relation_of(before, k) by {
                    if exists|i: int| 0 <= i < after.len() && after[i].source_id == k {
                        let i = choose|i: int| 0 <= i < after.len() && after[i].source_id == k;
                        assert(before[i].source_id == k);
                        let i2 = choose|i: int| 0 <= i < before.len() && before[i].source_id == k;
                        if i != i2 {
                            if i < i2 {
                                assert(before[i].source_id < before[i2].source_id);
                            } else {
                                assert(before[i2].source_id < before[i].source_id);
                            }
                        }
                    } else {
                        if exists|i: int| 0 <= i < before.len() && before[i].source_id == k {
                            let i = choose|i: int| 0 <= i < before.len() && before[i].source_id == k;
                            assert(after[i].source_id == k);
                        }
                    }
                }
                let c = choose|i: int| 0 <= i < after.len() && after[i].source_id == source_id;
                assert(after[p as int].source_id == source_id);
                if c != p as int {
                    if c < p as int {
                        assert(after[c].source_id < after[p as int].source_id);
                    } else {
                        assert(after[p as int].source_id < after[c].source_id);
                    }
                }
            }
        } else {
            st.targets.insert(p, rel);
            proof {
                let after = st.targets@;
                assert(after =~= before.insert(p as int, after[p as int]));
                assert forall|i: int, j: int| 0 <= i < j < after.len() implies after[i].source_id
                    < after[j].source_id by {
                    if i < p && j > p {
                        assert(after[j] == before[j - 1]);
                    } else if j > p && i > p {
                        assert(after[i] == before[i - 1]);
                        assert(after[j] == before[j - 1]);
                    } else if i == p as int {
                        assert(after[j] == before[j - 1]);
                    }
                }
                assert forall|k: u32| k != source_id implies spec_relation_of(after, k)
                    == spec_relation_of(before, k) by {
                    if exists|i: int| 0 <= i < after.len() && after[i].source_id == k {
                        let i = choose|i: int| 0 <= i < after.len() && after[i].source_id == k;
                        let bi = if i < p { i } else { i - 1 };
                        assert(before[bi].source_id == k);
                        let i2 = choose|i: int| 0 <= i < before.len() && before[i].source_id == k;
                        if bi != i2 {
                            if bi < i2 {
                                assert(before[bi].source_id < before[i2].source_id);
                            } else {
                                assert(before[i2].source_id < before[bi].source_id);
                            }
                        }
                    } else {
                        if exists|i: int| 0 <= i < before.len() && before[i].source_id == k {
                            let i = choose|i: int| 0 <= i < before.len() && before[i].source_id == k;
                            let ai = if i < p { i } else { i + 1 };
                            assert(after[ai].source_id == k);
                        }
                    }
                }
                let c = choose|i: int| 0 <= i < after.len() && after[i].source_id == source_id;
                assert(after[p as int].source_id == source_id);
                if c != p as int {
                    if c < p as int {
                        assert(after[c].source_id < after[p as int].source_id);
                    } else {
                        assert(after[p as int].source_id < after[c].source_id);
                    }
                }
            }
        }
        self.entity_combat = Some(st);
        true
    }

    /// Unbinds the wild monster `source_id` from its target.
    pub fn clear_native_entity_target(&mut self, source_id: u32)
        ensures
            spec_native_target_cleared(*old(self), *final(self), source_id),
    {
        match self.entity_combat.take() {
            Some(mut st) => {
                let ghost pred = |r: EntityTargetRelation| r.source_id != source_id;
                retain_by(
                    &mut st.targets,
                    (|r: &EntityTargetRelation| -> (k: bool)
                        ensures
                            k == (r.source_id != source_id),
                        { r.source_id != source_id }),
                    Ghost(pred),
                );
                self.entity_combat = Some(st);
            },
            None => {},
        }
    }
}


/// The index of the relation of `id`, if any.
fn find_relation(s: &Vec<EntityTargetRelation>, id: u32) -> (r: Option<usize>)
    requires
        spec_relations_ordered(s@),
    ensures
        match r {
            Some(i) => i < s@.len() && s@[i as int].source_id == id && spec_relation_of(s@, id)
                == Some(s@[i as int]),
            None => spec_relation_of(s@, id) is None,
        },
{
    let p = relation_position(s, id);
    if p < s.len() && s[p].source_id == id {
        proof {
            let c = choose|i: int| 0 <= i < s@.len() && s@[i].source_id == id;
            if c != p as int {
                if c < p as int {
                    assert(s@[c].source_id < s@[p as int].source_id);
                } else {
                    assert(s@[p as int].source_id < s@[c].source_id);
                }
            }
        }
        Some(p)
    } else {
        None
    }
}

/// Zone `b` is zone `a` with every relation whose source no longer has a
/// current target at `now` dropped.
pub open spec fn spec_targets_pruned(a: ZoneRuntime, b: ZoneRuntime, now: u64) -> bool {
    &&& spec_same_outside_monsters_and_ledger(a, b)
    &&& b.native_monsters == a.native_monsters
    &&& match a.entity_combat {
        None => b.entity_combat is None,
        Some(st) => b.entity_combat matches Some(f) && f.hits == st.hits && f.poisons == st.poisons
            && f.slows == st.slows && f.controls == st.controls && f.targets@ == st.targets@.filter(
            |r: EntityTargetRelation| spec_selected_target(a, r.source_id, now) is Some,
        ),
    }
}

impl ZoneRuntime {
    /// The position of the life `r` names, if that entity is present.
    pub fn entity_ref_position(&self, r: &EntityRef) -> (p: Option<Point>)
        ensures
            p == spec_ref_position(*self, r@),
    {
        match r {
            EntityRef::Player { session_id, .. } => match find_player(&self.players, session_id) {
                Some(i) => Some(self.players[i].position),
                None => None,
            },
            EntityRef::Monster { object_id, .. } => match find_monster(
                &self.native_monsters,
                *object_id,
            ) {
                Some(i) => Some(self.native_monsters[i].position),
                None => None,
            },
        }
    }

    /// The current target of `source_id` (see [`spec_selected_target`]).
    pub fn selected_native_entity_target(&self, source_id: u32, now: u64) -> (r: Option<
        NativeEntityTarget,
    >)
        requires
            self.entity_combat matches Some(st) ==> spec_relations_ordered(st.targets@),
        ensures
            match r {
                None => spec_selected_target(*self, source_id, now) is None,
                Some(t) => spec_selected_target(*self, source_id, now) == Some(
                    (t.reference@, t.position),
                ) && t.object_id == t.reference@.object_id(),
            },
    {
        let st = match &self.entity_combat {
            Some(st) => st,
            None => {
                return None;
            },
        };
        let k = match find_relation(&st.targets, source_id) {
            Some(k) => k,
            None => {
                return None;
            },
        };
        let rel = &st.targets[k];
        if !self.entity_ref_exists(&rel.source, false) || !self.native_entity_can_attack(
            &rel.source,
            &rel.target,
            EntityTargetPurpose::Impact,
            now,
        ) {
            return None;
        }
        let position = match self.entity_ref_position(&rel.target) {
            Some(p) => p,
            None => {
                return None;
            },
        };
        let si = match find_monster(&self.native_monsters, source_id) {
            Some(i) => i,
            None => {
                return None;
            },
        };
        if tile_distance(&self.native_monsters[si].position, &position) > 16 {
            return None;
        }
        Some(
            NativeEntityTarget {
                reference: rel.target.duplicate(),
                object_id: rel.target.object_id(),
                position,
            },
        )
    }

    /// Drops every relation whose source no longer has a current target.
    pub fn prune_native_entity_targets(&mut self, now: u64)
        requires
            old(self).entity_combat matches Some(st) ==> spec_relations_ordered(st.targets@),
        ensures
            spec_targets_pruned(*old(self), *final(self), now),
    {
        let ghost before = *self;
        let n = match &self.entity_combat {
            Some(st) => st.targets.len(),
            None => {
                return;
            },
        };
        let mut keep: Vec<bool> = Vec::new();
        let mut i: usize = 0;
        while i < n
            invariant
                *self == before,
                self.entity_combat matches Some(st) && st.targets@.len() == n
                    && spec_relations_ordered(st.targets@),
                0 <= i <= n,
                keep@.len() == i,
                forall|j: int| 0 <= j < i ==> keep@[j] == (spec_selected_target(
                    before,
                    self.entity_combat.unwrap().targets@[j].source_id,
                    now,
                ) is Some),
            decreases n - i,
        {
            let id = match &self.entity_combat {
                Some(st) => st.targets[i].source_id,
                None => 0,
            };
            let sel = self.selected_native_entity_target(id, now);
            keep.push(sel.is_some());
            i += 1;
        }
        let ghost pred = |r: EntityTargetRelation| spec_selected_target(before, r.source_id, now) is Some;
        let mut st = self.entity_combat.take().unwrap();
        let ghost all = st.targets@;
        let ghost st0 = before.entity_combat.unwrap();
        let mut out: Vec<EntityTargetRelation> = Vec::new();
        let mut j: usize = 0;
        while j < n
            invariant
                0 <= j <= n,
                st.hits == st0.hits,
                st.poisons == st0.poisons,
                st.slows == st0.slows,
                st.controls == st0.controls,
                all == st0.targets@,
                spec_same_outside_monsters_and_ledger(before, *self),
                self.native_monsters == before.native_monsters,
                self.entity_combat is None,
                n == all.len(),
                keep@.len() == n,
                forall|q: int| 0 <= q < n ==> keep@[q] == pred(all[q]),
                st.targets@ == all.skip(j as int),
                out@ == all.take(j as int).filter(pred),
            decreases n - j,
        {
            let r = st.targets.remove(0);
            proof {
                assert(all.skip(j as int)[0] == all[j as int]);
                assert(all.skip(j as int).remove(0) =~= all.skip(j + 1));
                reveal_with_fuel(Seq::filter, 1);
                assert(all.take(j + 1).drop_last() =~= all.take(j as int));
            }
            if keep[j] {
                out.push(r);
            }
            j += 1;
        }
        proof {
            assert(all.take(n as int) =~= all);
        }
        st.targets = out;
        self.entity_combat = Some(st);
    }
}

} // verus!
