//! The lease clocks of the entity-combat ledger. On each combat tick the
//! control leases (red, frozen, paralysis, dazed) and then the slow leases
//! step in ledger order: a lease whose life or source is gone ends, and a
//! lease past its next tick counts one tick and ends when its count reaches
//! its duration. A running slow also worsens its monster's speeds on every
//! step, between its counted ticks too. A damage lease (green or bleeding)
//! steps one at a time, since the damage it deals must land before the
//! next lease steps.
use vstd::prelude::*;
use crate::types::{EntityRef, EntityRefView};
use crate::monster::NativeMonster;
use crate::zone::{ZoneRuntime, find_monster, spec_monster_index};
use crate::entity::{EntityGreenPoison, EntityPoisonOrigin, EntitySlowPoison, EntityStatusPoison, EntityCombatState, spec_ref_exists};
use crate::entity_status::{spec_monster_mask_set, spec_monster_replaced, spec_player_status_finished};
use crate::entity_poison::spec_slow_finished;
use crate::seqs::contains_u32;
use crate::entity_target::{spec_relations_ordered, spec_targets_pruned};

verus! {

/// A control lease after one counted tick at `now`.
pub open spec fn spec_control_counted(p: EntityStatusPoison, now: u64) -> EntityStatusPoison {
    EntityStatusPoison {
        count: p.count.saturating_add(1),
        next_tick_ms: now.saturating_add(p.tick_speed_ms),
        ..p
    }
}

/// Whether the source of a control lease still stands: a root-owned lease
/// needs its root among the `roots` standing now, any other its source life
/// (dead or alive) not yet marked removed.
pub open spec fn spec_control_source_stands(a: ZoneRuntime, p: EntityStatusPoison, roots: Seq<u32>) -> bool {
    match p.origin {
        Some(EntityPoisonOrigin::TreeQueenRoot { id, .. }) => roots.contains(id),
        None => !p.source_removed && spec_ref_exists(a, p.source@, true),
    }
}

/// One control lease stepping at `now` from zone `a` to zone `b`: when its
/// target life is gone or dead, or its source no longer stands, or it
/// counts its last tick, it ends and its bit leaves the life (`note` is the
/// life's new poison bits when they changed); otherwise it is kept
/// (`kept`), counted when `now` is past its next tick.
pub open spec fn spec_control_step(
    a: ZoneRuntime,
    b: ZoneRuntime,
    p: EntityStatusPoison,
    kept: Option<EntityStatusPoison>,
    note: Option<u16>,
    now: u64,
    roots: Seq<u32>,
) -> bool {
    let gone = !spec_ref_exists(a, p.target@, false) || !spec_control_source_stands(a, p, roots);
    let counted = !gone && now > p.next_tick_ms;
    let q = if counted { spec_control_counted(p, now) } else { p };
    if gone || (counted && q.count >= q.duration) {
        &&& kept is None
        &&& match p.target@ {
            EntityRefView::Monster { .. } => spec_monster_mask_set(a, b, p.target@, p.poison, false, note),
            EntityRefView::Player { .. } => spec_player_status_finished(a, b, p.target@, p.poison, note),
        }
    } else {
        kept == Some(q) && note is None && b == a
    }
}

/// The items of an optional value.
pub open spec fn spec_opt_items<T>(o: Option<T>) -> Seq<T> {
    match o {
        Some(x) => seq![x],
        None => Seq::empty(),
    }
}

/// The notice that life `id` now shows poison bits `n`, if they changed.
pub open spec fn spec_notice(id: u32, n: Option<u16>) -> Seq<(u32, u16)> {
    match n {
        Some(bits) => seq![(id, bits)],
        None => Seq::empty(),
    }
}

/// Zone `b`, the kept leases and the notices after the control leases `ps`
/// step in order from zone `a`.
pub open spec fn spec_controls_stepped(
    a: ZoneRuntime,
    b: ZoneRuntime,
    ps: Seq<EntityStatusPoison>,
    kept: Seq<EntityStatusPoison>,
    notices: Seq<(u32, u16)>,
    now: u64,
    roots: Seq<u32>,
) -> bool
    decreases ps.len(),
{
    if ps.len() == 0 {
        b == a && kept.len() == 0 && notices.len() == 0
    } else {
        exists|mid: ZoneRuntime, k: Option<EntityStatusPoison>, n: Option<u16>|
            #![trigger spec_control_step(mid, b, ps.last(), k, n, now, roots)]
            {
                let kp = kept.take(kept.len() - spec_opt_items(k).len());
                let np = notices.take(notices.len() - spec_notice(ps.last().target@.object_id(), n).len());
                &&& spec_opt_items(k).len() <= kept.len()
                &&& spec_notice(ps.last().target@.object_id(), n).len() <= notices.len()
                &&& spec_controls_stepped(a, mid, ps.drop_last(), kp, np, now, roots)
                &&& spec_control_step(mid, b, ps.last(), k, n, now, roots)
                &&& kept == kp + spec_opt_items(k)
                &&& notices == np + spec_notice(ps.last().target@.object_id(), n)
            }
    }
}

/// A slow lease after one counted tick at `now`.
pub open spec fn spec_slow_counted(s: EntitySlowPoison, now: u64) -> EntitySlowPoison {
    EntitySlowPoison {
        count: s.count.saturating_add(1),
        next_tick_ms: now.saturating_add(s.tick_speed_ms),
        ..s
    }
}

/// A speed worsened by one slow step: 100 ms slower, at most 3500 ms.
pub open spec fn spec_slower(ms: u64) -> u64 {
    if ms.saturating_add(100) < 3500 {
        ms.saturating_add(100)
    } else {
        3500
    }
}

/// One slow lease stepping at `now` from zone `a` to zone `b`: when its
/// target life is gone or dead, or its source is removed or gone, or it
/// counts its last tick, it ends (see [`spec_slow_finished`]); otherwise it
/// is kept (counted when `now` is past its next tick) and a monster target
/// becomes slower again, both speeds; this is a speed penalty, never a
/// freeze.
pub open spec fn spec_slow_step(
    a: ZoneRuntime,
    b: ZoneRuntime,
    s: EntitySlowPoison,
    kept: Option<EntitySlowPoison>,
    now: u64,
) -> bool {
    if !spec_ref_exists(a, s.target@, false) || s.source_removed || !spec_ref_exists(a, s.source@, true) {
        kept is None && spec_slow_finished(a, b, s, now)
    } else {
        let counted = now > s.next_tick_ms;
        let q = if counted { spec_slow_counted(s, now) } else { s };
        if counted && q.count >= q.duration {
            kept is None && spec_slow_finished(a, b, q, now)
        } else {
            &&& kept == Some(q)
            &&& match s.target@ {
                EntityRefView::Monster { object_id, .. } => {
                    let i = spec_monster_index(a.native_monsters@, object_id)->0;
                    let m = a.native_monsters@[i];
                    spec_monster_replaced(a, b, i, NativeMonster {
                        move_speed_ms: spec_slower(m.move_speed_ms),
                        attack_speed_ms: spec_slower(m.attack_speed_ms),
                        ..m
                    })
                },
                EntityRefView::Player { .. } => b == a,
            }
        }
    }
}

/// Zone `b` and the kept leases after the slow leases `ss` step in order
/// from zone `a`.
pub open spec fn spec_slows_stepped(
    a: ZoneRuntime,
    b: ZoneRuntime,
    ss: Seq<EntitySlowPoison>,
    kept: Seq<EntitySlowPoison>,
    now: u64,
) -> bool
    decreases ss.len(),
{
    if ss.len() == 0 {
        b == a && kept.len() == 0
    } else {
        exists|mid: ZoneRuntime, k: Option<EntitySlowPoison>|
            #![trigger spec_slow_step(mid, b, ss.last(), k, now)]
            {
                let kp = kept.take(kept.len() - spec_opt_items(k).len());
                &&& spec_opt_items(k).len() <= kept.len()
                &&& spec_slows_stepped(a, mid, ss.drop_last(), kp, now)
                &&& spec_slow_step(mid, b, ss.last(), k, now)
                &&& kept == kp + spec_opt_items(k)
            }
    }
}

proof fn lemma_controls_extend(
    a: ZoneRuntime,
    mid: ZoneRuntime,
    b: ZoneRuntime,
    ps: Seq<EntityStatusPoison>,
    kp: Seq<EntityStatusPoison>,
    np: Seq<(u32, u16)>,
    k: Option<EntityStatusPoison>,
    n: Option<u16>,
    now: u64,
    roots: Seq<u32>,
)
    requires
        ps.len() > 0,
        spec_controls_stepped(a, mid, ps.drop_last(), kp, np, now, roots),
        spec_control_step(mid, b, ps.last(), k, n, now, roots),
    ensures
        spec_controls_stepped(a, b, ps, kp + spec_opt_items(k), np + spec_notice(ps.last().target@.object_id(), n), now, roots),
{
    let kept = kp + spec_opt_items(k);
    let notices = np + spec_notice(ps.last().target@.object_id(), n);
    assert(kept.take(kept.len() - spec_opt_items(k).len()) =~= kp);
    assert(notices.take(notices.len() - spec_notice(ps.last().target@.object_id(), n).len()) =~= np);
}

proof fn lemma_slows_extend(
    a: ZoneRuntime,
    mid: ZoneRuntime,
    b: ZoneRuntime,
    ss: Seq<EntitySlowPoison>,
    kp: Seq<EntitySlowPoison>,
    k: Option<EntitySlowPoison>,
    now: u64,
)
    requires
        ss.len() > 0,
        spec_slows_stepped(a, mid, ss.drop_last(), kp, now),
        spec_slow_step(mid, b, ss.last(), k, now),
    ensures
        spec_slows_stepped(a, b, ss, kp + spec_opt_items(k), now),
{
    let kept = kp + spec_opt_items(k);
    assert(kept.take(kept.len() - spec_opt_items(k).len()) =~= kp);
}

/// Zone `b` after every control lease of zone `a`'s ledger stepped at
/// `now` in ledger order, keeping the running ones; `notices` are the
/// changed poison bits of lives whose lease ended.
pub open spec fn spec_control_leases_ticked(a: ZoneRuntime, b: ZoneRuntime, notices: Seq<(u32, u16)>, now: u64, roots: Seq<u32>) -> bool {
    match a.entity_combat {
        None => b == a && notices.len() == 0,
        Some(st) => b.entity_combat matches Some(st2) && st2 == (EntityCombatState { controls: st2.controls, ..st })
            && spec_controls_stepped(
            ZoneRuntime { entity_combat: None, ..a },
            ZoneRuntime { entity_combat: None, ..b },
            st.controls@,
            st2.controls@,
            notices,
            now,
            roots,
        ),
    }
}

/// Zone `b` after every slow lease of zone `a`'s ledger stepped at `now` in
/// ledger order, keeping the running ones.
pub open spec fn spec_slow_leases_ticked(a: ZoneRuntime, b: ZoneRuntime, now: u64) -> bool {
    match a.entity_combat {
        None => b == a,
        Some(st) => b.entity_combat matches Some(st2) && st2 == (EntityCombatState { slows: st2.slows, ..st })
            && spec_slows_stepped(
            ZoneRuntime { entity_combat: None, ..a },
            ZoneRuntime { entity_combat: None, ..b },
            st.slows@,
            st2.slows@,
            now,
        ),
    }
}

impl ZoneRuntime {
    fn step_control_lease(&mut self, p: EntityStatusPoison, now: u64, roots: &Vec<u32>) -> (r: (
        Option<EntityStatusPoison>,
        Option<u16>,
    ))
        ensures
            spec_control_step(*old(self), *final(self), p, r.0, r.1, now, roots@),
    {
        let root_standing = match p.origin {
            Some(EntityPoisonOrigin::TreeQueenRoot { id, .. }) => contains_u32(roots, id),
            None => false,
        };
        let gone = !self.entity_ref_exists(&p.target, false) || !self.entity_status_source_exists(
            &p,
            root_standing,
        );
        let counted = !gone && now > p.next_tick_ms;
        let q = if counted {
            EntityStatusPoison {
                count: p.count.saturating_add(1),
                next_tick_ms: now.saturating_add(p.tick_speed_ms),
                ..p
            }
        } else {
            p
        };
        if gone || (counted && q.count >= q.duration) {
            let note = if q.target.is_monster() {
                self.set_entity_monster_poison_mask(&q.target, q.poison, false)
            } else {
                self.finish_entity_player_status(&q.target, q.poison)
            };
            (None, note)
        } else {
            (Some(q), None)
        }
    }

    fn step_slow_lease(&mut self, s: EntitySlowPoison, now: u64) -> (r: Option<EntitySlowPoison>)
        ensures
            spec_slow_step(*old(self), *final(self), s, r, now),
    {
        if !self.entity_ref_exists(&s.target, false) || s.source_removed || !self.entity_ref_exists(
            &s.source,
            true,
        ) {
            self.finish_entity_slow(&s, now);
            return None;
        }
        let counted = now > s.next_tick_ms;
        let q = if counted {
            EntitySlowPoison {
                count: s.count.saturating_add(1),
                next_tick_ms: now.saturating_add(s.tick_speed_ms),
                ..s
            }
        } else {
            s
        };
        if counted && q.count >= q.duration {
            self.finish_entity_slow(&q, now);
            return None;
        }
        match &q.target {
            EntityRef::Monster { object_id, .. } => {
                let i = find_monster(&self.native_monsters, *object_id).unwrap();
                let ghost m0 = self.native_monsters@;
                let mv = self.native_monsters[i].move_speed_ms.saturating_add(100);
                let at = self.native_monsters[i].attack_speed_ms.saturating_add(100);
                self.native_monsters[i].move_speed_ms = if mv < 3500 { mv } else { 3500 };
                self.native_monsters[i].attack_speed_ms = if at < 3500 { at } else { 3500 };
                assert(self.native_monsters@ =~= m0.update(i as int, self.native_monsters@[i as int]));
            },
            EntityRef::Player { .. } => {},
        }
        Some(q)
    }

    /// Steps every control lease of the ledger at `now` (see
    /// [`spec_control_step`]); `roots` are the TreeQueen roots standing now.
    /// Returns, in ledger order, each life whose poison bits an ending lease
    /// changed, with its new bits.
    pub fn tick_entity_control_leases(&mut self, now: u64, roots: &Vec<u32>) -> (notices: Vec<(u32, u16)>)
        ensures
            spec_control_leases_ticked(*old(self), *final(self), notices@, now, roots@),
    {
        let mut state = match self.entity_combat.take() {
            Some(s) => s,
            None => {
                return Vec::new();
            },
        };
        let mut pending: Vec<EntityStatusPoison> = Vec::new();
        std::mem::swap(&mut pending, &mut state.controls);
        let total = pending.len();
        let ghost all = pending@;
        let ghost a = *self;
        let mut kept: Vec<EntityStatusPoison> = Vec::new();
        let mut notices: Vec<(u32, u16)> = Vec::new();
        let mut done: usize = 0;
        assert(all.take(0) =~= Seq::<EntityStatusPoison>::empty());
        while pending.len() > 0
            invariant
                done + pending@.len() == all.len(),
                all.len() == total,
                pending@ == all.subrange(done as int, all.len() as int),
                self.entity_combat is None,
                spec_controls_stepped(a, *self, all.take(done as int), kept@, notices@, now, roots@),
            decreases pending@.len(),
        {
            let ghost before = *self;
            let ghost kb = kept@;
            let ghost nb = notices@;
            let p = pending.remove(0);
            assert(p == all[done as int]);
            let id = p.target.object_id();
            let (k, n) = self.step_control_lease(p, now, roots);
            let ghost kg = k;
            let ghost ng = n;
            match k {
                Some(q) => kept.push(q),
                None => {},
            }
            match n {
                Some(bits) => notices.push((id, bits)),
                None => {},
            }
            proof {
                let t = all.take(done + 1);
                assert(t.drop_last() =~= all.take(done as int));
                assert(t.last() == all[done as int]);
                assert(kept@ =~= kb + spec_opt_items(kg));
                assert(notices@ =~= nb + spec_notice(t.last().target@.object_id(), ng));
                assert(spec_controls_stepped(a, before, t.drop_last(), kb, nb, now, roots@));
                assert(spec_control_step(before, *self, t.last(), kg, ng, now, roots@));
                lemma_controls_extend(a, before, *self, t, kb, nb, kg, ng, now, roots@);
            }
            done = done + 1;
            assert(pending@ =~= all.subrange(done as int, all.len() as int));
        }
        assert(all.take(done as int) =~= all);
        state.controls = kept;
        self.entity_combat = Some(state);
        notices
    }

    /// Steps every slow lease of the ledger at `now` (see
    /// [`spec_slow_step`]).
    pub fn tick_entity_slow_leases(&mut self, now: u64)
        ensures
            spec_slow_leases_ticked(*old(self), *final(self), now),
    {
        let mut state = match self.entity_combat.take() {
            Some(s) => s,
            None => {
                return;
            },
        };
        let mut pending: Vec<EntitySlowPoison> = Vec::new();
        std::mem::swap(&mut pending, &mut state.slows);
        let total = pending.len();
        let ghost all = pending@;
        let ghost a = *self;
        let mut kept: Vec<EntitySlowPoison> = Vec::new();
        let mut done: usize = 0;
        assert(all.take(0) =~= Seq::<EntitySlowPoison>::empty());
        while pending.len() > 0
            invariant
                done + pending@.len() == all.len(),
                all.len() == total,
                pending@ == all.subrange(done as int, all.len() as int),
                self.entity_combat is None,
                spec_slows_stepped(a, *self, all.take(done as int), kept@, now),
            decreases pending@.len(),
        {
            let ghost before = *self;
            let ghost kb = kept@;
            let s = pending.remove(0);
            assert(s == all[done as int]);
            let k = self.step_slow_lease(s, now);
            let ghost kg = k;
            match k {
                Some(q) => kept.push(q),
                None => {},
            }
            proof {
                let t = all.take(done + 1);
                assert(t.drop_last() =~= all.take(done as int));
                assert(t.last() == all[done as int]);
                assert(kept@ =~= kb + spec_opt_items(kg));
                assert(spec_slows_stepped(a, before, t.drop_last(), kb, now));
                assert(spec_slow_step(before, *self, t.last(), kg, now));
                lemma_slows_extend(a, before, *self, t, kb, kg, now);
            }
            done = done + 1;
            assert(pending@ =~= all.subrange(done as int, all.len() as int));
        }
        assert(all.take(done as int) =~= all);
        state.slows = kept;
        self.entity_combat = Some(state);
    }
}

/// What one step of a damage lease gives back.
#[derive(Debug)]
pub enum DamageLeaseStep {
    /// The lease's target life is gone or dead: it is dropped silently.
    Dropped,
    /// The lease ended and its bit left the monster; `notice` is the
    /// monster's new poison bits when they changed.
    Ended { notice: Option<u16> },
    /// The lease runs on. When it counted a tick, `bleed_effect` tells
    /// whether the bleeding effect shows and `damage` is what it deals now
    /// (nothing for a lease of no strength).
    Kept { lease: EntityGreenPoison, bleed_effect: bool, damage: Option<i32> },
}

/// A damage lease after one counted tick at `now`.
pub open spec fn spec_damage_counted(p: EntityGreenPoison, now: u64) -> EntityGreenPoison {
    EntityGreenPoison {
        count: p.count.saturating_add(1),
        next_tick_ms: now.saturating_add(p.tick_speed_ms),
        ..p
    }
}

/// One damage lease stepping at `now` from zone `a` to zone `b`: dropped
/// when its target life is gone or dead; ended, clearing its bit, when its
/// source is removed or gone or when it counts its last tick; otherwise
/// kept, counted when `now` is past its next tick.
pub open spec fn spec_damage_step(a: ZoneRuntime, b: ZoneRuntime, p: EntityGreenPoison, r: DamageLeaseStep, now: u64) -> bool {
    if !spec_ref_exists(a, p.target@, false) {
        r is Dropped && b == a
    } else if p.source_removed || !spec_ref_exists(a, p.source@, true) || (now > p.next_tick_ms
        && spec_damage_counted(p, now).count >= p.duration) {
        r matches DamageLeaseStep::Ended { notice } && spec_monster_mask_set(a, b, p.target@, p.poison, false, notice)
    } else {
        &&& b == a
        &&& r matches DamageLeaseStep::Kept { lease, bleed_effect, damage } && if now > p.next_tick_ms {
            &&& lease == spec_damage_counted(p, now)
            &&& bleed_effect == (p.poison == 128)
            &&& damage == if p.value > 0 { Some(p.value) } else { None::<i32> }
        } else {
            lease == p && !bleed_effect && damage is None
        }
    }
}

impl ZoneRuntime {
    /// One step of the damage lease `p` at `now` (see
    /// [`spec_damage_step`]). The caller applies the damage, and keeps the
    /// running lease only while its target still lives afterwards.
    pub fn step_entity_damage_lease(&mut self, p: EntityGreenPoison, now: u64) -> (r: DamageLeaseStep)
        ensures
            spec_damage_step(*old(self), *final(self), p, r, now),
    {
        if !self.entity_ref_exists(&p.target, false) {
            return DamageLeaseStep::Dropped;
        }
        let counted = now > p.next_tick_ms;
        let count = p.count.saturating_add(1);
        if p.source_removed || !self.entity_ref_exists(&p.source, true) || (counted && count >= p.duration) {
            let notice = self.set_entity_monster_poison_mask(&p.target, p.poison, false);
            return DamageLeaseStep::Ended { notice };
        }
        if counted {
            let bleed_effect = p.poison == 128;
            let damage = if p.value > 0 {
                Some(p.value)
            } else {
                None
            };
            let lease = EntityGreenPoison { count, next_tick_ms: now.saturating_add(p.tick_speed_ms), ..p };
            DamageLeaseStep::Kept { lease, bleed_effect, damage }
        } else {
            DamageLeaseStep::Kept { lease: p, bleed_effect: false, damage: None }
        }
    }
}

impl ZoneRuntime {
    /// The lease part of a combat tick at `now`: relations whose source
    /// lost its target are dropped, then the control leases and then the
    /// slow leases step. Returns the notices of the control leases that
    /// ended. Damage leases and launched hits step after this, one at a time
    /// (see [`ZoneRuntime::step_entity_damage_lease`]).
    pub fn tick_entity_combat_leases(&mut self, now: u64, roots: &Vec<u32>) -> (notices: Vec<(u32, u16)>)
        requires
            old(self).entity_combat matches Some(st) ==> spec_relations_ordered(st.targets@),
        ensures
            exists|pruned: ZoneRuntime, controlled: ZoneRuntime|
                #![trigger spec_targets_pruned(*old(self), pruned, now), spec_slow_leases_ticked(controlled, *final(self), now)]
                spec_targets_pruned(*old(self), pruned, now) && spec_control_leases_ticked(
                    pruned,
                    controlled,
                    notices@,
                    now,
                    roots@,
                ) && spec_slow_leases_ticked(controlled, *final(self), now),
    {
        self.prune_native_entity_targets(now);
        let ghost pruned = *self;
        let notices = self.tick_entity_control_leases(now, roots);
        let ghost controlled = *self;
        self.tick_entity_slow_leases(now);
        assert(spec_targets_pruned(*old(self), pruned, now));
        assert(spec_slow_leases_ticked(controlled, *self, now));
        notices
    }
}

} // verus!
