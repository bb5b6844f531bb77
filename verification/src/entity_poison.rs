//! Damage and slow leases on entities: a wild monster's green lease (the
//! strongest stands) and bleeding lease (the longest stands) on a monster
//! life, green on a player life through the counted periodic lease, the
//! HellBomb's statuses, slow leases and their end, and the TreeQueen root's
//! paralysis.
use vstd::prelude::*;
use crate::types::{EntityRef, EntityRefView};
use crate::monster::{spec_current_poison, current_poison, ZonePlayer};
use crate::zone::{find_monster, find_player, spec_player_index};
use crate::entity::{EntityPoisonOrigin, EntitySlowPoison, EntityStatusPoison, spec_monster, spec_player, spec_poison_resist};
use crate::entity_status::{spec_status_admitted, spec_status_outcome, spec_player_status_applied, spec_player_status_lifted, spec_player_replaced, spec_controls, apply_player_status_bit};
use crate::monster::NativeMonster;
use crate::zone::{spec_monster_index, ZoneRuntime};
use crate::entity::{EntityCombatState, EntityGreenPoison, EntityTargetPurpose, spec_can_attack, spec_ref_exists};
use crate::entity_status::{spec_mask_after, spec_monster_replaced};
use crate::ai::periodic::{spec_periodic_admitted, spec_periodic_applied};
use crate::seqs::retain_by;

verus! {

/// The zone after the green bit is set on the monster life `target` (when
/// that life exists).
pub open spec fn spec_green_marked(a: ZoneRuntime, b: ZoneRuntime, target: EntityRefView) -> bool {
    let id = target.object_id();
    if !spec_ref_exists(a, target, true) || spec_monster_index(a.native_monsters@, id) is None {
        b == a
    } else {
        let i = spec_monster_index(a.native_monsters@, id)->0;
        let m = a.native_monsters@[i];
        spec_monster_replaced(a, b, i, NativeMonster { entity_poison: spec_mask_after(m.entity_poison, 1, true), ..m })
    }
}

/// The green leases a ledger holds (none without a ledger).
pub open spec fn spec_green_leases(ledger: Option<EntityCombatState>) -> Seq<EntityGreenPoison> {
    match ledger {
        Some(s) => s.poisons@,
        None => Seq::empty(),
    }
}

/// Whether a lease is a green one on `target`.
pub open spec fn spec_green_on(p: EntityGreenPoison, target: EntityRefView) -> bool {
    p.target@ == target && p.poison == 1
}

/// Leases other than the green one on `target`.
pub open spec fn spec_not_green_on(target: EntityRefView) -> spec_fn(EntityGreenPoison) -> bool {
    |p: EntityGreenPoison| !spec_green_on(p, target)
}

/// Whether a running green lease on `target` is stronger than `value`.
pub open spec fn spec_stronger_green(leases: Seq<EntityGreenPoison>, target: EntityRefView, value: i32) -> bool {
    exists|i: int| 0 <= i < leases.len() && spec_green_on(leases[i], target) && leases[i].value > value
}

/// A ledger that is `before` (or a fresh empty one) with only its leases
/// possibly changed.
pub open spec fn spec_ledger_base(before: Option<EntityCombatState>, st: EntityCombatState) -> bool {
    match before {
        Some(s) => st == (EntityCombatState { poisons: st.poisons, ..s }),
        None => st.hits@.len() == 0 && st.slows@.len() == 0 && st.controls@.len() == 0 && st.targets@.len() == 0,
    }
}

/// What green poison from `source` on `target` does: nothing unless the
/// lease has a duration, a non-negative strength and `source` may act on
/// `target`; on a player life the counted periodic lease; on a monster
/// life, unless a stronger green lease runs, the life's green lease is
/// replaced (appended last) and its green bit set.
pub open spec fn spec_green_poison_outcome(
    a: ZoneRuntime,
    b: ZoneRuntime,
    r: bool,
    source: EntityRefView,
    target: EntityRefView,
    value: i32,
    duration: u64,
    tick_speed_ms: u64,
    now: u64,
) -> bool {
    if duration == 0 || value < 0 || !spec_can_attack(a, source, target, EntityTargetPurpose::Impact, now) {
        !r && b == a
    } else {
        match target {
            EntityRefView::Player { session, object_id, .. } => {
                &&& r == spec_periodic_admitted(a, session, object_id, 1, value, duration)
                &&& !r ==> b == a
                &&& r ==> spec_periodic_applied(a, b, source.object_id(), session, object_id, 1, value, duration, tick_speed_ms)
            },
            EntityRefView::Monster { .. } => {
                let leases = spec_green_leases(a.entity_combat);
                if spec_stronger_green(leases, target, value) {
                    &&& !r
                    &&& b.entity_combat matches Some(st) && spec_ledger_base(a.entity_combat, st) && st.poisons@ == leases
                    &&& b == (ZoneRuntime { entity_combat: b.entity_combat, ..a })
                } else {
                    &&& r
                    &&& exists|mid: ZoneRuntime|
                        mid == (ZoneRuntime { entity_combat: mid.entity_combat, ..a }) && (mid.entity_combat matches Some(st)
                            && spec_ledger_base(a.entity_combat, st) && st.poisons@.drop_last() == leases.filter(
                            spec_not_green_on(target),
                        ) && st.poisons@.len() == leases.filter(spec_not_green_on(target)).len() + 1 && {
                            let p = st.poisons@.last();
                            &&& p.poison == 1
                            &&& p.source@ == source
                            &&& p.target@ == target
                            &&& p.value == value
                            &&& p.duration == duration
                            &&& p.count == 0
                            &&& p.tick_speed_ms == (if tick_speed_ms == 0 { 1 } else { tick_speed_ms })
                            &&& p.next_tick_ms == 0
                            &&& !p.source_removed
                        }) && spec_green_marked(mid, b, target)
                }
            },
        }
    }
}

fn stronger_green(leases: &Vec<EntityGreenPoison>, target: &EntityRef, value: i32) -> (r: bool)
    ensures
        r == spec_stronger_green(leases@, target@, value),
{
    let mut i: usize = 0;
    while i < leases.len()
        invariant
            0 <= i <= leases@.len(),
            forall|j: int| 0 <= j < i ==> !(spec_green_on(#[trigger] leases@[j], target@) && leases@[j].value > value),
        decreases leases@.len() - i,
    {
        if leases[i].target.same(target) && leases[i].poison == 1 && leases[i].value > value {
            assert(spec_green_on(leases@[i as int], target@) && leases@[i as int].value > value);
            return true;
        }
        i += 1;
    }
    false
}

impl ZoneRuntime {
    /// A wild monster's green poison from `source` lands on `target`.
    /// Returns whether a lease was started.
    pub fn apply_native_entity_green_poison(
        &mut self,
        source: &EntityRef,
        target: &EntityRef,
        value: i32,
        duration: u64,
        tick_speed_ms: u64,
        now: u64,
    ) -> (r: bool)
        ensures
            spec_green_poison_outcome(*old(self), *final(self), r, source@, target@, value, duration, tick_speed_ms, now),
    {
        if duration == 0 || value < 0 || !self.native_entity_can_attack(source, target, EntityTargetPurpose::Impact, now) {
            return false;
        }
        match target {
            EntityRef::Player { session_id, object_id, .. } => {
                return self.apply_native_player_green_poison(
                    source.object_id(),
                    session_id,
                    *object_id,
                    value,
                    duration,
                    tick_speed_ms,
                );
            },
            EntityRef::Monster { .. } => {},
        }
        let mut st = match self.entity_combat.take() {
            Some(st) => st,
            None => EntityCombatState::new(),
        };
        let ghost before = st;
        assert(before.poisons@ == spec_green_leases(old(self).entity_combat));
        if stronger_green(&st.poisons, target, value) {
            self.entity_combat = Some(st);
            return false;
        }
        let ghost k = spec_not_green_on(target@);
        retain_by(
            &mut st.poisons,
            (|p: &EntityGreenPoison| -> (r: bool)
                ensures
                    r == !spec_green_on(*p, target@),
                { !(p.target.same(target) && p.poison == 1) }),
            Ghost(k),
        );
        st.poisons.push(
            EntityGreenPoison {
                poison: 1,
                source: source.duplicate(),
                target: target.duplicate(),
                value,
                duration,
                count: 0,
                tick_speed_ms: if tick_speed_ms == 0 { 1 } else { tick_speed_ms },
                next_tick_ms: 0,
                source_removed: false,
            },
        );
        self.entity_combat = Some(st);
        let ghost mid = *self;
        assert(mid.entity_combat->0.poisons@.drop_last() =~= before.poisons@.filter(k));
        assert(before.poisons@ == spec_green_leases(old(self).entity_combat));
        assert(spec_ledger_base(old(self).entity_combat, mid.entity_combat->0));
        assert(mid == (ZoneRuntime { entity_combat: mid.entity_combat, ..*old(self) }));
        let _ = self.set_entity_green_mask(target, true);
        assert(spec_green_marked(mid, *self, target@));
        true
    }
}

/// The zone after status `bit` is set on the monster life `target` (when
/// that life exists).
pub open spec fn spec_bit_marked(a: ZoneRuntime, b: ZoneRuntime, target: EntityRefView, bit: u16) -> bool {
    let id = target.object_id();
    if !spec_ref_exists(a, target, true) || spec_monster_index(a.native_monsters@, id) is None {
        b == a
    } else {
        let i = spec_monster_index(a.native_monsters@, id)->0;
        let m = a.native_monsters@[i];
        spec_monster_replaced(a, b, i, NativeMonster { entity_poison: spec_mask_after(m.entity_poison, bit, true), ..m })
    }
}

/// Whether a lease is a bleeding (128) one on `target`.
pub open spec fn spec_bleed_on(p: EntityGreenPoison, target: EntityRefView) -> bool {
    p.target@ == target && p.poison == 128
}

/// Leases other than the bleeding one on `target`.
pub open spec fn spec_not_bleed_on(target: EntityRefView) -> spec_fn(EntityGreenPoison) -> bool {
    |p: EntityGreenPoison| !spec_bleed_on(p, target)
}

/// Whether a running bleeding lease on `target` has more than `duration`
/// ticks left.
pub open spec fn spec_longer_bleed(leases: Seq<EntityGreenPoison>, target: EntityRefView, duration: u64) -> bool {
    exists|i: int|
        0 <= i < leases.len() && spec_bleed_on(leases[i], target) && leases[i].duration.saturating_sub(leases[i].count)
            > duration
}

/// What a HellBomb's status from `source` on `target` does: only on a
/// monster life, only frozen (8), dazed (1024) or bleeding (128) with a
/// non-negative strength, a duration and an attack the source may make;
/// frozen and dazed start a control lease without a player resistance
/// roll; bleeding, unless a longer one runs, replaces the life's bleeding
/// lease (appended last) and sets its bit.
pub open spec fn spec_hell_poison_outcome(
    a: ZoneRuntime,
    b: ZoneRuntime,
    r: bool,
    source: EntityRefView,
    target: EntityRefView,
    bit: u16,
    value: i32,
    duration: u64,
    tick_speed_ms: u64,
    now: u64,
) -> bool {
    if !(target is Monster) || !(bit == 8 || bit == 1024 || bit == 128) || value < 0 || duration == 0
        || !spec_can_attack(a, source, target, EntityTargetPurpose::Impact, now) {
        !r && b == a
    } else if bit != 128 {
        &&& r == spec_status_admitted(a, source, target, bit, duration, now, false, 0)
        &&& exists|bits: Option<u16>| spec_status_outcome(a, b, bits, source, target, bit, duration, tick_speed_ms, now, false, 0)
    } else {
        let leases = spec_green_leases(a.entity_combat);
        if spec_longer_bleed(leases, target, duration) {
            &&& !r
            &&& b.entity_combat matches Some(st) && spec_ledger_base(a.entity_combat, st) && st.poisons@ == leases
            &&& b == (ZoneRuntime { entity_combat: b.entity_combat, ..a })
        } else {
            &&& r
            &&& exists|mid: ZoneRuntime|
                mid == (ZoneRuntime { entity_combat: mid.entity_combat, ..a }) && (mid.entity_combat matches Some(st)
                    && spec_ledger_base(a.entity_combat, st) && st.poisons@.drop_last() == leases.filter(
                    spec_not_bleed_on(target),
                ) && st.poisons@.len() == leases.filter(spec_not_bleed_on(target)).len() + 1 && {
                    let p = st.poisons@.last();
                    &&& p.poison == 128
                    &&& p.source@ == source
                    &&& p.target@ == target
                    &&& p.value == value
                    &&& p.duration == duration
                    &&& p.count == 0
                    &&& p.tick_speed_ms == (if tick_speed_ms == 0 { 1 } else { tick_speed_ms })
                    &&& p.next_tick_ms == 0
                    &&& !p.source_removed
                }) && spec_bit_marked(mid, b, target, 128)
        }
    }
}

fn longer_bleed(leases: &Vec<EntityGreenPoison>, target: &EntityRef, duration: u64) -> (r: bool)
    ensures
        r == spec_longer_bleed(leases@, target@, duration),
{
    let mut i: usize = 0;
    while i < leases.len()
        invariant
            0 <= i <= leases@.len(),
            forall|j: int|
                0 <= j < i ==> !(spec_bleed_on(#[trigger] leases@[j], target@) && leases@[j].duration.saturating_sub(
                    leases@[j].count,
                ) > duration),
        decreases leases@.len() - i,
    {
        if leases[i].target.same(target) && leases[i].poison == 128 && leases[i].duration.saturating_sub(
            leases[i].count,
        ) > duration {
            assert(spec_bleed_on(leases@[i as int], target@));
            return true;
        }
        i += 1;
    }
    false
}

impl ZoneRuntime {
    /// A HellBomb's blast status on a victim that already failed its
    /// resistance. Returns whether a lease was started.
    pub fn apply_native_entity_hell_poison(
        &mut self,
        source: &EntityRef,
        target: &EntityRef,
        bit: u16,
        value: i32,
        duration: u64,
        tick_speed_ms: u64,
        now: u64,
    ) -> (r: bool)
        ensures
            spec_hell_poison_outcome(*old(self), *final(self), r, source@, target@, bit, value, duration, tick_speed_ms, now),
    {
        let is_monster = match target {
            EntityRef::Monster { .. } => true,
            EntityRef::Player { .. } => false,
        };
        if !is_monster || !(bit == 8 || bit == 1024 || bit == 128) || value < 0 || duration == 0
            || !self.native_entity_can_attack(source, target, EntityTargetPurpose::Impact, now) {
            return false;
        }
        if bit != 128 {
            let admitted = self.native_entity_status_admitted(source, target, bit, duration, now, false, 0);
            let bits = self.apply_native_entity_status(source, target, bit, duration, tick_speed_ms, now, false, 0);
            return admitted;
        }
        let mut st = match self.entity_combat.take() {
            Some(st) => st,
            None => EntityCombatState::new(),
        };
        let ghost before = st;
        assert(before.poisons@ == spec_green_leases(old(self).entity_combat));
        if longer_bleed(&st.poisons, target, duration) {
            self.entity_combat = Some(st);
            return false;
        }
        let ghost k = spec_not_bleed_on(target@);
        retain_by(
            &mut st.poisons,
            (|p: &EntityGreenPoison| -> (r: bool)
                ensures
                    r == !spec_bleed_on(*p, target@),
                { !(p.target.same(target) && p.poison == 128) }),
            Ghost(k),
        );
        st.poisons.push(
            EntityGreenPoison {
                poison: 128,
                source: source.duplicate(),
                target: target.duplicate(),
                value,
                duration,
                count: 0,
                tick_speed_ms: if tick_speed_ms == 0 { 1 } else { tick_speed_ms },
                next_tick_ms: 0,
                source_removed: false,
            },
        );
        self.entity_combat = Some(st);
        let ghost mid = *self;
        assert(mid.entity_combat->0.poisons@.drop_last() =~= before.poisons@.filter(k));
        assert(spec_ledger_base(old(self).entity_combat, mid.entity_combat->0));
        assert(mid == (ZoneRuntime { entity_combat: mid.entity_combat, ..*old(self) }));
        let _ = self.set_entity_monster_poison_mask(target, 128, true);
        assert(spec_bit_marked(mid, *self, target@, 128));
        true
    }
}

/// The slow status bit.
pub open spec fn slow_bit() -> u16 {
    4
}

/// The slow leases a ledger holds.
pub open spec fn spec_slows(ledger: Option<EntityCombatState>) -> Seq<EntitySlowPoison> {
    match ledger {
        Some(s) => s.slows@,
        None => Seq::empty(),
    }
}

/// Whether a slow lease runs on `target`.
pub open spec fn spec_slowed(slows: Seq<EntitySlowPoison>, target: EntityRefView) -> bool {
    exists|i: int| 0 <= i < slows.len() && slows[i].target@ == target
}

/// The speeds a slow on a monster restores: its template's, or its own when
/// it has no template.
pub open spec fn spec_base_speeds(m: NativeMonster) -> (u64, u64) {
    match m.template {
        Some(t) => (t.move_speed, t.attack_speed),
        None => (m.move_speed_ms, m.attack_speed_ms),
    }
}

/// Whether a slow from `source` lands on `target`: a duration, an attack
/// the source may make, no slow lease on the life yet, and the life not
/// already slowed; a player also resists when `resist_roll` (0..10) falls
/// below its poison resistance.
pub open spec fn spec_slow_admitted(
    a: ZoneRuntime,
    source: EntityRefView,
    target: EntityRefView,
    duration: u64,
    now: u64,
    resist_roll: u64,
) -> bool {
    &&& duration != 0
    &&& spec_can_attack(a, source, target, EntityTargetPurpose::Impact, now)
    &&& !spec_slowed(spec_slows(a.entity_combat), target)
    &&& match target {
        EntityRefView::Monster { object_id, .. } => spec_current_poison(spec_monster(a, object_id)->0) & 4 == 0,
        EntityRefView::Player { session, .. } => spec_player(a, session)->0.poison & 4 == 0 && !((resist_roll as int)
            < spec_poison_resist(a, target)),
    }
}

fn slowed(slows: &Vec<EntitySlowPoison>, target: &EntityRef) -> (r: bool)
    ensures
        r == spec_slowed(slows@, target@),
{
    let mut i: usize = 0;
    while i < slows.len()
        invariant
            0 <= i <= slows@.len(),
            forall|j: int| 0 <= j < i ==> (#[trigger] slows@[j]).target@ != target@,
        decreases slows@.len() - i,
    {
        if slows[i].target.same(target) {
            return true;
        }
        i += 1;
    }
    false
}

/// The ledger after a slow lease from `source` on `target` starts: a fresh
/// lease (appended last) remembering the speeds to restore (a monster's base
/// speeds; none for a player); nothing else changes.
pub open spec fn spec_slow_lease_started(
    a: ZoneRuntime,
    mid: ZoneRuntime,
    source: EntityRefView,
    target: EntityRefView,
    duration: u64,
    tick_speed_ms: u64,
) -> bool {
    let slows = spec_slows(a.entity_combat);
    &&& mid == (ZoneRuntime { entity_combat: mid.entity_combat, ..a })
    &&& mid.entity_combat matches Some(st) && {
        &&& match a.entity_combat {
            Some(s0) => st == (EntityCombatState { slows: st.slows, ..s0 }),
            None => st.hits@.len() == 0 && st.poisons@.len() == 0 && st.controls@.len() == 0 && st.targets@.len() == 0,
        }
        &&& st.slows@.drop_last() == slows
        &&& st.slows@.len() == slows.len() + 1
        &&& st.slows@.last().source@ == source
        &&& st.slows@.last().target@ == target
        &&& st.slows@.last().duration == duration
        &&& st.slows@.last().count == 0
        &&& st.slows@.last().tick_speed_ms == (if tick_speed_ms == 0 { 1 } else { tick_speed_ms })
        &&& st.slows@.last().next_tick_ms == 0
        &&& !st.slows@.last().source_removed
        &&& (st.slows@.last().base_move_speed_ms, st.slows@.last().base_attack_speed_ms) == match target {
            EntityRefView::Monster { object_id, .. } => spec_base_speeds(spec_monster(a, object_id)->0),
            EntityRefView::Player { .. } => (0u64, 0u64),
        }
    }
}

/// The zone after the slow bit is shown on the life `target`.
pub open spec fn spec_slow_shown(mid: ZoneRuntime, b: ZoneRuntime, target: EntityRefView) -> bool {
    match target {
        EntityRefView::Monster { .. } => spec_bit_marked(mid, b, target, 4),
        EntityRefView::Player { session, .. } => {
            let i = spec_player_index(mid.players@, session)->0;
            &&& b.players@ == mid.players@.update(i, b.players@[i])
            &&& spec_player_status_applied(mid.players@[i], b.players@[i], 4)
            &&& b == (ZoneRuntime { players: b.players, ..mid })
        },
    }
}

/// What an admitted slow does: its lease starts and the life shows it.
pub open spec fn spec_slow_applied(
    a: ZoneRuntime,
    b: ZoneRuntime,
    source: EntityRefView,
    target: EntityRefView,
    duration: u64,
    tick_speed_ms: u64,
) -> bool {
    exists|mid: ZoneRuntime|
        spec_slow_lease_started(a, mid, source, target, duration, tick_speed_ms) && spec_slow_shown(mid, b, target)
}

impl ZoneRuntime {
    /// A slow from `source` on `target`; `resist_roll` is a player's
    /// resistance roll (0..10). Returns whether the slow landed.
    pub fn apply_native_entity_slow(
        &mut self,
        source: &EntityRef,
        target: &EntityRef,
        duration: u64,
        tick_speed_ms: u64,
        now: u64,
        resist_roll: u64,
    ) -> (r: bool)
        requires
            resist_roll < 10,
        ensures
            r == spec_slow_admitted(*old(self), source@, target@, duration, now, resist_roll),
            !r ==> *final(self) == *old(self),
            r ==> spec_slow_applied(*old(self), *final(self), source@, target@, duration, tick_speed_ms),
    {
        if duration == 0 || !self.native_entity_can_attack(source, target, EntityTargetPurpose::Impact, now) {
            return false;
        }
        let already = match &self.entity_combat {
            Some(st) => slowed(&st.slows, target),
            None => false,
        };
        if already {
            return false;
        }
        let (base_move, base_attack) = match target {
            EntityRef::Monster { object_id, .. } => {
                let i = find_monster(&self.native_monsters, *object_id).unwrap();
                if current_poison(&self.native_monsters[i]) & 4 != 0 {
                    return false;
                }
                match self.native_monsters[i].template {
                    Some(t) => (t.move_speed, t.attack_speed),
                    None => (self.native_monsters[i].move_speed_ms, self.native_monsters[i].attack_speed_ms),
                }
            },
            EntityRef::Player { session_id, .. } => {
                let i = find_player(&self.players, session_id).unwrap();
                let resist = self.native_entity_poison_resist(target);
                if self.players[i].poison & 4 != 0 || (resist > 0 && resist_roll < resist as u64) {
                    return false;
                }
                (0, 0)
            },
        };
        let mut st = match self.entity_combat.take() {
            Some(st) => st,
            None => EntityCombatState::new(),
        };
        assert(st.slows@ == spec_slows(old(self).entity_combat));
        st.slows.push(
            EntitySlowPoison {
                source: source.duplicate(),
                target: target.duplicate(),
                duration,
                count: 0,
                tick_speed_ms: if tick_speed_ms == 0 { 1 } else { tick_speed_ms },
                next_tick_ms: 0,
                source_removed: false,
                base_move_speed_ms: base_move,
                base_attack_speed_ms: base_attack,
            },
        );
        let ghost before = self.entity_combat;
        let ghost st_slows = st.slows@;
        self.entity_combat = Some(st);
        let ghost mid = *self;
        assert(mid.entity_combat->0.slows@.drop_last() =~= spec_slows(old(self).entity_combat));
        assert(mid == (ZoneRuntime { entity_combat: mid.entity_combat, ..*old(self) }));
        assert(spec_slow_lease_started(*old(self), mid, source@, target@, duration, tick_speed_ms));
        match target {
            EntityRef::Monster { .. } => {
                let _ = self.set_entity_monster_poison_mask(target, 4, true);
                assert(spec_bit_marked(mid, *self, target@, 4));
            },
            EntityRef::Player { session_id, .. } => {
                let i = find_player(&self.players, session_id).unwrap();
                let ghost p0 = self.players@;
                apply_player_status_bit(&mut self.players[i], 4);
                assert(self.players@ == p0.update(i as int, self.players@[i as int]));
            },
        }
        assert(spec_slow_shown(mid, *self, target@));
        true
    }
}

/// The zone after a slow on `target` ends at `now`: a monster life gets
/// back the speeds the lease remembered, may attack one (restored) attack
/// delay later and loses the slow bit; a player life loses the slow status.
/// An absent life is left alone.
pub open spec fn spec_slow_finished(a: ZoneRuntime, b: ZoneRuntime, slow: EntitySlowPoison, now: u64) -> bool {
    let target = slow.target@;
    if !spec_ref_exists(a, target, true) {
        b == a
    } else {
        match target {
            EntityRefView::Monster { object_id, .. } => {
                let i = spec_monster_index(a.native_monsters@, object_id)->0;
                let m = a.native_monsters@[i];
                spec_monster_replaced(a, b, i, NativeMonster {
                    move_speed_ms: slow.base_move_speed_ms,
                    attack_speed_ms: slow.base_attack_speed_ms,
                    next_attack_ready_at_ms: now.saturating_add(slow.base_attack_speed_ms),
                    entity_poison: spec_mask_after(m.entity_poison, 4, false),
                    ..m
                })
            },
            EntityRefView::Player { session, .. } => {
                let i = spec_player_index(a.players@, session)->0;
                &&& spec_player_status_lifted(a.players@[i], b.players@[i], 4)
                &&& spec_player_replaced(a, b, i, b.players@[i])
            },
        }
    }
}

impl ZoneRuntime {
    /// Ends the slow lease `slow` at `now`.
    pub fn finish_entity_slow(&mut self, slow: &EntitySlowPoison, now: u64)
        ensures
            spec_slow_finished(*old(self), *final(self), *slow, now),
    {
        if !self.entity_ref_exists(&slow.target, true) {
            return;
        }
        match &slow.target {
            EntityRef::Monster { object_id, .. } => {
                let i = find_monster(&self.native_monsters, *object_id).unwrap();
                let ghost m0 = self.native_monsters@;
                self.native_monsters[i].move_speed_ms = slow.base_move_speed_ms;
                self.native_monsters[i].attack_speed_ms = slow.base_attack_speed_ms;
                self.native_monsters[i].next_attack_ready_at_ms = now.saturating_add(slow.base_attack_speed_ms);
                let previous = self.native_monsters[i].entity_poison;
                self.native_monsters[i].entity_poison = previous & !4u16;
                assert(self.native_monsters@ =~= m0.update(i as int, self.native_monsters@[i as int]));
            },
            EntityRef::Player { .. } => {
                let _ = self.finish_entity_player_status(&slow.target, 4);
            },
        }
    }
}

/// The paralysis a TreeQueen root gives: five ticks of one second.
pub open spec fn spec_root_paralysis_blocked(a: ZoneRuntime, target: EntityRefView, root_expires: u64, now: u64) -> bool {
    now > root_expires || exists|j: int|
        0 <= j < spec_controls(a).len() && spec_controls(a)[j].target@ == target && spec_controls(a)[j].poison == 32
}

/// Whether a control lease is the paralysis of `queen` on `target`.
pub open spec fn spec_queen_paralysis(p: EntityStatusPoison, queen: EntityRefView, target: EntityRefView) -> bool {
    p.source@ == queen && p.target@ == target && p.poison == 32
}

fn paralysed(controls: &Vec<EntityStatusPoison>, target: &EntityRef) -> (r: bool)
    ensures
        r == exists|j: int| 0 <= j < controls@.len() && controls@[j].target@ == target@ && controls@[j].poison == 32,
{
    let mut i: usize = 0;
    while i < controls.len()
        invariant
            0 <= i <= controls@.len(),
            forall|j: int| 0 <= j < i ==> !((#[trigger] controls@[j]).target@ == target@ && controls@[j].poison == 32),
        decreases controls@.len() - i,
    {
        if controls[i].target.same(target) && controls[i].poison == 32 {
            assert(controls@[i as int].target@ == target@ && controls@[i as int].poison == 32);
            return true;
        }
        i += 1;
    }
    false
}

impl ZoneRuntime {
    /// A TreeQueen root (`root_id`, alive from `root_start` to
    /// `root_expires`) paralyses `target` for the queen: only while the root
    /// lasts and only when the life is not paralysed yet; the lease that
    /// starts is owned by the root rather than by the queen. `resist_roll`
    /// is a player's resistance roll.
    pub fn apply_native_tree_root_paralysis(
        &mut self,
        queen: &EntityRef,
        target: &EntityRef,
        root_id: u32,
        root_start: u64,
        root_expires: u64,
        now: u64,
        resist_roll: u64,
    ) -> (r: Option<u16>)
        requires
            resist_roll < 10,
        ensures
            spec_root_paralysis_blocked(*old(self), target@, root_expires, now) ==> *final(self) == *old(self) && r is None,
            !spec_root_paralysis_blocked(*old(self), target@, root_expires, now) ==> exists|mid: ZoneRuntime|
                spec_status_outcome(*old(self), mid, r, queen@, target@, 32, 5, 1000, now, true, resist_roll) && ({
                    let c0 = spec_controls(mid);
                    let c1 = spec_controls(*final(self));
                    &&& c1.len() == c0.len()
                    &&& forall|k: int|
                        0 <= k < c0.len() ==> #[trigger] c1[k] == (if spec_queen_paralysis(c0[k], queen@, target@) && (forall|j: int|
                            0 <= j < k ==> !spec_queen_paralysis(c0[j], queen@, target@)) {
                            EntityStatusPoison {
                                origin: Some(EntityPoisonOrigin::TreeQueenRoot { id: root_id, start: root_start, expires: root_expires }),
                                ..c0[k]
                            }
                        } else {
                            c0[k]
                        })
                    &&& *final(self) == (ZoneRuntime { entity_combat: final(self).entity_combat, ..mid })
                    &&& (mid.entity_combat is Some) == (final(self).entity_combat is Some)
                    &&& match (mid.entity_combat, final(self).entity_combat) {
                        (Some(x), Some(y)) => y == (EntityCombatState { controls: y.controls, ..x }),
                        _ => true,
                    }
                }),
    {
        let blocked = now > root_expires || match &self.entity_combat {
            Some(st) => paralysed(&st.controls, target),
            None => false,
        };
        if blocked {
            return None;
        }
        let r = self.apply_native_entity_paralysis(queen, target, 5, 1000, now, resist_roll);
        let ghost mid = *self;
        match self.entity_combat.take() {
            Some(mut st) => {
                let ghost c0 = st.controls@;
                let mut k: usize = 0;
                let mut found = false;
                while k < st.controls.len()
                    invariant
                        st.controls@.len() == c0.len(),
                        0 <= k <= c0.len(),
                        found == exists|j: int| 0 <= j < k && spec_queen_paralysis(c0[j], queen@, target@),
                        forall|j: int|
                            0 <= j < k ==> #[trigger] st.controls@[j] == (if spec_queen_paralysis(c0[j], queen@, target@) && (forall|i: int|
                                0 <= i < j ==> !spec_queen_paralysis(c0[i], queen@, target@)) {
                                EntityStatusPoison {
                                    origin: Some(EntityPoisonOrigin::TreeQueenRoot { id: root_id, start: root_start, expires: root_expires }),
                                    ..c0[j]
                                }
                            } else {
                                c0[j]
                            }),
                        forall|j: int| k <= j < c0.len() ==> #[trigger] st.controls@[j] == c0[j],
                        st == (EntityCombatState { controls: st.controls, ..mid.entity_combat->0 }),
                        mid.entity_combat->0.controls@ == c0,
                    decreases c0.len() - k,
                {
                    let is_it = !found && st.controls[k].source.same(queen) && st.controls[k].target.same(target)
                        && st.controls[k].poison == 32;
                    let matches_k = st.controls[k].source.same(queen) && st.controls[k].target.same(target)
                        && st.controls[k].poison == 32;
                    if is_it {
                        st.controls[k].origin = Some(
                            EntityPoisonOrigin::TreeQueenRoot { id: root_id, start: root_start, expires: root_expires },
                        );
                    }
                    if matches_k {
                        found = true;
                    }
                    k += 1;
                }
                self.entity_combat = Some(st);
            },
            None => {},
        }
        r
    }

    /// Whether the source of a control lease still exists: a root-owned
    /// lease lives with its root (`root_alive` tells whether it does), any
    /// other lives with its source life (dead or alive) until that source is
    /// marked removed.
    pub fn entity_status_source_exists(&self, poison: &EntityStatusPoison, root_alive: bool) -> (r: bool)
        ensures
            r == match poison.origin {
                Some(EntityPoisonOrigin::TreeQueenRoot { .. }) => root_alive,
                None => !poison.source_removed && spec_ref_exists(*self, poison.source@, true),
            },
    {
        match poison.origin {
            Some(EntityPoisonOrigin::TreeQueenRoot { .. }) => root_alive,
            None => !poison.source_removed && self.entity_ref_exists(&poison.source, true),
        }
    }
}

} // verus!
