//! Status leases of the entity-combat ledger: armour, poison bits, and the
//! green, bleeding, control and slow leases wild monsters leave on their
//! victims.
use vstd::prelude::*;
use crate::types::{EntityRef, EntityRefView};
use crate::monster::{
    NativeMonster, ZonePlayer, buff_stat_total, current_poison, spec_buff_stat_total,
    spec_clamp_i32, spec_current_poison,
};
use crate::zone::{ZoneRuntime, find_monster, find_player, spec_monster_index, spec_player_index};
use crate::entity::{
    EntityCombatState, EntityDefence, EntityGreenPoison, EntityPoisonOrigin, EntityStatusPoison,
    EntityTargetPurpose, spec_can_attack, spec_monster, spec_player, spec_poison_resist,
    spec_ref_exists,
};
use crate::entity_life::spec_same_outside_monsters_and_ledger;
use crate::ai::horned::{HornedStat, horned_stat_range, spec_horned_stat_range};
use crate::arith::{sat_add_i32, sat_mul_i32, sat_sub_i32};
use crate::seqs::retain_by;

verus! {

/// The armour roll bounds of monster `m` against `defence`: its base AC or
/// MAC widened by Horned buffs and raised by its AC/MAC buff stats, never
/// below zero; physical-free defences roll no armour.
pub open spec fn spec_armour_range(m: NativeMonster, defence: EntityDefence, now: u64) -> (int, int) {
    let physical = defence == EntityDefence::ACAgility || defence == EntityDefence::AC;
    let magical = defence == EntityDefence::MACAgility || defence == EntityDefence::MAC;
    let (lo, hi) = if physical {
        spec_horned_stat_range(m, HornedStat::Ac, m.defense.min_ac, m.defense.max_ac, now)
    } else if magical {
        spec_horned_stat_range(m, HornedStat::Mac, m.defense.min_mac, m.defense.max_mac, now)
    } else {
        (0, 0)
    };
    let (lb, hb) = if physical {
        (spec_buff_stat_total(m.buffs@, 0), spec_buff_stat_total(m.buffs@, 1))
    } else if magical {
        (spec_buff_stat_total(m.buffs@, 2), spec_buff_stat_total(m.buffs@, 3))
    } else {
        (0, 0)
    };
    let minimum = if spec_clamp_i32(lo + lb) < 0 { 0 } else { spec_clamp_i32(lo + lb) };
    let top = spec_clamp_i32(hi + hb);
    let maximum = if top < minimum { minimum } else { top };
    (minimum, maximum)
}

/// Damage left after `armour`: red poison (bit 2) halves the armour, stun
/// (bit 16) scales the raw damage by 3/2 first; never negative.
pub open spec fn spec_defended_damage(poison: u16, raw_damage: i32, armour: i32) -> int {
    let a = if poison & 2 != 0 { armour / 2 } else { armour as int };
    let raw = if poison & 16 != 0 { spec_clamp_i32(raw_damage * 3) / 2 } else { raw_damage as int };
    let left = spec_clamp_i32(raw - a);
    if left < 0 {
        0
    } else {
        left
    }
}

/// The armour roll bounds of `m` against `defence` at `now`.
pub fn entity_monster_armour_range(m: &NativeMonster, defence: EntityDefence, now: u64) -> (r: (
    i32,
    i32,
))
    ensures
        (r.0 as int, r.1 as int) == spec_armour_range(*m, defence, now),
        0 <= r.0 <= r.1,
{
    let physical = defence == EntityDefence::ACAgility || defence == EntityDefence::AC;
    let magical = defence == EntityDefence::MACAgility || defence == EntityDefence::MAC;
    let (lo, hi) = if physical {
        horned_stat_range(m, HornedStat::Ac, m.defense.min_ac, m.defense.max_ac, now)
    } else if magical {
        horned_stat_range(m, HornedStat::Mac, m.defense.min_mac, m.defense.max_mac, now)
    } else {
        (0, 0)
    };
    let (lb, hb) = if physical {
        (buff_stat_total(m, 0), buff_stat_total(m, 1))
    } else if magical {
        (buff_stat_total(m, 2), buff_stat_total(m, 3))
    } else {
        (0, 0)
    };
    let low = sat_add_i32(lo, lb);
    let minimum = if low < 0 { 0 } else { low };
    let top = sat_add_i32(hi, hb);
    let maximum = if top < minimum { minimum } else { top };
    (minimum, maximum)
}

/// The damage monster `m` takes from `raw_damage` after rolling `armour`
/// (a roll within [`entity_monster_armour_range`]).
pub fn entity_monster_defended_damage(m: &NativeMonster, raw_damage: i32, armour: i32) -> (r: i32)
    requires
        raw_damage >= 0,
        armour >= 0,
    ensures
        r == spec_defended_damage(spec_current_poison(*m), raw_damage, armour),
        r >= 0,
{
    let mask = current_poison(m);
    let a = if mask & 2 != 0 { armour / 2 } else { armour };
    let raw = if mask & 16 != 0 { sat_mul_i32(raw_damage, 3) / 2 } else { raw_damage };
    let left = sat_sub_i32(raw, a);
    if left < 0 {
        0
    } else {
        left
    }
}


/// The entity status bits of a monster after setting (`active`) or
/// clearing `bit`.
pub open spec fn spec_mask_after(bits: u16, bit: u16, active: bool) -> u16 {
    if active {
        bits | bit
    } else {
        bits & !bit
    }
}

/// `b` is `a` with only the monster at index `i` replaced by `m`.
pub open spec fn spec_monster_replaced(a: ZoneRuntime, b: ZoneRuntime, i: int, m: NativeMonster) -> bool {
    &&& spec_same_outside_monsters_and_ledger(a, b)
    &&& b.entity_combat == a.entity_combat
    &&& 0 <= i < a.native_monsters@.len()
    &&& b.native_monsters@ == a.native_monsters@.update(i, m)
}

/// The zone `b` after entity status `bit` is set (`active`) or cleared on
/// the monster life `target` (dead or alive) of zone `a`; `r` is the
/// monster's new replicated poison bits when they changed. An absent life
/// is left alone.
pub open spec fn spec_monster_mask_set(
    a: ZoneRuntime,
    b: ZoneRuntime,
    target: EntityRefView,
    bit: u16,
    active: bool,
    r: Option<u16>,
) -> bool {
    let id = target.object_id();
    if !spec_ref_exists(a, target, true) || spec_monster_index(a.native_monsters@, id) is None {
        b == a && r is None
    } else {
        let i = spec_monster_index(a.native_monsters@, id).unwrap();
        let m = a.native_monsters@[i];
        let nm = NativeMonster { entity_poison: spec_mask_after(m.entity_poison, bit, active), ..m };
        &&& spec_monster_replaced(a, b, i, nm)
        &&& r == if nm.entity_poison == m.entity_poison {
            None
        } else {
            Some(spec_current_poison(nm))
        }
    }
}

impl ZoneRuntime {
    /// Sets or clears entity status `bit` on the monster life `target`
    /// (dead or alive). Returns the monster's new replicated poison bits
    /// when they changed, so that viewers can be told.
    pub fn set_entity_monster_poison_mask(&mut self, target: &EntityRef, bit: u16, active: bool) -> (r:
        Option<u16>)
        ensures
            spec_monster_mask_set(*old(self), *final(self), target@, bit, active, r),
    {
        if !self.entity_ref_exists(target, true) {
            return None;
        }
        let id = target.object_id();
        let i = match find_monster(&self.native_monsters, id) {
            Some(i) => i,
            None => {
                return None;
            },
        };
        let previous = self.native_monsters[i].entity_poison;
        let next = if active {
            previous | bit
        } else {
            previous & !bit
        };
        if previous == next {
            proof {
                let m = self.native_monsters@[i as int];
                assert(self.native_monsters@.update(i as int, NativeMonster { entity_poison: next, ..m })
                    =~= self.native_monsters@);
            }
            return None;
        }
        self.native_monsters[i].entity_poison = next;
        Some(current_poison(&self.native_monsters[i]))
    }

    /// Sets or clears the green bit (1) on the monster life `target`.
    pub fn set_entity_green_mask(&mut self, target: &EntityRef, active: bool) -> (r: Option<u16>)
        ensures
            ({
                let id = target@.object_id();
                if !spec_ref_exists(*old(self), target@, true) || spec_monster_index(
                    old(self).native_monsters@,
                    id,
                ) is None {
                    *final(self) == *old(self) && r is None
                } else {
                    let i = spec_monster_index(old(self).native_monsters@, id).unwrap();
                    let m = old(self).native_monsters@[i];
                    let nm = NativeMonster {
                        entity_poison: spec_mask_after(m.entity_poison, 1, active),
                        ..m
                    };
                    &&& spec_monster_replaced(*old(self), *final(self), i, nm)
                    &&& r == if nm.entity_poison == m.entity_poison {
                        None
                    } else {
                        Some(spec_current_poison(nm))
                    }
                }
            }),
    {
        self.set_entity_monster_poison_mask(target, 1, active)
    }
}


/// The latest deadline among a player's status deadlines.
pub open spec fn spec_max_deadline(d: Seq<(u16, u64)>) -> Option<u64>
    decreases d.len(),
{
    if d.len() == 0 {
        None
    } else {
        match spec_max_deadline(d.drop_last()) {
            None => Some(d.last().1),
            Some(m) => Some(if d.last().1 > m { d.last().1 } else { m }),
        }
    }
}

fn max_deadline(d: &Vec<(u16, u64)>) -> (r: Option<u64>)
    ensures
        r == spec_max_deadline(d@),
{
    let mut best: Option<u64> = None;
    let mut i: usize = 0;
    while i < d.len()
        invariant
            0 <= i <= d@.len(),
            best == spec_max_deadline(d@.take(i as int)),
        decreases d@.len() - i,
    {
        proof {
            assert(d@.take(i + 1).drop_last() =~= d@.take(i as int));
        }
        let v = d[i].1;
        best = match best {
            None => Some(v),
            Some(m) => Some(if v > m { v } else { m }),
        };
        i += 1;
    }
    proof {
        assert(d@.take(d@.len() as int) =~= d@);
    }
    best
}

/// Deadline entries of other statuses than `bit`.
pub open spec fn spec_other_status(bit: u16) -> spec_fn((u16, u64)) -> bool {
    |e: (u16, u64)| e.0 != bit
}

/// A player with status `bit` lifted: its deadline is removed, the bit
/// leaves both masks, and the status expiry becomes the latest remaining
/// deadline.
pub open spec fn spec_player_status_lifted(p: ZonePlayer, q: ZonePlayer, bit: u16) -> bool {
    let kept = p.native_status_poison_deadlines@.filter(spec_other_status(bit));
    &&& q.native_status_poison_deadlines@ == kept
    &&& q.native_status_poison == p.native_status_poison & !bit
    &&& q.poison == p.poison & !bit
    &&& q.native_status_poison_expires_at_ms == spec_max_deadline(kept)
    &&& q == (ZonePlayer {
        native_status_poison_deadlines: q.native_status_poison_deadlines,
        native_status_poison: q.native_status_poison,
        poison: q.poison,
        native_status_poison_expires_at_ms: q.native_status_poison_expires_at_ms,
        ..p
    })
}

/// A player with status `bit` applied without an end of its own: the bit
/// joins both masks, its deadline becomes the far future, and so does the
/// status expiry. The counted lease decides when it ends.
pub open spec fn spec_player_status_applied(p: ZonePlayer, q: ZonePlayer, bit: u16) -> bool {
    &&& q.native_status_poison_deadlines@ == p.native_status_poison_deadlines@.filter(
        spec_other_status(bit),
    ).push((bit, u64::MAX))
    &&& q.native_status_poison == p.native_status_poison | bit
    &&& q.poison == p.poison | bit
    &&& q.native_status_poison_expires_at_ms == Some(u64::MAX)
    &&& q == (ZonePlayer {
        native_status_poison_deadlines: q.native_status_poison_deadlines,
        native_status_poison: q.native_status_poison,
        poison: q.poison,
        native_status_poison_expires_at_ms: q.native_status_poison_expires_at_ms,
        ..p
    })
}

pub(crate) fn lift_player_status(p: &mut ZonePlayer, bit: u16)
    ensures
        spec_player_status_lifted(*old(p), *final(p), bit),
{
    let ghost keep = spec_other_status(bit);
    retain_by(
        &mut p.native_status_poison_deadlines,
        (|e: &(u16, u64)| -> (k: bool)
            ensures
                k == (e.0 != bit),
            { e.0 != bit }),
        Ghost(keep),
    );
    p.native_status_poison = p.native_status_poison & !bit;
    p.poison = p.poison & !bit;
    p.native_status_poison_expires_at_ms = max_deadline(&p.native_status_poison_deadlines);
}

/// Applies status `bit` to a player until its counted lease ends.
pub fn apply_player_status_bit(p: &mut ZonePlayer, bit: u16)
    ensures
        spec_player_status_applied(*old(p), *final(p), bit),
{
    let ghost keep = spec_other_status(bit);
    retain_by(
        &mut p.native_status_poison_deadlines,
        (|e: &(u16, u64)| -> (k: bool)
            ensures
                k == (e.0 != bit),
            { e.0 != bit }),
        Ghost(keep),
    );
    p.native_status_poison_deadlines.push((bit, u64::MAX));
    p.native_status_poison = p.native_status_poison | bit;
    p.poison = p.poison | bit;
    p.native_status_poison_expires_at_ms = Some(u64::MAX);
}

/// `b` is `a` with only the player at index `i` replaced.
pub open spec fn spec_player_replaced(a: ZoneRuntime, b: ZoneRuntime, i: int, p: ZonePlayer) -> bool {
    &&& b.key == a.key
    &&& b.objects == a.objects
    &&& b.native_monsters == a.native_monsters
    &&& b.entity_combat == a.entity_combat
    &&& 0 <= i < a.players@.len()
    &&& b.players@ == a.players@.update(i, p)
    &&& b.dead_object_ids == a.dead_object_ids
    &&& b.revived_object_ids == a.revived_object_ids
    &&& b.removed_object_ids == a.removed_object_ids
    &&& b.harvested_object_ids == a.harvested_object_ids
    &&& b.pending_native_hits == a.pending_native_hits
    &&& b.pending_native_projectiles == a.pending_native_projectiles
    &&& b.pending_native_player_hits == a.pending_native_player_hits
    &&& b.ground_drops == a.ground_drops
    &&& b.claimed_ground_drops == a.claimed_ground_drops
    &&& b.next_ground_drop_generation == a.next_ground_drop_generation
    &&& b.next_ground_drop_claim_id == a.next_ground_drop_claim_id
    &&& b.open_doors == a.open_doors
    &&& b.next_object_id == a.next_object_id
    &&& b.hell_world == a.hell_world
    &&& b.horned_encounter_world == a.horned_encounter_world
    &&& b.pet_special_world == a.pet_special_world
    &&& b.native_periodic_player_poisons == a.native_periodic_player_poisons
    &&& b.opened_doors == a.opened_doors
    &&& b.occupancy == a.occupancy
}

/// The zone `b` after status `bit` ends on the player life `target` (dead
/// or alive) of zone `a`; `r` is the player's new replicated poison bits
/// when they changed. Anything else is left alone.
pub open spec fn spec_player_status_finished(
    a: ZoneRuntime,
    b: ZoneRuntime,
    target: EntityRefView,
    bit: u16,
    r: Option<u16>,
) -> bool {
    if !spec_ref_exists(a, target, true) || !(target is Player) {
        b == a && r is None
    } else {
        let i = spec_player_index(a.players@, target->session).unwrap();
        let p = a.players@[i];
        let q = b.players@[i];
        &&& spec_player_status_lifted(p, q, bit)
        &&& spec_player_replaced(a, b, i, q)
        &&& r == if q.poison == p.poison {
            None
        } else {
            Some(q.poison)
        }
    }
}

impl ZoneRuntime {
    /// Ends status `bit` on the player life `target` (dead or alive).
    /// Returns the player's new replicated poison bits when they changed.
    pub fn finish_entity_player_status(&mut self, target: &EntityRef, bit: u16) -> (r: Option<u16>)
        ensures
            spec_player_status_finished(*old(self), *final(self), target@, bit, r),
    {
        if !self.entity_ref_exists(target, true) {
            return None;
        }
        let session = match target {
            EntityRef::Player { session_id, .. } => session_id,
            _ => {
                return None;
            },
        };
        let i = match find_player(&self.players, session) {
            Some(i) => i,
            None => {
                return None;
            },
        };
        let old_poison = self.players[i].poison;
        lift_player_status(&mut self.players[i], bit);
        if old_poison == self.players[i].poison {
            None
        } else {
            Some(self.players[i].poison)
        }
    }
}


/// Frozen (8) and paralysis (32) never refresh a running lease.
pub open spec fn spec_no_refresh(bit: u16) -> bool {
    bit == 8 || bit == 32
}

/// A running control lease of `bit` on `target` blocks a new one: always
/// for non-refreshing bits, otherwise while more turns remain on it than
/// the new lease would give.
pub open spec fn spec_control_blocks(
    controls: Seq<EntityStatusPoison>,
    target: EntityRefView,
    bit: u16,
    duration: u64,
) -> bool {
    exists|j: int|
        0 <= j < controls.len() && controls[j].target@ == target && controls[j].poison == bit && (
        spec_no_refresh(bit) || (if controls[j].duration >= controls[j].count {
            controls[j].duration - controls[j].count
        } else {
            0
        }) > duration)
}

/// The control leases of the ledger, if there is one.
pub open spec fn spec_controls(rt: ZoneRuntime) -> Seq<EntityStatusPoison> {
    match rt.entity_combat {
        Some(st) => st.controls@,
        None => Seq::empty(),
    }
}

/// Control leases other than `bit` on `target`.
pub open spec fn spec_other_control(target: EntityRefView, bit: u16) -> spec_fn(
    EntityStatusPoison,
) -> bool {
    |p: EntityStatusPoison| !(p.target@ == target && p.poison == bit)
}

/// Whether a control lease of `bit` from `source` on `target` is admitted:
/// only red (2), frozen (8), paralysis (32) and dazed (1024), only for a
/// positive duration and an attack the source may make, never over a
/// blocking lease, never re-applying a non-refreshing bit the victim
/// already shows, and for players (with `human_resist`) only when
/// `resist_roll` reaches the player's poison resistance.
pub open spec fn spec_status_admitted(
    rt: ZoneRuntime,
    source: EntityRefView,
    target: EntityRefView,
    bit: u16,
    duration: u64,
    now: u64,
    human_resist: bool,
    resist_roll: u64,
) -> bool {
    &&& duration != 0
    &&& (bit == 2 || bit == 8 || bit == 32 || bit == 1024)
    &&& spec_can_attack(rt, source, target, EntityTargetPurpose::Impact, now)
    &&& !spec_control_blocks(spec_controls(rt), target, bit, duration)
    &&& match target {
        EntityRefView::Monster { object_id, .. } => !(spec_no_refresh(bit) && spec_current_poison(
            spec_monster(rt, object_id).unwrap(),
        ) & bit != 0),
        EntityRefView::Player { session, .. } => !((spec_no_refresh(bit) && spec_player(
            rt,
            session,
        ).unwrap().poison & bit != 0) || (human_resist && (resist_roll as int) < spec_poison_resist(
            rt,
            target,
        ))),
    }
}

/// The fresh lease a control status starts with.
pub open spec fn spec_fresh_control(
    l: EntityStatusPoison,
    source: EntityRefView,
    target: EntityRefView,
    bit: u16,
    duration: u64,
    tick_speed_ms: u64,
) -> bool {
    &&& l.source@ == source
    &&& l.target@ == target
    &&& l.poison == bit
    &&& l.duration == duration
    &&& l.count == 0
    &&& l.tick_speed_ms == if tick_speed_ms < 1 { 1 } else { tick_speed_ms }
    &&& l.next_tick_ms == 0
    &&& !l.source_removed
    &&& l.origin is None
}

fn control_blocks(controls: &Vec<EntityStatusPoison>, target: &EntityRef, bit: u16, duration: u64) -> (r:
    bool)
    ensures
        r == spec_control_blocks(controls@, target@, bit, duration),
{
    let no_refresh = bit == 8 || bit == 32;
    let mut j: usize = 0;
    while j < controls.len()
        invariant
            0 <= j <= controls@.len(),
            no_refresh == spec_no_refresh(bit),
            forall|k: int|
                0 <= k < j ==> !(controls@[k].target@ == target@ && controls@[k].poison == bit && (
                no_refresh || (if controls@[k].duration >= controls@[k].count {
                    controls@[k].duration - controls@[k].count
                } else {
                    0
                }) > duration)),
        decreases controls@.len() - j,
    {
        let c = &controls[j];
        if c.target.same(target) && c.poison == bit && (no_refresh || c.duration.saturating_sub(
            c.count,
        ) > duration) {
            return true;
        }
        j += 1;
    }
    false
}

impl ZoneRuntime {
    /// Whether a control lease is admitted (see [`spec_status_admitted`]).
    pub fn native_entity_status_admitted(
        &self,
        source: &EntityRef,
        target: &EntityRef,
        bit: u16,
        duration: u64,
        now: u64,
        human_resist: bool,
        resist_roll: u64,
    ) -> (r: bool)
        ensures
            r == spec_status_admitted(
                *self,
                source@,
                target@,
                bit,
                duration,
                now,
                human_resist,
                resist_roll,
            ),
    {
        let no_refresh = bit == 8 || bit == 32;
        if duration == 0 || !(bit == 2 || bit == 8 || bit == 32 || bit == 1024)
            || !self.native_entity_can_attack(source, target, EntityTargetPurpose::Impact, now) {
            return false;
        }
        let blocked = match &self.entity_combat {
            Some(st) => control_blocks(&st.controls, target, bit, duration),
            None => false,
        };
        if blocked {
            return false;
        }
        match target {
            EntityRef::Monster { object_id, .. } => {
                match find_monster(&self.native_monsters, *object_id) {
                    Some(i) => !(no_refresh && current_poison(&self.native_monsters[i]) & bit != 0),
                    None => false,
                }
            },
            EntityRef::Player { session_id, .. } => {
                match find_player(&self.players, session_id) {
                    Some(i) => {
                        let resist = self.native_entity_poison_resist(target);
                        !((no_refresh && self.players[i].poison & bit != 0) || (human_resist
                            && resist_roll < resist as u64))
                    },
                    None => false,
                }
            },
        }
    }
}

/// `b` and `r` are the outcome of starting control status `bit` from
/// `source` on `target` in `a`: nothing changes unless the lease is
/// admitted; then any lease of that bit on that life is replaced by a fresh
/// one and the bit is shown on the victim, `r` giving its new poison bits
/// when they changed.
pub open spec fn spec_status_outcome(
    a: ZoneRuntime,
    b: ZoneRuntime,
    r: Option<u16>,
    source: EntityRefView,
    target: EntityRefView,
    bit: u16,
    duration: u64,
    tick_speed_ms: u64,
    now: u64,
    human_resist: bool,
    resist_roll: u64,
) -> bool {
    &&& (!spec_status_admitted(
                a,
                source,
                target,
                bit,
                duration,
                now,
                human_resist,
                resist_roll,
            ) ==> b == a && r is None)
    &&& (spec_status_admitted(
                a,
                source,
                target,
                bit,
                duration,
                now,
                human_resist,
                resist_roll,
            ) ==> {
                let f = b.entity_combat.unwrap();
                &&& b.entity_combat is Some
                &&& f.controls@.drop_last() == spec_controls(a).filter(
                    spec_other_control(target, bit),
                )
                &&& f.controls@.len() >= 1
                &&& spec_fresh_control(
                    f.controls@.last(),
                    source,
                    target,
                    bit,
                    duration,
                    tick_speed_ms,
                )
                &&& match a.entity_combat {
                    Some(st) => f.hits == st.hits && f.poisons == st.poisons && f.slows
                        == st.slows && f.targets == st.targets,
                    None => f.hits@.len() == 0 && f.poisons@.len() == 0 && f.slows@.len() == 0
                        && f.targets@.len() == 0,
                }
                &&& match target {
                    EntityRefView::Monster { object_id, .. } => {
                        let i = spec_monster_index(a.native_monsters@, object_id).unwrap();
                        let m = a.native_monsters@[i];
                        let nm = NativeMonster { entity_poison: m.entity_poison | bit, ..m };
                        &&& spec_same_outside_monsters_and_ledger(a, b)
                        &&& b.native_monsters@ == a.native_monsters@.update(i, nm)
                        &&& r == if nm.entity_poison == m.entity_poison {
                            None
                        } else {
                            Some(spec_current_poison(nm))
                        }
                    },
                    EntityRefView::Player { session, .. } => {
                        let i = spec_player_index(a.players@, session).unwrap();
                        let q = b.players@[i];
                        &&& spec_player_status_applied(a.players@[i], q, bit)
                        &&& b.native_monsters == a.native_monsters
                        &&& b.players@ == a.players@.update(i, q)
                        &&& r == Some(q.poison)
                    },
                }
            })
}

impl ZoneRuntime {
    /// Starts control status `bit` from `source` on `target` when
    /// [`spec_status_admitted`]: any lease of the same bit on that life is
    /// replaced by a fresh one, and the bit is shown on the victim.
    /// `resist_roll` is the player's second resistance roll (0..10).
    /// Returns the victim's new poison bits when they changed.
    #[verifier::rlimit(50)]
    pub fn apply_native_entity_status(
        &mut self,
        source: &EntityRef,
        target: &EntityRef,
        bit: u16,
        duration: u64,
        tick_speed_ms: u64,
        now: u64,
        human_resist: bool,
        resist_roll: u64,
    ) -> (r: Option<u16>)
        requires
            resist_roll < 10,
        ensures
            spec_status_outcome(
                *old(self),
                *final(self),
                r,
                source@,
                target@,
                bit,
                duration,
                tick_speed_ms,
                now,
                human_resist,
                resist_roll,
            ),
    {
        if !self.native_entity_status_admitted(
            source,
            target,
            bit,
            duration,
            now,
            human_resist,
            resist_roll,
        ) {
            return None;
        }
        let mut st = match self.entity_combat.take() {
            Some(st) => st,
            None => EntityCombatState::new(),
        };
        let ghost keep = spec_other_control(target@, bit);
        proof {
            assert(st.controls@ == spec_controls(*old(self))) by {
                if old(self).entity_combat is None {
                    assert(st.controls@ =~= Seq::<EntityStatusPoison>::empty());
                }
            }
        }
        let ghost before = st.controls@;
        retain_by(
            &mut st.controls,
            (|p: &EntityStatusPoison| -> (k: bool)
                ensures
                    k == !(p.target@ == target@ && p.poison == bit),
                { !(p.target.same(target) && p.poison == bit) }),
            Ghost(keep),
        );
        st.controls.push(
            EntityStatusPoison {
                source: source.duplicate(),
                target: target.duplicate(),
                poison: bit,
                duration,
                count: 0,
                tick_speed_ms: if tick_speed_ms < 1 {
                    1
                } else {
                    tick_speed_ms
                },
                next_tick_ms: 0,
                source_removed: false,
                origin: None,
            },
        );
        assert(st.controls@.drop_last() =~= before.filter(keep));
        self.entity_combat = Some(st);
        match target {
            EntityRef::Monster { object_id, .. } => {
                let i = find_monster(&self.native_monsters, *object_id).unwrap();
                let previous = self.native_monsters[i].entity_poison;
                self.native_monsters[i].entity_poison = previous | bit;
                if previous == previous | bit {
                    None
                } else {
                    Some(current_poison(&self.native_monsters[i]))
                }
            },
            EntityRef::Player { session_id, .. } => {
                let i = find_player(&self.players, session_id).unwrap();
                apply_player_status_bit(&mut self.players[i], bit);
                Some(self.players[i].poison)
            },
        }
    }
}


impl ZoneRuntime {
    /// Paralysis (32) from `source` on `target`, with the player's second
    /// resistance roll.
    pub fn apply_native_entity_paralysis(
        &mut self,
        source: &EntityRef,
        target: &EntityRef,
        duration: u64,
        tick_speed_ms: u64,
        now: u64,
        resist_roll: u64,
    ) -> (r: Option<u16>)
        requires
            resist_roll < 10,
        ensures
            spec_status_outcome(
                *old(self),
                *final(self),
                r,
                source@,
                target@,
                32,
                duration,
                tick_speed_ms,
                now,
                true,
                resist_roll,
            ),
    {
        self.apply_native_entity_status(
            source,
            target,
            32,
            duration,
            tick_speed_ms,
            now,
            true,
            resist_roll,
        )
    }

    /// Red poison (2, armour halving) from `source` on `target`, with the
    /// player's second resistance roll.
    pub fn apply_native_entity_red_poison(
        &mut self,
        source: &EntityRef,
        target: &EntityRef,
        duration: u64,
        tick_speed_ms: u64,
        now: u64,
        resist_roll: u64,
    ) -> (r: Option<u16>)
        requires
            resist_roll < 10,
        ensures
            spec_status_outcome(
                *old(self),
                *final(self),
                r,
                source@,
                target@,
                2,
                duration,
                tick_speed_ms,
                now,
                true,
                resist_roll,
            ),
    {
        self.apply_native_entity_status(
            source,
            target,
            2,
            duration,
            tick_speed_ms,
            now,
            true,
            resist_roll,
        )
    }
}

/// The damage a monster takes is never negative, never falls when the raw
/// damage rises (the rest fixed), and without armour is the raw damage
/// (half as much again when the monster carries poison bit 16).
pub proof fn lemma_defended_damage_laws(poison: u16, low: i32, high: i32, armour: i32)
    requires
        0 <= low <= high,
        armour >= 0,
    ensures
        spec_defended_damage(poison, low, armour) >= 0,
        spec_defended_damage(poison, low, armour) <= spec_defended_damage(poison, high, armour),
        spec_defended_damage(poison, low, 0) == if poison & 16 != 0 {
            spec_clamp_i32(low * 3) / 2
        } else {
            low as int
        },
{
    assert(spec_clamp_i32(low * 3) <= spec_clamp_i32(high * 3));
    assert(spec_clamp_i32(low * 3) >= 0);
    vstd::arithmetic::div_mod::lemma_div_is_ordered(spec_clamp_i32(low * 3), spec_clamp_i32(high * 3), 2);
    vstd::arithmetic::div_mod::lemma_div_pos_is_pos(spec_clamp_i32(low * 3), 2);
    assert(spec_clamp_i32(low * 3) / 2 <= i32::MAX);
}

/// The armour a hit meets depends only on whether it is magic: MACAgility
/// rolls the same range as MAC, ACAgility the same as AC, and agility
/// alone or no defence rolls none. Without Horned buffs or stat buffs the
/// MAC range is the monster's own MAC range (its bottom held at zero or
/// more, its top at the bottom or more), and the AC range likewise.
pub proof fn lemma_armour_by_defence_kind(m: NativeMonster, now: u64)
    ensures
        spec_armour_range(m, EntityDefence::MACAgility, now) == spec_armour_range(m, EntityDefence::MAC, now),
        spec_armour_range(m, EntityDefence::ACAgility, now) == spec_armour_range(m, EntityDefence::AC, now),
        spec_armour_range(m, EntityDefence::Agility, now) == (0int, 0int),
        spec_armour_range(m, EntityDefence::NoDefence, now) == (0int, 0int),
        m.special.horned is None && m.buffs@.len() == 0 ==> {
            let lo: int = if m.defense.min_mac < 0 { 0 } else { m.defense.min_mac as int };
            let alo: int = if m.defense.min_ac < 0 { 0 } else { m.defense.min_ac as int };
            &&& spec_armour_range(m, EntityDefence::MAC, now) == (lo, if (m.defense.max_mac as int) < lo { lo } else { m.defense.max_mac as int })
            &&& spec_armour_range(m, EntityDefence::AC, now) == (alo, if (m.defense.max_ac as int) < alo { alo } else { m.defense.max_ac as int })
        },
{
    if m.special.horned is None && m.buffs@.len() == 0 {
        assert(spec_buff_stat_total(m.buffs@, 0) == 0);
        assert(spec_buff_stat_total(m.buffs@, 1) == 0);
        assert(spec_buff_stat_total(m.buffs@, 2) == 0);
        assert(spec_buff_stat_total(m.buffs@, 3) == 0);
    }
}

} // verus!
