//! How a hit of a wild monster on an entity life is decided. An attacked
//! hit rolls the attacker's accuracy against the target's agility and, for
//! magic, the target's magic resistance; a struck hit skips both and only
//! meets the target's armour.
use vstd::prelude::*;
use crate::types::{EntityRef, EntityRefView};
use crate::monster::{buff_stat_total, current_poison, spec_buff_stat_total, spec_clamp_i32, spec_current_poison};
use crate::zone::{find_monster, find_player, ZoneRuntime};
use crate::entity::{spec_can_attack, spec_monster, spec_player, EntityDefence, EntityTargetPurpose};
use crate::entity_status::{entity_monster_defended_damage, spec_defended_damage};
use crate::arith::sat_add_i32;

verus! {

/// What a hit on an entity life comes to.
#[derive(Debug, Clone, Copy, PartialEq, Eq, Structural)]
pub enum EntityHitOutcome {
    /// No hit: no damage, or a target the source may not hit.
    Refused,
    /// The hit misses (accuracy or magic resistance); the miss is shown.
    Missed,
    /// A player takes `damage` through the player damage path: as magic or
    /// not, ignoring armour or not, credited to `attacker_object_id` (0 for
    /// a struck hit).
    Player { damage: i32, magic: bool, ignore_armour: bool, attacker_object_id: u32 },
    /// A monster takes `damage` after its armour and poison (0 is shown as
    /// a miss unless the hit was struck).
    Monster { damage: i32 },
}

/// The accuracy of a source monster: its template accuracy (0 without one)
/// raised by its accuracy buffs, at least 0.
pub open spec fn spec_source_accuracy(rt: ZoneRuntime, source_id: u32) -> int {
    match spec_monster(rt, source_id) {
        Some(m) => {
            let base: i32 = match m.template {
                Some(t) => t.accuracy,
                None => 0,
            };
            let a = spec_clamp_i32(base + spec_buff_stat_total(m.buffs@, 10));
            if a < 0 { 0 } else { a }
        },
        None => 0,
    }
}

/// The agility and magic resistance of a target life: a monster's agility
/// raised by its agility buffs and its magic-resistance buffs; a player's
/// own values.
pub open spec fn spec_target_defence(rt: ZoneRuntime, target: EntityRefView) -> (int, int) {
    match target {
        EntityRefView::Monster { object_id, .. } => match spec_monster(rt, object_id) {
            Some(m) => (spec_clamp_i32(m.defense.agility + spec_buff_stat_total(m.buffs@, 11)), spec_buff_stat_total(m.buffs@, 30)),
            None => (0, 0),
        },
        EntityRefView::Player { session, .. } => match spec_player(rt, session) {
            Some(p) => (p.agility as int, p.magic_resist as int),
            None => (0, 0),
        },
    }
}

/// `v` held within `0..=10`.
pub open spec fn spec_clamp_ten(v: int) -> int {
    if v < 0 { 0 } else if v > 10 { 10 } else { v }
}

/// Whether a defence is rolled against magic.
pub open spec fn spec_magic_defence(d: EntityDefence) -> bool {
    d == EntityDefence::MAC || d == EntityDefence::MACAgility
}

/// Whether a defence lets the target dodge by agility.
pub open spec fn spec_agility_defence(d: EntityDefence) -> bool {
    d == EntityDefence::ACAgility || d == EntityDefence::MACAgility || d == EntityDefence::Agility
}

/// The outcome of a hit of `raw_damage` from `source` on `target` in zone
/// `rt` at `now` against `defence`, given the magic-resistance roll
/// `magic_roll` (in `0..10`), the agility roll `agility_roll` (in
/// `0..=agility`) and, on a monster, the armour roll `armour`. A hit with
/// no damage, or on a target the source may not hit, comes to nothing. An
/// attacked (not struck) hit misses when, against magic, the resistance
/// roll falls below the target's magic resistance (held within 0..=10), or,
/// where agility counts, the agility roll exceeds the source's accuracy. A
/// player then takes the raw damage through the player path (armour ignored
/// for agility-only or no defence); a monster takes the damage left after
/// its armour and poison.
pub open spec fn spec_entity_hit_outcome(
    rt: ZoneRuntime,
    source: EntityRefView,
    target: EntityRefView,
    raw_damage: i32,
    defence: EntityDefence,
    struck: bool,
    now: u64,
    magic_roll: u64,
    agility_roll: u64,
    armour: i32,
) -> EntityHitOutcome {
    if raw_damage <= 0 || !spec_can_attack(rt, source, target, EntityTargetPurpose::Impact, now) {
        EntityHitOutcome::Refused
    } else {
        let (agility, resist) = spec_target_defence(rt, target);
        let missed = !struck && ((spec_magic_defence(defence) && magic_roll < spec_clamp_ten(resist)) || (
        spec_agility_defence(defence) && agility_roll > spec_source_accuracy(rt, source.object_id())));
        if missed {
            EntityHitOutcome::Missed
        } else {
            match target {
                EntityRefView::Player { .. } => EntityHitOutcome::Player {
                    damage: raw_damage,
                    magic: spec_magic_defence(defence),
                    ignore_armour: defence == EntityDefence::Agility || defence == EntityDefence::NoDefence,
                    attacker_object_id: if struck { 0 } else { source.object_id() },
                },
                EntityRefView::Monster { object_id, .. } => EntityHitOutcome::Monster {
                    damage: spec_defended_damage(spec_current_poison(spec_monster(rt, object_id)->0), raw_damage, armour) as i32,
                },
            }
        }
    }
}

impl ZoneRuntime {
    /// The outcome of a hit from `source` on `target` (see
    /// [`spec_entity_hit_outcome`]).
    pub fn native_entity_hit_outcome(
        &self,
        source: &EntityRef,
        target: &EntityRef,
        raw_damage: i32,
        defence: EntityDefence,
        struck: bool,
        now: u64,
        magic_roll: u64,
        agility_roll: u64,
        armour: i32,
    ) -> (r: EntityHitOutcome)
        requires
            armour >= 0,
        ensures
            r == spec_entity_hit_outcome(*self, source@, target@, raw_damage, defence, struck, now, magic_roll, agility_roll, armour),
    {
        if raw_damage <= 0 || !self.native_entity_can_attack(source, target, EntityTargetPurpose::Impact, now) {
            return EntityHitOutcome::Refused;
        }
        let source_id = source.object_id();
        let accuracy: i64 = match find_monster(&self.native_monsters, source_id) {
            Some(i) => {
                let m = &self.native_monsters[i];
                let base: i32 = match m.template {
                    Some(t) => t.accuracy,
                    None => 0,
                };
                let a = sat_add_i32(base, buff_stat_total(m, 10));
                if a < 0 { 0 } else { a as i64 }
            },
            None => 0,
        };
        let (agility, resist): (i64, i64) = match target {
            EntityRef::Monster { object_id, .. } => match find_monster(&self.native_monsters, *object_id) {
                Some(i) => {
                    let m = &self.native_monsters[i];
                    (sat_add_i32(m.defense.agility, buff_stat_total(m, 11)) as i64, buff_stat_total(m, 30) as i64)
                },
                None => (0, 0),
            },
            EntityRef::Player { session_id, .. } => match find_player(&self.players, session_id) {
                Some(i) => (self.players[i].agility as i64, self.players[i].magic_resist as i64),
                None => (0, 0),
            },
        };
        assert((agility as int, resist as int) == spec_target_defence(*self, target@));
        let magic = defence == EntityDefence::MAC || defence == EntityDefence::MACAgility;
        let uses_agility = defence == EntityDefence::ACAgility || defence == EntityDefence::MACAgility
            || defence == EntityDefence::Agility;
        let resist_cap: i64 = if resist < 0 { 0 } else if resist > 10 { 10 } else { resist };
        let missed = !struck && ((magic && (magic_roll as i128) < (resist_cap as i128)) || (uses_agility
            && (agility_roll as i128) > (accuracy as i128)));
        if missed {
            return EntityHitOutcome::Missed;
        }
        match target {
            EntityRef::Player { .. } => EntityHitOutcome::Player {
                damage: raw_damage,
                magic,
                ignore_armour: defence == EntityDefence::Agility || defence == EntityDefence::NoDefence,
                attacker_object_id: if struck { 0 } else { source_id },
            },
            EntityRef::Monster { object_id, .. } => {
                let i = find_monster(&self.native_monsters, *object_id);
                match i {
                    Some(i) => EntityHitOutcome::Monster {
                        damage: entity_monster_defended_damage(&self.native_monsters[i], raw_damage, armour),
                    },
                    None => EntityHitOutcome::Refused,
                }
            },
        }
    }
}

/// A hit on a player that lands (neither refused nor missed) is delivered
/// with the raw damage, as magic exactly when the defence is MAC or
/// MACAgility, ignoring armour exactly when the defence is agility alone or
/// none, and credited to the source unless it was struck. A hit on a
/// player never comes out as monster damage, nor one on a monster as player
/// damage; an attacked magic hit whose resistance roll reaches 10 never
/// misses on resistance, and a struck hit never misses.
pub proof fn lemma_entity_hit_delivery(
    rt: ZoneRuntime,
    source: EntityRefView,
    target: EntityRefView,
    raw_damage: i32,
    defence: EntityDefence,
    struck: bool,
    now: u64,
    magic_roll: u64,
    agility_roll: u64,
    armour: i32,
)
    ensures
        ({
            let o = spec_entity_hit_outcome(rt, source, target, raw_damage, defence, struck, now, magic_roll, agility_roll, armour);
            &&& (target is Player ==> match o {
                EntityHitOutcome::Player { damage, magic, ignore_armour, attacker_object_id } => {
                    &&& damage == raw_damage
                    &&& magic == (defence == EntityDefence::MAC || defence == EntityDefence::MACAgility)
                    &&& ignore_armour == (defence == EntityDefence::Agility || defence == EntityDefence::NoDefence)
                    &&& attacker_object_id == if struck { 0 } else { source.object_id() }
                },
                EntityHitOutcome::Monster { .. } => false,
                _ => true,
            })
            &&& (target is Monster ==> !(o is Player))
            &&& (raw_damage > 0 && spec_can_attack(rt, source, target, EntityTargetPurpose::Impact, now) && struck
                ==> !(o is Missed) && !(o is Refused))
            &&& (raw_damage > 0 && spec_can_attack(rt, source, target, EntityTargetPurpose::Impact, now)
                && (defence == EntityDefence::MAC || defence == EntityDefence::AC) && magic_roll >= 10
                ==> !(o is Missed) && !(o is Refused))
            &&& (raw_damage <= 0 ==> o is Refused)
        }),
{
}

} // verus!
