use simulation::entity_hit::EntityHitOutcome;
use simulation::outbound::ZoneOutbound;
use simulation::ai::evil_mir::initialize_evil_mir;
use simulation::ai::meow::NativeMonsterTarget;
use simulation::ai::mud::initialize_mud_boulder;
use simulation::ai::periodic::PeriodicPoisonStep;
use simulation::ai::shinsu::shinsu_mode_step;
use simulation::entity::{native_entity_attack_blocked, EntityDefence, EntityTargetPurpose};
use simulation::entity_tick::DamageLeaseStep;
use simulation::monster::{GreatFoxState, MonsterTemplate, PlayerTarget, ShinsuState};
use simulation::zone::NativePeriodicPlayerPoison;
use simulation::entity_status::{entity_monster_armour_range, entity_monster_defended_damage};
use simulation::monster::{MonsterBuff, MonsterDefense, NativeMonster, SpecialAi, StatValue, ZonePlayer};
use simulation::types::{Direction, Disposition, EntityRef, Point, SessionId};
use simulation::zone::{ZoneKey, ZoneObject, ZoneRuntime};

const PET: u32 = 200;
const WILD: u32 = 9000;

fn player(session: &str, object_id: u32, x: i32, y: i32) -> ZonePlayer {
    ZonePlayer {
        session_id: SessionId::new(session),
        object_id,
        life_generation: 1,
        level: 40,
        hp: 100,
        dead: false,
        hidden: false,
        position: Point { x, y },
        in_safe_zone: false,
        is_gm: false,
        gm_never_die: false,
        guild_name: None,
        pk_points: 0,
        attack_mode: 0,
        poison_resist: 0,
        magic_resist: 0,
        agility: 0,
        min_dc: 0,
        buff_min_dc: 0,
        poison: 0,
        native_status_poison: 0,
        native_status_poison_deadlines: Vec::new(),
        native_status_poison_expires_at_ms: None,
    }
}

fn monster(object_id: u32, x: i32, y: i32) -> NativeMonster {
    NativeMonster {
        object_id,
        name: "Monster".to_string(),
        ai: 0,
        level: 40,
        hp: 9999,
        max_hp: 9999,
        dead: false,
        incarnation: 1,
        owner_session_id: None,
        owner_player_object_id: 0,
        master_object_id: None,
        hostile_to_player: true,
        disposition: Some(Disposition::Hostile),
        friendly_guild: None,
        position: Point { x, y },
        direction: Direction::Left,
        move_speed_ms: 300,
        attack_speed_ms: 2000,
        next_ai_ready_at_ms: 0,
        next_attack_ready_at_ms: 0,
        hallucination_until_ms: 0,
        entity_poison: 0,
        poison: 0,
        control_poison: 0,
        control_until_ms: 0,
        damage_poison: 0,
        damage_poison_value: 0,
        damage_poison_next_damage_at_ms: 0,
        damage_poison_expires_at_ms: 0,
        damage_poison_owner_session_id: None,
        damage_poison_owner_object_id: 0,
        attackable: true,
        visible: true,
        hidden: false,
        cool_eye_sees: false,
        template: None,
        defense: MonsterDefense { min_ac: 0, max_ac: 0, min_mac: 0, max_mac: 0, agility: 0 },
        buffs: Vec::new(),
        special: SpecialAi::empty(),
    }
}

fn object(object_id: u32, x: i32, y: i32) -> ZoneObject {
    ZoneObject { object_id, position: Point { x, y }, packet_frame: Vec::new(), hidden: false, expires_at_ms: None }
}

/// An owner with a skeleton pet, and a wild ArcherGuard beside them.
fn fixture() -> (ZoneRuntime, EntityRef, EntityRef) {
    let mut zone = ZoneRuntime::new(ZoneKey { map_file_name: "entity-unit".to_string() });
    zone.players.push(player("owner", 101, 10, 20));
    let mut pet = monster(PET, 11, 20);
    pet.owner_session_id = Some(SessionId::new("owner"));
    pet.owner_player_object_id = 101;
    pet.hostile_to_player = false;
    pet.hp = 100;
    pet.max_hp = 100;
    pet.move_speed_ms = 800;
    pet.attack_speed_ms = 1400;
    zone.native_monsters.push(pet);
    zone.objects.push(object(PET, 11, 20));
    zone.native_monsters.push(monster(WILD, 12, 20));
    zone.objects.push(object(WILD, 12, 20));
    let source = zone.native_entity_monster_ref(WILD).unwrap();
    let target = zone.native_entity_monster_ref(PET).unwrap();
    (zone, source, target)
}

fn pet_mut(zone: &mut ZoneRuntime) -> &mut NativeMonster {
    zone.native_monsters.iter_mut().find(|m| m.object_id == PET).unwrap()
}

fn wild_mut(zone: &mut ZoneRuntime) -> &mut NativeMonster {
    zone.native_monsters.iter_mut().find(|m| m.object_id == WILD).unwrap()
}

fn pet(zone: &ZoneRuntime) -> &NativeMonster {
    zone.native_monsters.iter().find(|m| m.object_id == PET).unwrap()
}

fn buff(m: &mut NativeMonster, stats: &[(u8, i32)]) {
    m.buffs.push(MonsterBuff {
        buff_type: 52,
        stats: stats.iter().map(|&(stat, value)| StatValue { stat, value }).collect(),
        expires_at_ms: None,
    });
}

#[test]
fn native_entity_armour_uses_both_buff_bounds_and_poison_rates() {
    let (mut zone, _source, _target) = fixture();
    {
        let m = pet_mut(&mut zone);
        m.defense.min_ac = 0;
        m.defense.max_ac = 0;
        buff(m, &[(0, 20), (1, 20)]);
    }
    let (lo, hi) = entity_monster_armour_range(pet(&zone), EntityDefence::AC, 600);
    assert_eq!((lo, hi), (20, 20), "MinAC buff must not permit a 0..20 roll");
    assert_eq!(entity_monster_defended_damage(pet(&zone), 30, lo), 10);
    pet_mut(&mut zone).control_poison = 2 | 16;
    let (lo, _) = entity_monster_armour_range(pet(&zone), EntityDefence::AC, 601);
    assert_eq!(
        entity_monster_defended_damage(pet(&zone), 30, lo),
        35,
        "Red halves armour; Stun scales raw damage before armour"
    );
}

#[test]
fn armour_range_follows_the_defence_kind() {
    let (mut zone, _, _) = fixture();
    {
        let m = pet_mut(&mut zone);
        m.defense = MonsterDefense { min_ac: 3, max_ac: 7, min_mac: 11, max_mac: 13, agility: 0 };
        buff(m, &[(2, 4), (3, 1)]);
    }
    assert_eq!(entity_monster_armour_range(pet(&zone), EntityDefence::ACAgility, 0), (3, 7));
    assert_eq!(entity_monster_armour_range(pet(&zone), EntityDefence::MAC, 0), (15, 15));
    assert_eq!(entity_monster_armour_range(pet(&zone), EntityDefence::Agility, 0), (0, 0));
    assert_eq!(entity_monster_armour_range(pet(&zone), EntityDefence::NoDefence, 0), (0, 0));
}

#[test]
fn defended_damage_is_never_negative() {
    let (zone, _, _) = fixture();
    assert_eq!(entity_monster_defended_damage(pet(&zone), 5, 50), 0);
    assert_eq!(entity_monster_defended_damage(pet(&zone), 50, 0), 50);
}

#[test]
fn visible_impact_allows_a_dead_source_but_not_a_hidden_target() {
    let (mut zone, source, target) = fixture();
    assert!(zone.native_entity_can_attack(&source, &target, EntityTargetPurpose::Search, 600));
    {
        let w = wild_mut(&mut zone);
        w.dead = true;
        w.hp = 0;
    }
    assert!(!zone.native_entity_can_attack(&source, &target, EntityTargetPurpose::Search, 600));
    assert!(zone.native_entity_can_attack(&source, &target, EntityTargetPurpose::VisibleImpact, 600));
    zone.objects.iter_mut().find(|o| o.object_id == PET).unwrap().hidden = true;
    assert!(!zone.native_entity_can_attack(&source, &target, EntityTargetPurpose::VisibleImpact, 600));
    assert!(zone.native_entity_can_attack(&source, &target, EntityTargetPurpose::Impact, 600));
    pet_mut(&mut zone).incarnation += 1;
    assert!(!zone.native_entity_can_attack(&source, &target, EntityTargetPurpose::Impact, 600));
}

#[test]
fn pets_never_attack_and_guards_spare_non_pk_owners() {
    let (mut zone, source, target) = fixture();
    assert!(!zone.native_entity_can_attack(&target, &source, EntityTargetPurpose::Impact, 600));
    wild_mut(&mut zone).ai = 6;
    assert!(!zone.native_entity_can_attack(&source, &target, EntityTargetPurpose::Impact, 600));
    zone.players[0].pk_points = 200;
    assert!(zone.native_entity_can_attack(&source, &target, EntityTargetPurpose::Impact, 600));
}

#[test]
fn player_reference_names_one_life() {
    let (mut zone, source, _) = fixture();
    let session = SessionId::new("owner");
    let old = zone.native_entity_player_ref(&session).unwrap();
    assert!(zone.entity_ref_exists(&old, false));
    assert!(zone.native_entity_can_attack(&source, &old, EntityTargetPurpose::Impact, 700));
    zone.players[0].life_generation += 1;
    assert!(!zone.entity_ref_exists(&old, true));
    assert!(!zone.native_entity_can_attack(&source, &old, EntityTargetPurpose::Impact, 700));
    let new = zone.native_entity_player_ref(&session).unwrap();
    assert!(!new.same(&old));
}

#[test]
fn green_keeps_the_stronger_lease_and_marks_the_monster() {
    let (mut zone, source, target) = fixture();
    assert!(zone.apply_native_entity_green_poison(&source, &target, 10, 5, 2000, 600));
    assert!(!zone.apply_native_entity_green_poison(&source, &target, 1, 10, 2000, 600));
    let ledger = zone.entity_combat.as_ref().unwrap();
    assert_eq!(ledger.poisons.len(), 1);
    assert_eq!(ledger.poisons[0].value, 10);
    assert_eq!(ledger.poisons[0].duration, 5);
    assert_eq!(ledger.poisons[0].poison, 1);
    assert_eq!(ledger.poisons[0].count, 0);
    assert_eq!(pet(&zone).entity_poison & 1, 1);
    assert!(zone.apply_native_entity_green_poison(&source, &target, 12, 3, 0, 601));
    let ledger = zone.entity_combat.as_ref().unwrap();
    assert_eq!(ledger.poisons.len(), 1);
    assert_eq!(ledger.poisons[0].value, 12);
    assert_eq!(ledger.poisons[0].tick_speed_ms, 1);
}

#[test]
fn green_without_duration_or_with_negative_strength_does_nothing() {
    let (mut zone, source, target) = fixture();
    assert!(!zone.apply_native_entity_green_poison(&source, &target, 10, 0, 2000, 600));
    assert!(!zone.apply_native_entity_green_poison(&source, &target, -1, 5, 2000, 600));
    assert!(zone.entity_combat.is_none());
    assert_eq!(pet(&zone).entity_poison, 0);
}

#[test]
fn slow_starts_once_and_remembers_base_speeds() {
    let (mut zone, source, target) = fixture();
    assert!(zone.apply_native_entity_slow(&source, &target, 5, 1000, 600, 0));
    assert!(!zone.apply_native_entity_slow(&source, &target, 99, 1000, 600, 0));
    let ledger = zone.entity_combat.as_ref().unwrap();
    assert_eq!(ledger.slows.len(), 1);
    assert_eq!(ledger.slows[0].duration, 5);
    assert_eq!(ledger.slows[0].count, 0);
    assert_eq!(pet(&zone).entity_poison & 4, 4);
    assert_eq!(pet(&zone).control_until_ms, 0, "Slow does not borrow the freeze clock");
}

#[test]
fn paralysis_is_not_refreshed_while_it_runs() {
    let (mut zone, source, target) = fixture();
    let bits = zone.apply_native_entity_paralysis(&source, &target, 5, 1000, 600, 0);
    assert_eq!(bits.map(|b| b & 32), Some(32));
    assert_eq!(zone.entity_combat.as_ref().unwrap().controls.len(), 1);
    assert_eq!(zone.apply_native_entity_paralysis(&source, &target, 9, 1000, 601, 0), None);
    let ledger = zone.entity_combat.as_ref().unwrap();
    assert_eq!(ledger.controls.len(), 1);
    assert_eq!(ledger.controls[0].duration, 5);
}

#[test]
fn red_poison_halves_the_armour_roll() {
    let (mut zone, source, target) = fixture();
    let bits = zone.apply_native_entity_red_poison(&source, &target, 5, 1000, 600, 0);
    assert_eq!(bits.map(|b| b & 2), Some(2));
    assert_eq!(entity_monster_defended_damage(pet(&zone), 30, 20), 20);
}

#[test]
fn dazed_monsters_cannot_launch_attacks() {
    let (mut zone, _, _) = fixture();
    assert!(!native_entity_attack_blocked(pet(&zone), 0));
    pet_mut(&mut zone).entity_poison = 1024;
    assert!(native_entity_attack_blocked(pet(&zone), 0));
}

#[test]
fn retired_source_orphans_its_leases() {
    let (mut zone, source, target) = fixture();
    assert!(zone.apply_native_entity_paralysis(&source, &target, 5, 1000, 600, 0).is_some());
    let lease_alive = {
        let c = &zone.entity_combat.as_ref().unwrap().controls[0];
        zone.entity_status_source_exists(c, false)
    };
    assert!(lease_alive);
    zone.retire_entity_combat_life(WILD);
    let ledger = zone.entity_combat.as_ref().unwrap();
    assert!(ledger.controls.iter().all(|c| c.source_removed || c.target.object_id() == WILD));
}

fn tick(zone: &mut ZoneRuntime, now: u64) -> Vec<(u32, u16)> {
    zone.tick_entity_combat_leases(now, &Vec::new())
}

#[test]
fn slow_steps_every_tick_without_freezing_or_refreshing() {
    let (mut zone, source, target) = fixture();
    let initial = pet(&zone).move_speed_ms;
    buff(pet_mut(&mut zone), &[(31, 10)]);
    assert!(zone.apply_native_entity_slow(&source, &target, 5, 1000, 600, 0));
    assert!(!zone.apply_native_entity_slow(&source, &target, 99, 1000, 600, 0));
    assert_eq!(zone.entity_combat.as_ref().unwrap().slows.len(), 1);
    assert_eq!(zone.entity_combat.as_ref().unwrap().slows[0].duration, 5);
    tick(&mut zone, 601);
    assert_eq!(pet(&zone).move_speed_ms, initial.saturating_add(100).min(3500));
    tick(&mut zone, 602);
    assert_eq!(pet(&zone).move_speed_ms, initial.saturating_add(200).min(3500));
    assert_eq!(zone.entity_combat.as_ref().unwrap().slows[0].count, 1);
    assert_eq!(pet(&zone).control_until_ms, 0, "Slow does not borrow the freeze clock");
    for now in 603..650 {
        tick(&mut zone, now);
    }
    assert_eq!(pet(&zone).move_speed_ms, 3500);
    assert_eq!(pet(&zone).attack_speed_ms, 3500);
}

#[test]
fn slow_outlives_a_dead_source_and_restores_base_speeds_on_expiry() {
    let (mut zone, source, target) = fixture();
    let (base_move, base_attack) = (pet(&zone).move_speed_ms, pet(&zone).attack_speed_ms);
    assert!(zone.apply_native_entity_slow(&source, &target, 3, 1000, 600, 0));
    tick(&mut zone, 601);
    {
        let w = wild_mut(&mut zone);
        w.dead = true;
        w.hp = 0;
    }
    for now in [1601, 1602, 2602] {
        tick(&mut zone, now);
    }
    assert_ne!(pet(&zone).entity_poison & 4, 0);
    tick(&mut zone, 2603);
    let m = pet(&zone);
    assert_eq!((m.move_speed_ms, m.attack_speed_ms), (base_move, base_attack));
    assert_eq!(m.next_attack_ready_at_ms, 2603 + base_attack);
    assert_eq!(m.entity_poison & 4, 0);
    assert!(zone.entity_combat.as_ref().unwrap().slows.is_empty());
}

#[test]
fn retired_source_ends_the_slow_on_the_next_tick() {
    let (mut zone, source, target) = fixture();
    assert!(zone.apply_native_entity_slow(&source, &target, 5, 1000, 600, 0));
    tick(&mut zone, 601);
    zone.retire_entity_combat_life(WILD);
    tick(&mut zone, 602);
    assert_eq!(pet(&zone).entity_poison & 4, 0);
    assert!(zone.entity_combat.as_ref().unwrap().slows.is_empty());
}

#[test]
fn paralysis_keeps_its_own_clock_beside_a_slow() {
    let (mut zone, source, target) = fixture();
    buff(pet_mut(&mut zone), &[(31, 10)]);
    assert!(zone.apply_native_entity_slow(&source, &target, 8, 1000, 600, 0));
    assert!(zone.apply_native_entity_paralysis(&source, &target, 3, 1000, 600, 0).is_some());
    assert_eq!(zone.apply_native_entity_paralysis(&source, &target, 99, 1000, 600, 0), None);
    assert_eq!(zone.entity_combat.as_ref().unwrap().controls[0].duration, 3);
    assert_eq!(pet(&zone).control_until_ms, 0);
    tick(&mut zone, 601);
    {
        let w = wild_mut(&mut zone);
        w.dead = true;
        w.hp = 0;
    }
    for now in [1601, 1602, 2602] {
        assert!(tick(&mut zone, now).is_empty());
    }
    assert_ne!(pet(&zone).entity_poison & 32, 0);
    let notices = tick(&mut zone, 2603);
    assert_eq!(notices.len(), 1);
    assert_eq!(notices[0].0, PET);
    assert_eq!(notices[0].1 & 32, 0);
    assert_ne!(pet(&zone).entity_poison & 4, 0);
    assert_eq!(pet(&zone).entity_poison & 32, 0);
    assert!(zone.entity_combat.as_ref().unwrap().controls.is_empty());
}

#[test]
fn root_paralysis_ends_when_its_root_falls() {
    let (mut zone, source, target) = fixture();
    let bits = zone.apply_native_tree_root_paralysis(&source, &target, 77, 500, 5000, 600, 0);
    assert_eq!(bits.map(|b| b & 32), Some(32));
    assert!(zone.tick_entity_control_leases(601, &vec![77]).is_empty());
    assert_eq!(zone.entity_combat.as_ref().unwrap().controls.len(), 1);
    let notices = zone.tick_entity_control_leases(602, &Vec::new());
    assert_eq!(notices.len(), 1);
    assert_eq!(pet(&zone).entity_poison & 32, 0);
    assert!(zone.entity_combat.as_ref().unwrap().controls.is_empty());
}

#[test]
fn damage_lease_counts_and_deals_its_strength() {
    let (mut zone, source, target) = fixture();
    assert!(zone.apply_native_entity_green_poison(&source, &target, 10, 2, 2000, 600));
    let lease = zone.entity_combat.as_mut().unwrap().poisons.remove(0);
    let lease = match zone.step_entity_damage_lease(lease, 601) {
        DamageLeaseStep::Kept { lease, bleed_effect, damage } => {
            assert!(!bleed_effect);
            assert_eq!(damage, Some(10));
            assert_eq!((lease.count, lease.next_tick_ms), (1, 2601));
            lease
        }
        other => panic!("unexpected step {:?}", other),
    };
    let lease = match zone.step_entity_damage_lease(lease, 2601) {
        DamageLeaseStep::Kept { lease, damage, .. } => {
            assert_eq!(damage, None, "poison clock is strict now > deadline");
            lease
        }
        other => panic!("unexpected step {:?}", other),
    };
    match zone.step_entity_damage_lease(lease, 2602) {
        DamageLeaseStep::Ended { notice } => assert_eq!(notice.map(|b| b & 1), Some(0)),
        other => panic!("unexpected step {:?}", other),
    }
    assert_eq!(pet(&zone).entity_poison & 1, 0);
}

#[test]
fn damage_lease_on_a_dead_target_is_dropped() {
    let (mut zone, source, target) = fixture();
    assert!(zone.apply_native_entity_green_poison(&source, &target, 10, 5, 2000, 600));
    let lease = zone.entity_combat.as_mut().unwrap().poisons.remove(0);
    {
        let p = pet_mut(&mut zone);
        p.dead = true;
        p.hp = 0;
    }
    assert!(matches!(zone.step_entity_damage_lease(lease, 601), DamageLeaseStep::Dropped));
}

fn periodic(mask: u16, count: u64, ticks: u64) -> NativePeriodicPlayerPoison {
    NativePeriodicPlayerPoison {
        owner: WILD,
        source_removed: false,
        session: SessionId::new("owner"),
        target: 101,
        mask,
        value: 7,
        count,
        ticks,
        tick_speed_ms: 1000,
        next_tick: 0,
    }
}

#[test]
fn periodic_lease_hits_then_lifts_its_status() {
    let (mut zone, _, _) = fixture();
    zone.players[0].poison = 1;
    zone.players[0].native_status_poison = 1;
    zone.players[0].native_status_poison_deadlines = vec![(1, u64::MAX)];
    zone.players[0].native_status_poison_expires_at_ms = Some(u64::MAX);
    match zone.step_native_periodic_player_poison(periodic(1, 0, 5), 600) {
        PeriodicPoisonStep::Kept { lease, bleed_effect, hit } => {
            assert_eq!((lease.count, lease.next_tick), (1, 1600));
            assert!(!bleed_effect);
            let h = hit.unwrap();
            assert_eq!((h.attacker_object_id, h.target_object_id, h.damage, h.magic), (WILD, 101, 7, false));
        }
        other => panic!("unexpected step {:?}", other),
    }
    match zone.step_native_periodic_player_poison(periodic(1, 5, 5), 700) {
        PeriodicPoisonStep::Ended { poison } => assert_eq!(poison, 0),
        other => panic!("unexpected step {:?}", other),
    }
    assert_eq!(zone.players[0].native_status_poison, 0);
    assert!(zone.players[0].native_status_poison_deadlines.is_empty());
    assert_eq!(zone.players[0].native_status_poison_expires_at_ms, None);
    assert!(matches!(
        zone.step_native_periodic_player_poison(periodic(1, 0, 5), 800),
        PeriodicPoisonStep::Dropped
    ));
}

#[test]
fn shinsu_shows_while_a_target_is_near_and_hides_after() {
    let mut s = ShinsuState { mode: false, mode_until_ms: 0, action_until_ms: 0, hits: Vec::new() };
    assert_eq!(shinsu_mode_step(&mut s, 100, true), Some(true));
    assert_eq!((s.mode_until_ms, s.action_until_ms), (30100, 1100));
    assert_eq!(shinsu_mode_step(&mut s, 500, true), None, "a switch locks it for a second");
    assert_eq!(shinsu_mode_step(&mut s, 20000, false), None);
    assert_eq!(shinsu_mode_step(&mut s, 40000, false), Some(false));
    assert!(!s.mode);
}

#[test]
fn great_fox_state_starts_guarded_and_idle() {
    let s = GreatFoxState::default();
    assert_eq!((s.stage, s.recall_ready_ms, s.rng_state), (0, 0, 0));
    assert!(s.guardian_active);
    assert!(s.target_object_id.is_none() && s.target_ref.is_none() && s.pending.is_empty());
}

#[test]
fn evil_mir_targets_and_binding() {
    let (mut zone, _, target) = fixture();
    {
        let w = wild_mut(&mut zone);
        w.ai = 52;
        initialize_evil_mir(w);
    }
    let found = zone.evil_mir_targets(WILD, &Point { x: 12, y: 20 }, 3, true, 600);
    assert_eq!(found.len(), 2, "the pet and its owner");
    assert_eq!(found[0].object_id, PET, "nearest first");
    assert!(found[0].reference.same(&target));
    let found = zone.encounter_targets(WILD, &Point { x: 12, y: 20 }, 1, false, 600);
    assert_eq!(found.len(), 1);
    zone.set_evil_mir_target(WILD, Some(&found[0]), 600);
    {
        let s = zone.native_monsters.iter().find(|m| m.object_id == WILD).unwrap().special.evil_mir.as_ref().unwrap();
        assert!(s.target.is_none(), "a monster target names no player");
        assert!(s.target_ref.as_ref().unwrap().same(&target));
    }
    let bound = zone.selected_native_entity_target(WILD, 600).unwrap();
    assert_eq!(bound.object_id, PET);
    zone.set_evil_mir_target(WILD, None, 601);
    assert!(zone.selected_native_entity_target(WILD, 601).is_none());
}

#[test]
fn mud_targets_join_players_and_pets_nearest_first() {
    let (mut zone, _, _) = fixture();
    {
        let w = wild_mut(&mut zone);
        w.ai = 108;
        initialize_mud_boulder(w, WILD, 600);
    }
    zone.players.push(player("far", 102, 14, 20));
    let found = zone.mud_targets(WILD, &Point { x: 12, y: 20 }, 2, true, 600);
    let ids: Vec<u32> = found.iter().map(|t| t.object_id).collect();
    assert_eq!(ids, vec![PET, 101, 102]);
    let owner_life = zone.mud_target_reference(&found[1]).unwrap();
    assert!(owner_life.same(&found[1].reference));
    zone.players[0].life_generation += 1;
    assert!(zone.mud_target_reference(&found[1]).is_none(), "a player target lasts one life");
    assert!(zone.mud_target_reference(&found[0]).is_some());
    let r = zone.mud_boulder_roll(WILD, 6);
    assert!(r < 6);
}

#[test]
fn horned_friends_are_same_side_visible_and_sorted() {
    let (mut zone, _, _) = fixture();
    for (id, x, y) in [(9003, 15, 20), (9001, 13, 21), (9002, 13, 19)] {
        zone.native_monsters.push(monster(id, x, y));
    }
    let mut hidden = monster(9004, 12, 21);
    hidden.visible = false;
    zone.native_monsters.push(hidden);
    let friends = zone.horned_friends(WILD, &Point { x: 12, y: 20 }, 3);
    assert_eq!(friends, vec![9002, 9001, 9003]);
}

#[test]
fn meow_and_hugger_targets_follow_their_rules() {
    let (mut zone, _, _) = fixture();
    zone.players.push(player("safe", 102, 11, 21));
    zone.players[1].in_safe_zone = true;
    zone.players.push(player("hidden", 103, 12, 21));
    zone.players[2].hidden = true;
    let m = monster(WILD, 12, 20);
    let meow: Vec<NativeMonsterTarget> = zone.meow_targets(&m, &Point { x: 12, y: 20 }, 5);
    assert_eq!(meow.iter().map(|t| t.object_id).collect::<Vec<_>>(), vec![101]);
    let hugs = zone.hugger_targets(WILD, &m, true, 600);
    assert_eq!(hugs.iter().map(|t| t.object_id).collect::<Vec<_>>(), vec![PET]);
    let hugs = zone.hugger_targets(WILD, &m, false, 600);
    assert_eq!(hugs.iter().map(|t| t.object_id).collect::<Vec<_>>(), vec![PET, 103]);
}

fn mud_zone() -> (ZoneRuntime, EntityRef) {
    let (mut zone, _, target) = fixture();
    let w = wild_mut(&mut zone);
    w.ai = 108;
    w.template = Some(MonsterTemplate {
        effect: 0,
        view_range: 7,
        cool_eye: 0,
        accuracy: 10,
        min_dc: 1,
        max_dc: 2,
        min_mc: 0,
        max_mc: 0,
        min_sc: 0,
        max_sc: 0,
        min_ac: 0,
        max_ac: 0,
        min_mac: 0,
        max_mac: 0,
        move_speed: 300,
        attack_speed: 2000,
    });
    initialize_mud_boulder(w, WILD, 600);
    (zone, target)
}

fn mud_state(zone: &ZoneRuntime) -> &simulation::monster::MudBoulderState {
    zone.native_monsters.iter().find(|m| m.object_id == WILD).unwrap().special.mud_boulder.as_ref().unwrap()
}

#[test]
fn mud_chooses_its_nearest_reachable_life_and_binds() {
    let (mut zone, target) = mud_zone();
    let chosen = zone.mud_select_target(WILD, 600).unwrap();
    assert!(chosen.reference.same(&target));
    assert!(mud_state(&zone).target_bound);
    assert!(zone.set_native_entity_target(WILD, &chosen.reference, 600));
    let again = zone.mud_select_target(WILD, 601).unwrap();
    assert!(again.reference.same(&target), "a bound target is kept");
}

#[test]
fn mud_migrates_a_remembered_first_life_player_once() {
    let (mut zone, _) = mud_zone();
    zone.players[0].life_generation = 0;
    zone.native_monsters.iter_mut().find(|m| m.object_id == WILD).unwrap().special.mud_boulder.as_mut().unwrap().target =
        Some(PlayerTarget { session_id: SessionId::new("owner"), object_id: 101 });
    let chosen = zone.mud_select_target(WILD, 600).unwrap();
    assert_eq!(chosen.object_id, 101, "the remembered player outranks the nearer pet");
    assert!(mud_state(&zone).target_bound);
}

#[test]
fn mud_without_targets_forgets_what_it_remembered() {
    let (mut zone, _) = mud_zone();
    zone.native_monsters.iter_mut().find(|m| m.object_id == WILD).unwrap().special.mud_boulder.as_mut().unwrap().monster_target =
        Some((4242, 1));
    zone.players[0].position = Point { x: 90, y: 90 };
    pet_mut(&mut zone).position = Point { x: 91, y: 90 };
    zone.objects.iter_mut().for_each(|o| o.position = Point { x: 91, y: 90 });
    assert!(zone.mud_select_target(WILD, 600).is_none());
    let s = mud_state(&zone);
    assert!(s.target_bound && s.target.is_none() && s.monster_target.is_none());
}

#[test]
fn spitting_toads_go_when_their_owner_leaves_or_their_time_is_up() {
    let (mut zone, _, _) = fixture();
    let mut toad = monster(300, 11, 21);
    toad.ai = 61;
    toad.owner_session_id = Some(SessionId::new("owner"));
    toad.owner_player_object_id = 101;
    zone.native_monsters.push(toad);
    let mut expiring = object(300, 11, 21);
    expiring.expires_at_ms = Some(5000);
    zone.objects.push(expiring);
    assert!(zone.expired_spitting_toads(5000).is_empty());
    assert_eq!(zone.expired_spitting_toads(5001), vec![300]);
    zone.players[0].position = Point { x: 40, y: 21 };
    assert_eq!(zone.expired_spitting_toads(100), vec![300], "an owner beyond 15 tiles leaves its toad");
    let targets = zone.horned_targets(WILD, &Point { x: 12, y: 20 }, 1, EntityTargetPurpose::Impact, 100);
    assert_eq!(targets.len(), 2, "the pet and the owned toad");
    let m = monster(WILD, 12, 20);
    assert_eq!(zone.great_fox_targets(WILD, &m, 1, 100).len(), 2);
}

#[test]
fn mud_zombie_blows_strike_the_line_at_550_and_600_ms() {
    let (mut zone, _) = mud_zone();
    // Not yet ready: a MudZombie waits two seconds after it gets its state.
    assert_eq!(zone.try_tick_mud_boulder(WILD, 2600), Some(Vec::new()));
    let out = zone.try_tick_mud_boulder(WILD, 3000).unwrap();
    assert_eq!(
        out,
        vec![ZoneOutbound::ObjectAttack {
            object_id: WILD,
            location: Point { x: 12, y: 20 },
            direction: simulation::types::Direction::Left,
            attack_type: 0,
        }]
    );
    let w = zone.native_monsters.iter().find(|m| m.object_id == WILD).unwrap();
    assert_eq!(w.position, Point { x: 12, y: 20 }, "no push, no step");
    assert_eq!((w.next_ai_ready_at_ms, w.next_attack_ready_at_ms), (3300, 5000));
    let s = mud_state(&zone);
    assert_eq!(s.monster_hits.len(), 1);
    assert_eq!((s.monster_hits[0].target, s.monster_hits[0].due, s.monster_hits[0].magic), (PET, 3550, false));
    assert_eq!(s.hits.len(), 1);
    assert_eq!((s.hits[0].target_object_id, s.hits[0].due_ms, s.hits[0].magic), (101, 3600, false));
    assert!((1..=2).contains(&s.hits[0].damage));
    assert_eq!(s.monster_target, Some((PET, pet(&zone).incarnation)));
    // The next attack waits for its delay: the zombie asks to close in instead.
    assert_eq!(
        zone.try_tick_mud_boulder(WILD, 3400),
        Some(vec![ZoneOutbound::ObjectStep {
            object_id: WILD,
            destination: Point { x: 11, y: 20 },
            direction: simulation::types::Direction::Left,
        }])
    );
}

#[test]
fn mud_zombie_casts_from_afar_at_500_ms_and_waits_longer() {
    let (mut zone, _) = mud_zone();
    pet_mut(&mut zone).position = Point { x: 90, y: 90 };
    zone.objects.iter_mut().filter(|o| o.object_id == PET).for_each(|o| o.position = Point { x: 90, y: 90 });
    zone.players[0].position = Point { x: 16, y: 20 };
    {
        let t = wild_mut(&mut zone).template.as_mut().unwrap();
        t.min_mc = 3;
        t.max_mc = 4;
    }
    let out = zone.try_tick_mud_boulder(WILD, 3000).unwrap();
    assert_eq!(
        out,
        vec![ZoneOutbound::ObjectRangeAttack {
            object_id: WILD,
            location: Point { x: 12, y: 20 },
            direction: simulation::types::Direction::Right,
            target_id: 101,
            target: Point { x: 16, y: 20 },
            attack_type: 0,
        }]
    );
    let w = zone.native_monsters.iter().find(|m| m.object_id == WILD).unwrap();
    assert_eq!(w.next_attack_ready_at_ms, 3000 + 2000 + 500);
    let s = mud_state(&zone);
    assert_eq!(s.hits.len(), 1);
    assert_eq!((s.hits[0].target_object_id, s.hits[0].due_ms, s.hits[0].magic), (101, 3500, true));
    assert!((3..=4).contains(&s.hits[0].damage));
    assert!(s.monster_hits.is_empty());
}

#[test]
fn a_mud_zombie_without_magic_power_queues_no_ranged_hit() {
    let (mut zone, _) = mud_zone();
    pet_mut(&mut zone).position = Point { x: 90, y: 90 };
    zone.objects.iter_mut().filter(|o| o.object_id == PET).for_each(|o| o.position = Point { x: 90, y: 90 });
    zone.players[0].position = Point { x: 16, y: 20 };
    assert!(zone.try_tick_mud_boulder(WILD, 3000).is_some());
    assert!(mud_state(&zone).hits.is_empty());
    let w = zone.native_monsters.iter().find(|m| m.object_id == WILD).unwrap();
    assert_eq!(w.next_attack_ready_at_ms, 5500);
}

#[test]
fn only_mud_monsters_take_a_mud_turn() {
    let (mut zone, _) = mud_zone();
    wild_mut(&mut zone).ai = 1;
    assert_eq!(zone.try_tick_mud_boulder(WILD, 3000), None);
    assert_eq!(zone.try_tick_mud_boulder(4242, 3000), None);
    wild_mut(&mut zone).ai = 170;
    assert_eq!(zone.try_tick_mud_boulder(WILD, 3000), Some(Vec::new()));
    wild_mut(&mut zone).ai = 108;
    wild_mut(&mut zone).dead = true;
    assert_eq!(zone.try_tick_mud_boulder(WILD, 3000), Some(Vec::new()));
}

#[test]
fn a_free_tile_lets_the_mud_zombie_walk() {
    let (mut zone, _) = mud_zone();
    zone.mud_boulder_walk(WILD, &Point { x: 11, y: 19 }, simulation::types::Direction::UpLeft, 1000);
    let w = zone.native_monsters.iter().find(|m| m.object_id == WILD).unwrap();
    assert_eq!(w.position, Point { x: 11, y: 19 });
    assert_eq!(w.direction, simulation::types::Direction::UpLeft);
    assert_eq!(w.next_ai_ready_at_ms, 1000 + w.move_speed_ms);
}

#[test]
fn native_entity_visible_impact_allows_corpse_but_checks_hidden_and_life() {
    let (mut zone, source, target) = fixture();
    {
        let w = wild_mut(&mut zone);
        w.dead = true;
        w.hp = 0;
    }
    assert!(!zone.native_entity_can_attack(&source, &target, EntityTargetPurpose::Search, 600));
    assert!(zone.native_entity_can_attack(&source, &target, EntityTargetPurpose::VisibleImpact, 600));
    pet_mut(&mut zone).level = 41;
    zone.objects.iter_mut().filter(|o| o.object_id == PET).for_each(|o| o.hidden = true);
    assert!(!zone.native_entity_can_attack(&source, &target, EntityTargetPurpose::VisibleImpact, 600));
    assert!(zone.native_entity_can_attack(&source, &target, EntityTargetPurpose::Impact, 600));
    pet_mut(&mut zone).incarnation += 1;
    assert_eq!(
        zone.native_entity_hit_outcome(&source, &target, 20, EntityDefence::NoDefence, false, 600, 0, 0, 0),
        EntityHitOutcome::Refused
    );
}

#[test]
fn native_entity_player_slow_has_human_second_resist_and_source_lease() {
    let (mut zone, source, _) = fixture();
    let session = SessionId::new("owner");
    let target = zone.native_entity_player_ref(&session).unwrap();
    zone.players[0].poison_resist = 10;
    assert!(!zone.apply_native_entity_slow(&source, &target, 4, 1000, 600, 9));
    assert_eq!(zone.players[0].native_status_poison & 4, 0);
    zone.players[0].poison_resist = 0;
    assert!(zone.apply_native_entity_slow(&source, &target, 4, 1000, 601, 0));
    assert_ne!(zone.players[0].native_status_poison & 4, 0);
    {
        let w = wild_mut(&mut zone);
        w.dead = true;
        w.hp = 0;
    }
    tick(&mut zone, 602);
    assert_ne!(zone.players[0].native_status_poison & 4, 0, "a dead source's slow runs on");
    zone.retire_entity_combat_life(source.object_id());
    tick(&mut zone, 603);
    assert_eq!(zone.players[0].native_status_poison & 4, 0);
    assert!(zone.players[0].native_status_poison_deadlines.is_empty());
}

#[test]
fn native_entity_target_relations_retire_both_deaths_and_never_cross_player_lives() {
    let (mut zone, source, target) = fixture();
    assert!(zone.set_native_entity_target(source.object_id(), &target, 550));
    // The target's death retires its life.
    zone.retire_entity_combat_life(target.object_id());
    assert!(zone.selected_native_entity_target(source.object_id(), 600).is_none());
    assert!(zone.entity_combat.as_ref().unwrap().targets.is_empty());
    let player = zone.native_entity_player_ref(&SessionId::new("owner")).unwrap();
    assert!(zone.set_native_entity_target(source.object_id(), &player, 601));
    // Dying and being revived starts a new life of the player.
    zone.players[0].life_generation += 1;
    assert!(zone.selected_native_entity_target(source.object_id(), 602).is_none());
    assert!(!zone.set_native_entity_target(source.object_id(), &player, 602));
    let current = zone.native_entity_player_ref(&SessionId::new("owner")).unwrap();
    assert!(zone.set_native_entity_target(source.object_id(), &current, 603));
    // The source's death retires its relations too.
    zone.retire_entity_combat_life(source.object_id());
    assert!(zone.entity_combat.as_ref().unwrap().targets.is_empty());
}

#[test]
fn attacked_hits_roll_accuracy_and_resistance_but_struck_hits_do_not() {
    let (mut zone, source, target) = fixture();
    pet_mut(&mut zone).defense.agility = 5;
    // Accuracy 0 without a template: an agility roll of 1 misses, 0 hits.
    assert_eq!(
        zone.native_entity_hit_outcome(&source, &target, 20, EntityDefence::ACAgility, false, 600, 0, 1, 0),
        EntityHitOutcome::Missed
    );
    assert_eq!(
        zone.native_entity_hit_outcome(&source, &target, 20, EntityDefence::ACAgility, true, 600, 0, 1, 3),
        EntityHitOutcome::Monster { damage: 17 },
        "a struck hit skips the accuracy roll and meets the armour"
    );
    assert_eq!(
        zone.native_entity_hit_outcome(&source, &target, 20, EntityDefence::ACAgility, false, 600, 0, 0, 3),
        EntityHitOutcome::Monster { damage: 17 }
    );
    // Magic resistance 4: a resistance roll below it misses.
    buff(pet_mut(&mut zone), &[(30, 4)]);
    assert_eq!(
        zone.native_entity_hit_outcome(&source, &target, 20, EntityDefence::MAC, false, 600, 3, 0, 0),
        EntityHitOutcome::Missed
    );
    assert_eq!(
        zone.native_entity_hit_outcome(&source, &target, 20, EntityDefence::MAC, false, 600, 4, 0, 0),
        EntityHitOutcome::Monster { damage: 20 }
    );
    assert_eq!(
        zone.native_entity_hit_outcome(&source, &target, 0, EntityDefence::MAC, false, 600, 9, 0, 0),
        EntityHitOutcome::Refused
    );
    let player = zone.native_entity_player_ref(&SessionId::new("owner")).unwrap();
    assert_eq!(
        zone.native_entity_hit_outcome(&source, &player, 12, EntityDefence::NoDefence, true, 600, 0, 0, 0),
        EntityHitOutcome::Player { damage: 12, magic: false, ignore_armour: true, attacker_object_id: 0 }
    );
}
