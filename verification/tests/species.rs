use simulation::outbound::ZoneOutbound;
use simulation::ai::kirin::kirin_delay_step;
use simulation::ai::meow::meow_take_due;
use simulation::monster::{EntityHitRecord, MeowThunder};
use simulation::ai::node::{node_tick, NodeTick};
use simulation::monster::NodeAiState;
use simulation::ai::passive::passive_step_order;
use simulation::monster::PassiveAiState;
use simulation::ai::meow::{meow_enraged, meow_strike, meow_thunder, MeowStrike};
use simulation::entity::EntityDefence;
use simulation::ai::hugger::{hugger_after_hit, hugger_delay_step};
use simulation::monster::HuggerState;
use simulation::ai::reactive::{reactive_decision, reactive_retreat_order, ReactiveAction};
use simulation::ai::hugger::{hugger_action, HuggerAction};
use simulation::ai::armadillo::{armadillo_attack_step, armadillo_flee_order};
use simulation::types::rotated;
use simulation::ai::horned::{horned_attack_plan, horned_choose_target, horned_expire_buffs, horned_move_choice, HornedAttackPlan, HornedMove};
use simulation::ai::horned_encounter::{commander_phase_step, initialize_horned_encounter};
use simulation::ai::kirin::{kirin_attack_type, kirin_melee_reach};
use simulation::ai::evil_mir::{evil_mir_choose_target, evil_mir_launch};
use simulation::ai::great_fox::{great_fox_choose_target, great_fox_stage_step};
use simulation::entity::NativeEntityTarget;
use simulation::ai::mud::{initialize_mud_boulder, mud_boulder_due};
use simulation::monster::MudMonsterHit;
use simulation::ai::revival::{revival_decision, revive_zombie, RevivalDecision};
use sha2::{Digest, Sha256};
use simulation::ai::armadillo::{armadillo_attacked, armadillo_roll};
use simulation::ai::evil_mir::{evil_mir_roll, initialize_evil_mir};
use simulation::ai::great_fox::{great_fox_movement_ready, great_fox_roll, initialize_great_fox_monster};
use simulation::ai::hell::{hell_accepts_attack, hell_on_damage, hell_roll, initialize_hell_monster};
use simulation::ai::horned::{add_horned_buff, horned_roll, HornedStat};
use simulation::ai::hugger::hugger_on_damage;
use simulation::ai::kirin::{kirin_snow_tag, roll as kirin_roll};
use simulation::ai::meow::{initialize_meow, meow_roll};
use simulation::ai::mud::{mud_boulder_on_death, mud_player_target};
use simulation::ai::passive::{initialize_passive_monster, passive_monster_on_damage, passive_target};
use simulation::ai::pet::initialize_pet_special;
use simulation::ai::reward::tag_reward_owner;
use simulation::ai::shinsu::{shinsu_can_act, shinsu_range};
use simulation::gate::football_accepts_hp_change;
use simulation::monster::{
    EvilMirState, GreatFoxState, HellState, HornedBuff, HornedHit, HornedState, HuggerHit,
    KirinSnowState, MeowState, MonsterDefense, MonsterTemplate, NativeMonster, PlayerHitRecord,
    RevivingZombieState, SpecialAi, ZonePlayer,
};
use simulation::rng::draw_below;
use simulation::types::{Direction, Disposition, EntityRef, Point, SessionId};
use simulation::zone::{HellWorldState, ZoneKey, ZoneRuntime};

const GOLDEN: u64 = 0x9E3779B97F4A7C15;

fn mix(x: u64) -> u64 {
    let a = (x ^ (x >> 30)).wrapping_mul(0xBF58476D1CE4E5B9);
    let b = (a ^ (a >> 27)).wrapping_mul(0x94D049BB133111EB);
    b ^ (b >> 31)
}

/// An independent unbiased draw: the reference for every stream.
fn reference_draw(state: &mut u64, upper: u64) -> u64 {
    let threshold = upper.wrapping_neg() % upper;
    loop {
        *state = state.wrapping_add(GOLDEN);
        let v = mix(*state);
        if v >= threshold {
            return v % upper;
        }
    }
}

fn player(session: &str, object_id: u32, x: i32, y: i32) -> ZonePlayer {
    ZonePlayer {
        session_id: SessionId::new(session),
        object_id,
        life_generation: 1,
        level: 10,
        hp: 50,
        dead: false,
        hidden: false,
        position: Point { x, y },
        in_safe_zone: false,
        is_gm: false,
        gm_never_die: false,
        guild_name: None,
        pk_points: 0,
        attack_mode: 0,
        poison_resist: 0,
        magic_resist: 0,
        agility: 0,
        min_dc: 0,
        buff_min_dc: 0,
        poison: 0,
        native_status_poison: 0,
        native_status_poison_deadlines: Vec::new(),
        native_status_poison_expires_at_ms: None,
    }
}

fn template() -> MonsterTemplate {
    MonsterTemplate {
        effect: 0,
        view_range: 7,
        cool_eye: 0,
        accuracy: 10,
        min_dc: 10,
        max_dc: 20,
        min_mc: 5,
        max_mc: 9,
        min_sc: 1,
        max_sc: 3,
        min_ac: 0,
        max_ac: 0,
        min_mac: 0,
        max_mac: 0,
        move_speed: 800,
        attack_speed: 1400,
    }
}

fn monster(object_id: u32, ai: u8) -> NativeMonster {
    NativeMonster {
        object_id,
        name: "Monster".to_string(),
        ai,
        level: 20,
        hp: 100,
        max_hp: 100,
        dead: false,
        incarnation: 1,
        owner_session_id: None,
        owner_player_object_id: 0,
        master_object_id: None,
        hostile_to_player: true,
        disposition: Some(Disposition::Hostile),
        friendly_guild: None,
        position: Point { x: 30, y: 30 },
        direction: Direction::Down,
        move_speed_ms: 900,
        attack_speed_ms: 1500,
        next_ai_ready_at_ms: 0,
        next_attack_ready_at_ms: 0,
        hallucination_until_ms: 0,
        entity_poison: 0,
        poison: 0,
        control_poison: 0,
        control_until_ms: 0,
        damage_poison: 0,
        damage_poison_value: 0,
        damage_poison_next_damage_at_ms: 0,
        damage_poison_expires_at_ms: 0,
        damage_poison_owner_session_id: None,
        damage_poison_owner_object_id: 0,
        attackable: true,
        visible: true,
        hidden: false,
        cool_eye_sees: false,
        template: None,
        defense: MonsterDefense { min_ac: 0, max_ac: 0, min_mac: 0, max_mac: 0, agility: 0 },
        buffs: Vec::new(),
        special: SpecialAi::empty(),
    }
}

fn zone() -> ZoneRuntime {
    ZoneRuntime::new(ZoneKey { map_file_name: "species".to_string() })
}

#[test]
fn draw_below_matches_the_reference_stream() {
    let mut ours = 12345u64;
    let mut theirs = 12345u64;
    for upper in [1u64, 2, 3, 7, 100, u64::MAX] {
        assert_eq!(draw_below(&mut ours, upper), reference_draw(&mut theirs, upper));
        assert_eq!(ours, theirs);
    }
}

#[test]
fn reward_claim_holds_against_others_within_the_window() {
    let a = SessionId::new("a");
    let b = SessionId::new("b");
    let mut owner = None;
    let mut until = 0u64;
    tag_reward_owner(&mut owner, &mut until, &a, 1000);
    assert_eq!(owner.as_ref().unwrap().name, "a");
    assert_eq!(until, 6000);
    tag_reward_owner(&mut owner, &mut until, &b, 6000);
    assert_eq!(owner.as_ref().unwrap().name, "a");
    assert_eq!(until, 6000);
    tag_reward_owner(&mut owner, &mut until, &b, 6001);
    assert_eq!(owner.as_ref().unwrap().name, "b");
    assert_eq!(until, 11001);
    tag_reward_owner(&mut owner, &mut until, &b, u64::MAX - 1);
    assert_eq!(until, u64::MAX);
}

#[test]
fn hugger_bomb_and_kirin_claims_follow_the_same_window() {
    let a = SessionId::new("a");
    let b = SessionId::new("b");
    let mut h = monster(1, 69);
    hugger_on_damage(&mut h, 1, Some(&a), 100);
    hugger_on_damage(&mut h, 1, Some(&b), 200);
    let s = h.special.hugger.as_ref().unwrap();
    assert_eq!(s.reward_owner.as_ref().unwrap().name, "a");
    assert_eq!(s.reward_until_ms, 5100);
    assert_eq!(s.fuse_ms, 300100);
    assert_eq!(s.rng, 1 ^ 100);

    let mut bomb = monster(2, 99);
    hell_on_damage(&mut bomb, Some(&b), 50);
    let hs = bomb.special.hell.as_ref().unwrap();
    assert_eq!(hs.reward_owner.as_ref().unwrap().name, "b");
    assert_eq!(hs.reward_until, 5050);
    assert_eq!(hs.explosion_time, 10050);
    assert_eq!(bomb.direction, Direction::Up);

    let mut kirin = monster(3, 180);
    kirin_snow_tag(&mut kirin, Some(&a), 7);
    assert_eq!(kirin.special.kirin_snow.as_ref().unwrap().reward_until_ms, 5007);
    let mut wolf = monster(4, 186);
    kirin_snow_tag(&mut wolf, Some(&a), 7);
    assert!(wolf.special.kirin_snow.is_none());
}

#[test]
fn seeded_rolls_match_their_reference_streams() {
    let mut hs = HellState {
        stage: 0,
        begun: false,
        raged: false,
        rage_until: 0,
        explosion_time: 0,
        explosion_due: None,
        parent: None,
        parent_incarnation: None,
        death_notified: false,
        rng: 0,
        reward_owner: None,
        reward_until: 0,
    };
    let mut reference = (7u64 << 32) ^ 0x9849;
    assert_eq!(hell_roll(&mut hs, 7, 10), reference_draw(&mut reference, 10));
    assert_eq!(hs.rng, reference);
    assert_eq!(hell_roll(&mut hs, 7, 0), 0);
    assert_eq!(hs.rng, reference);

    let mut horned = HornedState {
        rng: 0,
        fear_until: 0,
        buff_ready: 0,
        shield_ready: 0,
        target: None,
        target_ref: None,
        pending: Vec::new(),
        buffs: Vec::new(),
    };
    let mut reference = (9u64 << 32) ^ 0x163165;
    assert_eq!(horned_roll(&mut horned, 9, 4), reference_draw(&mut reference, 4));

    let mut fox = GreatFoxState {
        stage: 0,
        recall_ready_ms: 0,
        rng_state: 0,
        target_object_id: None,
        target_ref: None,
        pushed_move_ready_ms: None,
        lifecycle_alive: None,
        guardian_active: true,
        pending: Vec::new(),
    };
    let mut reference = (3u64 << 32) ^ 500 ^ 0x50F04;
    assert_eq!(great_fox_roll(&mut fox, 3, 500, 6), reference_draw(&mut reference, 6));

    let mut reference = 77u64 ^ (5u64 << 32) ^ 9u64.wrapping_mul(0xD1B54A32D192ED03);
    assert_eq!(armadillo_roll(77, 5, 9, 4), reference_draw(&mut reference, 4));
}

#[test]
fn unrejected_and_counter_rolls_match_their_formulas() {
    let mut evil = EvilMirState {
        rng: 0,
        target: None,
        target_ref: None,
        mass: false,
        pending: Vec::new(),
        pending_sources: Vec::new(),
    };
    let expected_state = ((11u64 << 32) ^ 52).wrapping_add(GOLDEN);
    assert_eq!(evil_mir_roll(&mut evil, 11, 5), mix(expected_state) % 5);
    assert_eq!(evil.rng, expected_state);
    assert_eq!(evil_mir_roll(&mut evil, 11, 0), 0);
    assert_eq!(evil.rng, expected_state);

    let mut meow = MeowState {
        spawn_ms: 0,
        thunder_ms: 0,
        action_ms: 0,
        sequence: 0,
        slaves: Vec::new(),
        hits: Vec::new(),
        entity_hits: Vec::new(),
        thunder: Vec::new(),
    };
    assert_eq!(meow_roll(&mut meow, 4, 1000, 9), mix(1000 ^ 4 ^ GOLDEN) % 9);
    assert_eq!(meow.sequence, 1);
    assert_eq!(meow_roll(&mut meow, 4, 1000, 0), mix(1000 ^ 4 ^ 2u64.wrapping_mul(GOLDEN)) % 1);

    let mut kirin = KirinSnowState {
        sequence: 41,
        action_ms: 0,
        hits: Vec::new(),
        entity_hits: Vec::new(),
        entity_target: None,
        death_lives: Vec::new(),
        death_ms: None,
        death_finished: false,
        excluded_lives: Vec::new(),
        spawned: false,
        slaves: Vec::new(),
        reward_owner: None,
        reward_until_ms: 0,
        target: None,
    };
    assert_eq!(kirin_roll(&mut kirin, 2, 3, 100), mix(3 ^ 2 ^ 42u64.wrapping_mul(GOLDEN)) % 100);
}

#[test]
fn reviving_zombie_stream_is_seeded_by_sha256_of_its_identity() {
    let key = br#"{"map_file_name":"0"}"#;
    let mut hasher = Sha256::new();
    hasher.update(b"mir2.zone.reviving-zombie.v1\0");
    hasher.update(key);
    hasher.update(42u32.to_le_bytes());
    hasher.update(1000u64.to_le_bytes());
    let digest = hasher.finalize();
    let mut seed = u64::from_le_bytes(digest[..8].try_into().unwrap());
    let lives = reference_draw(&mut seed, 3);
    let state = RevivingZombieState::new(42, 1000, key);
    assert_eq!(state.life_count as u64, lives);
    assert_eq!(state.rng_state, seed);
    assert!(state.rng_draws >= 1);
    assert_eq!(state.revival_count, 0);
    let again = RevivingZombieState::new(42, 1000, key);
    assert_eq!(again.rng_state, state.rng_state);
    let other = RevivingZombieState::new(43, 1000, key);
    assert_ne!(other.rng_state, state.rng_state);
}

#[test]
fn hell_predicates_follow_the_species() {
    let mut lord = monster(1, 98);
    assert!(!hell_accepts_attack(&lord));
    initialize_hell_monster(&mut lord, 0);
    lord.special.hell.as_mut().unwrap().stage = 4;
    assert!(hell_accepts_attack(&lord));
    assert_eq!(lord.direction, Direction::Up);
    assert!(hell_accepts_attack(&monster(2, 97)));
}

#[test]
fn a_knight_death_raises_its_exact_lord_once() {
    let mut z = zone();
    let mut lord = monster(1, 98);
    initialize_hell_monster(&mut lord, 0);
    lord.incarnation = 5;
    let mut knight = monster(2, 97);
    initialize_hell_monster(&mut knight, 0);
    knight.dead = true;
    {
        let s = knight.special.hell.as_mut().unwrap();
        s.parent = Some(1);
        s.parent_incarnation = Some(5);
    }
    z.native_monsters.push(lord);
    z.native_monsters.push(knight);
    z.hell_knight_died(2, 1000);
    let ls = z.native_monsters[0].special.hell.as_ref().unwrap();
    assert_eq!(ls.stage, 1);
    assert!(ls.raged);
    assert_eq!(ls.rage_until, 121000);
    let w = z.hell_world.as_ref().unwrap();
    assert_eq!(w.stage_updates, vec![1]);
    assert_eq!(w.stage_update_lives, vec![(1, 5)]);
    z.hell_knight_died(2, 2000);
    assert_eq!(z.native_monsters[0].special.hell.as_ref().unwrap().stage, 1);
    z.retire_hell_parent(1);
    let w = z.hell_world.as_ref().unwrap();
    assert!(w.stage_updates.is_empty() && w.stage_update_lives.is_empty());
}

#[test]
fn a_knight_of_an_older_lord_life_raises_nobody() {
    let mut z = zone();
    let mut lord = monster(1, 98);
    initialize_hell_monster(&mut lord, 0);
    lord.incarnation = 6;
    let mut knight = monster(2, 97);
    initialize_hell_monster(&mut knight, 0);
    knight.dead = true;
    {
        let s = knight.special.hell.as_mut().unwrap();
        s.parent = Some(1);
        s.parent_incarnation = Some(5);
    }
    z.native_monsters.push(lord);
    z.native_monsters.push(knight);
    z.hell_world = Some(HellWorldState { stage_updates: Vec::new(), stage_update_lives: Vec::new() });
    z.hell_knight_died(2, 1000);
    assert_eq!(z.native_monsters[0].special.hell.as_ref().unwrap().stage, 0);
    assert!(z.native_monsters[1].special.hell.as_ref().unwrap().death_notified);
    assert!(z.hell_world.as_ref().unwrap().stage_updates.is_empty());
}

#[test]
fn retiring_a_life_clears_species_hits_and_claims() {
    let mut z = zone();
    z.players.push(player("p", 50, 1, 1));
    let mut h = monster(1, 69);
    hugger_on_damage(&mut h, 1, Some(&SessionId::new("p")), 10);
    {
        let s = h.special.hugger.as_mut().unwrap();
        s.hits.push(HuggerHit { due: 5, target: 50, damage: 3, poison: false });
        s.hits.push(HuggerHit { due: 5, target: 51, damage: 3, poison: false });
        s.death_ms = Some(100);
    }
    z.native_monsters.push(h);
    let mut horned = monster(2, 163);
    horned.special.horned = Some(HornedState {
        rng: 0,
        fear_until: 0,
        buff_ready: 0,
        shield_ready: 0,
        target: Some(50),
        target_ref: None,
        pending: vec![HornedHit { due: 1, target: 50, damage: 1, magic: false }],
        buffs: Vec::new(),
    });
    z.native_monsters.push(horned);
    let mut meow = monster(3, 123);
    initialize_meow(&mut meow, 0);
    meow.special.meow.as_mut().unwrap().hits.push(PlayerHitRecord { due_ms: 1, target_object_id: 50, damage: 2, magic: false });
    z.native_monsters.push(meow);

    z.clear_hugger_target_life(50);
    z.clear_horned_targets(50);
    z.clear_meow_target_life(50);
    let s = z.native_monsters[0].special.hugger.as_ref().unwrap();
    assert_eq!(s.hits.len(), 1);
    assert_eq!(s.hits[0].target, 51);
    assert!(s.reward_owner.is_none());
    assert_eq!(s.reward_until_ms, 0);
    assert_eq!(s.excluded_lives, vec![50]);
    let hs = z.native_monsters[1].special.horned.as_ref().unwrap();
    assert!(hs.target.is_none() && hs.pending.is_empty());
    assert!(z.native_monsters[2].special.meow.as_ref().unwrap().hits.is_empty());
    z.clear_hugger_target_life(50);
    assert_eq!(z.native_monsters[0].special.hugger.as_ref().unwrap().excluded_lives, vec![50]);
}

#[test]
fn horned_buffs_replace_their_own_kind() {
    let mut s = HornedState {
        rng: 0,
        fear_until: 0,
        buff_ready: 0,
        shield_ready: 0,
        target: None,
        target_ref: None,
        pending: Vec::new(),
        buffs: Vec::new(),
    };
    add_horned_buff(&mut s, HornedBuff { kind: 50, source: 1, expires: 10, min: 1, max: 2 });
    add_horned_buff(&mut s, HornedBuff { kind: 51, source: 1, expires: 10, min: 1, max: 2 });
    add_horned_buff(&mut s, HornedBuff { kind: 50, source: 1, expires: 20, min: 5, max: 6 });
    assert_eq!(s.buffs.len(), 2);
    assert_eq!(s.buffs[0].kind, 51);
    assert_eq!(s.buffs[1].min, 5);
}

#[test]
fn horned_power_rolls_over_the_widened_template_range() {
    let mut z = zone();
    let mut m = monster(5, 163);
    m.template = Some(template());
    m.special.horned = Some(HornedState {
        rng: 0,
        fear_until: 0,
        buff_ready: 0,
        shield_ready: 0,
        target: None,
        target_ref: None,
        pending: Vec::new(),
        buffs: vec![HornedBuff { kind: 50, source: 5, expires: 1000, min: 2, max: 4 }],
    });
    z.native_monsters.push(m);
    let power = z.horned_power(5, HornedStat::Dc, 10);
    let mut reference = (5u64 << 32) ^ 0x163165;
    assert_eq!(power, 12 + reference_draw(&mut reference, 24 - 12 + 1) as i32);
    assert_eq!(z.horned_power(5, HornedStat::Ac, 2000), 0);
}

#[test]
fn shinsu_reach_and_lock() {
    let o = Point { x: 10, y: 10 };
    assert!(!shinsu_range(&o, &o));
    assert!(shinsu_range(&o, &Point { x: 11, y: 9 }));
    assert!(shinsu_range(&o, &Point { x: 12, y: 12 }));
    assert!(shinsu_range(&o, &Point { x: 12, y: 10 }));
    assert!(!shinsu_range(&o, &Point { x: 12, y: 11 }));
    assert!(!shinsu_range(&o, &Point { x: 13, y: 10 }));
    let mut s = monster(1, 18);
    assert!(!shinsu_can_act(&s, 0));
    simulation::ai::shinsu::initialize_shinsu(&mut s, 100);
    assert!(!shinsu_can_act(&s, 2100));
    assert!(shinsu_can_act(&s, 2101));
    assert!(shinsu_can_act(&monster(2, 3), 0));
}

#[test]
fn gates_block_their_footprint_only_while_standing() {
    let mut z = zone();
    let mut g = monster(1, 81);
    g.position = Point { x: 10, y: 10 };
    let mut t = template();
    t.effect = 1;
    g.template = Some(t);
    z.native_monsters.push(g);
    assert!(z.gate_blocks_tile(&Point { x: 10, y: 9 }));
    assert!(z.gate_blocks_tile(&Point { x: 9, y: 11 }));
    assert!(!z.gate_blocks_tile(&Point { x: 10, y: 10 }));
    assert!(!z.gate_blocks_tile(&Point { x: 10, y: 11 }));
    z.native_monsters[0].hp = 0;
    assert!(!z.gate_blocks_tile(&Point { x: 10, y: 9 }));
    assert!(!football_accepts_hp_change(&monster(2, 68)));
}

#[test]
fn passive_deer_pick_recorded_attacker_or_nearest_when_timid() {
    let players = vec![player("a", 1, 14, 10), player("b", 2, 12, 10), player("c", 3, 11, 13)];
    let visible = vec![true, false, true];
    let here = Point { x: 10, y: 10 };
    assert_eq!(passive_target(&players, &visible, &None, Some(1), false, &here, 14), Some(0));
    assert_eq!(passive_target(&players, &visible, &None, Some(2), false, &here, 14), None);
    assert_eq!(passive_target(&players, &visible, &None, Some(2), true, &here, 14), Some(1));
    assert_eq!(passive_target(&players, &visible, &None, None, true, &here, 1), None);
    let mut deer = monster(9, 2);
    initialize_passive_monster(&mut deer, 9, 77);
    let s = deer.special.passive.as_ref().unwrap();
    let mut reference = (9u64 << 32) ^ 77 ^ 0xDEE2;
    let timid = reference_draw(&mut reference, 7) == 0;
    assert_eq!(s.timid, timid);
    assert_eq!(deer.move_speed_ms, if timid { 600 } else { 900 });
    passive_monster_on_damage(&mut deer, 9, Some(44), 80);
    assert_eq!(deer.special.passive.as_ref().unwrap().target_object_id, Some(44));
}

#[test]
fn mud_death_schedules_one_explosion_and_ends_poisons() {
    let mut zombie = monster(1, 170);
    zombie.dead = true;
    zombie.control_poison = 8;
    zombie.damage_poison = 1;
    mud_boulder_on_death(&mut zombie, 1, 1000);
    let s = zombie.special.mud_boulder.as_ref().unwrap();
    assert_eq!(s.explosion_at_ms, Some(1300));
    assert_eq!(s.corpse_expires_at_ms, Some(181000));
    assert_eq!(zombie.control_poison, 0);
    assert_eq!(zombie.damage_poison, 0);
    mud_boulder_on_death(&mut zombie, 1, 5000);
    assert_eq!(zombie.special.mud_boulder.as_ref().unwrap().explosion_at_ms, Some(1300));
    let mut p = player("p", 2, 0, 0);
    assert!(mud_player_target(&zombie, &p, true));
    p.hidden = true;
    assert!(!mud_player_target(&zombie, &p, true));
    assert!(mud_player_target(&zombie, &p, false));
}

#[test]
fn fox_posts_and_pushed_movement() {
    let mut rock = monster(1, 48);
    initialize_great_fox_monster(&mut rock);
    assert_eq!(rock.direction, Direction::Up);
    assert!(rock.special.great_fox.as_ref().unwrap().guardian_active);
    rock.special.great_fox.as_mut().unwrap().pushed_move_ready_ms = Some(100);
    assert!(!great_fox_movement_ready(&rock, 100));
    assert!(great_fox_movement_ready(&rock, 101));
    let mut mir = monster(2, 52);
    initialize_evil_mir(&mut mir);
    assert_eq!(mir.direction, Direction::Up);
}

#[test]
fn fleeing_armadillo_counts_hits() {
    let mut a = monster(1, 124);
    armadillo_attacked(&mut a, 1, 10);
    assert!(!a.special.armadillo.as_ref().unwrap().fleeing);
    a.special.armadillo.as_mut().unwrap().fleeing = true;
    armadillo_attacked(&mut a, 1, 10);
    let s = a.special.armadillo.as_ref().unwrap();
    assert_eq!(s.hit_sequence, 1);
    let mut reference = 10u64 ^ (1u64 << 32) ^ (1u64 ^ 0xA124).wrapping_mul(0xD1B54A32D192ED03);
    assert_eq!(s.fleeing, reference_draw(&mut reference, 4) != 0);
}

#[test]
fn special_pets_wait_and_toads_schedule_their_search() {
    let mut toad = monster(1, 61);
    initialize_pet_special(&mut toad, 1000, 250);
    assert_eq!(toad.next_ai_ready_at_ms, 2000);
    assert_eq!(toad.special.pet_special.as_ref().unwrap().search_at, 1250);
    let mut deva = monster(2, 62);
    initialize_pet_special(&mut deva, 1000, 0);
    assert_eq!(deva.direction, Direction::Up);
}

#[test]
fn kirin_death_remembers_present_lives_once() {
    let mut z = zone();
    z.players.push(player("p", 50, 1, 1));
    let mut k = monster(7, 180);
    kirin_snow_tag(&mut k, Some(&SessionId::new("p")), 0);
    z.native_monsters.push(k);
    z.kirin_snow_on_death(7, 100);
    let s = z.native_monsters[0].special.kirin_snow.as_ref().unwrap();
    assert_eq!(s.death_ms, Some(600));
    assert_eq!(s.death_lives.len(), 2);
    assert!(matches!(s.death_lives[1], EntityRef::Monster { object_id: 7, .. }));
    assert_eq!(s.reward_owner.as_ref().unwrap().name, "p");
    assert!(z.native_monster_has_pending_kirin_snow_death(7));
    z.players.push(player("q", 51, 2, 2));
    z.kirin_snow_on_death(7, 6000);
    let s = z.native_monsters[0].special.kirin_snow.as_ref().unwrap();
    assert_eq!(s.death_ms, Some(600));
    assert_eq!(s.death_lives.len(), 2);
    assert!(s.reward_owner.is_none());
}

#[test]
fn mud_due_work_leaves_the_queues_in_order() {
    let mut m = monster(40, 108);
    initialize_mud_boulder(&mut m, 40, 1000);
    let s = m.special.mud_boulder.as_mut().unwrap();
    s.hits = vec![
        PlayerHitRecord { due_ms: 900, target_object_id: 1, damage: 5, magic: false },
        PlayerHitRecord { due_ms: 2000, target_object_id: 2, damage: 6, magic: false },
        PlayerHitRecord { due_ms: 1000, target_object_id: 3, damage: 7, magic: false },
    ];
    s.monster_hits = vec![MudMonsterHit { target: 9, incarnation: 1, due: 1001, damage: 3, magic: false }];
    s.explosion_at_ms = Some(1000);
    let (due, monster_due, explode) = mud_boulder_due(s, 1000);
    assert_eq!(due.iter().map(|h| h.target_object_id).collect::<Vec<_>>(), vec![1, 3]);
    assert!(monster_due.is_empty());
    assert!(explode);
    assert_eq!(s.hits.len(), 1);
    assert_eq!(s.monster_hits.len(), 1);
    assert!(s.exploded && s.explosion_at_ms.is_none());
    let (_, monster_due, explode) = mud_boulder_due(s, 1001);
    assert_eq!(monster_due.len(), 1);
    assert!(!explode, "an explosion happens once");
}

#[test]
fn zombie_revival_waits_expires_and_rises_weaker() {
    let mut m = monster(25, 25);
    m.max_hp = 200;
    m.dead = true;
    m.hp = 0;
    m.entity_poison = 4;
    let mut s = RevivingZombieState::new(25, 0, b"{}");
    s.life_count = 2;
    s.revive_at_ms = Some(5000);
    s.corpse_expires_at_ms = Some(180000);
    assert_eq!(revival_decision(&s, 5000), RevivalDecision::Wait, "revival time passes strictly");
    assert_eq!(revival_decision(&s, 5001), RevivalDecision::Revive);
    assert_eq!(revival_decision(&s, 180000), RevivalDecision::Expire);
    m.special.revival = Some(s);
    revive_zombie(&mut m, 7, 5001);
    assert!(!m.dead);
    assert_eq!(m.hp, 150);
    assert_eq!(m.incarnation, 7);
    assert_eq!(m.entity_poison, 0);
    assert_eq!((m.next_ai_ready_at_ms, m.next_attack_ready_at_ms), (7001, 7001));
    let s = m.special.revival.as_ref().unwrap();
    assert_eq!(s.revival_count, 1);
    assert!(s.revive_at_ms.is_none() && s.corpse_expires_at_ms.is_none() && s.died_at_ms.is_none());
    assert_eq!(revival_decision(s, 9000), RevivalDecision::Wait);
}

fn candidate(id: u32, x: i32, y: i32) -> NativeEntityTarget {
    NativeEntityTarget { reference: EntityRef::Monster { object_id: id, incarnation: 1 }, object_id: id, position: Point { x, y } }
}

#[test]
fn evil_mir_keeps_its_remembered_target_and_launches_on_its_roll() {
    let mut m = monster(52, 52);
    initialize_evil_mir(&mut m);
    let targets = vec![candidate(7, 31, 30), candidate(8, 33, 30)];
    assert_eq!(evil_mir_choose_target(m.special.evil_mir.as_ref().unwrap(), &targets), Some(0));
    m.special.evil_mir.as_mut().unwrap().target_ref = Some(EntityRef::Monster { object_id: 8, incarnation: 1 });
    assert_eq!(evil_mir_choose_target(m.special.evil_mir.as_ref().unwrap(), &targets), Some(1));
    assert_eq!(evil_mir_choose_target(m.special.evil_mir.as_ref().unwrap(), &Vec::new()), None);
    let state = ((52u64 << 32) ^ 52).wrapping_add(GOLDEN);
    let mass = mix(state) % 8 == 0;
    let (launched_mass, facing, due) = evil_mir_launch(&mut m, 52, Point { x: 33, y: 30 }, Some(Direction::Right), 1000);
    assert_eq!(launched_mass, mass);
    if mass {
        assert_eq!((facing, due), (Direction::Down, 1500));
    } else {
        assert_eq!((facing, due), (Direction::Up, 1000 + 3 * 50 + 620));
    }
    assert_eq!(m.direction, facing);
    assert_eq!((m.next_ai_ready_at_ms, m.next_attack_ready_at_ms), (1300, 2500));
    let s = m.special.evil_mir.as_ref().unwrap();
    assert_eq!(s.pending, vec![due]);
    assert_eq!(s.pending_sources.len(), 1);
    assert_eq!(s.rng, state);
}

#[test]
fn great_fox_rage_rises_with_lost_quarters_and_never_falls() {
    let mut m = monster(50, 50);
    initialize_great_fox_monster(&mut m);
    m.max_hp = 100;
    m.hp = 60;
    assert!(great_fox_stage_step(&mut m));
    assert_eq!(m.special.great_fox.as_ref().unwrap().stage, 2);
    m.hp = 90;
    assert!(!great_fox_stage_step(&mut m));
    assert_eq!(m.special.great_fox.as_ref().unwrap().stage, 2);
    m.hp = 10;
    assert!(great_fox_stage_step(&mut m));
    assert_eq!(m.special.great_fox.as_ref().unwrap().stage, 4);
    let targets = vec![candidate(7, 31, 30), candidate(8, 33, 30)];
    let s = m.special.great_fox.as_mut().unwrap();
    s.target_object_id = Some(8);
    assert_eq!(great_fox_choose_target(s, &targets), Some(1));
}

#[test]
fn guardian_rocks_follow_their_spirit() {
    let mut zone = zone();
    let mut spirit = monster(50, 50);
    initialize_great_fox_monster(&mut spirit);
    let mut near = monster(48, 48);
    near.position = Point { x: 40, y: 30 };
    initialize_great_fox_monster(&mut near);
    let mut far = monster(49, 48);
    far.position = Point { x: 60, y: 30 };
    initialize_great_fox_monster(&mut far);
    zone.native_monsters.push(near);
    zone.native_monsters.push(far);
    zone.native_monsters.push(spirit);
    zone.great_fox_lifecycles();
    let fox = |z: &ZoneRuntime, id: u32| z.native_monsters.iter().find(|m| m.object_id == id).unwrap().special.great_fox.as_ref().unwrap().guardian_active;
    assert!(fox(&zone, 48) && fox(&zone, 49));
    {
        let s = zone.native_monsters.iter_mut().find(|m| m.object_id == 50).unwrap();
        s.dead = true;
        s.hp = 0;
    }
    zone.great_fox_lifecycles();
    assert!(!fox(&zone, 48), "the near rock's guard falls with its spirit");
    assert!(fox(&zone, 49), "a rock beyond 20 tiles keeps its guard");
    zone.great_fox_lifecycles();
    assert!(!fox(&zone, 48), "no change, no new signal");
    let life = zone.native_monsters.iter().find(|m| m.object_id == 50).unwrap().special.great_fox.as_ref().unwrap().lifecycle_alive;
    assert_eq!(life, Some(false));
}

#[test]
fn kirin_and_wolves_reach_their_melee_tiles() {
    let at = |x: i32, y: i32| Point { x, y };
    assert!(kirin_melee_reach(180, &at(10, 10), &at(11, 11)));
    assert!(!kirin_melee_reach(180, &at(10, 10), &at(12, 10)));
    assert!(kirin_melee_reach(186, &at(10, 10), &at(12, 12)));
    assert!(kirin_melee_reach(186, &at(10, 10), &at(12, 10)));
    assert!(!kirin_melee_reach(186, &at(10, 10), &at(12, 11)));
    assert!(!kirin_melee_reach(186, &at(10, 10), &at(10, 10)));
}

#[test]
fn kirin_attack_type_follows_its_roll_and_health() {
    let mut s = KirinSnowState {
        sequence: 0,
        action_ms: 0,
        hits: Vec::new(),
        entity_hits: Vec::new(),
        entity_target: None,
        death_lives: Vec::new(),
        death_ms: None,
        death_finished: false,
        excluded_lives: Vec::new(),
        spawned: false,
        slaves: Vec::new(),
        reward_owner: None,
        reward_until_ms: 0,
        target: None,
    };
    assert_eq!(kirin_attack_type(&mut s, 7, 1000, 186, true, 10, 100), 2);
    assert_eq!(s.sequence, 0);
    for hp in [80, 45, 5] {
        let before = s.sequence;
        let draw = mix(1000 ^ 7 ^ (before + 1).wrapping_mul(GOLDEN));
        let expected = if draw % 3 > 0 { 0 } else if hp >= 60 { 1 } else if hp >= 30 { 2 } else { 3 };
        assert_eq!(kirin_attack_type(&mut s, 7, 1000, 180, false, hp, 100), expected);
        assert_eq!(s.sequence, before + 1);
    }
    let draw = mix(1000 ^ 7 ^ (s.sequence + 1).wrapping_mul(GOLDEN));
    assert_eq!(kirin_attack_type(&mut s, 7, 1000, 186, false, 10, 100), if draw % 5 == 0 { 1 } else { 0 });
}

#[test]
fn commander_phases_follow_its_health() {
    let mut m = monster(171, 171);
    initialize_horned_encounter(&mut m);
    m.max_hp = 1000;
    m.hp = 900;
    let p = commander_phase_step(&mut m, 1000);
    assert!(!p.call_boulders && !p.raise_shield);
    assert!(m.special.horned_encounter.as_ref().unwrap().advanced);
    m.hp = 700;
    let p = commander_phase_step(&mut m, 1100);
    assert!(p.call_boulders);
    assert!(!commander_phase_step(&mut m, 1200).call_boulders, "the boulders are called once");
    m.hp = 400;
    let p = commander_phase_step(&mut m, 1300);
    assert!(p.start_spikes && p.spikes_due);
    m.hp = 50;
    let p = commander_phase_step(&mut m, 1400);
    assert!(p.raise_shield);
    let s = m.special.horned_encounter.as_ref().unwrap();
    assert!(s.immune && s.called_shield);
    assert_eq!(s.shield_until, Some(21400));
    assert_eq!(s.spike_ready, u64::MAX);
    assert_eq!((m.next_ai_ready_at_ms, m.next_attack_ready_at_ms), (1700, 2900));
    let p = commander_phase_step(&mut m, 5000);
    assert_eq!(p, commander_phase_step(&mut m, 5000), "an immune commander waits");
    let p = commander_phase_step(&mut m, 21400);
    assert!(p.shield_dropped);
    assert!(!m.special.horned_encounter.as_ref().unwrap().immune);
    m.hp = 1000;
    let p = commander_phase_step(&mut m, 21500);
    assert!(p.reset);
    let s = m.special.horned_encounter.as_ref().unwrap();
    assert!(!s.advanced && !s.called_boulders && !s.called_spikes && !s.called_shield);
    m.dead = true;
    assert!(commander_phase_step(&mut m, 22000).died);
    assert!(!commander_phase_step(&mut m, 22100).died, "death is handled once");
}

fn horned_state() -> HornedState {
    HornedState {
        rng: 0,
        fear_until: 0,
        buff_ready: 0,
        shield_ready: 0,
        target: None,
        target_ref: None,
        pending: Vec::new(),
        buffs: Vec::new(),
    }
}

#[test]
fn horned_buffs_run_out_in_order() {
    let mut s = horned_state();
    for (kind, expires) in [(55u8, 100u64), (56, 300), (57, 200)] {
        s.buffs.push(HornedBuff { kind, source: 1, expires, min: 0, max: 0 });
    }
    assert_eq!(horned_expire_buffs(&mut s, 200), vec![55, 57]);
    assert_eq!(s.buffs.len(), 1);
    assert_eq!(s.buffs[0].kind, 56);
    assert!(horned_expire_buffs(&mut s, 299).is_empty());
}

#[test]
fn horned_warriors_keep_distance_or_close_in() {
    let at = |x: i32, y: i32| Point { x, y };
    let mut s = horned_state();
    s.target = Some(8);
    let targets = vec![candidate(7, 31, 30), candidate(8, 33, 30)];
    assert_eq!(horned_choose_target(&s, &targets), Some(1));
    s.target_ref = Some(EntityRef::Monster { object_id: 8, incarnation: 2 });
    assert_eq!(horned_choose_target(&s, &targets), Some(0), "another life of the remembered object is not kept");
    let mut s = horned_state();
    assert_eq!(horned_move_choice(163, &mut s, &at(10, 10), &at(13, 10), Direction::Right, 1000), HornedMove::Step(Direction::Left));
    assert_eq!(s.fear_until, 6000);
    assert_eq!(horned_move_choice(163, &mut s, &at(10, 10), &at(13, 10), Direction::Right, 1100), HornedMove::Attack);
    assert_eq!(horned_move_choice(164, &mut horned_state(), &at(10, 10), &at(17, 10), Direction::Right, 1000), HornedMove::Step(Direction::Right));
    let mut axe = horned_state();
    assert_eq!(horned_move_choice(165, &mut axe, &at(10, 10), &at(12, 12), Direction::DownRight, 1000), HornedMove::Attack);
    assert_eq!(horned_move_choice(165, &mut axe, &at(10, 10), &at(15, 10), Direction::Right, 1000), HornedMove::Step(Direction::Right));
    axe.buffs.push(HornedBuff { kind: 55, source: 1, expires: 2000, min: 0, max: 0 });
    assert_eq!(horned_move_choice(165, &mut axe, &at(10, 10), &at(12, 12), Direction::DownRight, 1000), HornedMove::Step(Direction::UpLeft));
}

#[test]
fn facings_turn_by_eighths() {
    assert_eq!(rotated(Direction::Up, 4), Direction::Down);
    assert_eq!(rotated(Direction::UpLeft, 1), Direction::Up);
    assert_eq!(rotated(Direction::Up, -1), Direction::UpLeft);
    assert_eq!(rotated(Direction::Right, -10), Direction::Up);
    assert_eq!(rotated(Direction::Left, 16), Direction::Left);
}

#[test]
fn armadillo_flees_away_first_then_turns_one_way() {
    let order = armadillo_flee_order(1000, 124, Direction::Right);
    assert_eq!(order.len(), 8);
    assert_eq!(order[0], Direction::Left);
    let step = if armadillo_roll(1000, 124, 0xAF, 2) == 0 { 1 } else { -1 };
    for (i, d) in order.iter().enumerate() {
        assert_eq!(*d, rotated(Direction::Left, step * i as i32));
    }
}

#[test]
fn armadillo_attack_counts_and_draws_its_branch() {
    let mut m = monster(125, 125);
    m.attack_speed_ms = 1500;
    let branch = armadillo_attack_step(&mut m, 125, Direction::Right, 1000);
    assert_eq!(branch, armadillo_roll(1000, 125, 1 ^ 0xA6, 6));
    let s = m.special.armadillo.as_ref().unwrap();
    assert_eq!(s.attack_sequence, 1);
    assert_eq!(s.fleeing, branch == 0, "an elder flees after a retreat");
    assert_eq!(m.direction, Direction::Right);
    assert_eq!((m.next_ai_ready_at_ms, m.next_attack_ready_at_ms), (1300, 2500));
}

#[test]
fn hugger_chases_grabs_or_explodes() {
    let here = Point { x: 30, y: 30 };
    let player = |x: i32| NativeEntityTarget {
        reference: EntityRef::Player { session_id: SessionId::new("p"), object_id: 5, life_generation: 1 },
        object_id: 5,
        position: Point { x, y: 30 },
    };
    assert_eq!(hugger_action(69, &here, 5000, 1000, None), HuggerAction::Explode);
    assert_eq!(hugger_action(69, &here, 5000, 1000, Some(&candidate(7, 31, 30))), HuggerAction::GrabMonster);
    assert_eq!(hugger_action(70, &here, 5000, 1000, Some(&candidate(7, 31, 30))), HuggerAction::ChaseMonster);
    assert_eq!(hugger_action(69, &here, 5000, 1000, Some(&candidate(7, 34, 30))), HuggerAction::ChaseMonster);
    assert_eq!(hugger_action(69, &here, 5000, 6000, Some(&candidate(7, 31, 30))), HuggerAction::Explode);
    assert_eq!(hugger_action(69, &here, 5000, 1000, Some(&player(31))), HuggerAction::Explode);
    assert_eq!(hugger_action(70, &here, 5000, 1000, Some(&player(31))), HuggerAction::ChasePlayer);
    assert_eq!(hugger_action(69, &here, 5000, 1000, Some(&player(35))), HuggerAction::ChasePlayer);
}

#[test]
fn reactive_monsters_attack_while_afraid_and_back_off_after() {
    let mut fox = monster(45, 45);
    fox.next_attack_ready_at_ms = 500;
    let near = Point { x: 31, y: 30 };
    assert_eq!(reactive_decision(&mut fox, &near, 500), ReactiveAction::Wait);
    assert!(fox.special.reactive.is_none(), "waiting creates no state");
    assert_eq!(reactive_decision(&mut fox, &near, 1000), ReactiveAction::Retreat);
    assert_eq!(fox.special.reactive.as_ref().unwrap().fear_until_ms, 6000);
    assert_eq!(reactive_decision(&mut fox, &near, 2000), ReactiveAction::Teleport);
    assert_eq!(fox.special.reactive.as_ref().unwrap().teleport_ready_at_ms, 12000);
    assert_eq!(reactive_decision(&mut fox, &near, 3000), ReactiveAction::Attack);
    let mut deva = monster(38, 38);
    assert_eq!(reactive_decision(&mut deva, &Point { x: 40, y: 30 }, 1000), ReactiveAction::Hold);
    let order = reactive_retreat_order(1000, 38, Direction::Up);
    let step = if (1000u64 ^ 38) & 1 == 0 { 1 } else { -1 };
    for (n, d) in order.iter().enumerate() {
        assert_eq!(*d, rotated(Direction::Up, step * n as i32));
    }
}

#[test]
fn horned_attack_plans_follow_the_weapon() {
    let at = |x: i32, y: i32| Point { x, y };
    let magic = HornedAttackPlan::Strike { magic: true, area: 3, delay: 500, ranged: false, kind: 0 };
    assert_eq!(horned_attack_plan(163, 100, 100, &at(10, 10), &at(13, 10), &mut horned_state(), 9, 1000), magic);
    let thrown = HornedAttackPlan::Strike { magic: false, area: 0, delay: 750, ranged: true, kind: 0 };
    assert_eq!(horned_attack_plan(164, 100, 100, &at(10, 10), &at(15, 10), &mut horned_state(), 9, 1000), thrown);
    let sweep = HornedAttackPlan::Strike { magic: false, area: 0, delay: 500, ranged: false, kind: 1 };
    assert_eq!(horned_attack_plan(165, 100, 100, &at(10, 10), &at(12, 12), &mut horned_state(), 9, 1000), sweep);

    let mut reference = (9u64 << 32) ^ 0x163165;
    let extra = reference_draw(&mut reference, 5000);
    let mut axe = horned_state();
    let plan = horned_attack_plan(165, 49, 100, &at(10, 10), &at(11, 10), &mut axe, 9, 1000);
    assert_eq!(plan, HornedAttackPlan::Shield { ready: 16000 + extra });
    assert_eq!(axe.shield_ready, 16000 + extra);
    assert_eq!(axe.rng, reference);
    // Half health, or a shield not ready yet, leaves the axe striking.
    assert_ne!(horned_attack_plan(165, 50, 100, &at(10, 10), &at(12, 12), &mut horned_state(), 9, 1000), plan);
    let mut waiting = horned_state();
    waiting.shield_ready = 1000;
    assert_eq!(horned_attack_plan(165, 10, 100, &at(10, 10), &at(12, 12), &mut waiting, 9, 1000), sweep);

    let mut reference = (9u64 << 32) ^ 0x163165;
    let roll = reference_draw(&mut reference, 5);
    let mut archer = horned_state();
    let expected = if roll == 0 {
        HornedAttackPlan::Teleport
    } else {
        HornedAttackPlan::Strike { magic: false, area: 0, delay: 800, ranged: true, kind: 0 }
    };
    assert_eq!(horned_attack_plan(163, 100, 100, &at(10, 10), &at(20, 10), &mut archer, 9, 1000), expected);
    assert_eq!(archer.rng, reference);
}

fn hugger_state(death_ms: Option<u64>) -> HuggerState {
    HuggerState {
        fuse_ms: 0,
        action_ms: 0,
        rng: 5,
        death_ms,
        finished: false,
        hits: vec![
            HuggerHit { due: 900, target: 1, damage: 3, poison: false },
            HuggerHit { due: 1500, target: 2, damage: 4, poison: true },
        ],
        excluded_lives: vec![31],
        reward_owner: None,
        reward_until_ms: 0,
    }
}

fn blast_target(object_id: u32) -> NativeEntityTarget {
    NativeEntityTarget {
        reference: EntityRef::Monster { object_id, incarnation: 1 },
        object_id,
        position: Point { x: 1, y: 1 },
    }
}

#[test]
fn hugger_death_blast_poisons_the_unspared_and_hands_back_due_hits() {
    let targets = vec![blast_target(30), blast_target(31), blast_target(32)];
    let mut s = hugger_state(Some(1000));
    let due = hugger_delay_step(&mut s, 70, &targets, 1000);
    assert!(s.finished);
    let due: Vec<(u64, u32, bool)> = due.iter().map(|h| (h.due, h.target, h.poison)).collect();
    assert_eq!(due, vec![(900, 1, false), (1000, 30, true), (1000, 32, true)]);
    assert_eq!(s.hits.len(), 1);
    assert_eq!(s.hits[0].target, 2);
    // Handled once: a later tick lays no second blast.
    assert!(hugger_delay_step(&mut s, 70, &targets, 1200).is_empty());
    // A small Hugger lays none; a death not yet due changes nothing.
    let mut small = hugger_state(Some(1000));
    assert_eq!(hugger_delay_step(&mut small, 69, &targets, 1000).len(), 1);
    assert!(small.finished);
    let mut early = hugger_state(Some(2000));
    assert_eq!(hugger_delay_step(&mut early, 70, &targets, 1000).len(), 1);
    assert!(!early.finished);
    assert_eq!(early.hits.len(), 1);
}

#[test]
fn hugger_poison_follows_its_rolls() {
    let step = |r: u64| r.wrapping_add(GOLDEN);
    let mut aborted = false;
    let mut s = hugger_state(None);
    assert_eq!(hugger_after_hit(&mut s, 70, true, false, 0, true, &mut aborted), None);
    assert!(aborted);
    assert_eq!(s.rng, 5);
    let mut aborted = false;
    assert_eq!(hugger_after_hit(&mut s, 69, true, false, 0, true, &mut aborted), None);
    assert!(!aborted);

    // A resistance of ten is never passed: one roll on a player, two on a monster.
    let mut s = hugger_state(None);
    assert_eq!(hugger_after_hit(&mut s, 70, true, true, 10, true, &mut aborted), None);
    assert_eq!(s.rng, step(5));
    let mut s = hugger_state(None);
    assert_eq!(hugger_after_hit(&mut s, 70, true, true, 10, false, &mut aborted), None);
    assert_eq!(s.rng, step(step(5)));

    // With no resistance only the one-in-five chance decides.
    let (r1, r2, r3) = (step(5), step(step(5)), step(step(step(5))));
    let mut s = hugger_state(None);
    let on_monster = hugger_after_hit(&mut s, 70, true, true, 0, false, &mut aborted);
    let expected = if mix(r3) % 5 == 0 { Some(mix(r1) % u64::MAX) } else { None };
    assert_eq!(on_monster, expected);
    assert_eq!(s.rng, r3);
    let mut s = hugger_state(None);
    let on_player = hugger_after_hit(&mut s, 70, true, true, 0, true, &mut aborted);
    if mix(r2) % 5 == 0 {
        assert_eq!(on_player, Some(mix(step(r3)) % u64::MAX));
    } else {
        assert_eq!(on_player, None);
        assert_eq!(s.rng, r2);
    }
}

fn meow_state(sequence: u64) -> MeowState {
    MeowState {
        spawn_ms: 0,
        thunder_ms: 500,
        action_ms: 0,
        sequence,
        slaves: Vec::new(),
        hits: Vec::new(),
        entity_hits: Vec::new(),
        thunder: Vec::new(),
    }
}

#[test]
fn meow_rages_in_its_health_bands() {
    assert!(meow_enraged(75, 100));
    assert!(meow_enraged(45, 100));
    assert!(meow_enraged(20, 100));
    assert!(meow_enraged(-5, 100));
    assert!(!meow_enraged(100, 100));
    assert!(!meow_enraged(60, 100));
    assert!(!meow_enraged(21, 100));
    // 81% and 51% lie just outside; a maximum of zero reads as one.
    assert!(!meow_enraged(81, 100));
    assert!(!meow_enraged(51, 100));
    assert!(!meow_enraged(1, 0));
    // The percentage saturates before it is divided.
    assert!(meow_enraged(i32::MAX, i32::MAX / 100 * 2 + 1));
}

#[test]
fn meow_strikes_by_distance() {
    let at = |x: i32, y: i32| Point { x, y };
    let mut s = meow_state(7);
    let bolt = MeowStrike { ranged: true, slam: false, defence: EntityDefence::MACAgility };
    assert_eq!(meow_strike(&mut s, 4, 1000, &at(5, 5), &at(5, 5)), bolt);
    assert_eq!(meow_strike(&mut s, 4, 1000, &at(5, 5), &at(8, 5)), bolt);
    assert_eq!(s.sequence, 7);
    let slam = mix(1000 ^ 4 ^ 8u64.wrapping_mul(GOLDEN)) % 9 == 0;
    let blow = meow_strike(&mut s, 4, 1000, &at(5, 5), &at(7, 5));
    assert_eq!(blow.ranged, false);
    assert_eq!(blow.slam, slam);
    assert_eq!(blow.defence, if slam { EntityDefence::AC } else { EntityDefence::ACAgility });
    assert_eq!(s.sequence, 8);
}

#[test]
fn meow_thunder_strikes_each_point_then_waits() {
    let draw = |seq: u64, n: u64| mix(1000 ^ 4 ^ seq.wrapping_mul(GOLDEN)) % n;
    let points = vec![Point { x: 1, y: 2 }, Point { x: 3, y: 4 }];
    let mut s = meow_state(10);
    meow_thunder(&mut s, 4, 1000, 20, 30, &points);
    assert_eq!(s.thunder.len(), 2);
    assert_eq!(s.thunder[0].point, Point { x: 1, y: 2 });
    assert_eq!(s.thunder[0].value, 20 + draw(11, 10) as i32);
    assert_eq!(s.thunder[1].value, 20 + draw(12, 10) as i32);
    assert_eq!((s.thunder[1].spawn_ms, s.thunder[1].expire_ms), (3000, 2000));
    assert_eq!(s.thunder_ms, 1000 + draw(13, 2000).max(draw(14, 4000)));
    assert_eq!(s.sequence, 14);
    // A flat range takes no strength rolls.
    let mut flat = meow_state(10);
    meow_thunder(&mut flat, 4, 1000, 20, 20, &points);
    assert_eq!(flat.thunder[1].value, 20);
    assert_eq!(flat.sequence, 12);
    // Not ready yet, or nobody there: nothing changes.
    let mut waiting = meow_state(10);
    meow_thunder(&mut waiting, 4, 500, 20, 30, &points);
    assert!(waiting.thunder.is_empty());
    meow_thunder(&mut waiting, 4, 1000, 20, 30, &Vec::new());
    assert_eq!((waiting.thunder.len(), waiting.sequence, waiting.thunder_ms), (0, 10, 500));
}

#[test]
fn wanderers_turn_one_way_round_for_a_free_tile() {
    let mut reference = 77u64;
    let clockwise = reference_draw(&mut reference, 2) == 0;
    let mut s = PassiveAiState { timid: true, target_object_id: Some(3), rng_state: 77 };
    let order = passive_step_order(&mut s, Direction::Right);
    assert_eq!(s.rng_state, reference);
    assert_eq!(order.len(), 8);
    assert_eq!(order[0], Direction::Right);
    assert_eq!(order[1], if clockwise { Direction::DownRight } else { Direction::UpRight });
    assert_eq!(order[4], Direction::Left);
    assert_eq!(order[7], if clockwise { Direction::UpRight } else { Direction::DownRight });
    assert!(s.timid);
    assert_eq!(s.target_object_id, Some(3));
}

#[test]
fn nodes_cast_among_friends_and_complete_half_a_second_later() {
    let mut z = zone();
    let node = monster(41, 41);
    let mut friend = monster(42, 1);
    friend.position = Point { x: 37, y: 30 };
    z.native_monsters.push(node);
    z.native_monsters.push(friend);
    let node = monster(41, 41);
    assert!(z.node_has_friends(41, &node, 1000));
    z.native_monsters[1].position = Point { x: 38, y: 30 };
    assert!(!z.node_has_friends(41, &node, 1000), "eight tiles is too far");
    z.native_monsters[1].position = Point { x: 31, y: 30 };
    let mut hallucinating = monster(41, 41);
    hallucinating.hallucination_until_ms = 2000;
    assert!(!z.node_has_friends(41, &hallucinating, 1000));
    z.native_monsters[1].owner_session_id = Some(SessionId::new("pet-owner"));
    assert!(!z.node_has_friends(41, &node, 1000), "a pet is no wild friend");

    let mut m = monster(41, 41);
    assert_eq!(node_tick(&mut m, false, true, 1000), NodeTick { complete: false, cast: true });
    assert_eq!((m.next_ai_ready_at_ms, m.next_attack_ready_at_ms), (1300, 2500));
    assert_eq!(m.special.node.as_ref().unwrap().pending_completion_ms, Some(1500));
    assert_eq!(node_tick(&mut m, false, true, 1400), NodeTick { complete: false, cast: false });
    m.next_attack_ready_at_ms = 0;
    assert_eq!(node_tick(&mut m, false, false, 1500), NodeTick { complete: true, cast: false });
    assert_eq!(m.special.node.as_ref().unwrap().pending_completion_ms, None);
    // A corpse completes its cast but starts none; a controlled node waits.
    let mut corpse = monster(41, 41);
    corpse.dead = true;
    corpse.special.node = Some(NodeAiState { pending_completion_ms: Some(900) });
    assert_eq!(node_tick(&mut corpse, false, true, 1000), NodeTick { complete: true, cast: false });
    assert_eq!(node_tick(&mut monster(41, 41), true, true, 1000), NodeTick { complete: false, cast: false });
}

#[test]
fn node_blessings_reach_the_players_around_it() {
    let mut z = zone();
    let mut near = player("near", 501, 33, 30);
    near.level = 30;
    let far = player("far", 502, 40, 30);
    let mut safe = player("safe", 503, 31, 30);
    safe.in_safe_zone = true;
    let mut guild = player("guild", 504, 31, 31);
    guild.guild_name = Some("Wolves".to_string());
    z.players.push(near);
    z.players.push(far);
    z.players.push(safe);
    z.players.push(guild);
    let mut node = monster(41, 41);
    node.friendly_guild = Some("wolves".to_string());
    assert_eq!(z.node_blessings(&node), vec![(501, 8)]);
    node.hostile_to_player = false;
    assert!(z.node_blessings(&node).is_empty());
}

#[test]
fn meow_delayed_work_falls_due_in_order() {
    let mut s = meow_state(0);
    let life = |object_id: u32| EntityRef::Monster { object_id, incarnation: 1 };
    s.entity_hits.push(EntityHitRecord { due_ms: 900, target: life(1), damage: 5 });
    s.entity_hits.push(EntityHitRecord { due_ms: 1100, target: life(2), damage: 6 });
    s.entity_hits.push(EntityHitRecord { due_ms: 1000, target: life(3), damage: 7 });
    s.hits.push(PlayerHitRecord { due_ms: 1000, target_object_id: 9, damage: 1, magic: false });
    s.hits.push(PlayerHitRecord { due_ms: 1001, target_object_id: 8, damage: 1, magic: false });
    let bolt = |spawn_ms: u64, expire_ms: u64| MeowThunder { spawn_ms, expire_ms, point: Point { x: 1, y: 1 }, value: 3 };
    s.thunder.push(bolt(1000, 999));
    s.thunder.push(bolt(1000, 1000));
    s.thunder.push(bolt(1200, 1100));
    let (entity, players, shown) = meow_take_due(&mut s, 1000);
    let entity: Vec<u64> = entity.iter().map(|h| h.due_ms).collect();
    assert_eq!(entity, vec![900, 1000]);
    assert_eq!(s.entity_hits.len(), 1);
    assert_eq!(s.entity_hits[0].due_ms, 1100);
    assert_eq!(players.len(), 1);
    assert_eq!(players[0].target_object_id, 9);
    assert_eq!(s.hits[0].target_object_id, 8);
    // Both spawned bolts leave; only the expired one shows.
    assert_eq!(shown, vec![bolt(1000, 999)]);
    assert_eq!(s.thunder, vec![bolt(1200, 1100)]);
}

#[test]
fn kirin_death_blast_goes_off_once_and_spares_new_lives() {
    let life = |object_id: u32, incarnation: u64| EntityRef::Monster { object_id, incarnation };
    let mut s = KirinSnowState {
        sequence: 41,
        action_ms: 0,
        hits: vec![PlayerHitRecord { due_ms: 999, target_object_id: 3, damage: 2, magic: false }],
        entity_hits: vec![EntityHitRecord { due_ms: 1001, target: life(4, 1), damage: 2 }],
        entity_target: None,
        death_lives: vec![life(5, 1)],
        death_ms: Some(1000),
        death_finished: false,
        excluded_lives: vec![6],
        spawned: false,
        slaves: Vec::new(),
        reward_owner: None,
        reward_until_ms: 0,
        target: None,
    };
    let around = |object_id: u32, incarnation: u64| NativeEntityTarget {
        reference: life(object_id, incarnation),
        object_id,
        position: Point { x: 1, y: 1 },
    };
    let targets = vec![around(5, 2), around(5, 1), around(6, 1), around(7, 1)];
    let delays = kirin_delay_step(&mut s, 2, 1000, &targets);
    assert_eq!(delays.hits.len(), 1);
    assert!(delays.entity_hits.is_empty());
    assert_eq!(s.entity_hits.len(), 1);
    let (raw, lives) = delays.blast.expect("the blast goes off");
    assert_eq!(raw, mix(1000 ^ 2 ^ 42u64.wrapping_mul(GOLDEN)) % u64::MAX);
    let lives: Vec<(u32, u64)> = lives
        .iter()
        .map(|l| match l {
            EntityRef::Monster { object_id, incarnation } => (*object_id, *incarnation),
            EntityRef::Player { .. } => panic!("no player is around"),
        })
        .collect();
    assert_eq!(lives, vec![(5, 1), (7, 1)]);
    assert!(s.death_finished);
    assert_eq!(s.sequence, 42);
    let again = kirin_delay_step(&mut s, 2, 1100, &targets);
    assert!(again.blast.is_none());
    assert_eq!(again.entity_hits.len(), 1);
    assert_eq!(s.sequence, 42);
}

#[test]
fn evil_mir_launches_when_ready_and_lands_by_distance() {
    let mut z = zone();
    let mut evil = monster(52, 52);
    evil.next_attack_ready_at_ms = 900;
    z.native_monsters.push(evil);
    z.objects.push(simulation::zone::ZoneObject {
        object_id: 52,
        position: Point { x: 30, y: 30 },
        packet_frame: Vec::new(),
        hidden: false,
        expires_at_ms: None,
    });
    z.players.push(player("near", 501, 33, 30));
    let seeded = ((52u64 << 32) ^ 52).wrapping_add(GOLDEN);
    let mass = mix(seeded) % 8 == 0;
    let out = z.evil_mir_attack_turn(52, false, true, 1000).expect("it fires");
    let e = z.native_monsters.iter().find(|m| m.object_id == 52).unwrap();
    let s = e.special.evil_mir.as_ref().unwrap();
    let due = if mass { 1500 } else { 1000 + 3 * 50 + 620 };
    assert_eq!(s.pending, vec![due]);
    assert_eq!(s.pending_sources.len(), 1);
    assert_eq!(s.pending_sources[0].due, due);
    assert_eq!(s.mass, mass);
    assert_eq!((e.next_ai_ready_at_ms, e.next_attack_ready_at_ms), (1300, 1000 + e.attack_speed_ms));
    if mass {
        assert!(matches!(out, ZoneOutbound::ObjectAttack { object_id: 52, .. }));
    } else {
        assert_eq!(
            out,
            ZoneOutbound::ObjectRangeAttack {
                object_id: 52,
                location: Point { x: 30, y: 30 },
                direction: Direction::Up,
                target_id: 501,
                target: Point { x: 33, y: 30 },
                attack_type: 0,
            }
        );
    }
    assert_eq!(s.target.as_ref().map(|t| t.object_id), Some(501));
}

#[test]
fn evil_mir_holds_fire_until_ready_or_free() {
    let mut z = zone();
    let mut evil = monster(52, 52);
    evil.next_attack_ready_at_ms = 1000;
    z.native_monsters.push(evil);
    z.objects.push(simulation::zone::ZoneObject {
        object_id: 52,
        position: Point { x: 30, y: 30 },
        packet_frame: Vec::new(),
        hidden: false,
        expires_at_ms: None,
    });
    z.players.push(player("near", 501, 33, 30));
    assert_eq!(z.evil_mir_attack_turn(52, false, true, 1000), None);
    let e = z.native_monsters.iter().find(|m| m.object_id == 52).unwrap();
    assert!(e.special.evil_mir.as_ref().unwrap().pending.is_empty());
    assert_eq!(e.special.evil_mir.as_ref().unwrap().target.as_ref().map(|t| t.object_id), Some(501), "it is aimed all the same");
    assert_eq!(z.evil_mir_attack_turn(52, true, true, 2000), None);
    assert_eq!(z.evil_mir_attack_turn(52, false, false, 2000), None);
    assert!(z.native_monsters[0].special.evil_mir.as_ref().unwrap().pending.is_empty());
    assert_eq!(z.evil_mir_attack_turn(4242, false, true, 2000), None);
}

#[test]
fn great_fox_form_rises_with_each_lost_quarter_and_is_shown_once() {
    let mut z = zone();
    let mut fox = monster(50, 50);
    fox.hp = 40;
    initialize_great_fox_monster(&mut fox);
    z.native_monsters.push(fox);
    assert_eq!(z.great_fox_stage_tick(50), None, "without a retained object nothing is shown");
    assert_eq!(z.native_monsters[0].special.great_fox.as_ref().unwrap().stage, 3);
    z.objects.push(simulation::zone::ZoneObject {
        object_id: 50,
        position: Point { x: 30, y: 30 },
        packet_frame: Vec::new(),
        hidden: false,
        expires_at_ms: None,
    });
    assert_eq!(z.great_fox_stage_tick(50), None, "the stage does not rise twice");
    z.native_monsters[0].hp = 60;
    assert_eq!(z.great_fox_stage_tick(50), None, "healing never lowers the stage");
    assert_eq!(z.native_monsters[0].special.great_fox.as_ref().unwrap().stage, 3);
    z.native_monsters[0].hp = 20;
    assert_eq!(z.great_fox_stage_tick(50), Some(ZoneOutbound::MonsterForm { object_id: 50, stage: 4 }));
    assert_eq!(z.great_fox_stage_tick(4242), None);
}
