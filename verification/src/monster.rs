//! The zone's authoritative model of players, native monsters and the
//! per-species behaviour state each monster carries.
use vstd::prelude::*;
use crate::types::{Direction, Disposition, EntityRef, Point, SessionId};
use crate::arith::sat_add_i32;

verus! {

/// Crystal stat index of the minimum DC a buff adds.
pub const STAT_MIN_DC: u8 = 4;
/// Crystal stat index of the maximum DC a buff adds.
pub const STAT_MAX_DC: u8 = 5;
/// Crystal stat index of the minimum MC a buff adds.
pub const STAT_MIN_MC: u8 = 6;
/// Crystal stat index of the maximum MC a buff adds.
pub const STAT_MAX_MC: u8 = 7;
/// Crystal stat index of the magic resistance a buff adds.
pub const STAT_MAGIC_RESIST: u8 = 30;

/// Template values of a monster species that the behaviour rules read.
#[derive(Clone, Copy, Debug, PartialEq, Eq, Structural)]
pub struct MonsterTemplate {
    pub effect: u8,
    pub view_range: u8,
    pub cool_eye: u8,
    pub accuracy: i32,
    pub min_dc: i32,
    pub max_dc: i32,
    pub min_mc: i32,
    pub max_mc: i32,
    pub min_sc: i32,
    pub max_sc: i32,
    pub min_ac: i32,
    pub max_ac: i32,
    pub min_mac: i32,
    pub max_mac: i32,
    pub move_speed: u64,
    pub attack_speed: u64,
}

/// Base defence of a monster.
#[derive(Clone, Copy, Debug, PartialEq, Eq, Structural)]
pub struct MonsterDefense {
    pub min_ac: i32,
    pub max_ac: i32,
    pub min_mac: i32,
    pub max_mac: i32,
    pub agility: i32,
}

/// One stat line of a timed buff.
#[derive(Clone, Copy, Debug, PartialEq, Eq, Structural)]
pub struct StatValue {
    pub stat: u8,
    pub value: i32,
}

/// A buff carried by a monster.
#[derive(Debug)]
pub struct MonsterBuff {
    pub buff_type: u8,
    pub stats: Vec<StatValue>,
    pub expires_at_ms: Option<u64>,
}

/// A player as the zone sees one life of it.
#[derive(Debug)]
pub struct ZonePlayer {
    pub session_id: SessionId,
    pub object_id: u32,
    pub life_generation: u64,
    pub level: u16,
    pub hp: i32,
    pub dead: bool,
    pub hidden: bool,
    pub position: Point,
    pub in_safe_zone: bool,
    pub is_gm: bool,
    pub gm_never_die: bool,
    pub guild_name: Option<String>,
    pub pk_points: i32,
    pub attack_mode: u8,
    pub poison_resist: i32,
    pub magic_resist: i32,
    pub agility: i32,
    pub min_dc: i32,
    pub buff_min_dc: i32,
    pub poison: u16,
    pub native_status_poison: u16,
    pub native_status_poison_deadlines: Vec<(u16, u64)>,
    pub native_status_poison_expires_at_ms: Option<u64>,
}

/// A delayed hit aimed at a player object.
#[derive(Debug)]
pub struct PlayerHitRecord {
    pub due_ms: u64,
    pub target_object_id: u32,
    pub damage: i32,
    pub magic: bool,
}

/// A delayed hit aimed at one entity life.
#[derive(Debug)]
pub struct EntityHitRecord {
    pub due_ms: u64,
    pub target: EntityRef,
    pub damage: i32,
}

/// A player target remembered by session and object id.
#[derive(Debug)]
pub struct PlayerTarget {
    pub session_id: SessionId,
    pub object_id: u32,
}

/// Armadillo (AI 124/125): flight and its delayed retreat hits.
#[derive(Debug)]
pub struct ArmadilloState {
    pub fleeing: bool,
    pub attack_sequence: u64,
    pub hit_sequence: u64,
    pub retreat: Option<PlayerHitRecord>,
    pub entity_hits: Vec<EntityHitRecord>,
}

/// A source whose pending EvilMir effect is still owed.
#[derive(Debug)]
pub struct PendingSource {
    pub due: u64,
    pub source: EntityRef,
}

/// EvilMir (AI 52).
#[derive(Debug)]
pub struct EvilMirState {
    pub rng: u64,
    pub target: Option<PlayerTarget>,
    pub target_ref: Option<EntityRef>,
    pub mass: bool,
    pub pending: Vec<u64>,
    pub pending_sources: Vec<PendingSource>,
}

/// A GreatFox hit or guardian pull.
#[derive(Debug)]
pub struct GreatFoxHit {
    pub due_ms: u64,
    pub target_id: u32,
    pub damage: i32,
    pub guardian_pull: bool,
}

/// GreatFoxSpirit (AI 50) and GuardianRock (AI 48).
#[derive(Debug)]
pub struct GreatFoxState {
    pub stage: u8,
    pub recall_ready_ms: u64,
    pub rng_state: u64,
    pub target_object_id: Option<u32>,
    pub target_ref: Option<EntityRef>,
    pub pushed_move_ready_ms: Option<u64>,
    pub lifecycle_alive: Option<bool>,
    pub guardian_active: bool,
    pub pending: Vec<GreatFoxHit>,
}

/// HellKnight (AI 97), HellLord (AI 98) and HellBomb (AI 99).
#[derive(Debug)]
pub struct HellState {
    pub stage: u8,
    pub begun: bool,
    pub raged: bool,
    pub rage_until: u64,
    pub explosion_time: u64,
    pub explosion_due: Option<u64>,
    pub parent: Option<u32>,
    pub parent_incarnation: Option<u64>,
    pub death_notified: bool,
    pub rng: u64,
    pub reward_owner: Option<SessionId>,
    pub reward_until: u64,
}

/// A delayed Horned hit.
#[derive(Debug)]
pub struct HornedHit {
    pub due: u64,
    pub target: u32,
    pub damage: i32,
    pub magic: bool,
}

/// A Horned self-buff that widens stat ranges until it expires.
#[derive(Clone, Copy, Debug, PartialEq, Eq, Structural)]
pub struct HornedBuff {
    pub kind: u8,
    pub source: u32,
    pub expires: u64,
    pub min: i32,
    pub max: i32,
}

/// The Horned warriors (AI 163 to 165).
#[derive(Debug)]
pub struct HornedState {
    pub rng: u64,
    pub fear_until: u64,
    pub buff_ready: u64,
    pub shield_ready: u64,
    pub target: Option<u32>,
    pub target_ref: Option<EntityRef>,
    pub pending: Vec<HornedHit>,
    pub buffs: Vec<HornedBuff>,
}

/// A delayed hit of the Horned encounter.
#[derive(Debug)]
pub struct EncounterHit {
    pub due: u64,
    pub target: Option<PlayerTarget>,
    pub target_ref: Option<EntityRef>,
    pub damage: i32,
    pub cancelled: bool,
}

/// The Horned commander and sorcerer encounter (AI 169/171).
#[derive(Debug)]
pub struct HornedEncounterState {
    pub rng: u64,
    pub target: Option<PlayerTarget>,
    pub target_ref: Option<EntityRef>,
    pub immune: bool,
    pub stomp_ready: u64,
    pub tornado_ready: u64,
    pub advanced: bool,
    pub called_boulders: bool,
    pub called_spikes: bool,
    pub called_shield: bool,
    pub spike_ready: u64,
    pub shield_until: Option<u64>,
    pub next_spike: u8,
    pub slaves: Vec<u32>,
    pub slave_lives: Vec<(u32, u64)>,
    pub parent: Option<u32>,
    pub parent_incarnation: Option<u64>,
    pub death_handled: bool,
    pub reward_owner: Option<SessionId>,
    pub reward_until: u64,
    pub hits: Vec<EncounterHit>,
}

/// A delayed Hugger hit.
#[derive(Debug)]
pub struct HuggerHit {
    pub due: u64,
    pub target: u32,
    pub damage: i32,
    pub poison: bool,
}

/// Hugger (AI 69/70).
#[derive(Debug)]
pub struct HuggerState {
    pub fuse_ms: u64,
    pub action_ms: u64,
    pub rng: u64,
    pub death_ms: Option<u64>,
    pub finished: bool,
    pub hits: Vec<HuggerHit>,
    pub excluded_lives: Vec<u32>,
    pub reward_owner: Option<SessionId>,
    pub reward_until_ms: u64,
}

/// KirinSnow (AI 180) and its snow wolves (AI 186).
#[derive(Debug)]
pub struct KirinSnowState {
    pub sequence: u64,
    pub action_ms: u64,
    pub hits: Vec<PlayerHitRecord>,
    pub entity_hits: Vec<EntityHitRecord>,
    pub entity_target: Option<EntityRef>,
    pub death_lives: Vec<EntityRef>,
    pub death_ms: Option<u64>,
    pub death_finished: bool,
    pub excluded_lives: Vec<u32>,
    pub spawned: bool,
    pub slaves: Vec<u32>,
    pub reward_owner: Option<SessionId>,
    pub reward_until_ms: u64,
    pub target: Option<u32>,
}

/// Meow (AI 123).
#[derive(Debug)]
pub struct MeowState {
    pub spawn_ms: u64,
    pub thunder_ms: u64,
    pub action_ms: u64,
    pub sequence: u64,
    pub slaves: Vec<u32>,
    pub hits: Vec<PlayerHitRecord>,
    pub entity_hits: Vec<EntityHitRecord>,
    pub thunder: Vec<MeowThunder>,
}

/// A Meow thunderbolt on a tile: it shows from `spawn_ms` until `expire_ms`
/// and strikes for `value`.
#[derive(Clone, Copy, Debug, PartialEq, Eq, Structural)]
pub struct MeowThunder {
    pub spawn_ms: u64,
    pub expire_ms: u64,
    pub point: Point,
    pub value: i32,
}

/// A delayed mud-boulder hit on a monster life.
#[derive(Debug)]
pub struct MudMonsterHit {
    pub target: u32,
    pub incarnation: u64,
    pub due: u64,
    pub damage: i32,
    pub magic: bool,
}

/// MudBoulder (AI 108/170).
#[derive(Debug)]
pub struct MudBoulderState {
    pub rng: u64,
    pub cool_eye: bool,
    pub target: Option<PlayerTarget>,
    pub hits: Vec<PlayerHitRecord>,
    pub monster_target: Option<(u32, u64)>,
    pub target_bound: bool,
    pub monster_hits: Vec<MudMonsterHit>,
    pub explosion_at_ms: Option<u64>,
    pub exploded: bool,
    pub corpse_expires_at_ms: Option<u64>,
    pub reward_owner: Option<SessionId>,
    pub reward_until_ms: u64,
}

/// Passive wanderers (AI 2).
#[derive(Debug)]
pub struct PassiveAiState {
    pub timid: bool,
    pub target_object_id: Option<u32>,
    pub rng_state: u64,
}

/// Spitting toad search cadence (AI 61).
#[derive(Debug)]
pub struct PetSpecialState {
    pub search_at: u64,
}

/// A fox slow that lands after a delay.
#[derive(Debug)]
pub struct PendingFoxSlow {
    pub target_session_id: SessionId,
    pub target_object_id: u32,
    pub due_at_ms: u64,
}

/// Reactive monsters (foxes, holy deva).
#[derive(Debug)]
pub struct ReactiveAiState {
    pub fear_until_ms: u64,
    pub teleport_ready_at_ms: u64,
    pub rng_state: u64,
    pub pending_slows: Vec<PendingFoxSlow>,
}

/// A reviving zombie's lives and its replayable random stream.
#[derive(Debug)]
pub struct RevivingZombieState {
    pub life_count: u8,
    pub revival_count: u8,
    pub died_at_ms: Option<u64>,
    pub revive_at_ms: Option<u64>,
    pub corpse_expires_at_ms: Option<u64>,
    pub death_generation: u64,
    pub rng_state: u64,
    pub rng_draws: u64,
    pub last_drop_roll: Option<u64>,
}

/// A delayed Shinsu hit.
#[derive(Debug)]
pub struct ShinsuHit {
    pub due_ms: u64,
    pub owner: SessionId,
    pub target: u32,
    pub damage: i32,
    pub accuracy: i32,
}

/// Shinsu (AI 18).
#[derive(Debug)]
pub struct ShinsuState {
    pub mode: bool,
    pub mode_until_ms: u64,
    pub action_until_ms: u64,
    pub hits: Vec<ShinsuHit>,
}

/// YinDevilNode casting (AI 41/42).
#[derive(Debug)]
pub struct NodeAiState {
    pub pending_completion_ms: Option<u64>,
}

/// The species behaviour state a monster may carry.
#[derive(Debug)]
pub struct SpecialAi {
    pub armadillo: Option<ArmadilloState>,
    pub evil_mir: Option<EvilMirState>,
    pub great_fox: Option<GreatFoxState>,
    pub hell: Option<HellState>,
    pub horned: Option<HornedState>,
    pub horned_encounter: Option<HornedEncounterState>,
    pub hugger: Option<HuggerState>,
    pub kirin_snow: Option<KirinSnowState>,
    pub meow: Option<MeowState>,
    pub mud_boulder: Option<MudBoulderState>,
    pub passive: Option<PassiveAiState>,
    pub pet_special: Option<PetSpecialState>,
    pub reactive: Option<ReactiveAiState>,
    pub revival: Option<RevivingZombieState>,
    pub shinsu: Option<ShinsuState>,
    pub node: Option<NodeAiState>,
}

impl SpecialAi {
    /// A monster with no species state yet.
    pub fn empty() -> (r: SpecialAi)
        ensures
            r.armadillo is None,
            r.evil_mir is None,
            r.great_fox is None,
            r.hell is None,
            r.horned is None,
            r.horned_encounter is None,
            r.hugger is None,
            r.kirin_snow is None,
            r.meow is None,
            r.mud_boulder is None,
            r.passive is None,
            r.pet_special is None,
            r.reactive is None,
            r.revival is None,
            r.shinsu is None,
            r.node is None,
    {
        SpecialAi {
            armadillo: None,
            evil_mir: None,
            great_fox: None,
            hell: None,
            horned: None,
            horned_encounter: None,
            hugger: None,
            kirin_snow: None,
            meow: None,
            mud_boulder: None,
            passive: None,
            pet_special: None,
            reactive: None,
            revival: None,
            shinsu: None,
            node: None,
        }
    }
}

/// A monster simulated by the zone itself.
#[derive(Debug)]
pub struct NativeMonster {
    pub object_id: u32,
    pub name: String,
    pub ai: u8,
    pub level: u16,
    pub hp: i32,
    pub max_hp: i32,
    pub dead: bool,
    pub incarnation: u64,
    pub owner_session_id: Option<SessionId>,
    pub owner_player_object_id: u32,
    pub master_object_id: Option<u32>,
    pub hostile_to_player: bool,
    pub disposition: Option<Disposition>,
    pub friendly_guild: Option<String>,
    pub position: Point,
    pub direction: Direction,
    pub move_speed_ms: u64,
    pub attack_speed_ms: u64,
    pub next_ai_ready_at_ms: u64,
    pub next_attack_ready_at_ms: u64,
    pub hallucination_until_ms: u64,
    pub entity_poison: u16,
    pub poison: u16,
    pub control_poison: u16,
    pub control_until_ms: u64,
    pub damage_poison: u16,
    pub damage_poison_value: i32,
    pub damage_poison_next_damage_at_ms: u64,
    pub damage_poison_expires_at_ms: u64,
    pub damage_poison_owner_session_id: Option<SessionId>,
    pub damage_poison_owner_object_id: u32,
    pub attackable: bool,
    pub visible: bool,
    pub hidden: bool,
    pub cool_eye_sees: bool,
    pub template: Option<MonsterTemplate>,
    pub defense: MonsterDefense,
    pub buffs: Vec<MonsterBuff>,
    pub special: SpecialAi,
}

/// The replicated poison bits of a monster: its own poison state, its
/// control and damage poisons, and the entity-combat status bits.
pub open spec fn spec_current_poison(m: NativeMonster) -> u16 {
    m.poison | m.control_poison | m.damage_poison | m.entity_poison
}

/// The replicated poison bits of a monster.
pub fn current_poison(m: &NativeMonster) -> (r: u16)
    ensures
        r == spec_current_poison(*m),
{
    m.poison | m.control_poison | m.damage_poison | m.entity_poison
}

/// Sum of one stat over a list of stat lines, saturating at the i32 range.
pub open spec fn spec_stat_sum(stats: Seq<StatValue>, stat: u8) -> int
    decreases stats.len(),
{
    if stats.len() == 0 {
        0
    } else {
        let rest = spec_stat_sum(stats.drop_last(), stat);
        let v = if stats.last().stat == stat { stats.last().value as int } else { 0 };
        spec_clamp_i32(rest + v)
    }
}

/// Saturation into the i32 range.
pub open spec fn spec_clamp_i32(v: int) -> int {
    if v > i32::MAX {
        i32::MAX as int
    } else if v < i32::MIN {
        i32::MIN as int
    } else {
        v
    }
}

/// Sum of one stat over all buffs, saturating, buff by buff.
pub open spec fn spec_buff_stat_total(buffs: Seq<MonsterBuff>, stat: u8) -> int
    decreases buffs.len(),
{
    if buffs.len() == 0 {
        0
    } else {
        spec_clamp_i32(
            spec_buff_stat_total(buffs.drop_last(), stat) + spec_stat_sum(buffs.last().stats@, stat),
        )
    }
}

proof fn lemma_stat_sum_in_range(stats: Seq<StatValue>, stat: u8)
    ensures
        i32::MIN <= spec_stat_sum(stats, stat) <= i32::MAX,
    decreases stats.len(),
{
    if stats.len() > 0 {
        lemma_stat_sum_in_range(stats.drop_last(), stat);
    }
}

proof fn lemma_buff_total_in_range(buffs: Seq<MonsterBuff>, stat: u8)
    ensures
        i32::MIN <= spec_buff_stat_total(buffs, stat) <= i32::MAX,
    decreases buffs.len(),
{
    if buffs.len() > 0 {
        lemma_buff_total_in_range(buffs.drop_last(), stat);
    }
}

fn stat_sum(stats: &Vec<StatValue>, stat: u8) -> (r: i32)
    ensures
        r == spec_stat_sum(stats@, stat),
{
    let mut total: i32 = 0;
    let mut i: usize = 0;
    while i < stats.len()
        invariant
            0 <= i <= stats.len(),
            total == spec_stat_sum(stats@.take(i as int), stat),
        decreases stats.len() - i,
    {
        proof {
            assert(stats@.take(i + 1).drop_last() =~= stats@.take(i as int));
            lemma_stat_sum_in_range(stats@.take(i as int), stat);
        }
        if stats[i].stat == stat {
            total = sat_add_i32(total, stats[i].value);
        }
        i += 1;
    }
    assert(stats@.take(stats.len() as int) =~= stats@);
    total
}

/// The total of one stat over every buff a monster carries.
pub fn buff_stat_total(m: &NativeMonster, stat: u8) -> (r: i32)
    ensures
        r == spec_buff_stat_total(m.buffs@, stat),
{
    let mut total: i32 = 0;
    let mut i: usize = 0;
    while i < m.buffs.len()
        invariant
            0 <= i <= m.buffs.len(),
            total == spec_buff_stat_total(m.buffs@.take(i as int), stat),
        decreases m.buffs.len() - i,
    {
        proof {
            assert(m.buffs@.take(i + 1).drop_last() =~= m.buffs@.take(i as int));
            lemma_buff_total_in_range(m.buffs@.take(i as int), stat);
        }
        let part = stat_sum(&m.buffs[i].stats, stat);
        total = sat_add_i32(total, part);
        i += 1;
    }
    assert(m.buffs@.take(m.buffs.len() as int) =~= m.buffs@);
    total
}

} // verus!
