//! MudBoulder (AI 108) and MudZombie (AI 170): the boulder's cool eye, the
//! zombie's kill-reward ownership, the delayed explosion of a dead zombie,
//! who may be targeted, their damage roll and the hits they forget when a
//! life is retired.
use vstd::prelude::*;
use crate::types::{opt_session_view, opt_ref_view, spec_tile_distance, tile_distance, EntityRef, EntityRefView, Point, SessionId};
use crate::entity::{insert_sorted, spec_can_attack, spec_monster, spec_monster_candidates, spec_monster_ref, spec_player_ref, spec_targets_sorted, tview, tviews, EntityTargetPurpose, NativeEntityTarget, TargetView};
use crate::entity_target::{spec_relations_ordered, spec_selected_target};
use crate::ai::evil_mir::spec_evil_mir_purpose;
use crate::monster::{MudBoulderState, MudMonsterHit, NativeMonster, PlayerHitRecord, SpecialAi, ZonePlayer, spec_buff_stat_total, spec_clamp_i32, buff_stat_total, STAT_MAX_DC, STAT_MAX_MC, STAT_MIN_DC, STAT_MIN_MC};
use crate::zone::{find_monster, find_player, spec_monster_index, spec_player_index, ZoneRuntime};
use crate::guild::{guild_friend, spec_guild_friend};
use crate::ai::reward::{spec_tag_owner, spec_tag_until, tag_reward_owner};
use crate::ai::kirin::spec_player_hit_keeps;
use crate::ai::horned::{horned_stat_range, spec_horned_stat_range, HornedStat};
use crate::ai::hugger::spec_at_least_one;
use crate::rng::{draw_below, first_acceptance, spec_mix, state_after};
use crate::seqs::{partition_by, retain_by, spec_not};
use crate::arith::sat_add_i32;

verus! {

impl MudBoulderState {
    /// An unbiased roll in `0..max(upper, 1)` from the boulder's stream.
    pub fn roll(&mut self, upper: u64) -> (r: u64)
        ensures
            exists|k: nat|
                first_acceptance(old(self).rng, spec_at_least_one(upper), k) && final(self).rng
                    == state_after(old(self).rng, k),
            r == spec_mix(final(self).rng) % spec_at_least_one(upper),
            r < spec_at_least_one(upper),
            *final(self) == (MudBoulderState { rng: final(self).rng, ..*old(self) }),
    {
        let u = if upper == 0 { 1 } else { upper };
        draw_below(&mut self.rng, u)
    }
}

/// Whether `ai` is a mud monster.
pub open spec fn spec_is_mud(ai: u8) -> bool {
    ai == 108 || ai == 170
}

/// The seed of a mud monster's stream.
pub open spec fn spec_mud_seed(id: u32, now: u64) -> u64 {
    now ^ ((id as u64) << 32u64) ^ 0x108_170_5EEDu64
}

/// A mud state as it starts at `now`, before the cool-eye draw.
pub open spec fn spec_fresh_mud(s: MudBoulderState) -> bool {
    &&& s.target is None
    &&& s.hits@.len() == 0
    &&& s.monster_target is None
    &&& !s.target_bound
    &&& s.monster_hits@.len() == 0
    &&& s.explosion_at_ms is None
    &&& !s.exploded
    &&& s.corpse_expires_at_ms is None
    &&& s.reward_owner is None
    &&& s.reward_until_ms == 0
}

/// A fresh mud state for monster `m` with id `id` at `now`: with a template
/// it draws once in `0..100`, and has the cool eye when the draw is below the
/// template's cool-eye chance; without one it has no cool eye and keeps its
/// seed.
pub open spec fn spec_mud_started(m: NativeMonster, s: MudBoulderState, id: u32, now: u64) -> bool {
    &&& spec_fresh_mud(s)
    &&& match m.template {
        None => s.rng == spec_mud_seed(id, now) && !s.cool_eye,
        Some(t) => exists|k: nat|
            first_acceptance(spec_mud_seed(id, now), 100, k) && s.rng == state_after(spec_mud_seed(id, now), k)
                && s.cool_eye == (spec_mix(s.rng) % 100 < t.cool_eye as u64),
    }
}

/// Gives a mud monster its state if it has none; a boulder then waits two
/// seconds before it acts.
pub fn initialize_mud_boulder(m: &mut NativeMonster, id: u32, now: u64)
    ensures
        !spec_is_mud(old(m).ai) || old(m).special.mud_boulder is Some ==> *final(m) == *old(m),
        spec_is_mud(old(m).ai) && old(m).special.mud_boulder is None ==> {
            &&& final(m).special.mud_boulder matches Some(s) && spec_mud_started(*old(m), s, id, now)
            &&& *final(m) == (NativeMonster {
                special: SpecialAi { mud_boulder: final(m).special.mud_boulder, ..old(m).special },
                next_ai_ready_at_ms: if old(m).ai == 108 && old(m).next_ai_ready_at_ms < now.saturating_add(2000) {
                    now.saturating_add(2000)
                } else {
                    old(m).next_ai_ready_at_ms
                },
                ..*old(m)
            })
        },
{
    if !(m.ai == 108 || m.ai == 170) || m.special.mud_boulder.is_some() {
        return;
    }
    let seed = now ^ ((id as u64) << 32u64) ^ 0x108_170_5EEDu64;
    let mut s = MudBoulderState {
        rng: seed,
        cool_eye: false,
        target: None,
        hits: Vec::new(),
        monster_target: None,
        target_bound: false,
        monster_hits: Vec::new(),
        explosion_at_ms: None,
        exploded: false,
        corpse_expires_at_ms: None,
        reward_owner: None,
        reward_until_ms: 0,
    };
    match m.template {
        Some(t) => {
            let draw = s.roll(100);
            proof {
                let k = choose|k: nat|
                    first_acceptance(seed, spec_at_least_one(100), k) && s.rng == state_after(seed, k);
                assert(first_acceptance(spec_mud_seed(id, now), 100, k));
            }
            s.cool_eye = draw < t.cool_eye as u64;
        },
        None => {},
    }
    m.special.mud_boulder = Some(s);
    if m.ai == 108 {
        let ready = now.saturating_add(2000);
        if m.next_ai_ready_at_ms < ready {
            m.next_ai_ready_at_ms = ready;
        }
    }
}

/// A mud state after a hit by `owner` at `now`: only the reward claim
/// changes.
pub open spec fn spec_mud_hit(a: MudBoulderState, b: MudBoulderState, owner: Seq<char>, now: u64) -> bool {
    &&& (MudBoulderState { reward_owner: None, reward_until_ms: 0, ..b }) == (MudBoulderState {
        reward_owner: None,
        reward_until_ms: 0,
        ..a
    })
    &&& opt_session_view(b.reward_owner) == spec_tag_owner(opt_session_view(a.reward_owner), a.reward_until_ms, owner, now)
    &&& b.reward_until_ms == spec_tag_until(opt_session_view(a.reward_owner), a.reward_until_ms, owner, now)
}

/// A hit on a MudZombie by `owner` at `now` tags its kill reward.
pub fn mud_boulder_on_damage(m: &mut NativeMonster, id: u32, owner: Option<&SessionId>, now: u64)
    ensures
        old(m).ai != 170 ==> *final(m) == *old(m),
        old(m).ai == 170 ==> (final(m).special.mud_boulder matches Some(t) && match owner {
            None => match old(m).special.mud_boulder {
                Some(s) => t == s,
                None => spec_mud_started(*old(m), t, id, now),
            },
            Some(o) => match old(m).special.mud_boulder {
                Some(s) => spec_mud_hit(s, t, o@, now),
                None => exists|f: MudBoulderState| spec_mud_started(*old(m), f, id, now) && spec_mud_hit(f, t, o@, now),
            },
        }),
        old(m).ai == 170 ==> *final(m) == (NativeMonster {
            special: SpecialAi { mud_boulder: final(m).special.mud_boulder, ..old(m).special },
            ..*old(m)
        }),
{
    if m.ai != 170 {
        return;
    }
    initialize_mud_boulder(m, id, now);
    match owner {
        Some(o) => match m.special.mud_boulder.take() {
            Some(mut s) => {
                let ghost f = s;
                tag_reward_owner(&mut s.reward_owner, &mut s.reward_until_ms, o, now);
                m.special.mud_boulder = Some(s);
            },
            None => {},
        },
        None => {},
    }
}

/// A mud state once its monster's death at `now` is recorded: a zombie that
/// has not exploded is set to explode 300 ms later (once), and the corpse
/// lasts three minutes from the first report.
pub open spec fn spec_mud_death(ai: u8, a: MudBoulderState, b: MudBoulderState, now: u64) -> bool {
    &&& b.explosion_at_ms == (if ai == 170 && !a.exploded && a.explosion_at_ms is None {
        Some(now.saturating_add(300))
    } else {
        a.explosion_at_ms
    })
    &&& b.corpse_expires_at_ms == (match a.corpse_expires_at_ms {
        Some(c) => Some(c),
        None => Some(now.saturating_add(180000)),
    })
    &&& b == (MudBoulderState {
        explosion_at_ms: b.explosion_at_ms,
        corpse_expires_at_ms: b.corpse_expires_at_ms,
        ..a
    })
}

/// A dead mud monster: its explosion and corpse clocks are set and every
/// control and damage poison on it ends.
pub fn mud_boulder_on_death(m: &mut NativeMonster, id: u32, now: u64)
    ensures
        !spec_is_mud(old(m).ai) || !old(m).dead ==> *final(m) == *old(m),
        spec_is_mud(old(m).ai) && old(m).dead ==> {
            &&& final(m).special.mud_boulder matches Some(t) && match old(m).special.mud_boulder {
                Some(s) => spec_mud_death(old(m).ai, s, t, now),
                None => exists|f: MudBoulderState| spec_mud_started(*old(m), f, id, now) && spec_mud_death(old(m).ai, f, t, now),
            }
            &&& *final(m) == (NativeMonster {
                special: SpecialAi { mud_boulder: final(m).special.mud_boulder, ..old(m).special },
                next_ai_ready_at_ms: final(m).next_ai_ready_at_ms,
                control_poison: 0,
                control_until_ms: 0,
                damage_poison: 0,
                damage_poison_value: 0,
                damage_poison_next_damage_at_ms: 0,
                damage_poison_expires_at_ms: 0,
                damage_poison_owner_session_id: None,
                damage_poison_owner_object_id: 0,
                ..*old(m)
            })
            &&& final(m).next_ai_ready_at_ms == (if old(m).special.mud_boulder is None && old(m).ai == 108
                && old(m).next_ai_ready_at_ms < now.saturating_add(2000) {
                now.saturating_add(2000)
            } else {
                old(m).next_ai_ready_at_ms
            })
        },
{
    if !(m.ai == 108 || m.ai == 170) || !m.dead {
        return;
    }
    initialize_mud_boulder(m, id, now);
    let ai = m.ai;
    match m.special.mud_boulder.take() {
        Some(mut s) => {
            let ghost f = s;
            if ai == 170 && !s.exploded && s.explosion_at_ms.is_none() {
                s.explosion_at_ms = Some(now.saturating_add(300));
            }
            if s.corpse_expires_at_ms.is_none() {
                s.corpse_expires_at_ms = Some(now.saturating_add(180000));
            }
            m.special.mud_boulder = Some(s);
        },
        None => {},
    }
    m.control_poison = 0;
    m.control_until_ms = 0;
    m.damage_poison = 0;
    m.damage_poison_value = 0;
    m.damage_poison_next_damage_at_ms = 0;
    m.damage_poison_expires_at_ms = 0;
    m.damage_poison_owner_session_id = None;
    m.damage_poison_owner_object_id = 0;
}

/// Whether a mud monster may target player `p`: alive with HP, outside the
/// safe zone, not of the monster's friendly guild, and (when the check
/// needs sight) visible, or hidden from a cool-eyed monster of at least its
/// level.
pub open spec fn spec_mud_player_target(m: NativeMonster, p: ZonePlayer, sight: bool) -> bool {
    let cool_eye = m.special.mud_boulder matches Some(s) && s.cool_eye;
    &&& !p.dead
    &&& p.hp > 0
    &&& !p.in_safe_zone
    &&& (!sight || !p.hidden || (cool_eye && m.level >= p.level))
    &&& !spec_guild_friend(m.friendly_guild, p.guild_name)
}

/// Whether a mud monster may target player `p`.
pub fn mud_player_target(m: &NativeMonster, p: &ZonePlayer, sight: bool) -> (r: bool)
    ensures
        r == spec_mud_player_target(*m, *p, sight),
{
    let cool_eye = match &m.special.mud_boulder {
        Some(s) => s.cool_eye,
        None => false,
    };
    !p.dead && p.hp > 0 && !p.in_safe_zone && (!sight || !p.hidden || (cool_eye && m.level
        >= p.level)) && !guild_friend(&m.friendly_guild, &p.guild_name)
}

impl ZoneRuntime {
    /// Whether mud monster `id` still owes delayed hits or its explosion.
    pub fn native_monster_has_pending_mud_boulder(&self, id: u32) -> (r: bool)
        ensures
            r == (spec_monster_index(self.native_monsters@, id) matches Some(i)
                && self.native_monsters@[i].special.mud_boulder matches Some(s) && (s.hits@.len() > 0
                || s.monster_hits@.len() > 0 || s.explosion_at_ms is Some)),
    {
        match find_monster(&self.native_monsters, id) {
            Some(i) => match &self.native_monsters[i].special.mud_boulder {
                Some(s) => s.hits.len() > 0 || s.monster_hits.len() > 0 || s.explosion_at_ms.is_some(),
                None => false,
            },
            None => false,
        }
    }
}

/// Monster hits not aimed at `id`.
pub open spec fn spec_mud_monster_hit_keeps(id: u32) -> spec_fn(MudMonsterHit) -> bool {
    |h: MudMonsterHit| h.target != id
}

/// A mud state after the life `id` is retired: hits and targets on it drop.
pub open spec fn spec_mud_boulder_state_cleared(a: MudBoulderState, b: MudBoulderState, id: u32) -> bool {
    &&& b.hits@ == a.hits@.filter(spec_player_hit_keeps(id))
    &&& b.monster_hits@ == a.monster_hits@.filter(spec_mud_monster_hit_keeps(id))
    &&& b.monster_target == (match a.monster_target {
        Some(t) => if t.0 == id { None } else { Some(t) },
        None => None,
    })
    &&& b.target == (match a.target {
        Some(t) => if t.object_id == id { None } else { Some(t) },
        None => None,
    })
    &&& b == (MudBoulderState {
        hits: b.hits,
        monster_hits: b.monster_hits,
        monster_target: b.monster_target,
        target: b.target,
        ..a
    })
}

fn clear_mud_boulder_state(s: &mut MudBoulderState, id: u32)
    ensures
        spec_mud_boulder_state_cleared(*old(s), *final(s), id),
{
    let ghost k1 = spec_player_hit_keeps(id);
    retain_by(
        &mut s.hits,
        (|h: &PlayerHitRecord| -> (r: bool)
            ensures
                r == (h.target_object_id != id),
            { h.target_object_id != id }),
        Ghost(k1),
    );
    let ghost k2 = spec_mud_monster_hit_keeps(id);
    retain_by(
        &mut s.monster_hits,
        (|h: &MudMonsterHit| -> (r: bool)
            ensures
                r == (h.target != id),
            { h.target != id }),
        Ghost(k2),
    );
    let drop_monster = match s.monster_target {
        Some(t) => t.0 == id,
        None => false,
    };
    if drop_monster {
        s.monster_target = None;
    }
    let drop_player = match &s.target {
        Some(t) => t.object_id == id,
        None => false,
    };
    if drop_player {
        s.target = None;
    }
}

/// A monster after the sweep of `clear_mud_boulder_targets`: its mud_boulder state (if any)
/// cleared, nothing else changed.
pub open spec fn spec_mud_boulder_monster_cleared(a: NativeMonster, b: NativeMonster, id: u32) -> bool {
    match a.special.mud_boulder {
        Some(s) => b.special.mud_boulder matches Some(t) && spec_mud_boulder_state_cleared(s, t, id) && b
            == (NativeMonster { special: SpecialAi { mud_boulder: b.special.mud_boulder, ..a.special }, ..a }),
        None => b == a,
    }
}

fn clear_mud_boulder_monster(m: &mut NativeMonster, id: u32)
    ensures
        spec_mud_boulder_monster_cleared(*old(m), *final(m), id),
{
    match m.special.mud_boulder.take() {
        Some(mut s) => {
            clear_mud_boulder_state(&mut s, id);
            m.special.mud_boulder = Some(s);
        },
        None => {},
    }
}

impl ZoneRuntime {
    /// The life `id` is retired: every mud monster forgets its hits and aim on it.
    pub fn clear_mud_boulder_targets(&mut self, id: u32)
        ensures
            *final(self) == (ZoneRuntime { native_monsters: final(self).native_monsters, ..*old(self) }),
            final(self).native_monsters@.len() == old(self).native_monsters@.len(),
            forall|k: int|
                0 <= k < old(self).native_monsters@.len() ==> spec_mud_boulder_monster_cleared(
                    old(self).native_monsters@[k],
                    #[trigger] final(self).native_monsters@[k],
                    id,
                ),
    {
        let ghost before = self.native_monsters@;
        let mut i: usize = 0;
        while i < self.native_monsters.len()
            invariant
                *self == (ZoneRuntime { native_monsters: self.native_monsters, ..*old(self) }),
                before == old(self).native_monsters@,
                self.native_monsters@.len() == before.len(),
                0 <= i <= before.len(),
                forall|k: int|
                    0 <= k < i ==> spec_mud_boulder_monster_cleared(before[k], #[trigger] self.native_monsters@[k], id),
                forall|k: int| i <= k < before.len() ==> #[trigger] self.native_monsters@[k] == before[k],
            decreases before.len() - i,
        {
            let mut m = self.native_monsters.remove(i);
            clear_mud_boulder_monster(&mut m, id);
            self.native_monsters.insert(i, m);
            i += 1;
        }
    }
}

/// The `(min, max)` a mud attack rolls between: the template DC (or MC)
/// range widened by Horned buffs, the bottom raised by stat buffs and held
/// at zero or more, the top raised by stat buffs and held at the bottom or
/// more.
pub open spec fn spec_mud_damage_range(m: NativeMonster, magic: bool, now: u64) -> (int, int) {
    let t = m.template->0;
    let (base_min, base_max) = if magic { (t.min_mc, t.max_mc) } else { (t.min_dc, t.max_dc) };
    let kind = if magic { HornedStat::Mc } else { HornedStat::Dc };
    let widened = spec_horned_stat_range(m, kind, base_min, base_max, now);
    let low = spec_clamp_i32(widened.0 + spec_buff_stat_total(m.buffs@, if magic { STAT_MIN_MC } else { STAT_MIN_DC }));
    let min = if low < 0 { 0 } else { low };
    let high = spec_clamp_i32(widened.1 + spec_buff_stat_total(m.buffs@, if magic { STAT_MAX_MC } else { STAT_MAX_DC }));
    let max = if high < min { min } else { high };
    (min, max)
}

fn mud_damage_range(m: &NativeMonster, magic: bool, now: u64) -> (r: (i32, i32))
    requires
        m.template is Some,
    ensures
        (r.0 as int, r.1 as int) == spec_mud_damage_range(*m, magic, now),
        0 <= r.0 <= r.1,
{
    let t = m.template.unwrap();
    let (base_min, base_max) = if magic { (t.min_mc, t.max_mc) } else { (t.min_dc, t.max_dc) };
    let kind = if magic { HornedStat::Mc } else { HornedStat::Dc };
    let (wmin, wmax) = horned_stat_range(m, kind, base_min, base_max, now);
    let low = sat_add_i32(wmin, buff_stat_total(m, if magic { STAT_MIN_MC } else { STAT_MIN_DC }));
    let min: i32 = if low < 0 { 0 } else { low };
    let high = sat_add_i32(wmax, buff_stat_total(m, if magic { STAT_MAX_MC } else { STAT_MAX_DC }));
    let max: i32 = if high < min { min } else { high };
    (min, max)
}

impl ZoneRuntime {
    /// The damage of one mud attack by monster `id` at `now`: an unbiased
    /// roll over its damage range added (saturating) to the bottom; 0 for a
    /// monster without a template.
    pub fn mud_boulder_damage(&mut self, id: u32, magic: bool, now: u64) -> (r: i32)
        requires
            spec_monster_index(old(self).native_monsters@, id) matches Some(i) && old(self).native_monsters@[i].special.mud_boulder is Some,
        ensures
            ({
                let i = spec_monster_index(old(self).native_monsters@, id)->0;
                let m = old(self).native_monsters@[i];
                match m.template {
                    None => r == 0 && *final(self) == *old(self),
                    Some(_) => {
                        let (min, max) = spec_mud_damage_range(m, magic, now);
                        let s0 = m.special.mud_boulder->0;
                        let s1 = final(self).native_monsters@[i].special.mud_boulder->0;
                        let span = (max - min + 1) as u64;
                        &&& final(self).native_monsters@[i].special.mud_boulder is Some
                        &&& exists|k: nat| first_acceptance(s0.rng, span, k) && s1.rng == state_after(s0.rng, k)
                        &&& r == spec_clamp_i32(min + spec_mix(s1.rng) % span)
                        &&& s1 == (MudBoulderState { rng: s1.rng, ..s0 })
                        &&& final(self).native_monsters@ == old(self).native_monsters@.update(
                            i,
                            NativeMonster { special: SpecialAi { mud_boulder: Some(s1), ..m.special }, ..m },
                        )
                        &&& *final(self) == (ZoneRuntime { native_monsters: final(self).native_monsters, ..*old(self) })
                    },
                }
            }),
    {
        let i = match find_monster(&self.native_monsters, id) {
            Some(i) => i,
            None => {
                return 0;
            },
        };
        let t = match self.native_monsters[i].template {
            Some(t) => t,
            None => {
                return 0;
            },
        };
        let (min, max) = mud_damage_range(&self.native_monsters[i], magic, now);
        let span: u64 = (max as i64 - min as i64 + 1) as u64;
        let ghost m0 = self.native_monsters@;
        let mut m = self.native_monsters.remove(i);
        let mut s = m.special.mud_boulder.take().unwrap();
        let roll = draw_below(&mut s.rng, span);
        m.special.mud_boulder = Some(s);
        self.native_monsters.insert(i, m);
        assert(self.native_monsters@ == m0.update(i as int, self.native_monsters@[i as int]));
        sat_add_i32(min, roll as i32)
    }
}

impl ZoneRuntime {
    /// A roll in `0..max(upper, 1)` from the stream of mud monster `id`
    /// (see [`MudBoulderState::roll`]); nothing else changes.
    pub fn mud_boulder_roll(&mut self, id: u32, upper: u64) -> (r: u64)
        requires
            spec_monster_index(old(self).native_monsters@, id) matches Some(i) && 0 <= i < old(self).native_monsters@.len()
                && old(self).native_monsters@[i].special.mud_boulder is Some,
        ensures
            ({
                let i = spec_monster_index(old(self).native_monsters@, id)->0;
                let m = old(self).native_monsters@[i];
                let s0 = m.special.mud_boulder->0;
                &&& final(self).native_monsters@[i].special.mud_boulder matches Some(s1) && (exists|k: nat|
                    first_acceptance(s0.rng, spec_at_least_one(upper), k) && s1.rng == state_after(s0.rng, k))
                    && r == spec_mix(s1.rng) % spec_at_least_one(upper) && s1 == (MudBoulderState { rng: s1.rng, ..s0 })
                    && final(self).native_monsters@ == old(self).native_monsters@.update(
                        i,
                        NativeMonster { special: SpecialAi { mud_boulder: Some(s1), ..m.special }, ..m },
                    )
                &&& r < spec_at_least_one(upper)
                &&& *final(self) == (ZoneRuntime { native_monsters: final(self).native_monsters, ..*old(self) })
            }),
    {
        let i = match find_monster(&self.native_monsters, id) {
            Some(i) => i,
            None => {
                return 0;
            },
        };
        let ghost m0 = self.native_monsters@;
        let mut m = self.native_monsters.remove(i);
        let mut s = m.special.mud_boulder.take().unwrap();
        let r = s.roll(upper);
        m.special.mud_boulder = Some(s);
        self.native_monsters.insert(i, m);
        assert(self.native_monsters@ == m0.update(i as int, self.native_monsters@[i as int]));
        r
    }
}

/// The players among the first `n` of zone `rt` that mud monster `m` may
/// target within `radius` of `centre` (see [`spec_mud_player_target`]), in
/// player order.
pub open spec fn spec_mud_player_candidates(
    rt: ZoneRuntime,
    m: NativeMonster,
    centre: Point,
    radius: i32,
    sight: bool,
    n: int,
) -> Seq<TargetView>
    decreases n,
{
    if n <= 0 {
        Seq::empty()
    } else {
        let prev = spec_mud_player_candidates(rt, m, centre, radius, sight, n - 1);
        let p = rt.players@[n - 1];
        if spec_mud_player_target(m, p, sight) && spec_tile_distance(centre, p.position) <= radius {
            prev.push(
                TargetView {
                    reference: EntityRefView::Player {
                        session: p.session_id@,
                        object_id: p.object_id,
                        life_generation: p.life_generation,
                    },
                    object_id: p.object_id,
                    position: p.position,
                },
            )
        } else {
            prev
        }
    }
}

/// The lives mud monster `id` of zone `rt` may target within `radius` of
/// `centre`, nearest first (see [`ZoneRuntime::mud_targets`]).
pub open spec fn spec_mud_targets(
    rt: ZoneRuntime,
    id: u32,
    centre: Point,
    radius: i32,
    sight: bool,
    now: u64,
    r: Seq<NativeEntityTarget>,
) -> bool {
    &&& spec_targets_sorted(r, centre)
    &&& tviews(r).to_multiset() == (spec_monster_candidates(
        rt,
        spec_monster_ref(rt, id).unwrap(),
        centre,
        radius,
        spec_evil_mir_purpose(sight),
        now,
        rt.native_monsters@.len() as int,
    ) + spec_mud_player_candidates(
        rt,
        rt.native_monsters@[spec_monster_index(rt.native_monsters@, id)->0],
        centre,
        radius,
        sight,
        rt.players@.len() as int,
    )).to_multiset()
}

impl ZoneRuntime {
    /// The lives mud monster `id` may target within `radius` of `center`:
    /// the players it may target and the player-owned monsters it may act
    /// on (those it sees when `sight` is asked), nearest first, then by
    /// row, column and object id.
    pub fn mud_targets(&self, id: u32, center: &Point, radius: i32, sight: bool, now: u64) -> (r: Vec<
        NativeEntityTarget,
    >)
        requires
            spec_monster_index(self.native_monsters@, id) is Some,
        ensures
            spec_mud_targets(*self, id, *center, radius, sight, now, r@),
    {
        let k = find_monster(&self.native_monsters, id).unwrap();
        let m = &self.native_monsters[k];
        let purpose = if sight {
            EntityTargetPurpose::Search
        } else {
            EntityTargetPurpose::Impact
        };
        let mut out = self.native_entity_monster_targets(id, center, radius, purpose, now);
        let ghost monsters = spec_monster_candidates(
            *self,
            spec_monster_ref(*self, id).unwrap(),
            *center,
            radius,
            purpose,
            now,
            self.native_monsters@.len() as int,
        );
        proof {
            assert(monsters + spec_mud_player_candidates(*self, *m, *center, radius, sight, 0) =~= monsters);
        }
        let mut i: usize = 0;
        while i < self.players.len()
            invariant
                0 <= i <= self.players@.len(),
                *m == self.native_monsters@[spec_monster_index(self.native_monsters@, id)->0],
                spec_targets_sorted(out@, *center),
                tviews(out@).to_multiset() == (monsters + spec_mud_player_candidates(
                    *self,
                    *m,
                    *center,
                    radius,
                    sight,
                    i as int,
                )).to_multiset(),
            decreases self.players@.len() - i,
        {
            let p = &self.players[i];
            if mud_player_target(m, p, sight) && tile_distance(center, &p.position) <= radius as i64 {
                let t = NativeEntityTarget {
                    reference: EntityRef::Player {
                        session_id: p.session_id.duplicate(),
                        object_id: p.object_id,
                        life_generation: p.life_generation,
                    },
                    object_id: p.object_id,
                    position: p.position,
                };
                proof {
                    let prev = spec_mud_player_candidates(*self, *m, *center, radius, sight, i as int);
                    assert((monsters + prev).push(tview(t)) =~= monsters + prev.push(tview(t)));
                    vstd::seq_lib::to_multiset_build(monsters + prev, tview(t));
                }
                insert_sorted(&mut out, t, center);
            }
            i += 1;
        }
        out
    }

    /// The life a mud target names, if it is still current: a player
    /// target only while the player is on the same life.
    pub fn mud_target_reference(&self, target: &NativeEntityTarget) -> (r: Option<EntityRef>)
        ensures
            opt_ref_view(r) == match target.reference@ {
                EntityRefView::Player { session, .. } => if spec_player_ref(*self, session) == Some(target.reference@) {
                    Some(target.reference@)
                } else {
                    None
                },
                EntityRefView::Monster { .. } => Some(target.reference@),
            },
    {
        match &target.reference {
            EntityRef::Player { session_id, object_id, life_generation } => {
                match self.native_entity_player_ref(session_id) {
                    Some(current) => {
                        let same = match &current {
                            EntityRef::Player { object_id: o, life_generation: g, .. } => *o == *object_id && *g
                                == *life_generation,
                            EntityRef::Monster { .. } => false,
                        };
                        if same {
                            Some(current)
                        } else {
                            None
                        }
                    },
                    None => None,
                }
            },
            EntityRef::Monster { .. } => Some(target.reference.duplicate()),
        }
    }
}

/// Whether a player hit is due at `now`.
pub open spec fn spec_player_hit_due(now: u64) -> spec_fn(PlayerHitRecord) -> bool {
    |h: PlayerHitRecord| now >= h.due_ms
}

/// Whether a monster hit is due at `now`.
pub open spec fn spec_monster_hit_due(now: u64) -> spec_fn(MudMonsterHit) -> bool {
    |h: MudMonsterHit| now >= h.due
}

/// The due work of a mud monster at `now`: its player hits and monster
/// hits that are due leave its queues (returned in queue order) and the
/// rest stay; a scheduled explosion that is due and has not happened is
/// taken (returned `true`) and marked done.
pub fn mud_boulder_due(s: &mut MudBoulderState, now: u64) -> (r: (Vec<PlayerHitRecord>, Vec<MudMonsterHit>, bool))
    ensures
        r.0@ == old(s).hits@.filter(spec_player_hit_due(now)),
        final(s).hits@ == old(s).hits@.filter(spec_not(spec_player_hit_due(now))),
        r.1@ == old(s).monster_hits@.filter(spec_monster_hit_due(now)),
        final(s).monster_hits@ == old(s).monster_hits@.filter(spec_not(spec_monster_hit_due(now))),
        r.2 == (old(s).explosion_at_ms matches Some(d) && now >= d && !old(s).exploded),
        *final(s) == (MudBoulderState {
            hits: final(s).hits,
            monster_hits: final(s).monster_hits,
            exploded: if r.2 { true } else { old(s).exploded },
            explosion_at_ms: if r.2 { None } else { old(s).explosion_at_ms },
            ..*old(s)
        }),
{
    let mut hits: Vec<PlayerHitRecord> = Vec::new();
    std::mem::swap(&mut hits, &mut s.hits);
    let (due, kept) = partition_by(
        hits,
        (|h: &PlayerHitRecord| -> (b: bool)
            ensures
                b == (now >= h.due_ms),
            { now >= h.due_ms }),
        Ghost(spec_player_hit_due(now)),
    );
    s.hits = kept;
    let mut monster_hits: Vec<MudMonsterHit> = Vec::new();
    std::mem::swap(&mut monster_hits, &mut s.monster_hits);
    let (monster_due, monster_kept) = partition_by(
        monster_hits,
        (|h: &MudMonsterHit| -> (b: bool)
            ensures
                b == (now >= h.due),
            { now >= h.due }),
        Ghost(spec_monster_hit_due(now)),
    );
    s.monster_hits = monster_kept;
    let explode = match s.explosion_at_ms {
        Some(d) => now >= d && !s.exploded,
        None => false,
    };
    if explode {
        s.exploded = true;
        s.explosion_at_ms = None;
    }
    (due, monster_due, explode)
}

/// The life a mud target naming `r` stands for, if still current (see
/// [`ZoneRuntime::mud_target_reference`]).
pub open spec fn spec_mud_reference(rt: ZoneRuntime, r: EntityRefView) -> Option<EntityRefView> {
    match r {
        EntityRefView::Player { session, .. } => if spec_player_ref(rt, session) == Some(r) {
            Some(r)
        } else {
            None
        },
        EntityRefView::Monster { .. } => Some(r),
    }
}

/// Whether mud monster `id` may still hit the life a target naming `r`
/// stands for.
pub open spec fn spec_mud_passes(rt: ZoneRuntime, id: u32, r: EntityRefView, now: u64) -> bool {
    &&& spec_mud_reference(rt, r) is Some
    &&& spec_monster_ref(rt, id) is Some
    &&& spec_can_attack(rt, spec_monster_ref(rt, id).unwrap(), spec_mud_reference(rt, r).unwrap(), EntityTargetPurpose::Impact, now)
}

/// The player target an unbound mud state `s` of monster `m` remembers
/// from before targets were bound: only on the player's first life, while
/// the monster may target it.
pub open spec fn spec_mud_old_player(rt: ZoneRuntime, m: NativeMonster, s: MudBoulderState) -> Option<(EntityRefView, Point)> {
    if s.target_bound {
        None
    } else {
        match s.target {
            Some(pt) => match spec_player_index(rt.players@, pt.session_id@) {
                Some(i) => {
                    let p = rt.players@[i];
                    if p.object_id == pt.object_id && p.life_generation == 0 && spec_mud_player_target(m, p, false) {
                        Some((EntityRefView::Player { session: pt.session_id@, object_id: p.object_id, life_generation: 0 }, p.position))
                    } else {
                        None
                    }
                },
                None => None,
            },
            None => None,
        }
    }
}

/// The monster target an unbound mud state `s` of monster `id` remembers,
/// while the monster may act on it.
pub open spec fn spec_mud_old_monster(rt: ZoneRuntime, id: u32, s: MudBoulderState, now: u64) -> Option<(EntityRefView, Point)> {
    if s.target_bound {
        None
    } else {
        match s.monster_target {
            Some((tid, inc)) => {
                let r = EntityRefView::Monster { object_id: tid, incarnation: inc };
                if spec_monster_ref(rt, id) is Some && spec_can_attack(rt, spec_monster_ref(rt, id).unwrap(), r, EntityTargetPurpose::Impact, now)
                    && spec_monster(rt, tid) is Some {
                    Some((r, spec_monster(rt, tid)->0.position))
                } else {
                    None
                }
            },
            None => None,
        }
    }
}

/// The target mud monster `id` (standing as `m`, with state `s`) keeps: its
/// bound target, else a remembered player, else a remembered monster; kept
/// only within 16 tiles and while it may still hit it.
pub open spec fn spec_mud_retained(rt: ZoneRuntime, id: u32, m: NativeMonster, s: MudBoulderState, now: u64) -> Option<(EntityRefView, Point)> {
    let first = match spec_selected_target(rt, id, now) {
        Some(g) => Some(g),
        None => match spec_mud_old_player(rt, m, s) {
            Some(p) => Some(p),
            None => spec_mud_old_monster(rt, id, s, now),
        },
    };
    match first {
        Some((r, pos)) => if spec_tile_distance(m.position, pos) <= 16 && spec_mud_passes(rt, id, r, now) {
            Some((r, pos))
        } else {
            None
        },
        None => None,
    }
}

/// The first candidate of `list` that mud monster `id` may still hit.
pub open spec fn spec_mud_first_pass(rt: ZoneRuntime, id: u32, now: u64, list: Seq<NativeEntityTarget>) -> Option<int> {
    if exists|i: int| 0 <= i < list.len() && spec_mud_passes(rt, id, list[i].reference@, now) {
        Some(choose|i: int| 0 <= i < list.len() && spec_mud_passes(rt, id, list[i].reference@, now) && forall|j: int|
            0 <= j < i ==> !spec_mud_passes(rt, id, list[j].reference@, now))
    } else {
        None
    }
}

/// The target mud monster `id` chooses: the one it keeps (see
/// [`spec_mud_retained`]), else the first of its candidates `list` it may
/// still hit.
pub open spec fn spec_mud_choice(
    rt: ZoneRuntime,
    id: u32,
    m: NativeMonster,
    s: MudBoulderState,
    now: u64,
    list: Seq<NativeEntityTarget>,
) -> Option<(EntityRefView, Point)> {
    match spec_mud_retained(rt, id, m, s, now) {
        Some(x) => Some(x),
        None => match spec_mud_first_pass(rt, id, now, list) {
            Some(i) => Some((list[i].reference@, list[i].position)),
            None => None,
        },
    }
}

impl ZoneRuntime {
    /// Whether mud monster `id` may still hit the life target `t` names.
    pub fn mud_passes(&self, id: u32, t: &NativeEntityTarget, now: u64) -> (r: bool)
        ensures
            r == spec_mud_passes(*self, id, t.reference@, now),
    {
        let reference = match self.mud_target_reference(t) {
            Some(r) => r,
            None => {
                return false;
            },
        };
        let source = match self.native_entity_monster_ref(id) {
            Some(s) => s,
            None => {
                return false;
            },
        };
        self.native_entity_can_attack(&source, &reference, EntityTargetPurpose::Impact, now)
    }

    /// Mud monster `id` chooses its target at `now` (see
    /// [`spec_mud_choice`], over its candidates within its view range); from
    /// then on its target is bound, and without a target it forgets the
    /// targets it remembered.
    #[verifier::rlimit(40)]
    pub fn mud_select_target(&mut self, id: u32, now: u64) -> (r: Option<NativeEntityTarget>)
        requires
            spec_monster_index(old(self).native_monsters@, id) matches Some(i) && 0 <= i < old(self).native_monsters@.len()
                && old(self).native_monsters@[i].special.mud_boulder is Some && old(self).native_monsters@[i].template is Some,
            old(self).entity_combat matches Some(st) ==> spec_relations_ordered(st.targets@),
        ensures
            ({
                let i = spec_monster_index(old(self).native_monsters@, id)->0;
                let m = old(self).native_monsters@[i];
                let s0 = m.special.mud_boulder->0;
                let s1 = if r is None {
                    MudBoulderState { target_bound: true, target: None, monster_target: None, ..s0 }
                } else {
                    MudBoulderState { target_bound: true, ..s0 }
                };
                &&& exists|list: Seq<NativeEntityTarget>|
                    #[trigger] spec_mud_targets(*old(self), id, m.position, m.template->0.view_range as i32, true, now, list)
                        && match r {
                        None => spec_mud_choice(*old(self), id, m, s0, now, list) is None,
                        Some(t) => spec_mud_choice(*old(self), id, m, s0, now, list) == Some((t.reference@, t.position)),
                    }
                &&& final(self).native_monsters@ == old(self).native_monsters@.update(
                    i,
                    NativeMonster { special: SpecialAi { mud_boulder: Some(s1), ..m.special }, ..m },
                )
                &&& *final(self) == (ZoneRuntime { native_monsters: final(self).native_monsters, ..*old(self) })
            }),
    {
        let ghost a = *self;
        let i = find_monster(&self.native_monsters, id).unwrap();
        let chosen = self.mud_choose(i, id, now);
        let ghost m0 = self.native_monsters@;
        let mut m = self.native_monsters.remove(i);
        let mut s = m.special.mud_boulder.take().unwrap();
        s.target_bound = true;
        if chosen.is_none() {
            s.target = None;
            s.monster_target = None;
        }
        m.special.mud_boulder = Some(s);
        self.native_monsters.insert(i, m);
        assert(self.native_monsters@ =~= m0.update(i as int, self.native_monsters@[i as int]));
        chosen
    }

    #[verifier::rlimit(40)]
    fn mud_choose(&self, i: usize, id: u32, now: u64) -> (r: Option<NativeEntityTarget>)
        requires
            spec_monster_index(self.native_monsters@, id) == Some(i as int),
            0 <= i < self.native_monsters@.len(),
            self.native_monsters@[i as int].special.mud_boulder is Some,
            self.native_monsters@[i as int].template is Some,
            self.entity_combat matches Some(st) ==> spec_relations_ordered(st.targets@),
        ensures
            ({
                let m = self.native_monsters@[i as int];
                exists|list: Seq<NativeEntityTarget>|
                    #[trigger] spec_mud_targets(*self, id, m.position, m.template->0.view_range as i32, true, now, list)
                        && match r {
                        None => spec_mud_choice(*self, id, m, m.special.mud_boulder->0, now, list) is None,
                        Some(t) => spec_mud_choice(*self, id, m, m.special.mud_boulder->0, now, list) == Some((t.reference@, t.position)),
                    }
            }),
    {
        let m = &self.native_monsters[i];
        let view: i32 = match m.template {
            Some(t) => t.view_range as i32,
            None => 0,
        };
        let list = self.mud_targets(id, &m.position, view, true, now);
        let s = m.special.mud_boulder.as_ref().unwrap();
        let global = self.selected_native_entity_target(id, now);
        let old_player: Option<NativeEntityTarget> = if s.target_bound {
            None
        } else {
            match &s.target {
                Some(pt) => match find_player(&self.players, &pt.session_id) {
                    Some(pi) => {
                        let p = &self.players[pi];
                        if p.object_id == pt.object_id && p.life_generation == 0 && mud_player_target(m, p, false) {
                            Some(NativeEntityTarget {
                                reference: EntityRef::Player {
                                    session_id: pt.session_id.duplicate(),
                                    object_id: p.object_id,
                                    life_generation: 0,
                                },
                                object_id: p.object_id,
                                position: p.position,
                            })
                        } else {
                            None
                        }
                    },
                    None => None,
                },
                None => None,
            }
        };
        let old_monster: Option<NativeEntityTarget> = if s.target_bound {
            None
        } else {
            match s.monster_target {
                Some((tid, inc)) => {
                    let r = EntityRef::Monster { object_id: tid, incarnation: inc };
                    let reach = match self.native_entity_monster_ref(id) {
                        Some(src) => self.native_entity_can_attack(&src, &r, EntityTargetPurpose::Impact, now),
                        None => false,
                    };
                    match find_monster(&self.native_monsters, tid) {
                        Some(ti) => if reach {
                            Some(NativeEntityTarget { reference: r, object_id: tid, position: self.native_monsters[ti].position })
                        } else {
                            None
                        },
                        None => None,
                    }
                },
                None => None,
            }
        };
        assert(spec_mud_targets(*self, id, m.position, m.template->0.view_range as i32, true, now, list@));
        assert(match old_player {
            Some(t) => spec_mud_old_player(*self, *m, *s) == Some((t.reference@, t.position)),
            None => spec_mud_old_player(*self, *m, *s) is None,
        });
        assert(match old_monster {
            Some(t) => spec_mud_old_monster(*self, id, *s, now) == Some((t.reference@, t.position)),
            None => spec_mud_old_monster(*self, id, *s, now) is None,
        });
        let first = match global {
            Some(g) => Some(g),
            None => match old_player {
                Some(p) => Some(p),
                None => old_monster,
            },
        };
        let retained = match first {
            Some(t) => if tile_distance(&m.position, &t.position) <= 16 && self.mud_passes(id, &t, now) {
                Some(t)
            } else {
                None
            },
            None => None,
        };
        assert(match retained {
            Some(t) => spec_mud_retained(*self, id, *m, *s, now) == Some((t.reference@, t.position)),
            None => spec_mud_retained(*self, id, *m, *s, now) is None,
        });
        let ghost lv = list@;
        let result = match retained {
            Some(t) => Some(t),
            None => {
                let found = self.mud_first_passing(id, list, now);
                assert(match found {
                    None => spec_mud_choice(*self, id, *m, *s, now, lv) is None,
                    Some(t) => spec_mud_choice(*self, id, *m, *s, now, lv) == Some((t.reference@, t.position)),
                });
                found
            },
        };
        result
    }

    fn mud_first_passing(&self, id: u32, list: Vec<NativeEntityTarget>, now: u64) -> (r: Option<NativeEntityTarget>)
        ensures
            match r {
                None => spec_mud_first_pass(*self, id, now, list@) is None,
                Some(t) => spec_mud_first_pass(*self, id, now, list@) matches Some(c) && t == list@[c],
            },
    {
        let mut k: usize = 0;
        while k < list.len()
            invariant
                0 <= k <= list@.len(),
                forall|j: int| 0 <= j < k ==> !spec_mud_passes(*self, id, #[trigger] list@[j].reference@, now),
            decreases list@.len() - k,
        {
            if self.mud_passes(id, &list[k], now) {
                proof {
                    let c = choose|c: int| 0 <= c < list@.len() && spec_mud_passes(*self, id, list@[c].reference@, now) && forall|j: int|
                        0 <= j < c ==> !spec_mud_passes(*self, id, list@[j].reference@, now);
                    if c < k {
                        assert(!spec_mud_passes(*self, id, list@[c].reference@, now));
                    }
                    if c > k {
                        assert(!spec_mud_passes(*self, id, list@[k as int].reference@, now));
                    }
                }
                let mut rest = list;
                let t = rest.remove(k);
                return Some(t);
            }
            k += 1;
        }
        None
    }
}

} // verus!
