//! KirinSnow (AI 180) and its snow wolves (AI 186): kill-reward ownership,
//! the counter-driven random stream, and the lives its death blast may hit.
use vstd::prelude::*;
use crate::types::{opt_session_view, EntityRef, EntityRefView, Point, SessionId, opt_ref_view};
use crate::ai::revival::spec_div_toward_zero;
use crate::monster::{EntityHitRecord, KirinSnowState, NativeMonster, PlayerHitRecord, SpecialAi, ZonePlayer, spec_buff_stat_total, spec_clamp_i32, buff_stat_total, STAT_MIN_DC};
use crate::zone::{find_monster, find_player, spec_monster_index, spec_player_index, ZoneRuntime};
use crate::ai::reward::{spec_tag_owner, spec_tag_until, tag_reward_owner};
use crate::ai::hugger::{spec_at_least_one, spec_owner_gone};
use crate::rng::{spec_mix, GOLDEN, MIX_MUL_A, MIX_MUL_B};
use crate::seqs::{contains_u32, insert_unique, partition_by, retain_by, spec_not, spec_set_insert};
use crate::ai::meow::{spec_entity_hit_later, spec_player_hit_later};
use crate::entity::NativeEntityTarget;
use crate::arith::sat_add_i32;

verus! {

/// Whether `ai` is KirinSnow or one of its wolves.
pub open spec fn spec_is_kirin_family(ai: u8) -> bool {
    ai == 180 || ai == 186
}

/// A KirinSnow state as it starts.
pub open spec fn spec_fresh_kirin(s: KirinSnowState) -> bool {
    &&& s.sequence == 0
    &&& s.action_ms == 0
    &&& s.hits@.len() == 0
    &&& s.entity_hits@.len() == 0
    &&& s.entity_target is None
    &&& s.death_lives@.len() == 0
    &&& s.death_ms is None
    &&& !s.death_finished
    &&& s.excluded_lives@.len() == 0
    &&& !s.spawned
    &&& s.slaves@.len() == 0
    &&& s.reward_owner is None
    &&& s.reward_until_ms == 0
    &&& s.target is None
}

fn fresh_kirin() -> (s: KirinSnowState)
    ensures
        spec_fresh_kirin(s),
{
    KirinSnowState {
        sequence: 0,
        action_ms: 0,
        hits: Vec::new(),
        entity_hits: Vec::new(),
        entity_target: None,
        death_lives: Vec::new(),
        death_ms: None,
        death_finished: false,
        excluded_lives: Vec::new(),
        spawned: false,
        slaves: Vec::new(),
        reward_owner: None,
        reward_until_ms: 0,
        target: None,
    }
}

/// Gives KirinSnow or a wolf its state if it has none.
pub fn initialize_kirin_snow(m: &mut NativeMonster)
    ensures
        !spec_is_kirin_family(old(m).ai) || old(m).special.kirin_snow is Some ==> *final(m) == *old(m),
        spec_is_kirin_family(old(m).ai) && old(m).special.kirin_snow is None ==> (final(m).special.kirin_snow matches Some(s)
            && spec_fresh_kirin(s)) && *final(m) == (NativeMonster {
            special: SpecialAi { kirin_snow: final(m).special.kirin_snow, ..old(m).special },
            ..*old(m)
        }),
{
    if (m.ai == 180 || m.ai == 186) && m.special.kirin_snow.is_none() {
        m.special.kirin_snow = Some(fresh_kirin());
    }
}

/// A KirinSnow state after a hit by `owner` at `now`: only the reward claim
/// changes.
pub open spec fn spec_kirin_hit(a: KirinSnowState, b: KirinSnowState, owner: Seq<char>, now: u64) -> bool {
    &&& (KirinSnowState { reward_owner: None, reward_until_ms: 0, ..b }) == (KirinSnowState {
        reward_owner: None,
        reward_until_ms: 0,
        ..a
    })
    &&& opt_session_view(b.reward_owner) == spec_tag_owner(opt_session_view(a.reward_owner), a.reward_until_ms, owner, now)
    &&& b.reward_until_ms == spec_tag_until(opt_session_view(a.reward_owner), a.reward_until_ms, owner, now)
}

/// A hit on KirinSnow itself by `owner` at `now` tags its kill reward.
pub fn kirin_snow_tag(m: &mut NativeMonster, owner: Option<&SessionId>, now: u64)
    ensures
        old(m).ai != 180 ==> *final(m) == *old(m),
        old(m).ai == 180 ==> (final(m).special.kirin_snow matches Some(t) && match owner {
            None => match old(m).special.kirin_snow {
                Some(s) => t == s,
                None => spec_fresh_kirin(t),
            },
            Some(o) => match old(m).special.kirin_snow {
                Some(s) => spec_kirin_hit(s, t, o@, now),
                None => exists|f: KirinSnowState| spec_fresh_kirin(f) && spec_kirin_hit(f, t, o@, now),
            },
        }),
        old(m).ai == 180 ==> *final(m) == (NativeMonster {
            special: SpecialAi { kirin_snow: final(m).special.kirin_snow, ..old(m).special },
            ..*old(m)
        }),
{
    if m.ai != 180 {
        return;
    }
    initialize_kirin_snow(m);
    match owner {
        Some(o) => match m.special.kirin_snow.take() {
            Some(mut s) => {
                let ghost f = s;
                tag_reward_owner(&mut s.reward_owner, &mut s.reward_until_ms, o, now);
                m.special.kirin_snow = Some(s);
            },
            None => {},
        },
        None => {},
    }
}

/// The value KirinSnow's stream gives for draw number `sequence` of monster
/// `id` at `now`.
pub open spec fn spec_counter_draw(now: u64, id: u32, sequence: u64) -> u64 {
    spec_mix(now ^ (id as u64) ^ sequence.wrapping_mul(GOLDEN))
}

/// The next KirinSnow roll in `0..max(n, 1)`: the draw counter advances and
/// the finalized value of clock, id and counter is reduced.
pub fn roll(s: &mut KirinSnowState, id: u32, now: u64, n: u64) -> (r: u64)
    ensures
        final(s).sequence == old(s).sequence.wrapping_add(1),
        r == spec_counter_draw(now, id, final(s).sequence) % spec_at_least_one(n),
        *final(s) == (KirinSnowState { sequence: final(s).sequence, ..*old(s) }),
{
    s.sequence = s.sequence.wrapping_add(1);
    let x = now ^ (id as u64) ^ s.sequence.wrapping_mul(GOLDEN);
    let a = (x ^ (x >> 30u64)).wrapping_mul(MIX_MUL_A);
    let b = (a ^ (a >> 27u64)).wrapping_mul(MIX_MUL_B);
    let n1 = if n == 0 { 1 } else { n };
    (b ^ (b >> 31u64)) % n1
}

/// Player hits not aimed at `target`.
pub open spec fn spec_player_hit_keeps(target: u32) -> spec_fn(PlayerHitRecord) -> bool {
    |h: PlayerHitRecord| h.target_object_id != target
}

/// Entity hits not aimed at any life of `target`.
pub open spec fn spec_entity_hit_keeps(target: u32) -> spec_fn(EntityHitRecord) -> bool {
    |h: EntityHitRecord| h.target@.object_id() != target
}

/// A KirinSnow state after the life `target` is retired.
pub open spec fn spec_kirin_snow_state_cleared(
    a: KirinSnowState,
    b: KirinSnowState,
    target: u32,
    players: Seq<ZonePlayer>,
) -> bool {
    &&& b.hits@ == a.hits@.filter(spec_player_hit_keeps(target))
    &&& b.entity_hits@ == a.entity_hits@.filter(spec_entity_hit_keeps(target))
    &&& b.entity_target == (match a.entity_target {
        Some(r) => if r@.object_id() == target { None } else { Some(r) },
        None => None,
    })
    &&& b.target == (if a.target == Some(target) { None } else { a.target })
    &&& b.excluded_lives@ == (if a.death_ms is Some && !a.death_finished {
        spec_set_insert(a.excluded_lives@, target)
    } else {
        a.excluded_lives@
    })
    &&& b.reward_owner == (if spec_owner_gone(a.reward_owner, players, target) {
        None
    } else {
        a.reward_owner
    })
    &&& b == (KirinSnowState {
        hits: b.hits,
        entity_hits: b.entity_hits,
        entity_target: b.entity_target,
        target: b.target,
        excluded_lives: b.excluded_lives,
        reward_owner: b.reward_owner,
        ..a
    })
}

fn clear_kirin_snow_state(s: &mut KirinSnowState, target: u32, players: &Vec<ZonePlayer>)
    ensures
        spec_kirin_snow_state_cleared(*old(s), *final(s), target, players@),
{
    let ghost k1 = spec_player_hit_keeps(target);
    retain_by(
        &mut s.hits,
        (|h: &PlayerHitRecord| -> (k: bool)
            ensures
                k == (h.target_object_id != target),
            { h.target_object_id != target }),
        Ghost(k1),
    );
    let ghost k2 = spec_entity_hit_keeps(target);
    retain_by(
        &mut s.entity_hits,
        (|h: &EntityHitRecord| -> (k: bool)
            ensures
                k == (h.target@.object_id() != target),
            { h.target.object_id() != target }),
        Ghost(k2),
    );
    let drop_entity = match &s.entity_target {
        Some(r) => r.object_id() == target,
        None => false,
    };
    if drop_entity {
        s.entity_target = None;
    }
    if s.target == Some(target) {
        s.target = None;
    }
    if s.death_ms.is_some() && !s.death_finished {
        insert_unique(&mut s.excluded_lives, target);
    }
    let gone = match &s.reward_owner {
        Some(o) => match find_player(players, o) {
            Some(p) => players[p].object_id == target,
            None => true,
        },
        None => false,
    };
    if gone {
        s.reward_owner = None;
    }
}

/// A monster after the sweep of `clear_kirin_snow_target_life`: its kirin_snow state (if any)
/// cleared, nothing else changed.
pub open spec fn spec_kirin_snow_monster_cleared(a: NativeMonster, b: NativeMonster, id: u32, players: Seq<ZonePlayer>) -> bool {
    match a.special.kirin_snow {
        Some(s) => b.special.kirin_snow matches Some(t) && spec_kirin_snow_state_cleared(s, t, id, players) && b
            == (NativeMonster { special: SpecialAi { kirin_snow: b.special.kirin_snow, ..a.special }, ..a }),
        None => b == a,
    }
}

fn clear_kirin_snow_monster(m: &mut NativeMonster, id: u32, players: &Vec<ZonePlayer>)
    ensures
        spec_kirin_snow_monster_cleared(*old(m), *final(m), id, players@),
{
    match m.special.kirin_snow.take() {
        Some(mut s) => {
            clear_kirin_snow_state(&mut s, id, players);
            m.special.kirin_snow = Some(s);
        },
        None => {},
    }
}

impl ZoneRuntime {
    /// The life `target` leaves, dies or revives: every KirinSnow forgets its
    /// hits and aim on that life and a reward its session held, and a pending
    /// death blast spares it.
    pub fn clear_kirin_snow_target_life(&mut self, id: u32)
        ensures
            *final(self) == (ZoneRuntime { native_monsters: final(self).native_monsters, ..*old(self) }),
            final(self).native_monsters@.len() == old(self).native_monsters@.len(),
            forall|k: int|
                0 <= k < old(self).native_monsters@.len() ==> spec_kirin_snow_monster_cleared(
                    old(self).native_monsters@[k],
                    #[trigger] final(self).native_monsters@[k],
                    id, old(self).players@,
                ),
    {
        let ghost before = self.native_monsters@;
        let mut i: usize = 0;
        while i < self.native_monsters.len()
            invariant
                *self == (ZoneRuntime { native_monsters: self.native_monsters, ..*old(self) }),
                before == old(self).native_monsters@,
                self.native_monsters@.len() == before.len(),
                0 <= i <= before.len(),
                forall|k: int|
                    0 <= k < i ==> spec_kirin_snow_monster_cleared(before[k], #[trigger] self.native_monsters@[k], id, old(self).players@),
                forall|k: int| i <= k < before.len() ==> #[trigger] self.native_monsters@[k] == before[k],
            decreases before.len() - i,
        {
            let mut m = self.native_monsters.remove(i);
            clear_kirin_snow_monster(&mut m, id, &self.players);
            self.native_monsters.insert(i, m);
            i += 1;
        }
    }
}

/// The references of every current player life, then every monster life.
pub open spec fn spec_all_lives(players: Seq<ZonePlayer>, monsters: Seq<NativeMonster>) -> Seq<EntityRefView> {
    players.map_values(
        |p: ZonePlayer|
            EntityRefView::Player {
                session: p.session_id@,
                object_id: p.object_id,
                life_generation: p.life_generation,
            },
    ) + monsters.map_values(
        |m: NativeMonster| EntityRefView::Monster { object_id: m.object_id, incarnation: m.incarnation },
    )
}

/// The views of a list of references.
pub open spec fn spec_ref_views(refs: Seq<EntityRef>) -> Seq<EntityRefView> {
    refs.map_values(|r: EntityRef| r@)
}

fn all_lives(players: &Vec<ZonePlayer>, monsters: &Vec<NativeMonster>) -> (r: Vec<EntityRef>)
    ensures
        spec_ref_views(r@) == spec_all_lives(players@, monsters@),
{
    let mut out: Vec<EntityRef> = Vec::new();
    let mut i: usize = 0;
    while i < players.len()
        invariant
            0 <= i <= players@.len(),
            spec_ref_views(out@) == spec_all_lives(players@.subrange(0, i as int), Seq::empty()),
        decreases players@.len() - i,
    {
        let ghost before = out@;
        out.push(
            EntityRef::Player {
                session_id: players[i].session_id.duplicate(),
                object_id: players[i].object_id,
                life_generation: players[i].life_generation,
            },
        );
        assert(players@.subrange(0, i + 1) == players@.subrange(0, i as int).push(players@[i as int]));
        assert(spec_ref_views(out@) =~= spec_ref_views(before).push(out@[i as int]@));
        assert(spec_all_lives(players@.subrange(0, i + 1), Seq::empty()) =~= spec_all_lives(
            players@.subrange(0, i as int),
            Seq::empty(),
        ).push(out@[i as int]@));
        i += 1;
    }
    assert(players@.subrange(0, players@.len() as int) == players@);
    let mut j: usize = 0;
    while j < monsters.len()
        invariant
            0 <= j <= monsters@.len(),
            spec_ref_views(out@) == spec_all_lives(players@, monsters@.subrange(0, j as int)),
        decreases monsters@.len() - j,
    {
        let ghost before = out@;
        out.push(EntityRef::Monster { object_id: monsters[j].object_id, incarnation: monsters[j].incarnation });
        assert(monsters@.subrange(0, j + 1) == monsters@.subrange(0, j as int).push(monsters@[j as int]));
        assert(spec_ref_views(out@) =~= spec_ref_views(before).push(out@[before.len() as int]@));
        assert(spec_all_lives(players@, monsters@.subrange(0, j + 1)) =~= spec_all_lives(
            players@,
            monsters@.subrange(0, j as int),
        ).push(out@[before.len() as int]@));
        j += 1;
    }
    assert(monsters@.subrange(0, monsters@.len() as int) == monsters@);
    out
}

/// KirinSnow's state once its death at `now` is recorded: an expired reward
/// is dropped, the lives present at the first report are remembered, and the
/// blast is due half a second after the first report.
pub open spec fn spec_kirin_death_recorded(
    a: KirinSnowState,
    b: KirinSnowState,
    lives: Seq<EntityRefView>,
    now: u64,
) -> bool {
    &&& b.reward_owner == (if now > a.reward_until_ms { None } else { a.reward_owner })
    &&& spec_ref_views(b.death_lives@) == (if a.death_ms is None { lives } else { spec_ref_views(a.death_lives@) })
    &&& b.death_ms == (match a.death_ms {
        Some(d) => Some(d),
        None => Some(now.saturating_add(500)),
    })
    &&& b == (KirinSnowState {
        reward_owner: b.reward_owner,
        death_lives: b.death_lives,
        death_ms: b.death_ms,
        ..a
    })
}

fn record_kirin_death(s: &mut KirinSnowState, lives: Vec<EntityRef>, now: u64)
    ensures
        spec_kirin_death_recorded(*old(s), *final(s), spec_ref_views(lives@), now),
{
    if now > s.reward_until_ms {
        s.reward_owner = None;
    }
    if s.death_ms.is_none() {
        s.death_lives = lives;
        s.death_ms = Some(now.saturating_add(500));
    }
}

impl ZoneRuntime {
    /// KirinSnow `id` died at `now`: its blast is scheduled once, against the
    /// lives present when it first died.
    pub fn kirin_snow_on_death(&mut self, id: u32, now: u64)
        ensures
            match spec_monster_index(old(self).native_monsters@, id) {
                Some(i) => if old(self).native_monsters@[i].ai == 180 {
                    let m0 = old(self).native_monsters@[i];
                    let m1 = final(self).native_monsters@[i];
                    &&& final(self).native_monsters@ == old(self).native_monsters@.update(i, m1)
                    &&& m1.special.kirin_snow matches Some(t) && match m0.special.kirin_snow {
                        Some(s) => spec_kirin_death_recorded(s, t, spec_all_lives(old(self).players@, old(self).native_monsters@), now),
                        None => exists|f: KirinSnowState| spec_fresh_kirin(f) && spec_kirin_death_recorded(
                            f,
                            t,
                            spec_all_lives(old(self).players@, old(self).native_monsters@),
                            now,
                        ),
                    }
                    &&& m1 == (NativeMonster { special: SpecialAi { kirin_snow: m1.special.kirin_snow, ..m0.special }, ..m0 })
                    &&& *final(self) == (ZoneRuntime { native_monsters: final(self).native_monsters, ..*old(self) })
                } else {
                    *final(self) == *old(self)
                },
                None => *final(self) == *old(self),
            },
    {
        let lives = all_lives(&self.players, &self.native_monsters);
        let i = match find_monster(&self.native_monsters, id) {
            Some(i) => i,
            None => {
                return;
            },
        };
        if self.native_monsters[i].ai != 180 {
            return;
        }
        let ghost m0 = self.native_monsters@;
        let mut m = self.native_monsters.remove(i);
        initialize_kirin_snow(&mut m);
        match m.special.kirin_snow.take() {
            Some(mut s) => {
                let ghost f = s;
                record_kirin_death(&mut s, lives, now);
                m.special.kirin_snow = Some(s);
            },
            None => {},
        }
        self.native_monsters.insert(i, m);
        assert(self.native_monsters@ == m0.update(i as int, self.native_monsters@[i as int]));
    }

    /// Whether KirinSnow `id` has a death blast that has not finished.
    pub fn native_monster_has_pending_kirin_snow_death(&self, id: u32) -> (r: bool)
        ensures
            r == (spec_monster_index(self.native_monsters@, id) matches Some(i)
                && self.native_monsters@[i].special.kirin_snow matches Some(s) && s.death_ms is Some
                && !s.death_finished),
    {
        match find_monster(&self.native_monsters, id) {
            Some(i) => match &self.native_monsters[i].special.kirin_snow {
                Some(s) => s.death_ms.is_some() && !s.death_finished,
                None => false,
            },
            None => false,
        }
    }

    /// The minimum DC of a target life, which a wolf compares when choosing
    /// a weaker target: a player's DC with its buffs, a monster's template DC
    /// with its buffs (saturating); nothing for an absent entity or a monster
    /// without a template.
    pub fn kirin_snow_target_min_dc(&self, target: &EntityRef) -> (r: Option<i32>)
        ensures
            r == (match target@ {
                EntityRefView::Player { session, .. } => match spec_player_index(self.players@, session) {
                    Some(p) => Some(spec_clamp_i32(self.players@[p].min_dc + self.players@[p].buff_min_dc) as i32),
                    None => None,
                },
                EntityRefView::Monster { object_id, .. } => match spec_monster_index(self.native_monsters@, object_id) {
                    Some(k) => match self.native_monsters@[k].template {
                        Some(t) => Some(spec_clamp_i32(t.min_dc + spec_clamp_i32(spec_buff_stat_total(self.native_monsters@[k].buffs@, STAT_MIN_DC))) as i32),
                        None => None,
                    },
                    None => None,
                },
            }),
    {
        match target {
            EntityRef::Player { session_id, .. } => match find_player(&self.players, session_id) {
                Some(p) => Some(sat_add_i32(self.players[p].min_dc, self.players[p].buff_min_dc)),
                None => None,
            },
            EntityRef::Monster { object_id, .. } => match find_monster(&self.native_monsters, *object_id) {
                Some(k) => match &self.native_monsters[k].template {
                    Some(t) => Some(sat_add_i32(t.min_dc, buff_stat_total(&self.native_monsters[k], STAT_MIN_DC))),
                    None => None,
                },
                None => None,
            },
        }
    }
}

/// Whether a Kirin (AI 180) or snow wolf (AI 186) reaches a target `dx`
/// columns and `dy` rows away with its melee: the Kirin next to it; a wolf
/// one or two tiles away, along a straight or diagonal line or on a tile of
/// the same colour.
pub open spec fn spec_kirin_melee(ai: u8, dx: int, dy: int) -> bool {
    let d = if dx >= dy { dx } else { dy };
    if ai == 180 {
        d <= 1
    } else {
        d <= 2 && d > 0 && (d <= 1 || dx == dy || dx % 2 == dy % 2)
    }
}

/// The absolute difference of two coordinates.
pub open spec fn spec_coord_gap(a: i32, b: i32) -> int {
    if a >= b {
        a - b
    } else {
        b - a
    }
}

/// Whether KirinSnow monster of AI `ai` at `from` reaches a target at `to`
/// with its melee (see [`spec_kirin_melee`]).
pub fn kirin_melee_reach(ai: u8, from: &Point, to: &Point) -> (r: bool)
    requires
        i32::MIN < to.x - from.x <= i32::MAX,
        i32::MIN < to.y - from.y <= i32::MAX,
    ensures
        r == spec_kirin_melee(ai, spec_coord_gap(to.x, from.x), spec_coord_gap(to.y, from.y)),
{
    let dx: i64 = if to.x >= from.x { to.x as i64 - from.x as i64 } else { from.x as i64 - to.x as i64 };
    let dy: i64 = if to.y >= from.y { to.y as i64 - from.y as i64 } else { from.y as i64 - to.y as i64 };
    let d = if dx >= dy { dx } else { dy };
    if ai == 180 {
        d <= 1
    } else {
        d <= 2 && d > 0 && (d <= 1 || dx == dy || dx % 2 == dy % 2)
    }
}

/// A monster's health in percent: `hp` times 100 (saturating), divided by
/// its maximum (at least 1), rounded toward zero.
pub open spec fn spec_health_percent(hp: i32, max_hp: i32) -> int {
    spec_div_toward_zero(spec_clamp_i32(hp * 100), if max_hp >= 1 { max_hp as int } else { 1 })
}

/// The attack a KirinSnow monster of AI `ai` makes: a ranged shot is type 2;
/// a Kirin usually strikes plainly (two rolls in three) and otherwise by how
/// hurt it is (type 1 from 60%, 2 from 30%, else 3); a wolf strikes hard
/// one roll in five.
pub fn kirin_attack_type(s: &mut KirinSnowState, id: u32, now: u64, ai: u8, ranged: bool, hp: i32, max_hp: i32) -> (r: u8)
    ensures
        ranged ==> r == 2 && *final(s) == *old(s),
        !ranged ==> final(s).sequence == old(s).sequence.wrapping_add(1) && *final(s) == (KirinSnowState {
            sequence: final(s).sequence,
            ..*old(s)
        }),
        !ranged && ai == 180 ==> r == (if spec_counter_draw(now, id, final(s).sequence) % 3 > 0 {
            0u8
        } else if spec_health_percent(hp, max_hp) >= 60 {
            1u8
        } else if spec_health_percent(hp, max_hp) >= 30 {
            2u8
        } else {
            3u8
        }),
        !ranged && ai != 180 ==> r == (if spec_counter_draw(now, id, final(s).sequence) % 5 == 0 {
            1u8
        } else {
            0u8
        }),
{
    if ranged {
        return 2;
    }
    if ai == 180 {
        if roll(s, id, now, 3) > 0 {
            return 0;
        }
        let p: i64 = hp as i64 * 100;
        let v: i64 = if p > i32::MAX as i64 {
            i32::MAX as i64
        } else if p < i32::MIN as i64 {
            i32::MIN as i64
        } else {
            p
        };
        let mh: i64 = if max_hp >= 1 { max_hp as i64 } else { 1 };
        let pct: i64 = if v >= 0 { v / mh } else { -((-v) / mh) };
        if pct >= 60 {
            1
        } else if pct >= 30 {
            2
        } else {
            3
        }
    } else if roll(s, id, now, 5) == 0 {
        1
    } else {
        0
    }
}

/// Whether the death blast of a KirinSnow with state `s` spares the life
/// `target` (object `object_id`): a life it excluded, or a later life of an
/// object whose life at its death the blast was meant for.
pub open spec fn spec_kirin_spares(s: KirinSnowState, target: EntityRefView, object_id: u32) -> bool {
    s.excluded_lives@.contains(object_id) || exists|k: int|
        0 <= k < s.death_lives@.len() && (#[trigger] s.death_lives@[k])@.object_id() == object_id
            && s.death_lives@[k]@ != target
}

/// The lives the death blast of a KirinSnow with state `s` strikes among
/// `targets`, in order.
pub open spec fn spec_kirin_blast(s: KirinSnowState, targets: Seq<NativeEntityTarget>) -> Seq<EntityRefView>
    decreases targets.len(),
{
    if targets.len() == 0 {
        Seq::empty()
    } else {
        let rest = spec_kirin_blast(s, targets.drop_last());
        let t = targets.last();
        if spec_kirin_spares(s, t.reference@, t.object_id) {
            rest
        } else {
            rest.push(t.reference@)
        }
    }
}

/// What falls due for a KirinSnow at one delay tick.
pub struct KirinDelays {
    /// Its entity hits due by now, in order.
    pub entity_hits: Vec<EntityHitRecord>,
    /// Its player hits due by now, in order.
    pub hits: Vec<PlayerHitRecord>,
    /// When its death blast goes off now: the raw roll its damage is drawn
    /// from, and the lives it strikes (each against magic defence).
    pub blast: Option<(u64, Vec<EntityRef>)>,
}

/// One delay tick of KirinSnow `id` (state `s`) at `now`, `targets` being the
/// lives within a tile of it. Its hits due by `now` leave its state, in
/// order. When its death falls due and has not gone off, it goes off: the
/// death is marked finished, one roll (below `u64::MAX`) is drawn for the
/// blast's damage, and the blast strikes each target it does not spare (see
/// [`spec_kirin_spares`]).
pub fn kirin_delay_step(s: &mut KirinSnowState, id: u32, now: u64, targets: &Vec<NativeEntityTarget>) -> (r: KirinDelays)
    ensures
        final(s).entity_hits@ == old(s).entity_hits@.filter(spec_entity_hit_later(now)),
        r.entity_hits@ == old(s).entity_hits@.filter(spec_not(spec_entity_hit_later(now))),
        final(s).hits@ == old(s).hits@.filter(spec_player_hit_later(now)),
        r.hits@ == old(s).hits@.filter(spec_not(spec_player_hit_later(now))),
        ({
            let fires = (old(s).death_ms matches Some(d) && now >= d) && !old(s).death_finished;
            &&& fires ==> final(s).death_finished && final(s).sequence == old(s).sequence.wrapping_add(1)
                && (r.blast matches Some((raw, lives)) && raw == spec_counter_draw(now, id, final(s).sequence) % u64::MAX
                && lives@.map_values(|e: EntityRef| e@) == spec_kirin_blast(*old(s), targets@))
            &&& !fires ==> r.blast is None && final(s).death_finished == old(s).death_finished && final(s).sequence == old(s).sequence
        }),
        *final(s) == (KirinSnowState {
            entity_hits: final(s).entity_hits,
            hits: final(s).hits,
            death_finished: final(s).death_finished,
            sequence: final(s).sequence,
            ..*old(s)
        }),
{
    let mut entity_hits: Vec<EntityHitRecord> = Vec::new();
    std::mem::swap(&mut entity_hits, &mut s.entity_hits);
    let (stay, due_entity) = partition_by(
        entity_hits,
        (|h: &EntityHitRecord| -> (r: bool)
            ensures
                r == (now < h.due_ms),
            { now < h.due_ms }),
        Ghost(spec_entity_hit_later(now)),
    );
    s.entity_hits = stay;
    let mut hits: Vec<PlayerHitRecord> = Vec::new();
    std::mem::swap(&mut hits, &mut s.hits);
    let (stay, due_players) = partition_by(
        hits,
        (|h: &PlayerHitRecord| -> (r: bool)
            ensures
                r == (now < h.due_ms),
            { now < h.due_ms }),
        Ghost(spec_player_hit_later(now)),
    );
    s.hits = stay;
    let fires = match s.death_ms {
        Some(d) => now >= d,
        None => false,
    } && !s.death_finished;
    if !fires {
        return KirinDelays { entity_hits: due_entity, hits: due_players, blast: None };
    }
    s.death_finished = true;
    let raw = roll(s, id, now, u64::MAX);
    let ghost s1 = *s;
    let mut lives: Vec<EntityRef> = Vec::new();
    let mut k: usize = 0;
    while k < targets.len()
        invariant
            0 <= k <= targets@.len(),
            *s == s1,
            s1.excluded_lives@ == old(s).excluded_lives@,
            s1.death_lives@ == old(s).death_lives@,
            lives@.map_values(|e: EntityRef| e@) == spec_kirin_blast(*old(s), targets@.take(k as int)),
        decreases targets@.len() - k,
    {
        assert(targets@.take(k as int + 1).drop_last() =~= targets@.take(k as int));
        let t = &targets[k];
        let mut spared = contains_u32(&s.excluded_lives, t.object_id);
        let mut j: usize = 0;
        while j < s.death_lives.len()
            invariant
                0 <= j <= s.death_lives@.len(),
                *s == s1,
                s1.death_lives@ == old(s).death_lives@,
                spared == (s1.excluded_lives@.contains(t.object_id) || exists|q: int|
                    0 <= q < j && (#[trigger] s1.death_lives@[q])@.object_id() == t.object_id
                        && s1.death_lives@[q]@ != t.reference@),
            decreases s.death_lives@.len() - j,
        {
            if s.death_lives[j].object_id() == t.object_id && !s.death_lives[j].same(&t.reference) {
                spared = true;
            }
            j += 1;
        }
        assert(spared == spec_kirin_spares(*old(s), t.reference@, t.object_id));
        let ghost before = lives@;
        if !spared {
            lives.push(t.reference.duplicate());
            assert(lives@.map_values(|e: EntityRef| e@) =~= before.map_values(|e: EntityRef| e@).push(t.reference@));
        }
        k += 1;
    }
    assert(targets@.take(k as int) =~= targets@);
    KirinDelays { entity_hits: due_entity, hits: due_players, blast: Some((raw, lives)) }
}

} // verus!
