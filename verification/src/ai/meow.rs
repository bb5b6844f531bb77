//! Meow (AI 123): its first summon clock, its counter-driven random stream
//! and the delayed hits it forgets when a target life is retired.
use vstd::prelude::*;
use crate::monster::{EntityHitRecord, MeowState, MeowThunder, NativeMonster, PlayerHitRecord, SpecialAi, spec_clamp_i32};
use crate::entity::EntityDefence;
use crate::ai::revival::spec_div_toward_zero;
use crate::arith::sat_add_i32;
use crate::zone::ZoneRuntime;
use crate::types::{spec_tile_distance, tile_distance, Point, SessionId};
use crate::monster::ZonePlayer;
use crate::guild::{guild_friend, spec_guild_friend};
use crate::ai::hugger::spec_at_least_one;
use crate::ai::kirin::{spec_counter_draw, spec_entity_hit_keeps, spec_player_hit_keeps};
use crate::rng::{GOLDEN, MIX_MUL_A, MIX_MUL_B};
use crate::seqs::{partition_by, retain_by, spec_not};

verus! {

/// A Meow state as it starts at `now`: its first summon a minute out.
pub open spec fn spec_fresh_meow(s: MeowState, now: u64) -> bool {
    &&& s.spawn_ms == now.saturating_add(60000)
    &&& s.thunder_ms == 0
    &&& s.action_ms == 0
    &&& s.sequence == 0
    &&& s.slaves@.len() == 0
    &&& s.hits@.len() == 0
    &&& s.entity_hits@.len() == 0
    &&& s.thunder@.len() == 0
}

/// Gives a Meow its state if it has none.
pub fn initialize_meow(m: &mut NativeMonster, now: u64)
    ensures
        old(m).ai != 123 || old(m).special.meow is Some ==> *final(m) == *old(m),
        old(m).ai == 123 && old(m).special.meow is None ==> (final(m).special.meow matches Some(s)
            && spec_fresh_meow(s, now)) && *final(m) == (NativeMonster {
            special: SpecialAi { meow: final(m).special.meow, ..old(m).special },
            ..*old(m)
        }),
{
    if m.ai == 123 && m.special.meow.is_none() {
        m.special.meow = Some(
            MeowState {
                spawn_ms: now.saturating_add(60000),
                thunder_ms: 0,
                action_ms: 0,
                sequence: 0,
                slaves: Vec::new(),
                hits: Vec::new(),
                entity_hits: Vec::new(),
                thunder: Vec::new(),
            },
        );
    }
}

/// The next Meow roll in `0..max(n, 1)`: the draw counter advances and the
/// finalized value of clock, id and counter is reduced.
pub fn meow_roll(s: &mut MeowState, id: u32, now: u64, n: u64) -> (r: u64)
    ensures
        final(s).sequence == old(s).sequence.wrapping_add(1),
        r == spec_counter_draw(now, id, final(s).sequence) % spec_at_least_one(n),
        *final(s) == (MeowState { sequence: final(s).sequence, ..*old(s) }),
{
    s.sequence = s.sequence.wrapping_add(1);
    let x = now ^ (id as u64) ^ s.sequence.wrapping_mul(GOLDEN);
    let a = (x ^ (x >> 30u64)).wrapping_mul(MIX_MUL_A);
    let b = (a ^ (a >> 27u64)).wrapping_mul(MIX_MUL_B);
    let n1 = if n == 0 { 1 } else { n };
    (b ^ (b >> 31u64)) % n1
}

/// A Meow state after the life `target` is retired: its hits on it dropped.
pub open spec fn spec_meow_state_cleared(a: MeowState, b: MeowState, target: u32) -> bool {
    &&& b.hits@ == a.hits@.filter(spec_player_hit_keeps(target))
    &&& b.entity_hits@ == a.entity_hits@.filter(spec_entity_hit_keeps(target))
    &&& b == (MeowState { hits: b.hits, entity_hits: b.entity_hits, ..a })
}

fn clear_meow_state(s: &mut MeowState, target: u32)
    ensures
        spec_meow_state_cleared(*old(s), *final(s), target),
{
    let ghost k1 = spec_player_hit_keeps(target);
    retain_by(
        &mut s.hits,
        (|h: &PlayerHitRecord| -> (k: bool)
            ensures
                k == (h.target_object_id != target),
            { h.target_object_id != target }),
        Ghost(k1),
    );
    let ghost k2 = spec_entity_hit_keeps(target);
    retain_by(
        &mut s.entity_hits,
        (|h: &EntityHitRecord| -> (k: bool)
            ensures
                k == (h.target@.object_id() != target),
            { h.target.object_id() != target }),
        Ghost(k2),
    );
}

/// A monster after the sweep of `clear_meow_target_life`: its meow state (if any)
/// cleared, nothing else changed.
pub open spec fn spec_meow_monster_cleared(a: NativeMonster, b: NativeMonster, id: u32) -> bool {
    match a.special.meow {
        Some(s) => b.special.meow matches Some(t) && spec_meow_state_cleared(s, t, id) && b
            == (NativeMonster { special: SpecialAi { meow: b.special.meow, ..a.special }, ..a }),
        None => b == a,
    }
}

fn clear_meow_monster(m: &mut NativeMonster, id: u32)
    ensures
        spec_meow_monster_cleared(*old(m), *final(m), id),
{
    match m.special.meow.take() {
        Some(mut s) => {
            clear_meow_state(&mut s, id);
            m.special.meow = Some(s);
        },
        None => {},
    }
}

impl ZoneRuntime {
    /// The life `target` is retired: every Meow forgets its hits on it.
    pub fn clear_meow_target_life(&mut self, id: u32)
        ensures
            *final(self) == (ZoneRuntime { native_monsters: final(self).native_monsters, ..*old(self) }),
            final(self).native_monsters@.len() == old(self).native_monsters@.len(),
            forall|k: int|
                0 <= k < old(self).native_monsters@.len() ==> spec_meow_monster_cleared(
                    old(self).native_monsters@[k],
                    #[trigger] final(self).native_monsters@[k],
                    id,
                ),
    {
        let ghost before = self.native_monsters@;
        let mut i: usize = 0;
        while i < self.native_monsters.len()
            invariant
                *self == (ZoneRuntime { native_monsters: self.native_monsters, ..*old(self) }),
                before == old(self).native_monsters@,
                self.native_monsters@.len() == before.len(),
                0 <= i <= before.len(),
                forall|k: int|
                    0 <= k < i ==> spec_meow_monster_cleared(before[k], #[trigger] self.native_monsters@[k], id),
                forall|k: int| i <= k < before.len() ==> #[trigger] self.native_monsters@[k] == before[k],
            decreases before.len() - i,
        {
            let mut m = self.native_monsters.remove(i);
            clear_meow_monster(&mut m, id);
            self.native_monsters.insert(i, m);
            i += 1;
        }
    }
}

/// A player a monster may turn on, with where it stands.
#[derive(Debug)]
pub struct NativeMonsterTarget {
    pub session_id: SessionId,
    pub object_id: u32,
    pub position: Point,
}

/// The plain value of a player target: session, object id, position.
pub open spec fn spec_monster_target_view(t: NativeMonsterTarget) -> (Seq<char>, u32, Point) {
    (t.session_id@, t.object_id, t.position)
}

/// Whether Meow monster `m` may turn on player `p` from `point`: a living,
/// visible player outside the safe zone, within `range`, not of the
/// monster's friendly guild.
pub open spec fn spec_meow_target(m: NativeMonster, p: ZonePlayer, point: Point, range: i32) -> bool {
    &&& !p.dead
    &&& !p.hidden
    &&& !p.in_safe_zone
    &&& spec_tile_distance(p.position, point) <= range
    &&& !spec_guild_friend(m.friendly_guild, p.guild_name)
}

/// The players among the first `n` of `players` that `m` may turn on, in
/// player order.
pub open spec fn spec_meow_targets(players: Seq<ZonePlayer>, m: NativeMonster, point: Point, range: i32, n: int) -> Seq<
    (Seq<char>, u32, Point),
>
    decreases n,
{
    if n <= 0 {
        Seq::empty()
    } else {
        let prev = spec_meow_targets(players, m, point, range, n - 1);
        let p = players[n - 1];
        if spec_meow_target(m, p, point, range) {
            prev.push((p.session_id@, p.object_id, p.position))
        } else {
            prev
        }
    }
}

impl ZoneRuntime {
    /// The players Meow monster `m` may turn on from `point` (see
    /// [`spec_meow_target`]), in player order.
    pub fn meow_targets(&self, m: &NativeMonster, point: &Point, range: i32) -> (r: Vec<NativeMonsterTarget>)
        ensures
            r@.map_values(|t: NativeMonsterTarget| spec_monster_target_view(t)) == spec_meow_targets(
                self.players@,
                *m,
                *point,
                range,
                self.players@.len() as int,
            ),
    {
        let mut out: Vec<NativeMonsterTarget> = Vec::new();
        let mut i: usize = 0;
        while i < self.players.len()
            invariant
                0 <= i <= self.players@.len(),
                out@.map_values(|t: NativeMonsterTarget| spec_monster_target_view(t)) == spec_meow_targets(
                    self.players@,
                    *m,
                    *point,
                    range,
                    i as int,
                ),
            decreases self.players@.len() - i,
        {
            let p = &self.players[i];
            if !p.dead && !p.hidden && !p.in_safe_zone && tile_distance(&p.position, point) <= range as i64
                && !guild_friend(&m.friendly_guild, &p.guild_name) {
                let ghost before = out@;
                out.push(NativeMonsterTarget { session_id: p.session_id.duplicate(), object_id: p.object_id, position: p.position });
                proof {
                    assert(out@.map_values(|t: NativeMonsterTarget| spec_monster_target_view(t)) =~= before.map_values(
                        |t: NativeMonsterTarget| spec_monster_target_view(t),
                    ).push((p.session_id@, p.object_id, p.position)));
                }
            }
            i += 1;
        }
        out
    }
}

/// Whether a Meow at `hp` of `max_hp` is in one of its rage bands: 70 to
/// 80%, 40 to 50% or at most 20% of its health, the percentage saturating
/// and then truncated toward zero, a maximum below one read as one.
pub open spec fn spec_meow_enraged(hp: i32, max_hp: i32) -> bool {
    let p = spec_div_toward_zero(spec_clamp_i32(hp * 100), if max_hp >= 1 { max_hp as int } else { 1 });
    (70 <= p <= 80) || (40 <= p <= 50) || p <= 20
}

/// Whether a Meow is in a rage band (see [`spec_meow_enraged`]); in one it
/// hardens itself and may call down thunder.
pub fn meow_enraged(hp: i32, max_hp: i32) -> (r: bool)
    ensures
        r == spec_meow_enraged(hp, max_hp),
{
    let p: i64 = hp as i64 * 100;
    let v: i64 = if p > i32::MAX as i64 {
        i32::MAX as i64
    } else if p < i32::MIN as i64 {
        i32::MIN as i64
    } else {
        p
    };
    let mh: i64 = if max_hp >= 1 { max_hp as i64 } else { 1 };
    let pct: i64 = if v >= 0 { v / mh } else { -((-v) / mh) };
    (70 <= pct && pct <= 80) || (40 <= pct && pct <= 50) || pct <= 20
}

/// How a Meow strikes its target.
#[derive(Debug, Clone, Copy, PartialEq, Eq, Structural)]
pub struct MeowStrike {
    /// A magic bolt from afar rather than a blow.
    pub ranged: bool,
    /// A blow that lands threefold.
    pub slam: bool,
    /// The defence the hit is rolled against.
    pub defence: EntityDefence,
}

/// The strike of Meow `id` (state `s`) at `from` on a target at `to` at
/// `now`, and its state after: a target on its own tile or more than two
/// tiles away takes a bolt against magic defence and agility; a nearer one
/// a blow, a slam against armour alone on one roll in nine, otherwise
/// against armour and agility.
pub open spec fn spec_meow_strike(s: MeowState, id: u32, now: u64, from: Point, to: Point) -> (MeowState, MeowStrike) {
    if from == to || spec_tile_distance(from, to) > 2 {
        (s, MeowStrike { ranged: true, slam: false, defence: EntityDefence::MACAgility })
    } else {
        let seq = s.sequence.wrapping_add(1);
        let slam = spec_counter_draw(now, id, seq) % 9 == 0;
        (MeowState { sequence: seq, ..s }, MeowStrike {
            ranged: false,
            slam,
            defence: if slam { EntityDefence::AC } else { EntityDefence::ACAgility },
        })
    }
}

/// The strike of a Meow (see [`spec_meow_strike`]).
pub fn meow_strike(s: &mut MeowState, id: u32, now: u64, from: &Point, to: &Point) -> (r: MeowStrike)
    ensures
        (*final(s), r) == spec_meow_strike(*old(s), id, now, *from, *to),
{
    if *from == *to || tile_distance(from, to) > 2 {
        return MeowStrike { ranged: true, slam: false, defence: EntityDefence::MACAgility };
    }
    let slam = meow_roll(s, id, now, 9) == 0;
    MeowStrike { ranged: false, slam, defence: if slam { EntityDefence::AC } else { EntityDefence::ACAgility } }
}

/// The Meow draw counter `n` draws after `sequence`.
pub open spec fn spec_sequence_after(sequence: u64, n: nat) -> u64
    decreases n,
{
    if n == 0 {
        sequence
    } else {
        spec_sequence_after(sequence, (n - 1) as nat).wrapping_add(1)
    }
}

/// The strength of the `j`-th thunderbolt cast with the counter at
/// `sequence`: `min_mc` plus a roll below the spread up to `max_mc` when
/// there is one (the roll read as a 32-bit value, the sum saturating).
pub open spec fn spec_thunder_value(sequence: u64, j: nat, id: u32, now: u64, min_mc: i32, max_mc: i32) -> i32 {
    if max_mc > min_mc {
        let roll = spec_counter_draw(now, id, spec_sequence_after(sequence, j + 1)) % ((max_mc - min_mc) as u64);
        spec_clamp_i32(min_mc + (roll as i32)) as i32
    } else {
        min_mc
    }
}

/// The thunderbolts cast at `now` on `points` with the counter at
/// `sequence`: each shows two seconds out, expiring a second out.
pub open spec fn spec_thunders(sequence: u64, id: u32, now: u64, min_mc: i32, max_mc: i32, points: Seq<Point>) -> Seq<MeowThunder> {
    Seq::new(points.len(), |j: int| MeowThunder {
        spawn_ms: now.saturating_add(2000),
        expire_ms: now.saturating_add(1000),
        point: points[j],
        value: spec_thunder_value(sequence, j as nat, id, now, min_mc, max_mc),
    })
}

/// The draws the strengths of `n` thunderbolts take.
pub open spec fn spec_value_draws(n: nat, min_mc: i32, max_mc: i32) -> nat {
    if max_mc > min_mc { n } else { 0 }
}

/// Meow `id` (state `s`, in a rage band) calls down thunder at `now` on the
/// lives at `points` (those it may strike around its target), with magic
/// power from `min_mc` to `max_mc` (the top widened by its buffs). Once its
/// thunder is ready and some life is there, a bolt is laid on each point in
/// order (see [`spec_thunders`]) and the next thunder waits for the larger
/// of a roll below two seconds and one below four. Otherwise nothing
/// changes.
pub fn meow_thunder(s: &mut MeowState, id: u32, now: u64, min_mc: i32, max_mc: i32, points: &Vec<Point>)
    ensures
        !(now > old(s).thunder_ms && points@.len() > 0) ==> *final(s) == *old(s),
        now > old(s).thunder_ms && points@.len() > 0 ==> {
            let c = spec_value_draws(points@.len(), min_mc, max_mc);
            let a = spec_counter_draw(now, id, spec_sequence_after(old(s).sequence, c + 1)) % 2000;
            let b = spec_counter_draw(now, id, spec_sequence_after(old(s).sequence, c + 2)) % 4000;
            &&& final(s).thunder@ == old(s).thunder@ + spec_thunders(old(s).sequence, id, now, min_mc, max_mc, points@)
            &&& final(s).sequence == spec_sequence_after(old(s).sequence, c + 2)
            &&& final(s).thunder_ms == now.saturating_add(if a >= b { a } else { b })
            &&& *final(s) == (MeowState {
                thunder: final(s).thunder,
                sequence: final(s).sequence,
                thunder_ms: final(s).thunder_ms,
                ..*old(s)
            })
        },
{
    if !(now > s.thunder_ms && points.len() > 0) {
        return;
    }
    let ghost s0 = *s;
    let ghost all = spec_thunders(s0.sequence, id, now, min_mc, max_mc, points@);
    let mut k: usize = 0;
    while k < points.len()
        invariant
            0 <= k <= points@.len(),
            s.thunder@ == s0.thunder@ + all.take(k as int),
            s.sequence == spec_sequence_after(s0.sequence, spec_value_draws(k as nat, min_mc, max_mc)),
            *s == (MeowState { thunder: s.thunder, sequence: s.sequence, ..s0 }),
            all == spec_thunders(s0.sequence, id, now, min_mc, max_mc, points@),
        decreases points@.len() - k,
    {
        let value = if max_mc > min_mc {
            let roll = meow_roll(s, id, now, (max_mc as i64 - min_mc as i64) as u64);
            sat_add_i32(min_mc, #[verifier::truncate] (roll as i32))
        } else {
            min_mc
        };
        assert(value == spec_thunder_value(s0.sequence, k as nat, id, now, min_mc, max_mc));
        s.thunder.push(MeowThunder {
            spawn_ms: now.saturating_add(2000),
            expire_ms: now.saturating_add(1000),
            point: points[k],
            value,
        });
        assert(all.take(k as int + 1) =~= all.take(k as int).push(all[k as int]));
        k += 1;
    }
    assert(all.take(k as int) =~= all);
    let ghost c = spec_value_draws(points@.len(), min_mc, max_mc);
    let a = meow_roll(s, id, now, 2000);
    assert(s.sequence == spec_sequence_after(s0.sequence, c + 1));
    let b = meow_roll(s, id, now, 4000);
    assert(s.sequence == spec_sequence_after(s0.sequence, c + 2));
    s.thunder_ms = now.saturating_add(if a >= b { a } else { b });
}

/// Whether a Meow entity hit is still to land after `now`.
pub open spec fn spec_entity_hit_later(now: u64) -> spec_fn(EntityHitRecord) -> bool {
    |h: EntityHitRecord| now < h.due_ms
}

/// Whether a Meow player hit is still to land after `now`.
pub open spec fn spec_player_hit_later(now: u64) -> spec_fn(PlayerHitRecord) -> bool {
    |h: PlayerHitRecord| now < h.due_ms
}

/// Whether a Meow thunderbolt is still to spawn after `now`.
pub open spec fn spec_thunder_later(now: u64) -> spec_fn(MeowThunder) -> bool {
    |t: MeowThunder| now < t.spawn_ms
}

/// Whether a spawned thunderbolt shows at `now`: it has expired (the spell
/// is shown and removed at once; it deals no damage of its own).
pub open spec fn spec_thunder_shows(now: u64) -> spec_fn(MeowThunder) -> bool {
    |t: MeowThunder| now > t.expire_ms
}

/// The delayed work of a Meow falling due at `now`: its entity hits and
/// player hits due by `now` leave its state, in order, and so do its
/// thunderbolts spawning by `now`; of those, the ones that show are handed
/// back. The rest stays.
pub fn meow_take_due(s: &mut MeowState, now: u64) -> (r: (Vec<EntityHitRecord>, Vec<PlayerHitRecord>, Vec<MeowThunder>))
    ensures
        final(s).entity_hits@ == old(s).entity_hits@.filter(spec_entity_hit_later(now)),
        r.0@ == old(s).entity_hits@.filter(spec_not(spec_entity_hit_later(now))),
        final(s).hits@ == old(s).hits@.filter(spec_player_hit_later(now)),
        r.1@ == old(s).hits@.filter(spec_not(spec_player_hit_later(now))),
        final(s).thunder@ == old(s).thunder@.filter(spec_thunder_later(now)),
        r.2@ == old(s).thunder@.filter(spec_not(spec_thunder_later(now))).filter(spec_thunder_shows(now)),
        *final(s) == (MeowState { entity_hits: final(s).entity_hits, hits: final(s).hits, thunder: final(s).thunder, ..*old(s) }),
{
    let mut entity_hits: Vec<EntityHitRecord> = Vec::new();
    std::mem::swap(&mut entity_hits, &mut s.entity_hits);
    let (stay, due_entity) = partition_by(
        entity_hits,
        (|h: &EntityHitRecord| -> (r: bool)
            ensures
                r == (now < h.due_ms),
            { now < h.due_ms }),
        Ghost(spec_entity_hit_later(now)),
    );
    s.entity_hits = stay;
    let mut hits: Vec<PlayerHitRecord> = Vec::new();
    std::mem::swap(&mut hits, &mut s.hits);
    let (stay, due_players) = partition_by(
        hits,
        (|h: &PlayerHitRecord| -> (r: bool)
            ensures
                r == (now < h.due_ms),
            { now < h.due_ms }),
        Ghost(spec_player_hit_later(now)),
    );
    s.hits = stay;
    let mut thunder: Vec<MeowThunder> = Vec::new();
    std::mem::swap(&mut thunder, &mut s.thunder);
    let (stay, mut spawned) = partition_by(
        thunder,
        (|t: &MeowThunder| -> (r: bool)
            ensures
                r == (now < t.spawn_ms),
            { now < t.spawn_ms }),
        Ghost(spec_thunder_later(now)),
    );
    s.thunder = stay;
    retain_by(
        &mut spawned,
        (|t: &MeowThunder| -> (r: bool)
            ensures
                r == (now > t.expire_ms),
            { now > t.expire_ms }),
        Ghost(spec_thunder_shows(now)),
    );
    (due_entity, due_players, spawned)
}

} // verus!
