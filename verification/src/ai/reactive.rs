//! Reactive monsters (the foxes and the holy deva): their random stream, the
//! deva's post, and the slows and delayed hits dropped when a life is retired.
use vstd::prelude::*;
use crate::types::{rotated, spec_rotated, spec_tile_distance, tile_distance, Direction, Point};
use crate::monster::{NativeMonster, PendingFoxSlow, ReactiveAiState, SpecialAi};
use crate::zone::{PendingNativePlayerHit, ZoneRuntime};
use crate::rng::{draw_below_seeded, first_acceptance, spec_mix, spec_seeded, state_after};
use crate::seqs::retain_by;

verus! {

/// The seed of a fox stream first used at `now`.
pub open spec fn spec_fox_seed(id: u32, now: u64) -> u64 {
    ((id as u64) << 32u64) ^ now ^ 0xF04C0DEu64
}

/// An unbiased fox roll in `0..upper`.
pub fn fox_roll(s: &mut ReactiveAiState, id: u32, now: u64, upper: u64) -> (r: u64)
    requires
        upper > 0,
    ensures
        exists|k: nat|
            first_acceptance(spec_seeded(old(s).rng_state, spec_fox_seed(id, now)), upper, k)
                && final(s).rng_state == state_after(spec_seeded(old(s).rng_state, spec_fox_seed(id, now)), k),
        r == spec_mix(final(s).rng_state) % upper,
        r < upper,
        *final(s) == (ReactiveAiState { rng_state: final(s).rng_state, ..*old(s) }),
{
    let seed = ((id as u64) << 32u64) ^ now ^ 0xF04C0DEu64;
    assert(seed == spec_fox_seed(id, now));
    let ghost start = spec_seeded(s.rng_state, seed);
    let r = draw_below_seeded(&mut s.rng_state, seed, upper);
    proof {
        let k = choose|k: nat| first_acceptance(start, upper, k) && s.rng_state == state_after(start, k);
        assert(first_acceptance(spec_seeded(old(s).rng_state, spec_fox_seed(id, now)), upper, k));
    }
    r
}

/// The holy deva (AI 38) faces down-left and waits two seconds after
/// spawning before it acts.
pub fn initialize_holy_deva(m: &mut NativeMonster, now: u64)
    ensures
        old(m).ai != 38 ==> *final(m) == *old(m),
        old(m).ai == 38 ==> *final(m) == (NativeMonster {
            direction: Direction::DownLeft,
            next_ai_ready_at_ms: if old(m).next_ai_ready_at_ms > now.saturating_add(2000) {
                old(m).next_ai_ready_at_ms
            } else {
                now.saturating_add(2000)
            },
            ..*old(m)
        }),
{
    if m.ai == 38 {
        m.direction = Direction::DownLeft;
        let ready = now.saturating_add(2000);
        if m.next_ai_ready_at_ms < ready {
            m.next_ai_ready_at_ms = ready;
        }
    }
}

/// Slows not aimed at `id`.
pub open spec fn spec_slow_keeps(id: u32) -> spec_fn(PendingFoxSlow) -> bool {
    |s: PendingFoxSlow| s.target_object_id != id
}

/// A reactive state after the life `id` is retired: its slows on it dropped.
pub open spec fn spec_reactive_state_cleared(a: ReactiveAiState, b: ReactiveAiState, id: u32) -> bool {
    &&& b.pending_slows@ == a.pending_slows@.filter(spec_slow_keeps(id))
    &&& b == (ReactiveAiState { pending_slows: b.pending_slows, ..a })
}

fn clear_reactive_state(s: &mut ReactiveAiState, id: u32)
    ensures
        spec_reactive_state_cleared(*old(s), *final(s), id),
{
    let ghost k = spec_slow_keeps(id);
    retain_by(
        &mut s.pending_slows,
        (|p: &PendingFoxSlow| -> (r: bool)
            ensures
                r == (p.target_object_id != id),
            { p.target_object_id != id }),
        Ghost(k),
    );
}

/// Whether `ai` is one of the reactive attackers whose delayed hits name
/// their target life.
pub open spec fn spec_reactive_attacker(ai: u8) -> bool {
    ai == 8 || ai == 38 || ai == 45 || ai == 46
}

/// Delayed player hits that survive the retirement of `id`.
pub open spec fn spec_reactive_hit_keeps(id: u32) -> spec_fn(PendingNativePlayerHit) -> bool {
    |h: PendingNativePlayerHit| h.target_object_id != id || !spec_reactive_attacker(h.attacker_ai)
}

/// A monster after the sweep of `clear_reactive_slows`: its reactive state (if any)
/// cleared, nothing else changed.
pub open spec fn spec_reactive_monster_cleared(a: NativeMonster, b: NativeMonster, id: u32) -> bool {
    match a.special.reactive {
        Some(s) => b.special.reactive matches Some(t) && spec_reactive_state_cleared(s, t, id) && b
            == (NativeMonster { special: SpecialAi { reactive: b.special.reactive, ..a.special }, ..a }),
        None => b == a,
    }
}

fn clear_reactive_monster(m: &mut NativeMonster, id: u32)
    ensures
        spec_reactive_monster_cleared(*old(m), *final(m), id),
{
    match m.special.reactive.take() {
        Some(mut s) => {
            clear_reactive_state(&mut s, id);
            m.special.reactive = Some(s);
        },
        None => {},
    }
}

impl ZoneRuntime {
    /// Every reactive monster forgets its slows on the life `id`.
    pub fn clear_reactive_slows(&mut self, id: u32)
        ensures
            *final(self) == (ZoneRuntime { native_monsters: final(self).native_monsters, ..*old(self) }),
            final(self).native_monsters@.len() == old(self).native_monsters@.len(),
            forall|k: int|
                0 <= k < old(self).native_monsters@.len() ==> spec_reactive_monster_cleared(
                    old(self).native_monsters@[k],
                    #[trigger] final(self).native_monsters@[k],
                    id,
                ),
    {
        let ghost before = self.native_monsters@;
        let mut i: usize = 0;
        while i < self.native_monsters.len()
            invariant
                *self == (ZoneRuntime { native_monsters: self.native_monsters, ..*old(self) }),
                before == old(self).native_monsters@,
                self.native_monsters@.len() == before.len(),
                0 <= i <= before.len(),
                forall|k: int|
                    0 <= k < i ==> spec_reactive_monster_cleared(before[k], #[trigger] self.native_monsters@[k], id),
                forall|k: int| i <= k < before.len() ==> #[trigger] self.native_monsters@[k] == before[k],
            decreases before.len() - i,
        {
            let mut m = self.native_monsters.remove(i);
            clear_reactive_monster(&mut m, id);
            self.native_monsters.insert(i, m);
            i += 1;
        }
    }
}

impl ZoneRuntime {
    /// The life `id` is retired: reactive slows on it and the delayed hits
    /// of reactive attackers on it are dropped.
    pub fn clear_reactive_targets(&mut self, id: u32)
        ensures
            final(self).native_monsters@.len() == old(self).native_monsters@.len(),
            forall|k: int|
                0 <= k < old(self).native_monsters@.len() ==> spec_reactive_monster_cleared(
                    old(self).native_monsters@[k],
                    #[trigger] final(self).native_monsters@[k],
                    id,
                ),
            final(self).pending_native_player_hits@ == old(self).pending_native_player_hits@.filter(
                spec_reactive_hit_keeps(id),
            ),
            *final(self) == (ZoneRuntime {
                native_monsters: final(self).native_monsters,
                pending_native_player_hits: final(self).pending_native_player_hits,
                ..*old(self)
            }),
    {
        self.clear_reactive_slows(id);
        let ghost k = spec_reactive_hit_keeps(id);
        retain_by(
            &mut self.pending_native_player_hits,
            (|h: &PendingNativePlayerHit| -> (r: bool)
                ensures
                    r == (h.target_object_id != id || !spec_reactive_attacker(h.attacker_ai)),
                {
                    h.target_object_id != id || !(h.attacker_ai == 8 || h.attacker_ai == 38
                        || h.attacker_ai == 45 || h.attacker_ai == 46)
                }),
            Ghost(k),
        );
    }
}

/// What a reactive monster (AI 8, 38, 45, 46) does about its target.
#[derive(Debug, Clone, Copy, PartialEq, Eq, Structural)]
pub enum ReactiveAction {
    /// It cannot attack yet.
    Wait,
    /// A fox (AI 45) next to its target jumps away.
    Teleport,
    /// It attacks (a fox of AI 46 may fire its slowing shot instead).
    Attack,
    /// The holy deva (AI 38) holds its post against a far target.
    Hold,
    /// It backs off from its target.
    Retreat,
}

/// A reactive state as it starts, for a monster that had none.
pub open spec fn spec_reactive_or_fresh(s: Option<ReactiveAiState>, t: ReactiveAiState) -> bool {
    match s {
        Some(s0) => t == s0,
        None => t.fear_until_ms == 0 && t.teleport_ready_at_ms == 0 && t.rng_state == 0 && t.pending_slows@.len() == 0,
    }
}

/// The decision of reactive monster `m` about a target at `target_position`
/// at `now`: nothing before its attack is ready (strictly); within six
/// tiles while still afraid, it attacks, except that a fox next to its
/// target whose jump is ready jumps (its next jump ten seconds later);
/// otherwise it becomes afraid for five seconds and backs off, except that
/// the holy deva holds its post against a target six or more tiles away.
pub open spec fn spec_reactive_decision(m: NativeMonster, target_position: Point, now: u64, t: ReactiveAiState) -> (ReactiveAiState, ReactiveAction) {
    let fear = match m.special.reactive {
        Some(s) => s.fear_until_ms,
        None => 0,
    };
    let teleport_ready = match m.special.reactive {
        Some(s) => s.teleport_ready_at_ms,
        None => 0,
    };
    let distance = spec_tile_distance(m.position, target_position);
    if now <= m.next_attack_ready_at_ms {
        (t, ReactiveAction::Wait)
    } else if distance <= 6 && now < fear {
        if m.ai == 45 && distance <= 1 && now > teleport_ready {
            (ReactiveAiState { teleport_ready_at_ms: now.saturating_add(10_000), ..t }, ReactiveAction::Teleport)
        } else {
            (t, ReactiveAction::Attack)
        }
    } else {
        (
            ReactiveAiState { fear_until_ms: now.saturating_add(5_000), ..t },
            if m.ai == 38 && distance >= 6 { ReactiveAction::Hold } else { ReactiveAction::Retreat },
        )
    }
}

/// The decision of reactive monster `m` (see [`spec_reactive_decision`]);
/// its state is created when the decision changes it.
pub fn reactive_decision(m: &mut NativeMonster, target_position: &Point, now: u64) -> (r: ReactiveAction)
    ensures
        exists|t: ReactiveAiState| {
            &&& #[trigger] spec_reactive_or_fresh(old(m).special.reactive, t)
            &&& {
                let (t1, a) = spec_reactive_decision(*old(m), *target_position, now, t);
                &&& r == a
                &&& if a == ReactiveAction::Wait || a == ReactiveAction::Attack {
                    *final(m) == *old(m)
                } else {
                    *final(m) == (NativeMonster { special: SpecialAi { reactive: Some(t1), ..old(m).special }, ..*old(m) })
                }
            }
        },
{
    let taken = m.special.reactive.take();
    let was_some = taken.is_some();
    let mut t = match taken {
        Some(s) => s,
        None => ReactiveAiState { fear_until_ms: 0, teleport_ready_at_ms: 0, rng_state: 0, pending_slows: Vec::new() },
    };
    let ghost t0 = t;
    assert(spec_reactive_or_fresh(old(m).special.reactive, t0));
    let fear = if was_some { t.fear_until_ms } else { 0 };
    let teleport_ready = if was_some { t.teleport_ready_at_ms } else { 0 };
    let distance = tile_distance(&m.position, target_position);
    let action = if now <= m.next_attack_ready_at_ms {
        ReactiveAction::Wait
    } else if distance <= 6 && now < fear {
        if m.ai == 45 && distance <= 1 && now > teleport_ready {
            t.teleport_ready_at_ms = now.saturating_add(10_000);
            ReactiveAction::Teleport
        } else {
            ReactiveAction::Attack
        }
    } else {
        t.fear_until_ms = now.saturating_add(5_000);
        if m.ai == 38 && distance >= 6 {
            ReactiveAction::Hold
        } else {
            ReactiveAction::Retreat
        }
    };
    if action == ReactiveAction::Wait || action == ReactiveAction::Attack {
        if was_some {
            m.special.reactive = Some(t);
        }
    } else {
        m.special.reactive = Some(t);
    }
    action
}

/// The eight facings tried in order from `first`, turning one eighth
/// further each time, clockwise or not.
pub open spec fn spec_turn_order(first: Direction, clockwise: bool) -> Seq<Direction> {
    Seq::new(8, |n: int| spec_rotated(first, if clockwise { n } else { -n }))
}

/// The way a reactive monster `id` turns at `now` while looking for a free
/// tile: clockwise when the low bit of `now ^ id` is clear, so that a replay
/// turns the same way.
pub open spec fn spec_reactive_clockwise(now: u64, id: u32) -> bool {
    (now ^ (id as u64)) & 1 == 0
}

/// The facings a backing-off reactive monster `id` tries at `now`, starting
/// from `first` (toward a target six or more tiles away, otherwise away
/// from it).
pub fn reactive_retreat_order(now: u64, id: u32, first: Direction) -> (r: Vec<Direction>)
    ensures
        r@ == spec_turn_order(first, spec_reactive_clockwise(now, id)),
{
    let clockwise = (now ^ (id as u64)) & 1 == 0;
    let mut r: Vec<Direction> = Vec::new();
    let mut n: i32 = 0;
    while n < 8
        invariant
            0 <= n <= 8,
            clockwise == spec_reactive_clockwise(now, id),
            r@ == spec_turn_order(first, clockwise).take(n as int),
        decreases 8 - n,
    {
        let d = rotated(first, if clockwise { n } else { -n });
        r.push(d);
        proof {
            assert(spec_turn_order(first, clockwise).take(n + 1) =~= spec_turn_order(first, clockwise).take(n as int).push(d));
        }
        n += 1;
    }
    assert(spec_turn_order(first, clockwise).take(8) =~= spec_turn_order(first, clockwise));
    r
}

} // verus!
