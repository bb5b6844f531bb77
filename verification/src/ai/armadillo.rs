//! Armadillo (AI 124) and ArmadilloElder (AI 125): the chance that a hit
//! ends a flight, and the delayed hits they forget when a life is retired.
use vstd::prelude::*;
use crate::monster::{ArmadilloState, EntityHitRecord, NativeMonster, SpecialAi};
use crate::types::{rotated, spec_rotated, Direction};
use crate::zone::ZoneRuntime;
use crate::ai::kirin::spec_entity_hit_keeps;
use crate::rng::{draw_below, first_acceptance, spec_mix, state_after};
use crate::seqs::retain_by;

verus! {

/// The multiplier that spreads an Armadillo draw sequence over the stream.
pub const SEQUENCE_MUL: u64 = 0xD1B54A32D192ED03;

/// The stream an Armadillo draw starts from: the clock, the object id
/// rotated by 32 bits, and the spread draw sequence.
pub open spec fn spec_armadillo_seed(now: u64, object_id: u32, sequence: u64) -> u64 {
    now ^ ((object_id as u64) << 32u64) ^ sequence.wrapping_mul(SEQUENCE_MUL)
}

/// An unbiased draw in `0..upper` from a fresh stream for one clock, object
/// and sequence.
pub fn armadillo_roll(now: u64, object_id: u32, sequence: u64, upper: u64) -> (r: u64)
    requires
        upper > 0,
    ensures
        exists|k: nat|
            first_acceptance(spec_armadillo_seed(now, object_id, sequence), upper, k) && r == spec_mix(
                state_after(spec_armadillo_seed(now, object_id, sequence), k),
            ) % upper,
        r < upper,
{
    let mut state = now ^ ((object_id as u64) << 32u64) ^ sequence.wrapping_mul(SEQUENCE_MUL);
    let ghost seed = state;
    assert(seed == spec_armadillo_seed(now, object_id, sequence));
    let r = draw_below(&mut state, upper);
    proof {
        let k = choose|k: nat| first_acceptance(seed, upper, k) && state == state_after(seed, k);
        assert(first_acceptance(spec_armadillo_seed(now, object_id, sequence), upper, k));
    }
    r
}

/// An Armadillo state as it starts.
pub open spec fn spec_fresh_armadillo(s: ArmadilloState) -> bool {
    &&& !s.fleeing
    &&& s.attack_sequence == 0
    &&& s.hit_sequence == 0
    &&& s.retreat is None
    &&& s.entity_hits@.len() == 0
}

/// A fleeing Armadillo that is hit at `now` counts the hit and stops fleeing
/// on a one-in-four draw; one that is not fleeing is unchanged (beyond
/// getting its state).
pub fn armadillo_attacked(m: &mut NativeMonster, object_id: u32, now: u64)
    ensures
        !(old(m).ai == 124 || old(m).ai == 125) ==> *final(m) == *old(m),
        (old(m).ai == 124 || old(m).ai == 125) ==> (final(m).special.armadillo matches Some(t)
            && match old(m).special.armadillo {
            None => spec_fresh_armadillo(t),
            Some(s) => if !s.fleeing {
                t == s
            } else {
                &&& t.hit_sequence == s.hit_sequence.wrapping_add(1)
                &&& exists|k: nat|
                    first_acceptance(
                        spec_armadillo_seed(now, object_id, t.hit_sequence ^ 0xA124u64),
                        4,
                        k,
                    ) && (t.fleeing <==> spec_mix(
                        state_after(spec_armadillo_seed(now, object_id, t.hit_sequence ^ 0xA124u64), k),
                    ) % 4 != 0)
                &&& t == (ArmadilloState { hit_sequence: t.hit_sequence, fleeing: t.fleeing, ..s })
            },
        }),
        (old(m).ai == 124 || old(m).ai == 125) ==> *final(m) == (NativeMonster {
            special: SpecialAi { armadillo: final(m).special.armadillo, ..old(m).special },
            ..*old(m)
        }),
{
    if !(m.ai == 124 || m.ai == 125) {
        return;
    }
    let mut s = match m.special.armadillo.take() {
        Some(s) => s,
        None => ArmadilloState {
            fleeing: false,
            attack_sequence: 0,
            hit_sequence: 0,
            retreat: None,
            entity_hits: Vec::new(),
        },
    };
    if s.fleeing {
        s.hit_sequence = s.hit_sequence.wrapping_add(1);
        if armadillo_roll(now, object_id, s.hit_sequence ^ 0xA124u64, 4) == 0 {
            s.fleeing = false;
        }
    }
    m.special.armadillo = Some(s);
}

/// An Armadillo state after the life `target` is retired: its entity hits
/// on the life and a retreat hit aimed at it are dropped.
pub open spec fn spec_armadillo_state_cleared(a: ArmadilloState, b: ArmadilloState, target: u32) -> bool {
    &&& b.entity_hits@ == a.entity_hits@.filter(spec_entity_hit_keeps(target))
    &&& b.retreat == (match a.retreat {
        Some(h) => if h.target_object_id == target { None } else { Some(h) },
        None => None,
    })
    &&& b == (ArmadilloState { entity_hits: b.entity_hits, retreat: b.retreat, ..a })
}

fn clear_armadillo_state(s: &mut ArmadilloState, target: u32)
    ensures
        spec_armadillo_state_cleared(*old(s), *final(s), target),
{
    let ghost k = spec_entity_hit_keeps(target);
    retain_by(
        &mut s.entity_hits,
        (|h: &EntityHitRecord| -> (r: bool)
            ensures
                r == (h.target@.object_id() != target),
            { h.target.object_id() != target }),
        Ghost(k),
    );
    let drop = match &s.retreat {
        Some(h) => h.target_object_id == target,
        None => false,
    };
    if drop {
        s.retreat = None;
    }
}

/// A monster after the sweep of `clear_armadillo_target_life`: its armadillo state (if any)
/// cleared, nothing else changed.
pub open spec fn spec_armadillo_monster_cleared(a: NativeMonster, b: NativeMonster, id: u32) -> bool {
    match a.special.armadillo {
        Some(s) => b.special.armadillo matches Some(t) && spec_armadillo_state_cleared(s, t, id) && b
            == (NativeMonster { special: SpecialAi { armadillo: b.special.armadillo, ..a.special }, ..a }),
        None => b == a,
    }
}

fn clear_armadillo_monster(m: &mut NativeMonster, id: u32)
    ensures
        spec_armadillo_monster_cleared(*old(m), *final(m), id),
{
    match m.special.armadillo.take() {
        Some(mut s) => {
            clear_armadillo_state(&mut s, id);
            m.special.armadillo = Some(s);
        },
        None => {},
    }
}

impl ZoneRuntime {
    /// The life `target` is retired: every Armadillo forgets its hits on it.
    pub fn clear_armadillo_target_life(&mut self, id: u32)
        ensures
            *final(self) == (ZoneRuntime { native_monsters: final(self).native_monsters, ..*old(self) }),
            final(self).native_monsters@.len() == old(self).native_monsters@.len(),
            forall|k: int|
                0 <= k < old(self).native_monsters@.len() ==> spec_armadillo_monster_cleared(
                    old(self).native_monsters@[k],
                    #[trigger] final(self).native_monsters@[k],
                    id,
                ),
    {
        let ghost before = self.native_monsters@;
        let mut i: usize = 0;
        while i < self.native_monsters.len()
            invariant
                *self == (ZoneRuntime { native_monsters: self.native_monsters, ..*old(self) }),
                before == old(self).native_monsters@,
                self.native_monsters@.len() == before.len(),
                0 <= i <= before.len(),
                forall|k: int|
                    0 <= k < i ==> spec_armadillo_monster_cleared(before[k], #[trigger] self.native_monsters@[k], id),
                forall|k: int| i <= k < before.len() ==> #[trigger] self.native_monsters@[k] == before[k],
            decreases before.len() - i,
        {
            let mut m = self.native_monsters.remove(i);
            clear_armadillo_monster(&mut m, id);
            self.native_monsters.insert(i, m);
            i += 1;
        }
    }
}

/// The eight facings a fleeing Armadillo tries in order: straight away
/// from its target first, then turning one eighth further each time, the
/// way round chosen by one draw in two.
pub open spec fn spec_flee_order(toward: Direction, clockwise: bool) -> Seq<Direction> {
    Seq::new(8, |step: int| spec_rotated(spec_rotated(toward, 4), if clockwise { step } else { -step }))
}

/// The facings a fleeing Armadillo `id` tries at `now`, away from the
/// facing `toward` its target (see [`spec_flee_order`]); the way round is
/// clockwise when its draw of two is 0.
pub fn armadillo_flee_order(now: u64, id: u32, toward: Direction) -> (r: Vec<Direction>)
    ensures
        exists|k: nat|
            #![trigger first_acceptance(spec_armadillo_seed(now, id, 0xAFu64), 2, k)]
            first_acceptance(spec_armadillo_seed(now, id, 0xAFu64), 2, k) && r@ == spec_flee_order(
                toward,
                spec_mix(state_after(spec_armadillo_seed(now, id, 0xAFu64), k)) % 2 == 0,
            ),
{
    let draw = armadillo_roll(now, id, 0xAF, 2);
    let clockwise = draw == 0;
    let away = rotated(toward, 4);
    let mut r: Vec<Direction> = Vec::new();
    let mut step: i32 = 0;
    while step < 8
        invariant
            0 <= step <= 8,
            away == spec_rotated(toward, 4),
            r@ == spec_flee_order(toward, clockwise).take(step as int),
        decreases 8 - step,
    {
        let d = rotated(away, if clockwise { step } else { -step });
        r.push(d);
        proof {
            assert(spec_flee_order(toward, clockwise).take(step + 1) =~= spec_flee_order(toward, clockwise).take(
                step as int,
            ).push(d));
        }
        step += 1;
    }
    assert(spec_flee_order(toward, clockwise).take(8) =~= spec_flee_order(toward, clockwise));
    r
}

/// An Armadillo state as a fresh one starts, for a monster that had none.
pub open spec fn spec_armadillo_or_fresh(s: Option<ArmadilloState>, t: ArmadilloState) -> bool {
    match s {
        Some(s0) => t == s0,
        None => spec_fresh_armadillo(t),
    }
}

/// Armadillo `m` (object `id`) attacks at `now` facing `toward`: it faces
/// its target, acts again 300 ms later and attacks again after its attack
/// speed; its attack counter advances, and a draw of six on it picks the
/// attack (0: a retreat, which also sets an ArmadilloElder fleeing; 1: the
/// heavy attack; otherwise a plain one). Returns the draw.
pub fn armadillo_attack_step(m: &mut NativeMonster, id: u32, toward: Direction, now: u64) -> (branch: u64)
    ensures
        branch < 6,
        exists|s0: ArmadilloState, k: nat|
            #![trigger spec_armadillo_or_fresh(old(m).special.armadillo, s0), first_acceptance(spec_armadillo_seed(now, id, s0.attack_sequence.wrapping_add(1) ^ 0xA6u64), 6, k)]
            {
            &&& spec_armadillo_or_fresh(old(m).special.armadillo, s0)
            &&& first_acceptance(
                spec_armadillo_seed(now, id, s0.attack_sequence.wrapping_add(1) ^ 0xA6u64),
                6,
                k,
            )
            &&& branch == spec_mix(
                state_after(spec_armadillo_seed(now, id, s0.attack_sequence.wrapping_add(1) ^ 0xA6u64), k),
            ) % 6
            &&& *final(m) == (NativeMonster {
                direction: toward,
                next_ai_ready_at_ms: now.saturating_add(300),
                next_attack_ready_at_ms: now.saturating_add(old(m).attack_speed_ms),
                special: SpecialAi {
                    armadillo: Some(ArmadilloState {
                        attack_sequence: s0.attack_sequence.wrapping_add(1),
                        fleeing: if branch == 0 && old(m).ai == 125 { true } else { s0.fleeing },
                        ..s0
                    }),
                    ..old(m).special
                },
                ..*old(m)
            })
        },
{
    let mut s = match m.special.armadillo.take() {
        Some(s) => s,
        None => ArmadilloState { fleeing: false, attack_sequence: 0, hit_sequence: 0, retreat: None, entity_hits: Vec::new() },
    };
    let ghost s0 = s;
    m.direction = toward;
    m.next_ai_ready_at_ms = now.saturating_add(300);
    m.next_attack_ready_at_ms = now.saturating_add(m.attack_speed_ms);
    s.attack_sequence = s.attack_sequence.wrapping_add(1);
    let branch = armadillo_roll(now, id, s.attack_sequence ^ 0xA6, 6);
    if branch == 0 && m.ai == 125 {
        s.fleeing = true;
    }
    m.special.armadillo = Some(s);
    proof {
        let seed = spec_armadillo_seed(now, id, s0.attack_sequence.wrapping_add(1) ^ 0xA6u64);
        let k = choose|k: nat| first_acceptance(seed, 6, k) && branch == spec_mix(state_after(seed, k)) % 6;
        assert(spec_armadillo_or_fresh(old(m).special.armadillo, s0));
        assert(first_acceptance(seed, 6, k));
    }
    branch
}

} // verus!
