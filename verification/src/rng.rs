//! The SplitMix64 streams that drive every monster's deterministic rolls.
use vstd::prelude::*;
use vstd::arithmetic::div_mod::*;
use vstd::arithmetic::mul::*;

verus! {

/// Weyl increment of the SplitMix64 state.
pub const GOLDEN: u64 = 0x9E3779B97F4A7C15;
/// First finalizer multiplier.
pub const MIX_MUL_A: u64 = 0xBF58476D1CE4E5B9;
/// Second finalizer multiplier.
pub const MIX_MUL_B: u64 = 0x94D049BB133111EB;

/// The SplitMix64 output finalizer.
pub open spec fn spec_mix(x: u64) -> u64 {
    let a = (x ^ (x >> 30u64)).wrapping_mul(MIX_MUL_A);
    let b = (a ^ (a >> 27u64)).wrapping_mul(MIX_MUL_B);
    b ^ (b >> 31u64)
}

pub(crate) proof fn lemma_mix_reaches_max()
    ensures spec_mix(0xcf9a04affa6badc0u64) == 0xffff_ffff_ffff_ffffu64,
{
    let x: u64 = 0xcf9a04affa6badc0u64;
    assert(x ^ (x >> 30u64) == 0xcf9a04acc403bf7fu64) by (bit_vector)
        requires x == 0xcf9a04affa6badc0u64;
    assert((0xcf9a04acc403bf7fu64).wrapping_mul(MIX_MUL_A) == 0xf027aa8c721dfdc7u64);
    let b: u64 = 0xf027aa8c721dfdc7u64;
    assert(b ^ (b >> 27u64) == 0xf027aa9276e8ac49u64) by (bit_vector)
        requires b == 0xf027aa8c721dfdc7u64;
    assert((0xf027aa9276e8ac49u64).wrapping_mul(MIX_MUL_B) == 0xfffffffe00000003u64);
    let d: u64 = 0xfffffffe00000003u64;
    assert(d ^ (d >> 31u64) == 0xffff_ffff_ffff_ffffu64) by (bit_vector)
        requires d == 0xfffffffe00000003u64;
}


/// 2^64, the modulus of the state arithmetic.
pub open spec fn word() -> int {
    0x1_0000_0000_0000_0000int
}

/// The state after `k` Weyl increments of `s`.
#[verifier::opaque]
pub open spec fn state_after(s: u64, k: nat) -> u64 {
    ((s as int + k * (GOLDEN as int)) % word()) as u64
}

/// Outputs below this bound are redrawn so that `% upper` carries no bias
/// (the value `upper.wrapping_neg() % upper`).
pub open spec fn reject_below(upper: u64) -> u64 {
    ((word() - upper as int) % (upper as int)) as u64
}

/// `k` is the first increment whose output survives rejection.
pub open spec fn first_acceptance(s: u64, upper: u64, k: nat) -> bool {
    &&& k >= 1
    &&& spec_mix(state_after(s, k)) >= reject_below(upper)
    &&& forall|j: nat| 1 <= j < k ==> spec_mix(#[trigger] state_after(s, j)) < reject_below(upper)
}

/// The state one unbiased draw in `0..upper` leaves behind when it starts
/// from `start`: the first increment whose output survives rejection.
pub open spec fn spec_drawn_state(start: u64, upper: u64) -> u64 {
    state_after(start, choose|k: nat| first_acceptance(start, upper, k))
}

/// At most one increment is the first to survive rejection, so a draw
/// leaves one state behind.
pub proof fn lemma_first_acceptance_unique(s: u64, upper: u64, a: nat, b: nat)
    requires
        first_acceptance(s, upper, a),
        first_acceptance(s, upper, b),
    ensures
        a == b,
{
    if a < b {
        assert(spec_mix(state_after(s, a)) < reject_below(upper));
    } else if b < a {
        assert(spec_mix(state_after(s, b)) < reject_below(upper));
    }
}

/// A state reached at the first acceptance is the drawn state.
pub proof fn lemma_drawn_state(start: u64, upper: u64, k: nat)
    requires
        first_acceptance(start, upper, k),
    ensures
        state_after(start, k) == spec_drawn_state(start, upper),
{
    let c = choose|k: nat| first_acceptance(start, upper, k);
    lemma_first_acceptance_unique(start, upper, k, c);
}

/// The multiplicative inverse of the Weyl increment modulo 2^64.
pub open spec fn golden_inverse() -> int {
    0xf1de83e19937733d
}

/// A state whose output is `u64::MAX`, which no rejection bound exceeds.
pub open spec fn max_preimage() -> int {
    0xcf9a04affa6badc0
}

/// The Weyl sequence from `s` reaches `max_preimage()` within 2^64 steps.
pub(crate) proof fn lemma_stream_reaches_preimage(s: u64) -> (k: nat)
    ensures
        1 <= k <= word(),
        state_after(s, k) == max_preimage(),
{
    reveal(state_after);
    let m = word();
    let a = max_preimage() - s as int;
    let d = ((a % m) * golden_inverse()) % m;
    assert((golden_inverse() * (GOLDEN as int)) % m == 1);
    let k: nat = if d == 0 { m as nat } else { d as nat };
    assert((k * (GOLDEN as int)) % m == a % m) by {
        if d == 0 {
            lemma_mod_multiples_basic(GOLDEN as int, m);
            lemma_mul_is_commutative(m, GOLDEN as int);
        }
        lemma_mul_mod_noop_left(k as int, GOLDEN as int, m);
        assert((k as int) % m == d % m);
        lemma_mod_twice((a % m) * golden_inverse(), m);
        lemma_mul_mod_noop_left((a % m) * golden_inverse(), GOLDEN as int, m);
        lemma_mul_is_associative(a % m, golden_inverse(), GOLDEN as int);
        lemma_mul_mod_noop_right(a % m, golden_inverse() * (GOLDEN as int), m);
        lemma_mod_twice(a, m);
    }
    lemma_add_mod_noop_right(s as int, k * (GOLDEN as int), m);
    lemma_add_mod_noop_right(s as int, a, m);
    k
}

/// One Weyl increment moves the stream one step forward.
pub(crate) proof fn lemma_state_step(s0: u64, i: nat)
    ensures
        state_after(s0, i).wrapping_add(GOLDEN) == state_after(s0, (i + 1) as nat),
{
    reveal(state_after);
    let m = word();
    lemma_add_mod_noop(s0 as int + i * (GOLDEN as int), GOLDEN as int, m);
    lemma_small_mod(GOLDEN as nat, m as nat);
    lemma_mod_twice(s0 as int + i * (GOLDEN as int), m);
    assert(s0 as int + i * (GOLDEN as int) + GOLDEN as int == s0 as int + (i + 1) * (
    GOLDEN as int)) by (nonlinear_arith);
}

/// One SplitMix64 draw reduced without bias into `0..upper`: the state
/// advances by the Weyl increment until the finalized output is at least
/// `upper.wrapping_neg() % upper`, and that output is reduced modulo `upper`.
pub fn draw_below(state: &mut u64, upper: u64) -> (r: u64)
    requires
        upper > 0,
    ensures
        exists|k: nat| first_acceptance(*old(state), upper, k)
            && *final(state) == state_after(*old(state), k),
        r == spec_mix(*final(state)) % upper,
        r < upper,
{
    let ghost s0 = *state;
    let threshold = 0u64.wrapping_sub(upper) % upper;
    assert(threshold == reject_below(upper));
    let ghost target = lemma_stream_reaches_preimage(s0);
    proof {
        lemma_mix_reaches_max();
    }
    let ghost mut i: nat = 0;
    assert(state_after(s0, 0) == s0) by {
        reveal(state_after);
        lemma_small_mod(s0 as nat, word() as nat);
    }
    loop
        invariant
            0 <= i < target,
            s0 == *old(state),
            target <= word(),
            state_after(s0, target) == max_preimage(),
            spec_mix(max_preimage() as u64) == 0xffff_ffff_ffff_ffffu64,
            *state == state_after(s0, i),
            threshold == reject_below(upper),
            upper > 0,
            forall|j: nat| 1 <= j <= i ==> spec_mix(#[trigger] state_after(s0, j)) < threshold,
        decreases target - i,
    {
        let next = state.wrapping_add(GOLDEN);
        proof {
            lemma_state_step(s0, i);
        }
        *state = next;
        let a = (next ^ (next >> 30u64)).wrapping_mul(MIX_MUL_A);
        let b = (a ^ (a >> 27u64)).wrapping_mul(MIX_MUL_B);
        let value = b ^ (b >> 31u64);
        proof {
            i = i + 1;
        }
        if value >= threshold {
            assert(first_acceptance(s0, upper, i));
            assert(*state == state_after(s0, i));
            assert(exists|k: nat| first_acceptance(s0, upper, k) && *state == state_after(s0, k));
            return value % upper;
        }
        assert(i != target);
    }
}

/// The state a stream draws from: the stored state, or `seed` when none was
/// stored yet (a stored zero).
pub open spec fn spec_seeded(stored: u64, seed: u64) -> u64 {
    if stored == 0 {
        seed
    } else {
        stored
    }
}

/// One unbiased draw in `0..upper` from a stream that is seeded on first
/// use.
pub fn draw_below_seeded(state: &mut u64, seed: u64, upper: u64) -> (r: u64)
    requires
        upper > 0,
    ensures
        exists|k: nat|
            first_acceptance(spec_seeded(*old(state), seed), upper, k) && *final(state) == state_after(
                spec_seeded(*old(state), seed),
                k,
            ),
        r == spec_mix(*final(state)) % upper,
        r < upper,
{
    let ghost start = spec_seeded(*state, seed);
    if *state == 0 {
        *state = seed;
    }
    assert(*state == start);
    let r = draw_below(state, upper);
    proof {
        let k = choose|k: nat| first_acceptance(start, upper, k) && *state == state_after(start, k);
        assert(first_acceptance(spec_seeded(*old(state), seed), upper, k));
    }
    r
}

/// One unrejected draw in `0..n` from a stream seeded on first use: the
/// state takes one Weyl step and its finalized value is reduced; an empty
/// range gives 0 and leaves the stream alone.
pub fn draw_mod_seeded(state: &mut u64, seed: u64, n: u64) -> (r: u64)
    ensures
        n == 0 ==> r == 0 && *final(state) == *old(state),
        n > 0 ==> *final(state) == spec_seeded(*old(state), seed).wrapping_add(GOLDEN) && r
            == spec_mix(*final(state)) % n,
{
    if n == 0 {
        return 0;
    }
    if *state == 0 {
        *state = seed;
    }
    *state = state.wrapping_add(GOLDEN);
    let x = *state;
    let a = (x ^ (x >> 30u64)).wrapping_mul(MIX_MUL_A);
    let b = (a ^ (a >> 27u64)).wrapping_mul(MIX_MUL_B);
    (b ^ (b >> 31u64)) % n
}

/// One unbiased draw in `0..upper` from a stream seeded on first use; an
/// empty range gives 0 and leaves the stream alone.
pub fn draw_below_seeded_or_zero(state: &mut u64, seed: u64, upper: u64) -> (r: u64)
    ensures
        upper == 0 ==> r == 0 && *final(state) == *old(state),
        upper > 0 ==> exists|k: nat|
            first_acceptance(spec_seeded(*old(state), seed), upper, k) && *final(state) == state_after(
                spec_seeded(*old(state), seed),
                k,
            ),
        upper > 0 ==> r == spec_mix(*final(state)) % upper && r < upper,
{
    if upper == 0 {
        return 0;
    }
    draw_below_seeded(state, seed, upper)
}

} // verus!
