//! RevivingZombie (AI 25): the replayable per-corpse random stream seeded by
//! SHA-256 from the zone, the object and its birth time, its life count, and
//! the delayed actions a revived corpse forgets.
use vstd::prelude::*;
use crate::monster::{NativeMonster, RevivingZombieState, SpecialAi};
use crate::zone::{find_monster, spec_monster_index, PendingNativeMonsterHit, PendingNativePlayerHit, PendingNativeProjectile, ZoneRuntime};
use crate::checkpoint::{sha256, spec_ascii_bytes, spec_sha256};
use crate::rng::{first_acceptance, lemma_mix_reaches_max, lemma_state_step, lemma_stream_reaches_preimage, max_preimage, reject_below, spec_mix, state_after, word, GOLDEN, MIX_MUL_A, MIX_MUL_B};
use crate::seqs::retain_by;
use crate::ai::shinsu::spec_shinsu_monster_cleared;
use vstd::string::StrSliceExecFns;
use vstd::arithmetic::div_mod::lemma_small_mod;

verus! {

/// `n` little-endian bytes of `x`.
pub open spec fn spec_le_bytes(x: nat, n: nat) -> Seq<u8>
    decreases n,
{
    if n == 0 {
        Seq::empty()
    } else {
        seq![(x % 256) as u8] + spec_le_bytes(x / 256, (n - 1) as nat)
    }
}

/// The number whose little-endian bytes are `bytes`.
pub open spec fn spec_le_value(bytes: Seq<u8>) -> nat
    decreases bytes.len(),
{
    if bytes.len() == 0 {
        0
    } else {
        (bytes[0] as nat) + 256 * spec_le_value(bytes.drop_first())
    }
}

fn push_le_bytes(out: &mut Vec<u8>, x: u64, n: u32)
    ensures
        final(out)@ == old(out)@ + spec_le_bytes(x as nat, n as nat),
    decreases n,
{
    if n > 0 {
        out.push((x % 256) as u8);
        let ghost mid = out@;
        push_le_bytes(out, x / 256, n - 1);
        assert(old(out)@ + spec_le_bytes(x as nat, n as nat) == old(out)@.push((x % 256) as u8)
            + spec_le_bytes((x / 256) as nat, (n - 1) as nat));
    } else {
        assert(old(out)@ + spec_le_bytes(x as nat, 0) == old(out)@);
    }
}

/// 256 to the power `n`.
pub open spec fn spec_pow256(n: nat) -> nat
    decreases n,
{
    if n == 0 {
        1
    } else {
        256 * spec_pow256((n - 1) as nat)
    }
}

proof fn lemma_pow256_monotone(a: nat, b: nat)
    requires
        a <= b,
    ensures
        spec_pow256(a) <= spec_pow256(b),
    decreases b,
{
    if a < b {
        lemma_pow256_monotone(a, (b - 1) as nat);
    }
}

proof fn lemma_le_value_bound(bytes: Seq<u8>)
    ensures
        spec_le_value(bytes) < spec_pow256(bytes.len()),
    decreases bytes.len(),
{
    if bytes.len() > 0 {
        lemma_le_value_bound(bytes.drop_first());
        let p = spec_pow256((bytes.len() - 1) as nat);
        let v = spec_le_value(bytes.drop_first());
        assert(bytes[0] + 256 * v < 256 * p) by (nonlinear_arith)
            requires
                v < p,
                bytes[0] < 256,
        ;
    }
}

/// The little-endian `u64` in the first eight bytes of `bytes`.
fn le_u64(bytes: &[u8]) -> (r: u64)
    requires
        bytes@.len() >= 8,
    ensures
        r == spec_le_value(bytes@.subrange(0, 8)),
{
    assert(spec_pow256(7) == 0x100_0000_0000_0000) by {
        reveal_with_fuel(spec_pow256, 8);
    }
    let mut v: u64 = 0;
    let mut i: usize = 8;
    while i > 0
        invariant
            0 <= i <= 8,
            bytes@.len() >= 8,
            v == spec_le_value(bytes@.subrange(i as int, 8)),
            spec_pow256(7) == 0x100_0000_0000_0000,
        decreases i,
    {
        i -= 1;
        assert(bytes@.subrange(i as int, 8).drop_first() == bytes@.subrange(i + 1, 8));
        proof {
            lemma_le_value_bound(bytes@.subrange(i + 1, 8));
            lemma_pow256_monotone((7 - i) as nat, 7);
            let p7 = spec_pow256(7);
            assert(v < p7);
            assert(bytes@[i as int] + 256 * v < 256 * p7) by (nonlinear_arith)
                requires
                    v < p7,
                    bytes@[i as int] < 256,
            ;
        }
        v = v * 256 + bytes[i] as u64;
    }
    v
}

/// The bytes hashed to seed a corpse's stream: a version domain, the
/// serialized zone key, the object id and the birth time (little endian).
pub open spec fn spec_zombie_seed_frame(key_json: Seq<u8>, object_id: u32, born_at_ms: u64) -> Seq<u8> {
    spec_ascii_bytes("mir2.zone.reviving-zombie.v1\0"@) + key_json + spec_le_bytes(object_id as nat, 4)
        + spec_le_bytes(born_at_ms as nat, 8)
}

/// The stream state a corpse starts from: the little-endian first eight
/// bytes of the SHA-256 of its seed frame.
pub open spec fn spec_zombie_seed(key_json: Seq<u8>, object_id: u32, born_at_ms: u64) -> u64 {
    spec_le_value(spec_sha256(spec_zombie_seed_frame(key_json, object_id, born_at_ms)).subrange(0, 8)) as u64
}

/// `k` draws counted onto `draws`, saturating.
pub open spec fn spec_draws_after(draws: u64, k: nat) -> u64 {
    if draws + k > u64::MAX { u64::MAX } else { (draws + k) as u64 }
}

fn zombie_seed_frame(object_id: u32, born_at_ms: u64, key_json: &[u8]) -> (frame: Vec<u8>)
    ensures
        frame@ == spec_zombie_seed_frame(key_json@, object_id, born_at_ms),
{
    let domain = "mir2.zone.reviving-zombie.v1\0";
    let n = domain.unicode_len();
    let mut frame: Vec<u8> = Vec::new();
    let mut i: usize = 0;
    while i < n
        invariant
            n == domain@.len(),
            0 <= i <= n,
            frame@ == spec_ascii_bytes(domain@.subrange(0, i as int)),
        decreases n - i,
    {
        let c = domain.get_char(i);
        frame.push(c as u8);
        assert(spec_ascii_bytes(domain@.subrange(0, i + 1)) == spec_ascii_bytes(
            domain@.subrange(0, i as int),
        ).push(c as u8));
        i += 1;
    }
    assert(domain@.subrange(0, n as int) == domain@);
    let ghost d = frame@;
    let mut j: usize = 0;
    while j < key_json.len()
        invariant
            0 <= j <= key_json@.len(),
            frame@ == d + key_json@.subrange(0, j as int),
        decreases key_json@.len() - j,
    {
        frame.push(key_json[j]);
        assert(d + key_json@.subrange(0, j + 1) == (d + key_json@.subrange(0, j as int)).push(
            key_json@[j as int],
        ));
        j += 1;
    }
    assert(key_json@.subrange(0, key_json@.len() as int) == key_json@);
    push_le_bytes(&mut frame, object_id as u64, 4);
    push_le_bytes(&mut frame, born_at_ms, 8);
    frame
}

fn zombie_seed(object_id: u32, born_at_ms: u64, key_json: &[u8]) -> (r: u64)
    ensures
        r == spec_zombie_seed(key_json@, object_id, born_at_ms),
{
    let frame = zombie_seed_frame(object_id, born_at_ms, key_json);
    let digest = sha256(frame.as_slice());
    le_u64(digest.as_slice())
}

impl RevivingZombieState {
    /// The next raw value of the stream: one Weyl step, counted (saturating),
    /// then finalized.
    pub fn next_random(&mut self) -> (r: u64)
        ensures
            final(self).rng_state == old(self).rng_state.wrapping_add(GOLDEN),
            final(self).rng_draws == old(self).rng_draws.saturating_add(1),
            r == spec_mix(final(self).rng_state),
            *final(self) == (RevivingZombieState {
                rng_state: final(self).rng_state,
                rng_draws: final(self).rng_draws,
                ..*old(self)
            }),
    {
        self.rng_state = self.rng_state.wrapping_add(GOLDEN);
        self.rng_draws = self.rng_draws.saturating_add(1);
        let x = self.rng_state;
        let a = (x ^ (x >> 30u64)).wrapping_mul(MIX_MUL_A);
        let b = (a ^ (a >> 27u64)).wrapping_mul(MIX_MUL_B);
        b ^ (b >> 31u64)
    }

    /// An unbiased roll in `0..upper`: raw values below
    /// `upper.wrapping_neg() % upper` are redrawn, and every draw is counted.
    pub fn roll_below(&mut self, upper: u64) -> (r: u64)
        requires
            upper > 0,
        ensures
            exists|k: nat|
                first_acceptance(old(self).rng_state, upper, k) && final(self).rng_state == state_after(
                    old(self).rng_state,
                    k,
                ) && final(self).rng_draws == spec_draws_after(old(self).rng_draws, k),
            r == spec_mix(final(self).rng_state) % upper,
            r < upper,
            *final(self) == (RevivingZombieState {
                rng_state: final(self).rng_state,
                rng_draws: final(self).rng_draws,
                ..*old(self)
            }),
    {
        let ghost s0 = self.rng_state;
        let ghost d0 = self.rng_draws;
        let threshold = 0u64.wrapping_sub(upper) % upper;
        assert(threshold == reject_below(upper));
        let ghost target = lemma_stream_reaches_preimage(s0);
        proof {
            lemma_mix_reaches_max();
        }
        let ghost mut i: nat = 0;
        assert(state_after(s0, 0) == s0) by {
            reveal(state_after);
            lemma_small_mod(s0 as nat, word() as nat);
        }
        loop
            invariant
                0 <= i < target,
                s0 == old(self).rng_state,
                d0 == old(self).rng_draws,
                target <= word(),
                state_after(s0, target) == max_preimage(),
                spec_mix(max_preimage() as u64) == 0xffff_ffff_ffff_ffffu64,
                self.rng_state == state_after(s0, i),
                self.rng_draws == spec_draws_after(d0, i),
                *self == (RevivingZombieState { rng_state: self.rng_state, rng_draws: self.rng_draws, ..*old(self) }),
                threshold == reject_below(upper),
                upper > 0,
                forall|j: nat| 1 <= j <= i ==> spec_mix(#[trigger] state_after(s0, j)) < threshold,
            decreases target - i,
        {
            proof {
                lemma_state_step(s0, i);
            }
            let value = self.next_random();
            proof {
                i = i + 1;
            }
            if value >= threshold {
                assert(first_acceptance(s0, upper, i));
                return value % upper;
            }
            assert(i != target);
        }
    }

    /// A corpse's state at birth: its stream seeded from the zone key, the
    /// object and the birth time, and a life count of 0, 1 or 2 drawn from it.
    pub fn new(object_id: u32, born_at_ms: u64, key_json: &[u8]) -> (r: RevivingZombieState)
        ensures
            exists|k: nat|
                first_acceptance(spec_zombie_seed(key_json@, object_id, born_at_ms), 3, k) && r.rng_state
                    == state_after(spec_zombie_seed(key_json@, object_id, born_at_ms), k) && r.rng_draws
                    == spec_draws_after(0, k) && r.life_count == spec_mix(r.rng_state) % 3,
            r.revival_count == 0,
            r.died_at_ms is None,
            r.revive_at_ms is None,
            r.corpse_expires_at_ms is None,
            r.death_generation == 0,
            r.last_drop_roll is None,
    {
        let seed = zombie_seed(object_id, born_at_ms, key_json);
        let mut state = RevivingZombieState {
            life_count: 0,
            revival_count: 0,
            died_at_ms: None,
            revive_at_ms: None,
            corpse_expires_at_ms: None,
            death_generation: 0,
            rng_state: seed,
            rng_draws: 0,
            last_drop_roll: None,
        };
        let count = state.roll_below(3);
        state.life_count = count as u8;
        state
    }
}

impl ZoneRuntime {
    /// A freshly inserted RevivingZombie `object_id` gets its corpse state
    /// (seeded from `key_json`, the serialized zone key, and `now`).
    pub fn initialize_native_monster_revival(&mut self, object_id: u32, now: u64, key_json: &[u8])
        ensures
            match spec_monster_index(old(self).native_monsters@, object_id) {
                Some(i) => if old(self).native_monsters@[i].ai == 25 && old(self).native_monsters@[i].special.revival is None {
                    let m = old(self).native_monsters@[i];
                    let m1 = final(self).native_monsters@[i];
                    &&& final(self).native_monsters@ == old(self).native_monsters@.update(i, m1)
                    &&& m1.special.revival matches Some(s) && exists|k: nat|
                        first_acceptance(spec_zombie_seed(key_json@, object_id, now), 3, k) && s.rng_state
                            == state_after(spec_zombie_seed(key_json@, object_id, now), k) && s.rng_draws
                            == spec_draws_after(0, k) && s.life_count == spec_mix(s.rng_state) % 3 && s.revival_count == 0
                    &&& m1 == (NativeMonster { special: SpecialAi { revival: m1.special.revival, ..m.special }, ..m })
                    &&& *final(self) == (ZoneRuntime { native_monsters: final(self).native_monsters, ..*old(self) })
                } else {
                    *final(self) == *old(self)
                },
                None => *final(self) == *old(self),
            },
    {
        let i = match find_monster(&self.native_monsters, object_id) {
            Some(i) => i,
            None => {
                return;
            },
        };
        if self.native_monsters[i].ai != 25 || self.native_monsters[i].special.revival.is_some() {
            return;
        }
        let state = RevivingZombieState::new(object_id, now, key_json);
        let ghost m0 = self.native_monsters@;
        let mut m = self.native_monsters.remove(i);
        m.special.revival = Some(state);
        self.native_monsters.insert(i, m);
        assert(self.native_monsters@ == m0.update(i as int, self.native_monsters@[i as int]));
    }

    /// Whether RevivingZombie `object_id` lies dead with a revival still
    /// owed.
    pub fn native_monster_has_pending_revival(&self, object_id: u32) -> (r: bool)
        ensures
            r == (spec_monster_index(self.native_monsters@, object_id) matches Some(i) && {
                let m = self.native_monsters@[i];
                &&& m.ai == 25
                &&& m.dead
                &&& m.special.revival matches Some(s) && s.revival_count < s.life_count
                    && s.revive_at_ms is Some && s.corpse_expires_at_ms is Some
            }),
    {
        match find_monster(&self.native_monsters, object_id) {
            Some(i) => {
                let m = &self.native_monsters[i];
                m.ai == 25 && m.dead && match &m.special.revival {
                    Some(s) => s.revival_count < s.life_count && s.revive_at_ms.is_some()
                        && s.corpse_expires_at_ms.is_some(),
                    None => false,
                }
            },
            None => false,
        }
    }
}

/// Monster hits neither on nor by `id`.
pub open spec fn spec_monster_hit_untouched(id: u32) -> spec_fn(PendingNativeMonsterHit) -> bool {
    |h: PendingNativeMonsterHit| h.object_id != id && h.attacker_object_id != id
}

/// Player hits not by `id`.
pub open spec fn spec_player_hit_not_by(id: u32) -> spec_fn(PendingNativePlayerHit) -> bool {
    |h: PendingNativePlayerHit| h.attacker_object_id != id
}

/// Projectiles neither from nor to `id`.
pub open spec fn spec_projectile_untouched(id: u32) -> spec_fn(PendingNativeProjectile) -> bool {
    |p: PendingNativeProjectile| p.source_id != id && p.destination_id != id
}

impl ZoneRuntime {
    /// A corpse `id` revives as a new life: hits on or by it, projectiles
    /// from or to it and Shinsu hits on it are dropped (ground spells stay).
    pub fn clear_reviving_zombie_life_actions(&mut self, id: u32)
        ensures
            final(self).pending_native_hits@ == old(self).pending_native_hits@.filter(spec_monster_hit_untouched(id)),
            final(self).pending_native_player_hits@ == old(self).pending_native_player_hits@.filter(
                spec_player_hit_not_by(id),
            ),
            final(self).pending_native_projectiles@ == old(self).pending_native_projectiles@.filter(
                spec_projectile_untouched(id),
            ),
            final(self).native_monsters@.len() == old(self).native_monsters@.len(),
            forall|k: int|
                0 <= k < old(self).native_monsters@.len() ==> spec_shinsu_monster_cleared(
                    old(self).native_monsters@[k],
                    #[trigger] final(self).native_monsters@[k],
                    id,
                ),
            *final(self) == (ZoneRuntime {
                pending_native_hits: final(self).pending_native_hits,
                pending_native_player_hits: final(self).pending_native_player_hits,
                pending_native_projectiles: final(self).pending_native_projectiles,
                native_monsters: final(self).native_monsters,
                ..*old(self)
            }),
    {
        let ghost k1 = spec_monster_hit_untouched(id);
        retain_by(
            &mut self.pending_native_hits,
            (|h: &PendingNativeMonsterHit| -> (r: bool)
                ensures
                    r == (h.object_id != id && h.attacker_object_id != id),
                { h.object_id != id && h.attacker_object_id != id }),
            Ghost(k1),
        );
        let ghost k2 = spec_player_hit_not_by(id);
        retain_by(
            &mut self.pending_native_player_hits,
            (|h: &PendingNativePlayerHit| -> (r: bool)
                ensures
                    r == (h.attacker_object_id != id),
                { h.attacker_object_id != id }),
            Ghost(k2),
        );
        self.clear_shinsu_hits_for_target(id);
        let ghost k3 = spec_projectile_untouched(id);
        retain_by(
            &mut self.pending_native_projectiles,
            (|p: &PendingNativeProjectile| -> (r: bool)
                ensures
                    r == (p.source_id != id && p.destination_id != id),
                { p.source_id != id && p.destination_id != id }),
            Ghost(k3),
        );
    }
}

/// What a dead zombie does on a tick.
#[derive(Debug, Clone, Copy, PartialEq, Eq, Structural)]
pub enum RevivalDecision {
    /// Its corpse has lasted its time and is removed, before any revival.
    Expire,
    /// It rises again.
    Revive,
    /// Nothing yet.
    Wait,
}

/// The revival decision for a dead zombie's state at `now`: an expired
/// corpse goes first; otherwise it revives while it has lives left and its
/// revival time has passed (strictly).
pub open spec fn spec_revival_decision(s: RevivingZombieState, now: u64) -> RevivalDecision {
    if s.corpse_expires_at_ms matches Some(d) && now >= d {
        RevivalDecision::Expire
    } else if s.revival_count < s.life_count && (s.revive_at_ms matches Some(d) && now > d) {
        RevivalDecision::Revive
    } else {
        RevivalDecision::Wait
    }
}

/// The revival decision for a dead zombie's state at `now`.
pub fn revival_decision(s: &RevivingZombieState, now: u64) -> (r: RevivalDecision)
    ensures
        r == spec_revival_decision(*s, now),
{
    let expired = match s.corpse_expires_at_ms {
        Some(d) => now >= d,
        None => false,
    };
    if expired {
        return RevivalDecision::Expire;
    }
    let due = match s.revive_at_ms {
        Some(d) => now > d,
        None => false,
    };
    if s.revival_count < s.life_count && due {
        RevivalDecision::Revive
    } else {
        RevivalDecision::Wait
    }
}

/// `a / b` rounded toward zero, as integer division does.
pub open spec fn spec_div_toward_zero(a: int, b: int) -> int {
    if a >= 0 {
        a / b
    } else {
        -((-a) / b)
    }
}

/// The HP a zombie rises with on its `count`-th revival: a quarter less of
/// its maximum each time.
pub open spec fn spec_revived_hp(max_hp: i32, count: u8) -> int {
    spec_div_toward_zero(max_hp * (100 - 25 * count), 100)
}

/// The life a zombie rises to at `now` as incarnation `incarnation`: alive
/// with its reduced HP, free of entity statuses, acting again two seconds
/// later, its revival counted and its death times cleared.
pub fn revive_zombie(m: &mut NativeMonster, incarnation: u64, now: u64)
    requires
        old(m).special.revival matches Some(s) && s.revival_count < 4,
    ensures
        ({
            let s = old(m).special.revival->0;
            let count = (s.revival_count + 1) as u8;
            *final(m) == (NativeMonster {
                incarnation,
                entity_poison: 0,
                hp: spec_revived_hp(old(m).max_hp, count) as i32,
                dead: false,
                next_ai_ready_at_ms: now.saturating_add(2000),
                next_attack_ready_at_ms: now.saturating_add(2000),
                special: SpecialAi {
                    revival: Some(RevivingZombieState {
                        revival_count: count,
                        died_at_ms: None,
                        revive_at_ms: None,
                        corpse_expires_at_ms: None,
                        ..s
                    }),
                    ..old(m).special
                },
                ..*old(m)
            })
        }),
{
    let mut s = m.special.revival.take().unwrap();
    s.revival_count = s.revival_count + 1;
    s.died_at_ms = None;
    s.revive_at_ms = None;
    s.corpse_expires_at_ms = None;
    let pct: i64 = 100 - 25 * (s.revival_count as i64);
    assert(0 <= pct <= 100);
    let mh: i64 = m.max_hp as i64;
    assert(-214748364800 <= mh * pct <= 214748364700) by (nonlinear_arith)
        requires
            0 <= pct <= 100,
            -2147483648 <= mh <= 2147483647,
    ;
    let v: i64 = mh * pct;
    let hp: i64 = if v >= 0 { v / 100 } else { -((-v) / 100) };
    assert(hp == spec_revived_hp(m.max_hp, s.revival_count)) by (nonlinear_arith)
        requires
            pct == 100 - 25 * s.revival_count,
            v == mh * pct,
            mh == m.max_hp,
            hp == (if v >= 0 { v / 100 } else { -((-v) / 100) }),
    ;
    assert(-2147483648 <= hp <= 2147483647) by (nonlinear_arith)
        requires
            0 <= pct <= 100,
            v == mh * pct,
            -2147483648 <= mh <= 2147483647,
            hp == (if v >= 0 { v / 100 } else { -((-v) / 100) }),
    ;
    m.incarnation = incarnation;
    m.entity_poison = 0;
    m.hp = hp as i32;
    m.dead = false;
    m.next_ai_ready_at_ms = now.saturating_add(2000);
    m.next_attack_ready_at_ms = now.saturating_add(2000);
    m.special.revival = Some(s);
}

} // verus!
