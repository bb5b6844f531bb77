//! HellKnight (AI 97), HellLord (AI 98) and HellBomb (AI 99): the shared
//! encounter state, its admission rules, bomb reward ownership and the stage
//! a Lord gains when one of its knights dies.
use vstd::prelude::*;
use crate::types::{opt_session_view, Direction, SessionId};
use crate::monster::{HellState, NativeMonster, SpecialAi};
use crate::zone::{spec_monster_index, spec_player_index_by_object, find_monster, find_player_by_object, HellWorldState, ZoneRuntime};
use crate::ai::reward::{spec_tag_owner, spec_tag_until, tag_reward_owner};
use crate::rng::{draw_below, first_acceptance, spec_mix, state_after};
use crate::seqs::{contains_u32, retain_by};

verus! {

/// Whether `ai` is one of the Hell encounter monsters.
pub open spec fn spec_is_hell_ai(ai: u8) -> bool {
    97 <= ai <= 99
}

/// The state a Hell monster starts with: its explosion clock ten seconds out.
pub open spec fn spec_fresh_hell_state(s: HellState, now: u64) -> bool {
    &&& s.stage == 0
    &&& !s.begun
    &&& !s.raged
    &&& s.rage_until == 0
    &&& s.explosion_time == (if now + 10000 > u64::MAX { u64::MAX as int } else { now + 10000 })
    &&& s.explosion_due is None
    &&& s.parent is None
    &&& s.parent_incarnation is None
    &&& !s.death_notified
    &&& s.rng == 0
    &&& s.reward_owner is None
    &&& s.reward_until == 0
}

fn fresh_hell_state(now: u64) -> (s: HellState)
    ensures
        spec_fresh_hell_state(s, now),
{
    HellState {
        stage: 0,
        begun: false,
        raged: false,
        rage_until: 0,
        explosion_time: now.saturating_add(10000),
        explosion_due: None,
        parent: None,
        parent_incarnation: None,
        death_notified: false,
        rng: 0,
        reward_owner: None,
        reward_until: 0,
    }
}

/// Gives a Hell monster its state if it has none; a Lord and a Bomb always
/// face up.
pub fn initialize_hell_monster(m: &mut NativeMonster, now: u64)
    ensures
        !spec_is_hell_ai(old(m).ai) ==> *final(m) == *old(m),
        spec_is_hell_ai(old(m).ai) ==> {
            &&& final(m).special.hell matches Some(s) && (old(m).special.hell is None
                ==> spec_fresh_hell_state(s, now))
            &&& old(m).special.hell is Some ==> final(m).special.hell == old(m).special.hell
            &&& final(m).direction == (if old(m).ai == 98 || old(m).ai == 99 {
                Direction::Up
            } else {
                old(m).direction
            })
            &&& *final(m) == (NativeMonster {
                special: SpecialAi { hell: final(m).special.hell, ..old(m).special },
                direction: final(m).direction,
                ..*old(m)
            })
        },
{
    if m.ai < 97 || m.ai > 99 {
        return;
    }
    if m.special.hell.is_none() {
        m.special.hell = Some(fresh_hell_state(now));
    }
    if m.ai == 98 || m.ai == 99 {
        m.direction = Direction::Up;
    }
}

/// A Lord and a Bomb never move.
pub fn hell_can_move(m: &NativeMonster) -> (r: bool)
    ensures
        r == !(m.ai == 98 || m.ai == 99),
{
    !(m.ai == 98 || m.ai == 99)
}

/// A Bomb plays no struck reaction.
pub fn hell_accepts_struck(m: &NativeMonster) -> (r: bool)
    ensures
        r == (m.ai != 99),
{
    m.ai != 99
}

/// A Lord and a Bomb never regenerate.
pub fn hell_can_regen(m: &NativeMonster) -> (r: bool)
    ensures
        r == !(m.ai == 98 || m.ai == 99),
{
    !(m.ai == 98 || m.ai == 99)
}

/// A Lord and a Bomb take no poison.
pub fn hell_accepts_poison(m: &NativeMonster) -> (r: bool)
    ensures
        r == !(m.ai == 98 || m.ai == 99),
{
    !(m.ai == 98 || m.ai == 99)
}

/// A Lord can be attacked only from its fourth stage on.
pub fn hell_accepts_attack(m: &NativeMonster) -> (r: bool)
    ensures
        r == (m.ai != 98 || (m.special.hell matches Some(s) && s.stage >= 4)),
{
    if m.ai != 98 {
        return true;
    }
    match &m.special.hell {
        Some(s) => s.stage >= 4,
        None => false,
    }
}

/// A Hell state after a hit by `owner` at `now`, starting from `prev` (or a
/// fresh state): only the reward claim changes, tagged when there is an owner.
pub open spec fn spec_hell_hit(
    prev: Option<HellState>,
    s: HellState,
    owner: Option<Seq<char>>,
    now: u64,
) -> bool {
    let p_owner = match prev {
        Some(p) => opt_session_view(p.reward_owner),
        None => None,
    };
    let p_until: u64 = match prev {
        Some(p) => p.reward_until,
        None => 0,
    };
    &&& match prev {
        Some(p) => (HellState { reward_owner: None, reward_until: 0, ..s }) == (HellState {
            reward_owner: None,
            reward_until: 0,
            ..p
        }),
        None => spec_fresh_hell_state(HellState { reward_owner: None, reward_until: 0, ..s }, now),
    }
    &&& match owner {
        None => opt_session_view(s.reward_owner) == p_owner && s.reward_until == p_until,
        Some(o) => opt_session_view(s.reward_owner) == spec_tag_owner(p_owner, p_until, o, now)
            && s.reward_until == spec_tag_until(p_owner, p_until, o, now),
    }
}

/// A hit on a Bomb by `owner` at `now` tags its kill reward.
pub fn hell_on_damage(m: &mut NativeMonster, owner: Option<&SessionId>, now: u64)
    ensures
        old(m).ai != 99 ==> *final(m) == *old(m),
        old(m).ai == 99 ==> (final(m).special.hell matches Some(s) && spec_hell_hit(
            old(m).special.hell,
            s,
            match owner {
                Some(o) => Some(o@),
                None => None,
            },
            now,
        )),
        old(m).ai == 99 ==> *final(m) == (NativeMonster {
            special: SpecialAi { hell: final(m).special.hell, ..old(m).special },
            direction: Direction::Up,
            ..*old(m)
        }),
{
    if m.ai != 99 {
        return;
    }
    initialize_hell_monster(m, now);
    match owner {
        None => {},
        Some(o) => match m.special.hell.take() {
            Some(mut s) => {
                tag_reward_owner(&mut s.reward_owner, &mut s.reward_until, o, now);
                m.special.hell = Some(s);
            },
            None => {},
        },
    }
}

/// The stream state a Hell roll starts from: the stored state, or a seed
/// derived from the monster id when none was stored.
pub open spec fn spec_hell_seed(rng: u64, id: u32) -> u64 {
    if rng == 0 {
        ((id as u64) << 32u64) ^ 0x9849u64
    } else {
        rng
    }
}

/// The next roll in `0..upper` from a Hell monster's stream, seeded from its
/// id on first use; an empty range gives 0 without touching the stream.
pub fn hell_roll(s: &mut HellState, id: u32, upper: u64) -> (r: u64)
    ensures
        upper == 0 ==> r == 0 && *final(s) == *old(s),
        upper > 0 ==> exists|k: nat|
            first_acceptance(spec_hell_seed(old(s).rng, id), upper, k) && final(s).rng
                == state_after(spec_hell_seed(old(s).rng, id), k),
        upper > 0 ==> r == spec_mix(final(s).rng) % upper && r < upper,
        upper > 0 ==> *final(s) == (HellState { rng: final(s).rng, ..*old(s) }),
{
    if upper == 0 {
        return 0;
    }
    let mut state: u64 = if s.rng == 0 {
        ((id as u64) << 32u64) ^ 0x9849u64
    } else {
        s.rng
    };
    let ghost seed = state;
    assert(seed == spec_hell_seed(old(s).rng, id));
    let r = draw_below(&mut state, upper);
    proof {
        let k = choose|k: nat| first_acceptance(seed, upper, k) && state == state_after(seed, k);
        assert(first_acceptance(spec_hell_seed(old(s).rng, id), upper, k));
    }
    s.rng = state;
    r
}

/// Whether a stage update is for a parent other than `id`.
pub open spec fn spec_not_parent(id: u32) -> spec_fn(u32) -> bool {
    |p: u32| p != id
}

/// Whether a recorded parent life is not `id`'s.
pub open spec fn spec_life_not_parent(id: u32) -> spec_fn((u32, u64)) -> bool {
    |e: (u32, u64)| e.0 != id
}

impl ZoneRuntime {
    /// Forgets the pending stage updates of a retired Lord, so that a new
    /// monster reusing its id never receives them.
    pub fn retire_hell_parent(&mut self, id: u32)
        ensures
            *final(self) == (ZoneRuntime { hell_world: final(self).hell_world, ..*old(self) }),
            (match old(self).hell_world {
                None => final(self).hell_world is None,
                Some(w) => final(self).hell_world matches Some(v) && v.stage_updates@
                    == w.stage_updates@.filter(spec_not_parent(id)) && v.stage_update_lives@
                    == w.stage_update_lives@.filter(spec_life_not_parent(id)),
            }),
    {
        match self.hell_world.take() {
            Some(mut w) => {
                let ghost p1 = spec_not_parent(id);
                let ghost p2 = spec_life_not_parent(id);
                retain_by(
                    &mut w.stage_updates,
                    (|p: &u32| -> (k: bool)
                        ensures
                            k == (*p != id),
                        { *p != id }),
                    Ghost(p1),
                );
                retain_by(
                    &mut w.stage_update_lives,
                    (|e: &(u32, u64)| -> (k: bool)
                        ensures
                            k == (e.0 != id),
                        { e.0 != id }),
                    Ghost(p2),
                );
                self.hell_world = Some(w);
            },
            None => {},
        }
    }
}

/// The Hell state of `m` with a reward owned by `session` forgotten.
pub open spec fn spec_hell_owner_cleared(m: NativeMonster, session: Option<Seq<char>>, n: NativeMonster) -> bool {
    match m.special.hell {
        Some(s) => if session is Some && opt_session_view(s.reward_owner) == session {
            n == NativeMonster {
                special: SpecialAi {
                    hell: Some(HellState { reward_owner: None, ..s }),
                    ..m.special
                },
                ..m
            }
        } else {
            n == m
        },
        None => n == m,
    }
}

fn clear_hell_owner(m: &mut NativeMonster, session: &Option<SessionId>)
    ensures
        spec_hell_owner_cleared(*old(m), opt_session_view(*session), *final(m)),
{
    let clear = match (&m.special.hell, session) {
        (Some(s), Some(_)) => crate::types::same_opt_session(&s.reward_owner, session),
        _ => false,
    };
    if clear {
        match m.special.hell.take() {
            Some(mut s) => {
                s.reward_owner = None;
                m.special.hell = Some(s);
            },
            None => {},
        }
    }
}

impl ZoneRuntime {
    /// The player whose object id is `id` leaves or dies: every Bomb reward
    /// that player's session owns is forgotten.
    pub fn clear_hell_targets(&mut self, id: u32)
        ensures
            *final(self) == (ZoneRuntime { native_monsters: final(self).native_monsters, ..*old(self) }),
            final(self).native_monsters@.len() == old(self).native_monsters@.len(),
            forall|k: int|
                0 <= k < old(self).native_monsters@.len() ==> spec_hell_owner_cleared(
                    old(self).native_monsters@[k],
                    match spec_player_index_by_object(old(self).players@, id) {
                        Some(p) => Some(old(self).players@[p].session_id@),
                        None => None,
                    },
                    #[trigger] final(self).native_monsters@[k],
                ),
    {
        let session = match find_player_by_object(&self.players, id) {
            Some(p) => Some(self.players[p].session_id.duplicate()),
            None => None,
        };
        let ghost sv = opt_session_view(session);
        let ghost before = self.native_monsters@;
        let mut i: usize = 0;
        while i < self.native_monsters.len()
            invariant
                *self == (ZoneRuntime { native_monsters: self.native_monsters, ..*old(self) }),
                before == old(self).native_monsters@,
                self.native_monsters@.len() == before.len(),
                0 <= i <= before.len(),
                sv == opt_session_view(session),
                forall|k: int|
                    0 <= k < i ==> spec_hell_owner_cleared(before[k], sv, #[trigger] self.native_monsters@[k]),
                forall|k: int| i <= k < before.len() ==> #[trigger] self.native_monsters@[k] == before[k],
            decreases before.len() - i,
        {
            let mut m = self.native_monsters.remove(i);
            clear_hell_owner(&mut m, &session);
            self.native_monsters.insert(i, m);
            i += 1;
        }
    }
}

/// The hell world after a Lord `parent` of life `incarnation` gains a stage:
/// the life is recorded (replacing an earlier record for the same Lord) and
/// the Lord is queued for a stage broadcast once.
pub open spec fn spec_stage_queued(
    before: Option<HellWorldState>,
    after: Option<HellWorldState>,
    parent: u32,
    incarnation: u64,
) -> bool {
    let updates: Seq<u32> = match before {
        Some(w) => w.stage_updates@,
        None => Seq::empty(),
    };
    let lives: Seq<(u32, u64)> = match before {
        Some(w) => w.stage_update_lives@,
        None => Seq::empty(),
    };
    after matches Some(w) && {
        &&& w.stage_update_lives@ == lives.filter(spec_life_not_parent(parent)).push(
            (parent, incarnation),
        )
        &&& w.stage_updates@ == (if updates.contains(parent) {
            updates
        } else {
            updates.push(parent)
        })
    }
}

/// Whether the knight at `i` is a dead HellKnight whose death was not yet
/// reported.
pub open spec fn spec_unreported_knight(m: NativeMonster) -> bool {
    &&& m.ai == 97
    &&& m.dead
    &&& m.special.hell matches Some(s) && !s.death_notified
}

/// The Lord a reported knight raises: its recorded parent, when the parent
/// life is recorded and that exact life is still the Lord at index `j`.
pub open spec fn spec_knight_lord(monsters: Seq<NativeMonster>, knight: NativeMonster, j: int) -> bool {
    knight.special.hell matches Some(s) && {
        &&& s.parent matches Some(p) && spec_monster_index(monsters, p) == Some(j)
        &&& s.parent_incarnation matches Some(pi) && monsters[j].incarnation == pi
        &&& monsters[j].ai == 98
    }
}

/// A knight whose death is now reported: only its reported flag changed.
#[verifier::opaque]
pub open spec fn spec_knight_reported(a: NativeMonster, b: NativeMonster) -> bool {
    a.special.hell matches Some(ks) && b == (NativeMonster {
        special: SpecialAi {
            hell: Some(HellState { death_notified: true, ..ks }),
            ..a.special
        },
        ..a
    })
}

/// A Lord raised by a knight's death at `now`: one stage more (wrapping),
/// enraged for two minutes; nothing else changed.
#[verifier::opaque]
pub open spec fn spec_lord_raised(a: NativeMonster, b: NativeMonster, now: u64) -> bool {
    a.special.hell matches Some(ls) && b == (NativeMonster {
        special: SpecialAi {
            hell: Some(
                HellState {
                    stage: ls.stage.wrapping_add(1),
                    raged: true,
                    rage_until: now.saturating_add(120000),
                    ..ls
                },
            ),
            ..a.special
        },
        ..a
    })
}

/// The zone after the knight at index `i` is marked as reported.
pub open spec fn spec_knight_step(a: ZoneRuntime, b: ZoneRuntime, i: int) -> bool {
    &&& 0 <= i < a.native_monsters@.len()
    &&& b.native_monsters@ == a.native_monsters@.update(i, b.native_monsters@[i])
    &&& spec_knight_reported(a.native_monsters@[i], b.native_monsters@[i])
    &&& b == (ZoneRuntime { native_monsters: b.native_monsters, ..a })
}

/// The zone after a knight's death reaches the Lord with id `p` and life
/// `pi`: that exact life (if it is still the Lord) is raised and queued for
/// a stage broadcast; otherwise nothing changes.
pub open spec fn spec_lord_step(a: ZoneRuntime, b: ZoneRuntime, p: u32, pi: u64, now: u64) -> bool {
    match spec_monster_index(a.native_monsters@, p) {
        Some(j) => if a.native_monsters@[j].ai == 98 && a.native_monsters@[j].incarnation == pi {
            &&& b.native_monsters@ == a.native_monsters@.update(j, b.native_monsters@[j])
            &&& spec_lord_raised(a.native_monsters@[j], b.native_monsters@[j], now)
            &&& spec_stage_queued(a.hell_world, b.hell_world, p, pi)
            &&& b == (ZoneRuntime {
                native_monsters: b.native_monsters,
                hell_world: b.hell_world,
                ..a
            })
        } else {
            b == a
        },
        None => b == a,
    }
}

/// Every Lord carries its Hell state.
pub open spec fn spec_lords_initialized(monsters: Seq<NativeMonster>) -> bool {
    forall|j: int| 0 <= j < monsters.len() && (#[trigger] monsters[j]).ai == 98 ==> monsters[j].special.hell is Some
}

impl ZoneRuntime {
    /// Reports the death of HellKnight `id` once: the knight is marked, and
    /// the Lord it names (the exact recorded life) gains a stage, rages for
    /// two minutes and is queued for a stage broadcast. A knight without a
    /// recorded parent life raises nobody.
    pub fn hell_knight_died(&mut self, id: u32, now: u64)
        requires
            spec_lords_initialized(old(self).native_monsters@),
        ensures
            match spec_monster_index(old(self).native_monsters@, id) {
                Some(i) => if spec_unreported_knight(old(self).native_monsters@[i]) {
                    let ks = old(self).native_monsters@[i].special.hell->0;
                    exists|mid: ZoneRuntime|
                        spec_knight_step(*old(self), mid, i) && (if ks.parent is Some
                            && ks.parent_incarnation is Some {
                            spec_lord_step(
                                mid,
                                *final(self),
                                ks.parent->0,
                                ks.parent_incarnation->0,
                                now,
                            )
                        } else {
                            *final(self) == mid
                        })
                } else {
                    *final(self) == *old(self)
                },
                None => *final(self) == *old(self),
            },
    {
        let i = match find_monster(&self.native_monsters, id) {
            Some(i) => i,
            None => {
                return;
            },
        };
        let reported = match &self.native_monsters[i].special.hell {
            Some(s) => s.death_notified,
            None => true,
        };
        if self.native_monsters[i].ai != 97 || !self.native_monsters[i].dead || reported {
            return;
        }
        let ghost m0 = self.native_monsters@;
        let mut knight = self.native_monsters.remove(i);
        let (parent, parent_incarnation) = mark_knight_reported(&mut knight);
        self.native_monsters.insert(i, knight);
        assert(self.native_monsters@ == m0.update(i as int, self.native_monsters@[i as int]));
        let ghost mid = *self;
        assert(spec_knight_step(*old(self), mid, i as int));
        proof {
            assert forall|k: int| 0 <= k < m0.len() && (#[trigger] m0[k]).ai == 98 implies self.native_monsters@[k].special.hell is Some by {
                if k == i {
                } else {
                    assert(self.native_monsters@[k] == m0[k]);
                }
            }
        }
        match (parent, parent_incarnation) {
            (Some(p), Some(pi)) => {
                self.raise_knight_lord(p, pi, now);
            },
            _ => {},
        }
    }

    fn raise_knight_lord(&mut self, p: u32, pi: u64, now: u64)
        requires
            forall|j: int|
                0 <= j < old(self).native_monsters@.len() && (#[trigger] old(self).native_monsters@[j]).ai
                    == 98 ==> old(self).native_monsters@[j].special.hell is Some,
        ensures
            spec_lord_step(*old(self), *final(self), p, pi, now),
    {
        let j = match find_monster(&self.native_monsters, p) {
            Some(j) => j,
            None => {
                return;
            },
        };
        if self.native_monsters[j].ai != 98 || self.native_monsters[j].incarnation != pi {
            return;
        }
        let ghost m1 = self.native_monsters@;
        let mut lord = self.native_monsters.remove(j);
        raise_lord(&mut lord, now);
        self.native_monsters.insert(j, lord);
        assert(self.native_monsters@ == m1.update(j as int, self.native_monsters@[j as int]));
        let world = self.hell_world.take();
        self.hell_world = Some(queue_stage_update(world, p, pi));
    }
}

fn mark_knight_reported(knight: &mut NativeMonster) -> (r: (Option<u32>, Option<u64>))
    requires
        old(knight).special.hell is Some,
    ensures
        spec_knight_reported(*old(knight), *final(knight)),
        final(knight).ai == old(knight).ai,
        final(knight).object_id == old(knight).object_id,
        final(knight).incarnation == old(knight).incarnation,
        r == (old(knight).special.hell->0.parent, old(knight).special.hell->0.parent_incarnation),
{
    reveal(spec_knight_reported);
    match knight.special.hell.take() {
        Some(mut s) => {
            s.death_notified = true;
            let pp = (s.parent, s.parent_incarnation);
            knight.special.hell = Some(s);
            pp
        },
        None => (None, None),
    }
}

fn raise_lord(lord: &mut NativeMonster, now: u64)
    requires
        old(lord).special.hell is Some,
    ensures
        spec_lord_raised(*old(lord), *final(lord), now),
        final(lord).ai == old(lord).ai,
        final(lord).object_id == old(lord).object_id,
        final(lord).incarnation == old(lord).incarnation,
{
    reveal(spec_lord_raised);
    match lord.special.hell.take() {
        Some(mut s) => {
            s.stage = s.stage.wrapping_add(1);
            s.raged = true;
            s.rage_until = now.saturating_add(120000);
            lord.special.hell = Some(s);
        },
        None => {},
    }
}

fn queue_stage_update(world: Option<HellWorldState>, p: u32, incarnation: u64) -> (r: HellWorldState)
    ensures
        spec_stage_queued(world, Some(r), p, incarnation),
{
    let ghost before = world;
    let mut w = match world {
        Some(w) => w,
        None => HellWorldState { stage_updates: Vec::new(), stage_update_lives: Vec::new() },
    };
    assert(before is None ==> w.stage_update_lives@.filter(spec_life_not_parent(p)) == Seq::<
        (u32, u64),
    >::empty()) by {
        reveal_with_fuel(Seq::filter, 1);
    }
    let ghost lp = spec_life_not_parent(p);
    retain_by(
        &mut w.stage_update_lives,
        (|e: &(u32, u64)| -> (k: bool)
            ensures
                k == (e.0 != p),
            { e.0 != p }),
        Ghost(lp),
    );
    w.stage_update_lives.push((p, incarnation));
    if !contains_u32(&w.stage_updates, p) {
        w.stage_updates.push(p);
    }
    w
}

} // verus!
