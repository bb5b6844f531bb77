//! Hugger (AI 69/70): its fuse and action clocks, its unrejected random
//! stream, kill-reward ownership and the player lives its death blast spares.
use vstd::prelude::*;
use crate::types::{opt_session_view, spec_tile_distance, tile_distance, EntityRef, EntityRefView, Point, SessionId};
use crate::entity::{insert_sorted, spec_monster_candidates, spec_monster_ref, spec_targets_sorted, tview, tviews, EntityTargetPurpose, NativeEntityTarget, TargetView};
use crate::guild::{guild_friend, spec_guild_friend};
use crate::monster::{HuggerHit, HuggerState, NativeMonster, SpecialAi, ZonePlayer};
use crate::zone::{find_monster, find_player, spec_monster_index, spec_player_index, ZoneRuntime};
use crate::ai::reward::{spec_tag_owner, spec_tag_until, tag_reward_owner};
use crate::rng::{spec_mix, GOLDEN, MIX_MUL_A, MIX_MUL_B};
use crate::seqs::{contains_u32, insert_unique, partition_by, retain_by, spec_not, spec_set_insert};

verus! {

/// `n` read as at least one.
pub open spec fn spec_at_least_one(n: u64) -> u64 {
    if n == 0 {
        1
    } else {
        n
    }
}

impl HuggerState {
    /// The next roll in `0..max(n, 1)`: one Weyl step of the stream, finalized
    /// and reduced without rejection.
    pub fn roll(&mut self, n: u64) -> (r: u64)
        ensures
            final(self).rng == old(self).rng.wrapping_add(GOLDEN),
            r == spec_mix(final(self).rng) % spec_at_least_one(n),
            *final(self) == (HuggerState { rng: final(self).rng, ..*old(self) }),
    {
        self.rng = self.rng.wrapping_add(GOLDEN);
        let x = self.rng;
        let a = (x ^ (x >> 30u64)).wrapping_mul(MIX_MUL_A);
        let b = (a ^ (a >> 27u64)).wrapping_mul(MIX_MUL_B);
        let n1 = if n == 0 { 1 } else { n };
        (b ^ (b >> 31u64)) % n1
    }
}

/// Whether `ai` is a Hugger.
pub open spec fn spec_is_hugger(ai: u8) -> bool {
    ai == 69 || ai == 70
}

/// The state a Hugger starts with at `now`: a five-minute fuse, its first
/// action two seconds out, its stream seeded from its id and the clock.
pub open spec fn spec_fresh_hugger(s: HuggerState, id: u32, now: u64) -> bool {
    &&& s.fuse_ms == now.saturating_add(300000)
    &&& s.action_ms == now.saturating_add(2000)
    &&& s.rng == (id as u64) ^ now
    &&& s.death_ms is None
    &&& !s.finished
    &&& s.hits@.len() == 0
    &&& s.excluded_lives@.len() == 0
    &&& s.reward_owner is None
    &&& s.reward_until_ms == 0
}

/// Gives a Hugger its state if it has none.
pub fn initialize_hugger(m: &mut NativeMonster, id: u32, now: u64)
    ensures
        !spec_is_hugger(old(m).ai) || old(m).special.hugger is Some ==> *final(m) == *old(m),
        spec_is_hugger(old(m).ai) && old(m).special.hugger is None ==> (final(m).special.hugger matches Some(
            s,
        ) && spec_fresh_hugger(s, id, now)) && *final(m) == (NativeMonster {
            special: SpecialAi { hugger: final(m).special.hugger, ..old(m).special },
            ..*old(m)
        }),
{
    if !(m.ai == 69 || m.ai == 70) || m.special.hugger.is_some() {
        return;
    }
    m.special.hugger = Some(
        HuggerState {
            fuse_ms: now.saturating_add(300000),
            action_ms: now.saturating_add(2000),
            rng: (id as u64) ^ now,
            death_ms: None,
            finished: false,
            hits: Vec::new(),
            excluded_lives: Vec::new(),
            reward_owner: None,
            reward_until_ms: 0,
        },
    );
}

/// A Hugger state after a hit by `owner` at `now`: only the reward claim
/// changes, tagged when there is an owner.
pub open spec fn spec_hugger_hit(a: HuggerState, b: HuggerState, owner: Option<Seq<char>>, now: u64) -> bool {
    &&& (HuggerState { reward_owner: None, reward_until_ms: 0, ..b }) == (HuggerState {
        reward_owner: None,
        reward_until_ms: 0,
        ..a
    })
    &&& match owner {
        None => b == a,
        Some(o) => opt_session_view(b.reward_owner) == spec_tag_owner(
            opt_session_view(a.reward_owner),
            a.reward_until_ms,
            o,
            now,
        ) && b.reward_until_ms == spec_tag_until(
            opt_session_view(a.reward_owner),
            a.reward_until_ms,
            o,
            now,
        ),
    }
}

fn tag_hugger(s: &mut HuggerState, owner: Option<&SessionId>, now: u64)
    ensures
        spec_hugger_hit(
            *old(s),
            *final(s),
            match owner {
                Some(o) => Some(o@),
                None => None,
            },
            now,
        ),
{
    match owner {
        Some(o) => tag_reward_owner(&mut s.reward_owner, &mut s.reward_until_ms, o, now),
        None => {},
    }
}

/// A hit on a Hugger by `owner` at `now`: the Hugger is initialized and its
/// kill reward tagged.
pub fn hugger_on_damage(m: &mut NativeMonster, id: u32, owner: Option<&SessionId>, now: u64)
    ensures
        !spec_is_hugger(old(m).ai) ==> *final(m) == *old(m),
        spec_is_hugger(old(m).ai) ==> (final(m).special.hugger matches Some(t) && match old(m).special.hugger {
            Some(s) => spec_hugger_hit(
                s,
                t,
                match owner {
                    Some(o) => Some(o@),
                    None => None,
                },
                now,
            ),
            None => exists|f: HuggerState|
                spec_fresh_hugger(f, id, now) && spec_hugger_hit(
                    f,
                    t,
                    match owner {
                        Some(o) => Some(o@),
                        None => None,
                    },
                    now,
                ),
        }),
        spec_is_hugger(old(m).ai) ==> *final(m) == (NativeMonster {
            special: SpecialAi { hugger: final(m).special.hugger, ..old(m).special },
            ..*old(m)
        }),
{
    if !(m.ai == 69 || m.ai == 70) {
        return;
    }
    initialize_hugger(m, id, now);
    match m.special.hugger.take() {
        Some(mut s) => {
            let ghost f = s;
            tag_hugger(&mut s, owner, now);
            m.special.hugger = Some(s);
        },
        None => {},
    }
}

impl ZoneRuntime {
    /// Whether Hugger `id` has a death blast that has not finished.
    pub fn native_monster_has_pending_hugger_death(&self, id: u32) -> (r: bool)
        ensures
            r == (spec_monster_index(self.native_monsters@, id) matches Some(i)
                && self.native_monsters@[i].special.hugger matches Some(s) && s.death_ms is Some
                && !s.finished),
    {
        match find_monster(&self.native_monsters, id) {
            Some(i) => match &self.native_monsters[i].special.hugger {
                Some(s) => s.death_ms.is_some() && !s.finished,
                None => false,
            },
            None => false,
        }
    }
}

/// Hits not aimed at `target`.
pub open spec fn spec_hugger_hit_keeps(target: u32) -> spec_fn(HuggerHit) -> bool {
    |h: HuggerHit| h.target != target
}

/// Whether a reward claim belongs to a session that has left or whose
/// player is the life `target`.
pub open spec fn spec_owner_gone(owner: Option<SessionId>, players: Seq<ZonePlayer>, target: u32) -> bool {
    match owner {
        Some(o) => match spec_player_index(players, o@) {
            Some(p) => players[p].object_id == target,
            None => true,
        },
        None => false,
    }
}

fn owner_gone(owner: &Option<SessionId>, players: &Vec<ZonePlayer>, target: u32) -> (r: bool)
    ensures
        r == spec_owner_gone(*owner, players@, target),
{
    match owner {
        Some(o) => match find_player(players, o) {
            Some(p) => players[p].object_id == target,
            None => true,
        },
        None => false,
    }
}

/// A Hugger state after the player life `target` is retired: its hits on
/// the life are dropped, a reward that life's session (or a departed one)
/// owns is forgotten, and a pending blast excludes the life.
pub open spec fn spec_hugger_state_cleared(a: HuggerState, b: HuggerState, target: u32, players: Seq<ZonePlayer>) -> bool {
    &&& b.hits@ == a.hits@.filter(spec_hugger_hit_keeps(target))
    &&& if spec_owner_gone(a.reward_owner, players, target) {
        b.reward_owner is None && b.reward_until_ms == 0
    } else {
        b.reward_owner == a.reward_owner && b.reward_until_ms == a.reward_until_ms
    }
    &&& b.excluded_lives@ == (if a.death_ms is Some && !a.finished {
        spec_set_insert(a.excluded_lives@, target)
    } else {
        a.excluded_lives@
    })
    &&& b == (HuggerState {
        hits: b.hits,
        reward_owner: b.reward_owner,
        reward_until_ms: b.reward_until_ms,
        excluded_lives: b.excluded_lives,
        ..a
    })
}

fn clear_hugger_state(s: &mut HuggerState, target: u32, players: &Vec<ZonePlayer>)
    ensures
        spec_hugger_state_cleared(*old(s), *final(s), target, players@),
{
    let ghost keep = spec_hugger_hit_keeps(target);
    retain_by(
        &mut s.hits,
        (|h: &HuggerHit| -> (k: bool)
            ensures
                k == (h.target != target),
            { h.target != target }),
        Ghost(keep),
    );
    if owner_gone(&s.reward_owner, players, target) {
        s.reward_owner = None;
        s.reward_until_ms = 0;
    }
    if s.death_ms.is_some() && !s.finished {
        insert_unique(&mut s.excluded_lives, target);
    }
}

/// A monster after the sweep of `clear_hugger_target_life`: its hugger state (if any)
/// cleared, nothing else changed.
pub open spec fn spec_hugger_monster_cleared(a: NativeMonster, b: NativeMonster, id: u32, players: Seq<ZonePlayer>) -> bool {
    match a.special.hugger {
        Some(s) => b.special.hugger matches Some(t) && spec_hugger_state_cleared(s, t, id, players) && b
            == (NativeMonster { special: SpecialAi { hugger: b.special.hugger, ..a.special }, ..a }),
        None => b == a,
    }
}

fn clear_hugger_monster(m: &mut NativeMonster, id: u32, players: &Vec<ZonePlayer>)
    ensures
        spec_hugger_monster_cleared(*old(m), *final(m), id, players@),
{
    match m.special.hugger.take() {
        Some(mut s) => {
            clear_hugger_state(&mut s, id, players);
            m.special.hugger = Some(s);
        },
        None => {},
    }
}

impl ZoneRuntime {
    /// The player life `target` leaves, dies or revives: every Hugger forgets
    /// its hits on that life and a reward its session held, and a pending
    /// blast spares it.
    pub fn clear_hugger_target_life(&mut self, id: u32)
        ensures
            *final(self) == (ZoneRuntime { native_monsters: final(self).native_monsters, ..*old(self) }),
            final(self).native_monsters@.len() == old(self).native_monsters@.len(),
            forall|k: int|
                0 <= k < old(self).native_monsters@.len() ==> spec_hugger_monster_cleared(
                    old(self).native_monsters@[k],
                    #[trigger] final(self).native_monsters@[k],
                    id, old(self).players@,
                ),
    {
        let ghost before = self.native_monsters@;
        let mut i: usize = 0;
        while i < self.native_monsters.len()
            invariant
                *self == (ZoneRuntime { native_monsters: self.native_monsters, ..*old(self) }),
                before == old(self).native_monsters@,
                self.native_monsters@.len() == before.len(),
                0 <= i <= before.len(),
                forall|k: int|
                    0 <= k < i ==> spec_hugger_monster_cleared(before[k], #[trigger] self.native_monsters@[k], id, old(self).players@),
                forall|k: int| i <= k < before.len() ==> #[trigger] self.native_monsters@[k] == before[k],
            decreases before.len() - i,
        {
            let mut m = self.native_monsters.remove(i);
            clear_hugger_monster(&mut m, id, &self.players);
            self.native_monsters.insert(i, m);
            i += 1;
        }
    }
}

/// Whether a Hugger `m` may grab player `p`: a living player outside the
/// safe zone, adjacent to it, visible when sight is asked, not of its
/// friendly guild.
pub open spec fn spec_hugger_player_target(m: NativeMonster, p: ZonePlayer, sight: bool) -> bool {
    &&& !p.dead
    &&& !p.in_safe_zone
    &&& (!sight || !p.hidden)
    &&& spec_tile_distance(p.position, m.position) <= 1
    &&& !spec_guild_friend(m.friendly_guild, p.guild_name)
}

/// The players among the first `n` of `players` that Hugger `m` may grab,
/// in player order.
pub open spec fn spec_hugger_player_candidates(players: Seq<ZonePlayer>, m: NativeMonster, sight: bool, n: int) -> Seq<
    TargetView,
>
    decreases n,
{
    if n <= 0 {
        Seq::empty()
    } else {
        let prev = spec_hugger_player_candidates(players, m, sight, n - 1);
        let p = players[n - 1];
        if spec_hugger_player_target(m, p, sight) {
            prev.push(
                TargetView {
                    reference: EntityRefView::Player {
                        session: p.session_id@,
                        object_id: p.object_id,
                        life_generation: p.life_generation,
                    },
                    object_id: p.object_id,
                    position: p.position,
                },
            )
        } else {
            prev
        }
    }
}

/// The purpose of a Hugger target search: a visible effect when sight is
/// asked, otherwise any landing effect.
pub open spec fn spec_hugger_purpose(sight: bool) -> EntityTargetPurpose {
    if sight {
        EntityTargetPurpose::VisibleImpact
    } else {
        EntityTargetPurpose::Impact
    }
}

impl ZoneRuntime {
    /// The lives Hugger `id` (standing as `m`) may grab: adjacent players
    /// (see [`spec_hugger_player_target`]) and the adjacent player-owned
    /// monsters it may act on, nearest first, then by row, column and id.
    pub fn hugger_targets(&self, id: u32, m: &NativeMonster, sight: bool, now: u64) -> (r: Vec<NativeEntityTarget>)
        ensures
            spec_targets_sorted(r@, m.position),
            spec_monster_ref(*self, id) is None ==> tviews(r@).to_multiset()
                == spec_hugger_player_candidates(self.players@, *m, sight, self.players@.len() as int).to_multiset(),
            spec_monster_ref(*self, id) is Some ==> tviews(r@).to_multiset() == (spec_monster_candidates(
                *self,
                spec_monster_ref(*self, id).unwrap(),
                m.position,
                1,
                spec_hugger_purpose(sight),
                now,
                self.native_monsters@.len() as int,
            ) + spec_hugger_player_candidates(self.players@, *m, sight, self.players@.len() as int)).to_multiset(),
    {
        let purpose = if sight {
            EntityTargetPurpose::VisibleImpact
        } else {
            EntityTargetPurpose::Impact
        };
        let mut out = self.native_entity_monster_targets(id, &m.position, 1, purpose, now);
        let ghost monsters = if spec_monster_ref(*self, id) is Some {
            spec_monster_candidates(
                *self,
                spec_monster_ref(*self, id).unwrap(),
                m.position,
                1,
                purpose,
                now,
                self.native_monsters@.len() as int,
            )
        } else {
            Seq::<TargetView>::empty()
        };
        proof {
            assert(tviews(out@).to_multiset() == monsters.to_multiset()) by {
                if spec_monster_ref(*self, id) is None {
                    assert(tviews(out@) =~= Seq::<TargetView>::empty());
                }
            }
            assert(monsters + spec_hugger_player_candidates(self.players@, *m, sight, 0) =~= monsters);
        }
        let mut i: usize = 0;
        while i < self.players.len()
            invariant
                0 <= i <= self.players@.len(),
                spec_targets_sorted(out@, m.position),
                tviews(out@).to_multiset() == (monsters + spec_hugger_player_candidates(
                    self.players@,
                    *m,
                    sight,
                    i as int,
                )).to_multiset(),
            decreases self.players@.len() - i,
        {
            let p = &self.players[i];
            if !p.dead && !p.in_safe_zone && (!sight || !p.hidden) && tile_distance(&p.position, &m.position) <= 1
                && !guild_friend(&m.friendly_guild, &p.guild_name) {
                let t = NativeEntityTarget {
                    reference: EntityRef::Player {
                        session_id: p.session_id.duplicate(),
                        object_id: p.object_id,
                        life_generation: p.life_generation,
                    },
                    object_id: p.object_id,
                    position: p.position,
                };
                proof {
                    let prev = spec_hugger_player_candidates(self.players@, *m, sight, i as int);
                    assert((monsters + prev).push(tview(t)) =~= monsters + prev.push(tview(t)));
                    vstd::seq_lib::to_multiset_build(monsters + prev, tview(t));
                }
                insert_sorted(&mut out, t, &m.position);
            }
            i += 1;
        }
        proof {
            if spec_monster_ref(*self, id) is None {
                assert(monsters + spec_hugger_player_candidates(self.players@, *m, sight, self.players@.len() as int)
                    =~= spec_hugger_player_candidates(self.players@, *m, sight, self.players@.len() as int));
            }
        }
        out
    }
}

/// What a Hugger does on its turn.
#[derive(Debug, Clone, Copy, PartialEq, Eq, Structural)]
pub enum HuggerAction {
    /// It moves on (or strikes from afar at) a player-owned monster.
    ChaseMonster,
    /// It grabs the adjacent player-owned monster.
    GrabMonster,
    /// It blows itself up.
    Explode,
    /// It goes after its player target.
    ChasePlayer,
}

/// The action of a Hugger of AI `ai` at `position` with fuse `fuse_ms` at
/// `now`, given its target (if any). Before the fuse burns down a monster
/// target is chased, or grabbed by a small Hugger (AI 69) standing next to
/// it; without a target, once the fuse has burnt down, or for a small
/// Hugger next to its player target, it explodes; otherwise it chases its
/// player.
pub open spec fn spec_hugger_action(ai: u8, position: Point, fuse_ms: u64, now: u64, target: Option<(EntityRefView, Point)>) -> HuggerAction {
    match target {
        Some((r, p)) => if now <= fuse_ms && r is Monster {
            if ai == 70 || spec_tile_distance(position, p) > 1 {
                HuggerAction::ChaseMonster
            } else {
                HuggerAction::GrabMonster
            }
        } else if now > fuse_ms || (ai == 69 && r is Player && spec_tile_distance(p, position) <= 1) {
            HuggerAction::Explode
        } else {
            HuggerAction::ChasePlayer
        },
        None => HuggerAction::Explode,
    }
}

/// The view of an optional chosen target.
pub open spec fn spec_chosen_view(t: Option<&NativeEntityTarget>) -> Option<(EntityRefView, Point)> {
    match t {
        Some(t) => Some((t.reference@, t.position)),
        None => None,
    }
}

/// The action of a Hugger (see [`spec_hugger_action`]).
pub fn hugger_action(ai: u8, position: &Point, fuse_ms: u64, now: u64, target: Option<&NativeEntityTarget>) -> (r: HuggerAction)
    ensures
        r == spec_hugger_action(ai, *position, fuse_ms, now, spec_chosen_view(target)),
{
    match target {
        None => HuggerAction::Explode,
        Some(t) => {
            let monster = t.reference.is_monster();
            if now <= fuse_ms && monster {
                if ai == 70 || tile_distance(position, &t.position) > 1 {
                    HuggerAction::ChaseMonster
                } else {
                    HuggerAction::GrabMonster
                }
            } else if now > fuse_ms || (ai == 69 && !monster && tile_distance(&t.position, position) <= 1) {
                HuggerAction::Explode
            } else {
                HuggerAction::ChasePlayer
            }
        },
    }
}

/// Whether the death of a Hugger with state `s` falls due at `now`: its
/// death time has come and its death has not been handled yet.
pub open spec fn spec_hugger_death_due(s: HuggerState, now: u64) -> bool {
    !s.finished && (s.death_ms matches Some(d) && now >= d)
}

/// The poison hits a Hugger's death blast lays at `now` on `targets`, in
/// order, sparing the lives in `excluded`.
pub open spec fn spec_death_hits(excluded: Seq<u32>, targets: Seq<NativeEntityTarget>, now: u64) -> Seq<HuggerHit>
    decreases targets.len(),
{
    if targets.len() == 0 {
        Seq::empty()
    } else {
        let rest = spec_death_hits(excluded, targets.drop_last(), now);
        let t = targets.last();
        if excluded.contains(t.object_id) {
            rest
        } else {
            rest.push(HuggerHit { due: now, target: t.object_id, damage: 0, poison: true })
        }
    }
}

/// Whether a Hugger hit is still to come after `now`.
pub open spec fn spec_hit_later(now: u64) -> spec_fn(HuggerHit) -> bool {
    |h: HuggerHit| h.due > now
}

/// The hits of a Hugger of AI `ai` with state `s` at `now` once its death
/// blast (if due) is laid on `targets`.
pub open spec fn spec_hugger_all_hits(s: HuggerState, ai: u8, targets: Seq<NativeEntityTarget>, now: u64) -> Seq<HuggerHit> {
    if spec_hugger_death_due(s, now) && ai == 70 {
        s.hits@ + spec_death_hits(s.excluded_lives@, targets, now)
    } else {
        s.hits@
    }
}

/// One delay tick of a Hugger of AI `ai` at `now`. When its death falls due
/// it is marked handled, and a large Hugger (AI 70) lays a poison hit due
/// now on each of `targets` (the lives its blast reaches) that it does not
/// spare. The hits due by `now` are handed back in order, to be resolved by
/// the caller; the later ones stay.
pub fn hugger_delay_step(s: &mut HuggerState, ai: u8, targets: &Vec<NativeEntityTarget>, now: u64) -> (due: Vec<HuggerHit>)
    ensures
        final(s).finished == (old(s).finished || spec_hugger_death_due(*old(s), now)),
        final(s).hits@ == spec_hugger_all_hits(*old(s), ai, targets@, now).filter(spec_hit_later(now)),
        due@ == spec_hugger_all_hits(*old(s), ai, targets@, now).filter(spec_not(spec_hit_later(now))),
        *final(s) == (HuggerState { finished: final(s).finished, hits: final(s).hits, ..*old(s) }),
{
    let death_due = !s.finished && match s.death_ms {
        Some(d) => now >= d,
        None => false,
    };
    let ghost s0 = *s;
    if death_due {
        s.finished = true;
    }
    let mut hits: Vec<HuggerHit> = Vec::new();
    std::mem::swap(&mut hits, &mut s.hits);
    if death_due && ai == 70 {
        let mut k: usize = 0;
        while k < targets.len()
            invariant
                0 <= k <= targets@.len(),
                hits@ == s0.hits@ + spec_death_hits(s0.excluded_lives@, targets@.take(k as int), now),
                s.excluded_lives@ == s0.excluded_lives@,
            decreases targets@.len() - k,
        {
            assert(targets@.take(k as int + 1).drop_last() =~= targets@.take(k as int));
            let t = targets[k].object_id;
            if !contains_u32(&s.excluded_lives, t) {
                hits.push(HuggerHit { due: now, target: t, damage: 0, poison: true });
            }
            k += 1;
            assert(hits@ == s0.hits@ + spec_death_hits(s0.excluded_lives@, targets@.take(k as int), now));
        }
        assert(targets@.take(k as int) =~= targets@);
    }
    let ghost later = spec_hit_later(now);
    let (stay, ready) = partition_by(
        hits,
        (|h: &HuggerHit| -> (r: bool)
            ensures
                r == (h.due > now),
            { h.due > now }),
        Ghost(later),
    );
    s.hits = stay;
    ready
}

/// The Hugger stream one roll after `rng`.
pub open spec fn spec_hugger_next(rng: u64) -> u64 {
    rng.wrapping_add(GOLDEN)
}

/// The roll in `0..max(n, 1)` that leaves the Hugger stream at `rng`.
pub open spec fn spec_hugger_value(rng: u64, n: u64) -> u64 {
    spec_mix(rng) % spec_at_least_one(n)
}

/// The poison a Hugger hit that did damage may leave, rolled from stream
/// `rng` against poison resistance `resist`: the stream after the rolls and,
/// when the target is poisoned, the raw roll its poison strength is drawn
/// from. On a monster the strength is rolled first, then the target must
/// pass its resistance (a roll of ten) and a chance of one in five. On a
/// player the resistance, the chance and the resistance again are rolled
/// first, and the strength only when all three pass.
pub open spec fn spec_hugger_poison(rng: u64, resist: u64, on_player: bool) -> (u64, Option<u64>) {
    let r1 = spec_hugger_next(rng);
    let r2 = spec_hugger_next(r1);
    let r3 = spec_hugger_next(r2);
    let r4 = spec_hugger_next(r3);
    if !on_player {
        if spec_hugger_value(r2, 10) < resist {
            (r2, None)
        } else {
            (r3, if spec_hugger_value(r3, 5) == 0 { Some(spec_hugger_value(r1, u64::MAX)) } else { None })
        }
    } else if spec_hugger_value(r1, 10) < resist {
        (r1, None)
    } else if spec_hugger_value(r2, 5) != 0 {
        (r2, None)
    } else if spec_hugger_value(r3, 10) < resist {
        (r3, None)
    } else {
        (r4, Some(spec_hugger_value(r4, u64::MAX)))
    }
}

/// What follows a resolved Hugger hit. A poison hit of a large Hugger
/// (AI 70) that did no damage stops the poison hits still to resolve this
/// tick (`aborted` is set); a poison hit that did damage rolls its poison
/// (see [`spec_hugger_poison`]), and the raw strength roll is handed back
/// when the target is poisoned.
pub fn hugger_after_hit(
    s: &mut HuggerState,
    ai: u8,
    poison: bool,
    damaged: bool,
    resist: u64,
    on_player: bool,
    aborted: &mut bool,
) -> (r: Option<u64>)
    ensures
        *final(aborted) == (*old(aborted) || (poison && !damaged && ai == 70)),
        poison && damaged ==> (final(s).rng, r) == spec_hugger_poison(old(s).rng, resist, on_player),
        !(poison && damaged) ==> r is None && final(s).rng == old(s).rng,
        *final(s) == (HuggerState { rng: final(s).rng, ..*old(s) }),
{
    if poison && !damaged && ai == 70 {
        *aborted = true;
    }
    if !(poison && damaged) {
        return None;
    }
    if !on_player {
        let raw = s.roll(u64::MAX);
        if s.roll(10) >= resist && s.roll(5) == 0 {
            Some(raw)
        } else {
            None
        }
    } else if s.roll(10) >= resist && s.roll(5) == 0 && s.roll(10) >= resist {
        Some(s.roll(u64::MAX))
    } else {
        None
    }
}

} // verus!
