//! Passive wanderers (AI 2): the timid deer that flee every player in view,
//! and the ordinary ones that only strike back at a recorded attacker.
use vstd::prelude::*;
use crate::types::{rotated, spec_tile_distance, tile_distance, Direction, Point};
use crate::ai::reactive::spec_turn_order;
use crate::monster::{NativeMonster, PassiveAiState, SpecialAi, ZonePlayer};
use crate::guild::{guild_friend, spec_guild_friend};
use crate::rng::{draw_below, first_acceptance, spec_mix, state_after};

verus! {

impl PassiveAiState {
    /// An unbiased roll in `0..upper` from the wanderer's stream.
    pub fn roll(&mut self, upper: u64) -> (r: u64)
        requires
            upper > 0,
        ensures
            exists|k: nat|
                first_acceptance(old(self).rng_state, upper, k) && final(self).rng_state == state_after(
                    old(self).rng_state,
                    k,
                ),
            r == spec_mix(final(self).rng_state) % upper,
            r < upper,
            *final(self) == (PassiveAiState { rng_state: final(self).rng_state, ..*old(self) }),
    {
        draw_below(&mut self.rng_state, upper)
    }
}

/// The seed of a wanderer's stream.
pub open spec fn spec_passive_seed(id: u32, now: u64) -> u64 {
    ((id as u64) << 32u64) ^ now ^ 0xDEE2u64
}

/// A wanderer's state as it starts at `now`: one draw in `0..7` decides
/// whether it is timid (a zero), and it has no target.
pub open spec fn spec_passive_started(s: PassiveAiState, id: u32, now: u64) -> bool {
    &&& s.target_object_id is None
    &&& exists|k: nat|
        first_acceptance(spec_passive_seed(id, now), 7, k) && s.rng_state == state_after(spec_passive_seed(id, now), k)
            && (s.timid <==> spec_mix(s.rng_state) % 7 == 0)
}

/// Gives a wanderer its state if it has none; a timid one with a move
/// delay of at least 600 ms moves 300 ms faster.
pub fn initialize_passive_monster(m: &mut NativeMonster, id: u32, now: u64)
    ensures
        old(m).ai != 2 || old(m).special.passive is Some ==> *final(m) == *old(m),
        old(m).ai == 2 && old(m).special.passive is None ==> (final(m).special.passive matches Some(s)
            && spec_passive_started(s, id, now) && *final(m) == (NativeMonster {
            special: SpecialAi { passive: final(m).special.passive, ..old(m).special },
            move_speed_ms: if s.timid && old(m).move_speed_ms >= 600 {
                (old(m).move_speed_ms - 300) as u64
            } else {
                old(m).move_speed_ms
            },
            ..*old(m)
        })),
{
    if m.ai != 2 || m.special.passive.is_some() {
        return;
    }
    let seed = ((id as u64) << 32u64) ^ now ^ 0xDEE2u64;
    let mut state = PassiveAiState { timid: false, target_object_id: None, rng_state: seed };
    let draw = state.roll(7);
    proof {
        let k = choose|k: nat| first_acceptance(seed, 7, k) && state.rng_state == state_after(seed, k);
        assert(first_acceptance(spec_passive_seed(id, now), 7, k));
    }
    state.timid = draw == 0;
    if state.timid && m.move_speed_ms >= 600 {
        m.move_speed_ms = m.move_speed_ms - 300;
    }
    m.special.passive = Some(state);
}

/// A direct hit on a wanderer: it gets its state and remembers a known
/// attacker as its target.
pub fn passive_monster_on_damage(m: &mut NativeMonster, id: u32, attacker_id: Option<u32>, now: u64)
    ensures
        old(m).ai != 2 ==> *final(m) == *old(m),
        old(m).ai == 2 ==> (final(m).special.passive matches Some(t) && match old(m).special.passive {
            Some(s) => t == (PassiveAiState {
                target_object_id: if attacker_id is Some { attacker_id } else { s.target_object_id },
                ..s
            }),
            None => exists|f: PassiveAiState|
                spec_passive_started(f, id, now) && t == (PassiveAiState {
                    target_object_id: if attacker_id is Some { attacker_id } else { f.target_object_id },
                    ..f
                }),
        }),
{
    if m.ai != 2 {
        return;
    }
    initialize_passive_monster(m, id, now);
    match m.special.passive.take() {
        Some(mut s) => {
            let ghost f = s;
            if attacker_id.is_some() {
                s.target_object_id = attacker_id;
            }
            m.special.passive = Some(s);
        },
        None => {},
    }
}

/// Whether a wanderer may consider player `p`: alive, visible, outside the
/// safe zone and not of the wanderer's friendly guild.
pub open spec fn spec_passive_candidate(friendly: Option<String>, p: ZonePlayer) -> bool {
    !p.dead && !p.hidden && !p.in_safe_zone && !spec_guild_friend(friendly, p.guild_name)
}

/// Whether player `j` is a nearer timid-flight target than player `i`:
/// closer, or as close with a smaller object id.
pub open spec fn spec_nearer(position: Point, players: Seq<ZonePlayer>, j: int, i: int) -> bool {
    spec_tile_distance(position, players[j].position) < spec_tile_distance(position, players[i].position) || (
    spec_tile_distance(position, players[j].position) == spec_tile_distance(position, players[i].position)
        && players[j].object_id < players[i].object_id)
}

/// Whether player `i` is the wanderer's recorded target, a candidate, and
/// in sight.
pub open spec fn spec_recorded(
    players: Seq<ZonePlayer>,
    visible: Seq<bool>,
    friendly: Option<String>,
    target: Option<u32>,
    i: int,
) -> bool {
    spec_passive_candidate(friendly, players[i]) && target == Some(players[i].object_id) && visible[i]
}

/// Whether player `i` is a candidate within `view` tiles of `position`.
pub open spec fn spec_in_view(
    players: Seq<ZonePlayer>,
    friendly: Option<String>,
    position: Point,
    view: int,
    i: int,
) -> bool {
    spec_passive_candidate(friendly, players[i]) && spec_tile_distance(position, players[i].position) <= view
}

/// The player a wanderer at `position` reacts to: the first candidate that
/// is its recorded target and in sight (`visible[i]` tells whether player
/// `i` is); otherwise, for a timid wanderer, the nearest candidate within
/// `view` tiles (ties to the smaller object id, then the earlier player).
pub open spec fn spec_passive_target(
    players: Seq<ZonePlayer>,
    visible: Seq<bool>,
    friendly: Option<String>,
    target: Option<u32>,
    timid: bool,
    position: Point,
    view: int,
    r: Option<usize>,
) -> bool {
    if exists|i: int| 0 <= i < players.len() && #[trigger] spec_recorded(players, visible, friendly, target, i) {
        r matches Some(i) && i < players.len() && spec_recorded(players, visible, friendly, target, i as int)
            && forall|j: int| 0 <= j < i ==> !#[trigger] spec_recorded(players, visible, friendly, target, j)
    } else if timid && exists|i: int| 0 <= i < players.len() && #[trigger] spec_in_view(players, friendly, position, view, i) {
        r matches Some(i) && i < players.len() && spec_in_view(players, friendly, position, view, i as int)
            && forall|j: int|
            0 <= j < players.len() && #[trigger] spec_in_view(players, friendly, position, view, j) ==> !spec_nearer(
                position,
                players,
                j,
                i as int,
            ) && (j < i ==> spec_nearer(position, players, i as int, j))
    } else {
        r is None
    }
}

fn passive_candidate(friendly: &Option<String>, p: &ZonePlayer) -> (r: bool)
    ensures
        r == spec_passive_candidate(*friendly, *p),
{
    !p.dead && !p.hidden && !p.in_safe_zone && !guild_friend(friendly, &p.guild_name)
}

/// The index of the player a wanderer reacts to, if any.
pub fn passive_target(
    players: &Vec<ZonePlayer>,
    visible: &Vec<bool>,
    friendly: &Option<String>,
    target: Option<u32>,
    timid: bool,
    position: &Point,
    view: i64,
) -> (r: Option<usize>)
    requires
        visible@.len() == players@.len(),
    ensures
        spec_passive_target(players@, visible@, *friendly, target, timid, *position, view as int, r),
{
    let mut i: usize = 0;
    while i < players.len()
        invariant
            visible@.len() == players@.len(),
            0 <= i <= players@.len(),
            forall|j: int| 0 <= j < i ==> !#[trigger] spec_recorded(players@, visible@, *friendly, target, j),
        decreases players@.len() - i,
    {
        if passive_candidate(friendly, &players[i]) && target == Some(players[i].object_id) && visible[i] {
            return Some(i);
        }
        i += 1;
    }
    if !timid {
        return None;
    }
    let mut best: Option<usize> = None;
    let mut best_distance: i64 = 0;
    let mut k: usize = 0;
    while k < players.len()
        invariant
            visible@.len() == players@.len(),
            0 <= k <= players@.len(),
            forall|j: int| 0 <= j < players@.len() ==> !#[trigger] spec_recorded(players@, visible@, *friendly, target, j),
            match best {
                Some(b) => {
                    &&& b < k
                    &&& spec_passive_candidate(*friendly, players@[b as int])
                    &&& spec_tile_distance(*position, players@[b as int].position) <= view
                    &&& best_distance == spec_tile_distance(*position, players@[b as int].position)
                    &&& forall|j: int|
                        0 <= j < k && #[trigger] spec_in_view(players@, *friendly, *position, view as int, j) ==> !spec_nearer(*position, players@, j, b as int) && (j < b
                            ==> spec_nearer(*position, players@, b as int, j))
                },
                None => forall|j: int| 0 <= j < k ==> !#[trigger] spec_in_view(players@, *friendly, *position, view as int, j),
            },
        decreases players@.len() - k,
    {
        if passive_candidate(friendly, &players[k]) {
            let d = tile_distance(position, &players[k].position);
            if d <= view {
                match best {
                    None => {
                        best = Some(k);
                        best_distance = d;
                    },
                    Some(b) => {
                        if d < best_distance || (d == best_distance && players[k].object_id
                            < players[b].object_id) {
                            best = Some(k);
                            best_distance = d;
                        }
                    },
                }
            }
        }
        k += 1;
    }
    proof {
        match best {
            Some(b) => {
                assert(spec_in_view(players@, *friendly, *position, view as int, b as int));
            },
            None => {},
        }
    }
    best
}

/// The facings a wanderer tries for its step, starting from `first` (away
/// from a player it flees, toward one it goes for): one roll of two decides
/// whether it turns clockwise (a zero) or not.
pub fn passive_step_order(s: &mut PassiveAiState, first: Direction) -> (r: Vec<Direction>)
    ensures
        exists|k: nat|
            first_acceptance(old(s).rng_state, 2, k) && final(s).rng_state == state_after(old(s).rng_state, k),
        r@ == spec_turn_order(first, spec_mix(final(s).rng_state) % 2 == 0),
        *final(s) == (PassiveAiState { rng_state: final(s).rng_state, ..*old(s) }),
{
    let clockwise = s.roll(2) == 0;
    let mut r: Vec<Direction> = Vec::new();
    let mut n: i32 = 0;
    while n < 8
        invariant
            0 <= n <= 8,
            r@ == spec_turn_order(first, clockwise).take(n as int),
        decreases 8 - n,
    {
        let d = rotated(first, if clockwise { n } else { -n });
        r.push(d);
        proof {
            assert(spec_turn_order(first, clockwise).take(n + 1) =~= spec_turn_order(first, clockwise).take(n as int).push(d));
        }
        n += 1;
    }
    assert(spec_turn_order(first, clockwise).take(8) =~= spec_turn_order(first, clockwise));
    r
}

} // verus!
