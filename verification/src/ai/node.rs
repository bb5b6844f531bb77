//! YinDevil nodes (AI 41/42): a node that sees wild friends nearby starts a
//! cast, and the cast completes half a second later with a blessing on the
//! players around it.
use vstd::prelude::*;
use crate::types::{spec_tile_distance, tile_distance};
use crate::monster::{NativeMonster, NodeAiState, SpecialAi, ZonePlayer};
use crate::zone::ZoneRuntime;
use crate::guild::{guild_friend, spec_guild_friend};

verus! {

/// The completion time of the cast node `m` has in flight, if any.
pub open spec fn spec_node_pending(m: NativeMonster) -> Option<u64> {
    match m.special.node {
        Some(s) => s.pending_completion_ms,
        None => None,
    }
}

/// What a node does on one tick.
#[derive(Debug, Clone, Copy, PartialEq, Eq, Structural)]
pub struct NodeTick {
    /// Its cast in flight completes now.
    pub complete: bool,
    /// It starts a new cast.
    pub cast: bool,
}

/// Whether node `m` may start a cast at `now`: it is alive, not held by a
/// control effect (`control_active`), both its clocks are ready and no cast
/// of it is still under way.
pub open spec fn spec_node_may_cast(m: NativeMonster, control_active: bool, now: u64) -> bool {
    &&& !m.dead
    &&& m.hp > 0
    &&& !control_active
    &&& now >= m.next_ai_ready_at_ms
    &&& now >= m.next_attack_ready_at_ms
    &&& !(spec_node_pending(m) matches Some(d) && now < d)
}

/// One tick of node `m` at `now`, `friends` telling whether wild friends are
/// near (see [`ZoneRuntime::node_has_friends`]). A cast whose completion is
/// due completes and is taken off; a corpse may complete a cast but never
/// starts one. A node that may cast and has friends near starts a cast: it
/// acts again in 300 ms, attacks again after its attack delay and completes
/// the cast in 500 ms.
pub fn node_tick(m: &mut NativeMonster, control_active: bool, friends: bool, now: u64) -> (r: NodeTick)
    ensures
        r.complete == (spec_node_pending(*old(m)) matches Some(d) && now >= d),
        r.cast == (spec_node_may_cast(*old(m), control_active, now) && friends),
        r.cast ==> *final(m) == (NativeMonster {
            next_ai_ready_at_ms: now.saturating_add(300),
            next_attack_ready_at_ms: now.saturating_add(old(m).attack_speed_ms),
            special: SpecialAi { node: Some(NodeAiState { pending_completion_ms: Some(now.saturating_add(500)) }), ..old(m).special },
            ..*old(m)
        }),
        !r.cast && r.complete ==> *final(m) == (NativeMonster {
            special: SpecialAi { node: Some(NodeAiState { pending_completion_ms: None }), ..old(m).special },
            ..*old(m)
        }),
        !r.cast && !r.complete ==> *final(m) == *old(m),
{
    let pending: Option<u64> = match &m.special.node {
        Some(s) => s.pending_completion_ms,
        None => None,
    };
    let complete = match pending {
        Some(d) => now >= d,
        None => false,
    };
    if complete {
        m.special.node = Some(NodeAiState { pending_completion_ms: None });
    }
    let busy = match pending {
        Some(d) => now < d,
        None => false,
    };
    let cast = !m.dead && m.hp > 0 && !control_active && now >= m.next_ai_ready_at_ms
        && now >= m.next_attack_ready_at_ms && !busy && friends;
    if cast {
        m.next_ai_ready_at_ms = now.saturating_add(300);
        m.next_attack_ready_at_ms = now.saturating_add(m.attack_speed_ms);
        m.special.node = Some(NodeAiState { pending_completion_ms: Some(now.saturating_add(500)) });
    }
    NodeTick { complete, cast }
}

/// Whether `other` (a monster other than the node `id`) is a wild friend
/// of node `m` at `now`: alive, unowned, within seven tiles, while the node
/// itself is unowned and not hallucinating.
pub open spec fn spec_node_friend(id: u32, m: NativeMonster, other: NativeMonster, now: u64) -> bool {
    &&& other.object_id != id
    &&& !other.dead
    &&& other.hp > 0
    &&& other.owner_session_id is None
    &&& m.owner_session_id is None
    &&& now >= m.hallucination_until_ms
    &&& spec_tile_distance(m.position, other.position) <= 7
}

/// Whether player `p` is blessed by the completed cast of node `m`: the node
/// is hostile to players, and the player is alive, not hidden, outside safe
/// zones, within seven tiles and not of the node's friendly guild.
pub open spec fn spec_node_blessed(m: NativeMonster, p: ZonePlayer) -> bool {
    &&& m.hostile_to_player
    &&& !p.dead
    &&& !p.hidden
    &&& !p.in_safe_zone
    &&& spec_tile_distance(m.position, p.position) <= 7
    &&& !spec_guild_friend(m.friendly_guild, p.guild_name)
}

/// The strength of a node's blessing on a player of `level`.
pub open spec fn spec_node_blessing(level: u16) -> i32 {
    (level / 7 + 4) as i32
}

/// The players blessed by a cast of node `m`, in order, each with the
/// strength of the blessing.
pub open spec fn spec_node_blessings(m: NativeMonster, players: Seq<ZonePlayer>) -> Seq<(u32, i32)>
    decreases players.len(),
{
    if players.len() == 0 {
        Seq::empty()
    } else {
        let rest = spec_node_blessings(m, players.drop_last());
        let p = players.last();
        if spec_node_blessed(m, p) {
            rest.push((p.object_id, spec_node_blessing(p.level)))
        } else {
            rest
        }
    }
}

impl ZoneRuntime {
    /// Whether node `id` (state `m`) has a wild friend near at `now` (see
    /// [`spec_node_friend`]).
    pub fn node_has_friends(&self, id: u32, m: &NativeMonster, now: u64) -> (r: bool)
        ensures
            r == exists|k: int|
                0 <= k < self.native_monsters@.len() && spec_node_friend(id, *m, #[trigger] self.native_monsters@[k], now),
    {
        if m.owner_session_id.is_some() || now < m.hallucination_until_ms {
            assert(forall|k: int| 0 <= k < self.native_monsters@.len() ==> !spec_node_friend(id, *m, #[trigger] self.native_monsters@[k], now));
            return false;
        }
        let mut k: usize = 0;
        while k < self.native_monsters.len()
            invariant
                0 <= k <= self.native_monsters@.len(),
                m.owner_session_id is None,
                now >= m.hallucination_until_ms,
                forall|j: int| 0 <= j < k ==> !spec_node_friend(id, *m, #[trigger] self.native_monsters@[j], now),
            decreases self.native_monsters@.len() - k,
        {
            let o = &self.native_monsters[k];
            if o.object_id != id && !o.dead && o.hp > 0 && o.owner_session_id.is_none() && tile_distance(
                &m.position,
                &o.position,
            ) <= 7 {
                assert(spec_node_friend(id, *m, self.native_monsters@[k as int], now));
                return true;
            }
            k += 1;
        }
        false
    }

    /// The players the completed cast of node `m` blesses, in order, each
    /// by object id with the strength of its blessing (see
    /// [`spec_node_blessed`] and [`spec_node_blessing`]).
    pub fn node_blessings(&self, m: &NativeMonster) -> (r: Vec<(u32, i32)>)
        ensures
            r@ == spec_node_blessings(*m, self.players@),
    {
        let mut r: Vec<(u32, i32)> = Vec::new();
        let mut k: usize = 0;
        while k < self.players.len()
            invariant
                0 <= k <= self.players@.len(),
                r@ == spec_node_blessings(*m, self.players@.take(k as int)),
            decreases self.players@.len() - k,
        {
            assert(self.players@.take(k as int + 1).drop_last() =~= self.players@.take(k as int));
            let p = &self.players[k];
            if m.hostile_to_player && !p.dead && !p.hidden && !p.in_safe_zone && tile_distance(&m.position, &p.position)
                <= 7 && !guild_friend(&m.friendly_guild, &p.guild_name) {
                r.push((p.object_id, (p.level / 7 + 4) as i32));
            }
            k += 1;
        }
        assert(self.players@.take(k as int) =~= self.players@);
        r
    }
}

} // verus!
