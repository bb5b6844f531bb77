//! The Horned commander and sorcerer encounter (AI 169/171): reward
//! ownership, immunity, its random stream and power, the targets and hits
//! it drops when a life is retired, and the links it drops when a source
//! leaves the zone.
use vstd::prelude::*;
use crate::types::{opt_session_view, same_opt_session, Point, SessionId};
use crate::entity::{EntityTargetPurpose, NativeEntityTarget, spec_entity_targets};
use crate::ai::evil_mir::spec_evil_mir_purpose;
use crate::monster::{EncounterHit, HornedEncounterState, NativeMonster, SpecialAi, ZonePlayer};
use crate::zone::{find_monster, find_player_by_object, spec_monster_index, spec_player_index_by_object, HornedEncounterWorld, HornedMapSpell, ZoneRuntime};
use crate::ai::reward::{spec_tag_owner, spec_tag_until, tag_reward_owner};
use crate::ai::horned::{horned_stat_range, spec_horned_stat_range, spec_power_fits, spec_power_range, spec_power_span, spec_template_range, HornedStat};
use crate::rng::{draw_below_seeded_or_zero, first_acceptance, spec_mix, spec_seeded, state_after};
use crate::seqs::retain_by;
use crate::ai::hell::spec_life_not_parent;
use crate::ai::revival::spec_div_toward_zero;

verus! {

/// An encounter state as it starts.
pub open spec fn spec_fresh_encounter(s: HornedEncounterState) -> bool {
    &&& s.rng == 0
    &&& s.target is None
    &&& s.target_ref is None
    &&& !s.immune
    &&& s.stomp_ready == 0
    &&& s.tornado_ready == 0
    &&& !s.advanced
    &&& !s.called_boulders
    &&& !s.called_spikes
    &&& !s.called_shield
    &&& s.spike_ready == 0
    &&& s.shield_until is None
    &&& s.next_spike == 0
    &&& s.slaves@.len() == 0
    &&& s.slave_lives@.len() == 0
    &&& s.parent is None
    &&& s.parent_incarnation is None
    &&& !s.death_handled
    &&& s.reward_owner is None
    &&& s.reward_until == 0
    &&& s.hits@.len() == 0
}

/// Gives an encounter monster its state if it has none.
pub fn initialize_horned_encounter(m: &mut NativeMonster)
    ensures
        !(old(m).ai == 169 || old(m).ai == 171) || old(m).special.horned_encounter is Some ==> *final(m) == *old(m),
        (old(m).ai == 169 || old(m).ai == 171) && old(m).special.horned_encounter is None ==> (final(m).special.horned_encounter matches Some(s) && spec_fresh_encounter(s)) && *final(m) == (NativeMonster {
            special: SpecialAi { horned_encounter: final(m).special.horned_encounter, ..old(m).special },
            ..*old(m)
        }),
{
    if (m.ai == 169 || m.ai == 171) && m.special.horned_encounter.is_none() {
        m.special.horned_encounter = Some(
            HornedEncounterState {
                rng: 0,
                target: None,
                target_ref: None,
                immune: false,
                stomp_ready: 0,
                tornado_ready: 0,
                advanced: false,
                called_boulders: false,
                called_spikes: false,
                called_shield: false,
                spike_ready: 0,
                shield_until: None,
                next_spike: 0,
                slaves: Vec::new(),
                slave_lives: Vec::new(),
                parent: None,
                parent_incarnation: None,
                death_handled: false,
                reward_owner: None,
                reward_until: 0,
                hits: Vec::new(),
            },
        );
    }
}

/// An immune encounter monster is no attack target.
pub fn horned_encounter_is_attack_target(m: &NativeMonster) -> (r: bool)
    ensures
        r == !(m.special.horned_encounter matches Some(s) && s.immune),
{
    match &m.special.horned_encounter {
        Some(s) => !s.immune,
        None => true,
    }
}

/// A hit on an encounter monster by `owner` at `now` tags its kill reward
/// (a monster without encounter state is left alone). The window end is
/// computed exactly, so it must not pass the end of time.
pub fn horned_encounter_on_damage(m: &mut NativeMonster, owner: Option<&SessionId>, now: u64)
    requires
        match (owner, old(m).special.horned_encounter) {
            (Some(o), Some(s)) => spec_tag_owner(opt_session_view(s.reward_owner), s.reward_until, o@, now)
                == Some(o@) ==> now + 5000 <= u64::MAX,
            _ => true,
        },
    ensures
        match (owner, old(m).special.horned_encounter) {
            (Some(o), Some(s)) => (final(m).special.horned_encounter matches Some(t) && {
                &&& opt_session_view(t.reward_owner) == spec_tag_owner(opt_session_view(s.reward_owner), s.reward_until, o@, now)
                &&& t.reward_until == spec_tag_until(opt_session_view(s.reward_owner), s.reward_until, o@, now)
                &&& t == (HornedEncounterState { reward_owner: t.reward_owner, reward_until: t.reward_until, ..s })
            }) && *final(m) == (NativeMonster {
                special: SpecialAi { horned_encounter: final(m).special.horned_encounter, ..old(m).special },
                ..*old(m)
            }),
            _ => *final(m) == *old(m),
        },
{
    match owner {
        Some(o) => match m.special.horned_encounter.take() {
            Some(mut s) => {
                tag_reward_owner(&mut s.reward_owner, &mut s.reward_until, o, now);
                m.special.horned_encounter = Some(s);
            },
            None => {},
        },
        None => {},
    }
}

/// The seed of an encounter stream.
pub open spec fn spec_encounter_seed(id: u32) -> u64 {
    ((id as u64) << 32u64) ^ 0x169171u64
}

/// An unbiased encounter roll in `0..upper` (0 for an empty range).
pub fn encounter_roll(s: &mut HornedEncounterState, id: u32, upper: u64) -> (r: u64)
    ensures
        upper == 0 ==> r == 0 && *final(s) == *old(s),
        upper > 0 ==> exists|k: nat|
            first_acceptance(spec_seeded(old(s).rng, spec_encounter_seed(id)), upper, k) && final(s).rng
                == state_after(spec_seeded(old(s).rng, spec_encounter_seed(id)), k),
        upper > 0 ==> r == spec_mix(final(s).rng) % upper && r < upper,
        *final(s) == (HornedEncounterState { rng: final(s).rng, ..*old(s) }),
{
    let seed = ((id as u64) << 32u64) ^ 0x169171u64;
    assert(seed == spec_encounter_seed(id));
    let ghost start = spec_seeded(s.rng, seed);
    let r = draw_below_seeded_or_zero(&mut s.rng, seed, upper);
    proof {
        if upper > 0 {
            let k = choose|k: nat| first_acceptance(start, upper, k) && s.rng == state_after(start, k);
            assert(first_acceptance(spec_seeded(old(s).rng, spec_encounter_seed(id)), upper, k));
        }
    }
    r
}

/// Whether an encounter power uses `kind` (DC, MC or SC); any other kind
/// has no power.
pub open spec fn spec_encounter_kind(kind: HornedStat) -> bool {
    kind == HornedStat::Dc || kind == HornedStat::Mc || kind == HornedStat::Sc
}

impl ZoneRuntime {
    /// Encounter monster `id`'s power in `kind`: the bottom of its widened
    /// template range plus an unbiased roll over the range; 0 without a
    /// template or for a defensive kind.
    pub fn encounter_power(&mut self, id: u32, kind: HornedStat, now: u64) -> (r: i32)
        requires
            spec_monster_index(old(self).native_monsters@, id) matches Some(i) && {
                let m = old(self).native_monsters@[i];
                m.template is Some && spec_encounter_kind(kind) ==> m.special.horned_encounter is Some
                    && spec_power_fits(m, kind, now)
            },
        ensures
            ({
                let i = spec_monster_index(old(self).native_monsters@, id)->0;
                let m = old(self).native_monsters@[i];
                if m.template is None || !spec_encounter_kind(kind) {
                    r == 0 && *final(self) == *old(self)
                } else {
                    let s0 = m.special.horned_encounter->0;
                    let s1 = final(self).native_monsters@[i].special.horned_encounter->0;
                    let span = spec_power_span(m, kind, now);
                    &&& final(self).native_monsters@[i].special.horned_encounter is Some
                    &&& exists|k: nat|
                        first_acceptance(spec_seeded(s0.rng, spec_encounter_seed(id)), span, k) && s1.rng
                            == state_after(spec_seeded(s0.rng, spec_encounter_seed(id)), k)
                    &&& r == spec_power_range(m, kind, now).0 + spec_mix(s1.rng) % span
                    &&& s1 == (HornedEncounterState { rng: s1.rng, ..s0 })
                    &&& final(self).native_monsters@ == old(self).native_monsters@.update(
                        i,
                        NativeMonster { special: SpecialAi { horned_encounter: Some(s1), ..m.special }, ..m },
                    )
                    &&& *final(self) == (ZoneRuntime { native_monsters: final(self).native_monsters, ..*old(self) })
                }
            }),
    {
        let i = match find_monster(&self.native_monsters, id) {
            Some(i) => i,
            None => {
                return 0;
            },
        };
        let t = match self.native_monsters[i].template {
            Some(t) => t,
            None => {
                return 0;
            },
        };
        let (a, b) = match kind {
            HornedStat::Dc => (t.min_dc, t.max_dc),
            HornedStat::Mc => (t.min_mc, t.max_mc),
            HornedStat::Sc => (t.min_sc, t.max_sc),
            _ => {
                return 0;
            },
        };
        assert((a, b) == spec_template_range(t, kind));
        let (min, max) = horned_stat_range(&self.native_monsters[i], kind, a, b, now);
        assert((min as int, max as int) == spec_power_range(self.native_monsters@[i as int], kind, now));
        let width: i32 = max - min + 1;
        let span: u64 = if width < 1 { 1 } else { width as u64 };
        let ghost m0 = self.native_monsters@;
        let mut m = self.native_monsters.remove(i);
        let mut s = m.special.horned_encounter.take().unwrap();
        let roll = encounter_roll(&mut s, id, span);
        m.special.horned_encounter = Some(s);
        self.native_monsters.insert(i, m);
        assert(self.native_monsters@ == m0.update(i as int, self.native_monsters@[i as int]));
        min + roll as i32
    }
}

/// Whether an encounter hit is aimed at the life `id`.
pub open spec fn spec_hit_aimed(h: EncounterHit, id: u32) -> bool {
    (h.target matches Some(t) && t.object_id == id) || (h.target_ref matches Some(r) && r@.object_id() == id)
}

/// An encounter state after the life `id` (whose player session, if it is
/// a player, is `session`) is retired: a reward that session owns is
/// forgotten, a target on the life dropped, and its hits cancelled.
pub open spec fn spec_horned_encounter_state_cleared(
    a: HornedEncounterState,
    b: HornedEncounterState,
    id: u32,
    session: Option<Seq<char>>,
) -> bool {
    let aimed = (a.target matches Some(t) && t.object_id == id) || (a.target_ref matches Some(r)
        && r@.object_id() == id);
    &&& b.reward_owner == (if session is Some && opt_session_view(a.reward_owner) == session {
        None
    } else {
        a.reward_owner
    })
    &&& b.target == (if aimed { None } else { a.target })
    &&& b.target_ref == (if aimed { None } else { a.target_ref })
    &&& b.hits@.len() == a.hits@.len()
    &&& forall|k: int|
        0 <= k < a.hits@.len() ==> #[trigger] b.hits@[k] == (if spec_hit_aimed(a.hits@[k], id) {
            EncounterHit { cancelled: true, target: None, target_ref: None, ..a.hits@[k] }
        } else {
            a.hits@[k]
        })
    &&& b == (HornedEncounterState {
        reward_owner: b.reward_owner,
        target: b.target,
        target_ref: b.target_ref,
        hits: b.hits,
        ..a
    })
}

fn clear_horned_encounter_state(s: &mut HornedEncounterState, id: u32, session: &Option<SessionId>)
    ensures
        spec_horned_encounter_state_cleared(*old(s), *final(s), id, opt_session_view(*session)),
{
    if session.is_some() && same_opt_session(&s.reward_owner, session) {
        s.reward_owner = None;
    }
    let aimed = (match &s.target {
        Some(t) => t.object_id == id,
        None => false,
    }) || (match &s.target_ref {
        Some(r) => r.object_id() == id,
        None => false,
    });
    if aimed {
        s.target = None;
        s.target_ref = None;
    }
    let ghost h0 = s.hits@;
    let ghost mid = *s;
    let mut k: usize = 0;
    while k < s.hits.len()
        invariant
            *s == (HornedEncounterState { hits: s.hits, ..mid }),
            mid.hits@ == h0,
            s.hits@.len() == h0.len(),
            0 <= k <= h0.len(),
            forall|j: int|
                0 <= j < k ==> #[trigger] s.hits@[j] == (if spec_hit_aimed(h0[j], id) {
                    EncounterHit { cancelled: true, target: None, target_ref: None, ..h0[j] }
                } else {
                    h0[j]
                }),
            forall|j: int| k <= j < h0.len() ==> #[trigger] s.hits@[j] == h0[j],
        decreases h0.len() - k,
    {
        let hit_aimed = (match &s.hits[k].target {
            Some(t) => t.object_id == id,
            None => false,
        }) || (match &s.hits[k].target_ref {
            Some(r) => r.object_id() == id,
            None => false,
        });
        if hit_aimed {
            s.hits[k].cancelled = true;
            s.hits[k].target = None;
            s.hits[k].target_ref = None;
        }
        k += 1;
    }
}

/// An encounter monster after the life `id` is retired.
pub open spec fn spec_horned_encounter_monster_cleared(a: NativeMonster, b: NativeMonster, id: u32, session: Option<Seq<char>>) -> bool {
    match a.special.horned_encounter {
        Some(s) => b.special.horned_encounter matches Some(t) && spec_horned_encounter_state_cleared(s, t, id, session) && b
            == (NativeMonster { special: SpecialAi { horned_encounter: b.special.horned_encounter, ..a.special }, ..a }),
        None => b == a,
    }
}

impl ZoneRuntime {
    /// The life `id` is retired: every encounter monster forgets a reward
    /// held by that player's session, drops the life as target and cancels
    /// its hits on it.
    pub fn clear_horned_encounter_targets(&mut self, id: u32)
        ensures
            *final(self) == (ZoneRuntime { native_monsters: final(self).native_monsters, ..*old(self) }),
            final(self).native_monsters@.len() == old(self).native_monsters@.len(),
            forall|k: int|
                0 <= k < old(self).native_monsters@.len() ==> spec_horned_encounter_monster_cleared(
                    old(self).native_monsters@[k],
                    #[trigger] final(self).native_monsters@[k],
                    id,
                    match spec_player_index_by_object(old(self).players@, id) {
                        Some(p) => Some(old(self).players@[p].session_id@),
                        None => None,
                    },
                ),
    {
        let session = match find_player_by_object(&self.players, id) {
            Some(p) => Some(self.players[p].session_id.duplicate()),
            None => None,
        };
        let ghost sv = opt_session_view(session);
        let ghost before = self.native_monsters@;
        let mut i: usize = 0;
        while i < self.native_monsters.len()
            invariant
                *self == (ZoneRuntime { native_monsters: self.native_monsters, ..*old(self) }),
                before == old(self).native_monsters@,
                self.native_monsters@.len() == before.len(),
                0 <= i <= before.len(),
                sv == opt_session_view(session),
                forall|k: int|
                    0 <= k < i ==> spec_horned_encounter_monster_cleared(before[k], #[trigger] self.native_monsters@[k], id, sv),
                forall|k: int| i <= k < before.len() ==> #[trigger] self.native_monsters@[k] == before[k],
            decreases before.len() - i,
        {
            let mut m = self.native_monsters.remove(i);
            match m.special.horned_encounter.take() {
                Some(mut s) => {
                    clear_horned_encounter_state(&mut s, id, &session);
                    m.special.horned_encounter = Some(s);
                },
                None => {},
            }
            self.native_monsters.insert(i, m);
            i += 1;
        }
    }
}

/// Children other than `id`.
pub open spec fn spec_not_child(id: u32) -> spec_fn(u32) -> bool {
    |c: u32| c != id
}

/// An encounter state after the source `id` leaves: it is no longer a
/// child or the parent.
pub open spec fn spec_encounter_source_dropped(a: HornedEncounterState, b: HornedEncounterState, id: u32) -> bool {
    &&& b.slaves@ == a.slaves@.filter(spec_not_child(id))
    &&& b.slave_lives@ == a.slave_lives@.filter(spec_life_not_parent(id))
    &&& b.parent == (if a.parent == Some(id) { None } else { a.parent })
    &&& b.parent_incarnation == (if a.parent == Some(id) { None } else { a.parent_incarnation })
    &&& b == (HornedEncounterState {
        slaves: b.slaves,
        slave_lives: b.slave_lives,
        parent: b.parent,
        parent_incarnation: b.parent_incarnation,
        ..a
    })
}

fn drop_encounter_source(s: &mut HornedEncounterState, id: u32)
    ensures
        spec_encounter_source_dropped(*old(s), *final(s), id),
{
    let ghost k1 = spec_not_child(id);
    retain_by(
        &mut s.slaves,
        (|c: &u32| -> (r: bool)
            ensures
                r == (*c != id),
            { *c != id }),
        Ghost(k1),
    );
    let ghost k2 = spec_life_not_parent(id);
    retain_by(
        &mut s.slave_lives,
        (|e: &(u32, u64)| -> (r: bool)
            ensures
                r == (e.0 != id),
            { e.0 != id }),
        Ghost(k2),
    );
    if s.parent == Some(id) {
        s.parent = None;
        s.parent_incarnation = None;
    }
}

/// An encounter monster after the source `id` leaves.
pub open spec fn spec_encounter_monster_source_dropped(a: NativeMonster, b: NativeMonster, id: u32) -> bool {
    match a.special.horned_encounter {
        Some(s) => b.special.horned_encounter matches Some(t) && spec_encounter_source_dropped(s, t, id) && b
            == (NativeMonster { special: SpecialAi { horned_encounter: b.special.horned_encounter, ..a.special }, ..a }),
        None => b == a,
    }
}

/// The ground spells after the source `id` leaves: its spells are marked as
/// source-removed.
pub open spec fn spec_spells_orphaned(a: Seq<HornedMapSpell>, b: Seq<HornedMapSpell>, id: u32) -> bool {
    &&& b.len() == a.len()
    &&& forall|k: int|
        0 <= k < a.len() ==> #[trigger] b[k] == (if a[k].source == id {
            HornedMapSpell { source_removed: true, ..a[k] }
        } else {
            a[k]
        })
}

fn orphan_spells(w: &mut HornedEncounterWorld, id: u32)
    ensures
        spec_spells_orphaned(old(w).spells@, final(w).spells@, id),
{
    let ghost s0 = w.spells@;
    let mut k: usize = 0;
    while k < w.spells.len()
        invariant
            w.spells@.len() == s0.len(),
            0 <= k <= s0.len(),
            forall|j: int|
                0 <= j < k ==> #[trigger] w.spells@[j] == (if s0[j].source == id {
                    HornedMapSpell { source_removed: true, ..s0[j] }
                } else {
                    s0[j]
                }),
            forall|j: int| k <= j < s0.len() ==> #[trigger] w.spells@[j] == s0[j],
        decreases s0.len() - k,
    {
        if w.spells[k].source == id {
            w.spells[k].source_removed = true;
        }
        k += 1;
    }
}

impl ZoneRuntime {
    /// The monster `id` leaves the zone: its ground spells lose their source,
    /// and no encounter monster keeps it as a child or parent.
    pub fn invalidate_horned_encounter_source(&mut self, id: u32)
        ensures
            match old(self).horned_encounter_world {
                Some(w) => final(self).horned_encounter_world matches Some(v) && spec_spells_orphaned(w.spells@, v.spells@, id),
                None => final(self).horned_encounter_world is None,
            },
            final(self).native_monsters@.len() == old(self).native_monsters@.len(),
            forall|k: int|
                0 <= k < old(self).native_monsters@.len() ==> spec_encounter_monster_source_dropped(
                    old(self).native_monsters@[k],
                    #[trigger] final(self).native_monsters@[k],
                    id,
                ),
            *final(self) == (ZoneRuntime {
                native_monsters: final(self).native_monsters,
                horned_encounter_world: final(self).horned_encounter_world,
                ..*old(self)
            }),
    {
        match self.horned_encounter_world.take() {
            Some(mut w) => {
                orphan_spells(&mut w, id);
                self.horned_encounter_world = Some(w);
            },
            None => {},
        }
        let ghost mid = *self;
        let ghost before = self.native_monsters@;
        let mut i: usize = 0;
        while i < self.native_monsters.len()
            invariant
                *self == (ZoneRuntime { native_monsters: self.native_monsters, ..mid }),
                before == mid.native_monsters@,
                self.native_monsters@.len() == before.len(),
                0 <= i <= before.len(),
                forall|k: int|
                    0 <= k < i ==> spec_encounter_monster_source_dropped(before[k], #[trigger] self.native_monsters@[k], id),
                forall|k: int| i <= k < before.len() ==> #[trigger] self.native_monsters@[k] == before[k],
            decreases before.len() - i,
        {
            let mut m = self.native_monsters.remove(i);
            match m.special.horned_encounter.take() {
                Some(mut s) => {
                    drop_encounter_source(&mut s, id);
                    m.special.horned_encounter = Some(s);
                },
                None => {},
            }
            self.native_monsters.insert(i, m);
            i += 1;
        }
    }
}

impl ZoneRuntime {
    /// The lives encounter monster `id` may act on within `radius` of
    /// `center`: those it sees when `sight` is asked, otherwise any it may
    /// hit.
    pub fn encounter_targets(&self, id: u32, center: &Point, radius: i32, sight: bool, now: u64) -> (r: Vec<
        NativeEntityTarget,
    >)
        ensures
            spec_entity_targets(*self, id, *center, radius, spec_evil_mir_purpose(sight), now, r@),
    {
        let purpose = if sight {
            EntityTargetPurpose::Search
        } else {
            EntityTargetPurpose::Impact
        };
        self.native_entity_targets(id, center, radius, purpose, now)
    }
}

/// What a HornedCommander's phase step asks of the zone.
#[derive(Debug, Clone, Copy, PartialEq, Eq, Structural)]
pub struct CommanderPlan {
    /// It has just died: its spikes are cancelled and its slaves killed.
    pub died: bool,
    /// Its shield ran out and is taken off.
    pub shield_dropped: bool,
    /// Below 80% health for the first time: it calls its boulder ring.
    pub call_boulders: bool,
    /// Below 10% health for the first time: its spikes are cancelled, it
    /// raises a twenty-second shield and calls a sorcerer.
    pub raise_shield: bool,
    /// Between 10% and 50% health for the first time: its spike rain
    /// starts.
    pub start_spikes: bool,
    /// The next spike field is due.
    pub spikes_due: bool,
    /// Healed back to full: its phases start over, its spikes are cancelled
    /// and its slaves killed.
    pub reset: bool,
}

/// The commander's health in percent, rounded toward zero.
pub open spec fn spec_commander_health(hp: i32, max_hp: i32) -> int {
    spec_div_toward_zero(hp * 100, if max_hp >= 1 { max_hp as int } else { 1 })
}

/// The plan with nothing to do.
pub open spec fn spec_no_plan() -> CommanderPlan {
    CommanderPlan {
        died: false,
        shield_dropped: false,
        call_boulders: false,
        raise_shield: false,
        start_spikes: false,
        spikes_due: false,
        reset: false,
    }
}

/// One phase step of HornedCommander `m` (state `s`) at `now`: the new
/// monster, its new state and the plan. A dead commander handles its death
/// once. A living one first drops a shield that ran out (acting again
/// 300 ms later and attacking after its attack speed), calls its boulders
/// below 80%; while immune it does nothing more; below 10% it raises its
/// shield once (and stops there); between 10% and 50% it starts its spike
/// rain once; a started rain is due past its ready time; hurt, it is
/// marked advanced, and healed to full after that its phases start over.
/// Cancelling spikes makes the rain never due.
pub open spec fn spec_commander_step(m: NativeMonster, s: HornedEncounterState, now: u64) -> (NativeMonster, HornedEncounterState, CommanderPlan) {
    if m.dead {
        if !s.death_handled {
            (m, HornedEncounterState { death_handled: true, spike_ready: u64::MAX, ..s }, CommanderPlan { died: true, ..spec_no_plan() })
        } else {
            (m, s, spec_no_plan())
        }
    } else {
        let dropped = s.shield_until matches Some(t) && now >= t;
        let m1 = if dropped {
            NativeMonster { next_ai_ready_at_ms: (now + 300) as u64, next_attack_ready_at_ms: (now + m.attack_speed_ms) as u64, ..m }
        } else {
            m
        };
        let s1 = if dropped { HornedEncounterState { shield_until: None, immune: false, ..s } } else { s };
        let hp = spec_commander_health(m.hp, m.max_hp);
        let boulders = hp < 80 && !s1.called_boulders;
        let s2 = if boulders { HornedEncounterState { called_boulders: true, ..s1 } } else { s1 };
        let plan1 = CommanderPlan { shield_dropped: dropped, call_boulders: boulders, ..spec_no_plan() };
        if s2.immune {
            (m1, s2, plan1)
        } else if hp < 10 && !s2.called_shield {
            (
                NativeMonster { next_ai_ready_at_ms: (now + 300) as u64, next_attack_ready_at_ms: (now + m.attack_speed_ms) as u64, ..m1 },
                HornedEncounterState {
                    spike_ready: u64::MAX,
                    called_shield: true,
                    immune: true,
                    shield_until: Some((now + 20000) as u64),
                    ..s2
                },
                CommanderPlan { raise_shield: true, ..plan1 },
            )
        } else {
            let spikes = 10 <= hp < 50 && !s2.called_spikes;
            let s3 = if spikes { HornedEncounterState { called_spikes: true, next_spike: 0, ..s2 } } else { s2 };
            let due = s3.called_spikes && now > s3.spike_ready;
            let plan2 = CommanderPlan { start_spikes: spikes, spikes_due: due, ..plan1 };
            if hp < 100 && !s3.advanced {
                (m1, HornedEncounterState { advanced: true, ..s3 }, plan2)
            } else if hp == 100 && s3.advanced {
                (
                    m1,
                    HornedEncounterState {
                        advanced: false,
                        called_boulders: false,
                        called_spikes: false,
                        called_shield: false,
                        spike_ready: u64::MAX,
                        next_spike: 0,
                        ..s3
                    },
                    CommanderPlan { reset: true, ..plan2 },
                )
            } else {
                (m1, s3, plan2)
            }
        }
    }
}

/// One phase step of HornedCommander `m` at `now` (see
/// [`spec_commander_step`]).
#[verifier::rlimit(60)]
pub fn commander_phase_step(m: &mut NativeMonster, now: u64) -> (plan: CommanderPlan)
    requires
        old(m).special.horned_encounter is Some,
        now + 20000 <= u64::MAX,
        now + old(m).attack_speed_ms <= u64::MAX,
    ensures
        ({
            let (m1, s1, p) = spec_commander_step(*old(m), old(m).special.horned_encounter->0, now);
            &&& plan == p
            &&& *final(m) == (NativeMonster { special: SpecialAi { horned_encounter: Some(s1), ..m1.special }, ..m1 })
        }),
{
    let mut s = m.special.horned_encounter.take().unwrap();
    let mut plan = CommanderPlan {
        died: false,
        shield_dropped: false,
        call_boulders: false,
        raise_shield: false,
        start_spikes: false,
        spikes_due: false,
        reset: false,
    };
    if m.dead {
        if !s.death_handled {
            s.death_handled = true;
            s.spike_ready = u64::MAX;
            plan.died = true;
        }
        m.special.horned_encounter = Some(s);
        return plan;
    }
    let dropped = match s.shield_until {
        Some(t) => now >= t,
        None => false,
    };
    if dropped {
        m.next_ai_ready_at_ms = now + 300;
        m.next_attack_ready_at_ms = now + m.attack_speed_ms;
        s.shield_until = None;
        s.immune = false;
        plan.shield_dropped = true;
    }
    let mh: i64 = if m.max_hp >= 1 { m.max_hp as i64 } else { 1 };
    let v: i64 = m.hp as i64 * 100;
    let hp: i64 = if v >= 0 { v / mh } else { -((-v) / mh) };
    assert(hp == spec_commander_health(m.hp, m.max_hp)) by (nonlinear_arith)
        requires
            v == m.hp * 100,
            mh == (if m.max_hp >= 1 { m.max_hp as int } else { 1int }),
            hp == (if v >= 0 { (v as int) / (mh as int) } else { -((-(v as int)) / (mh as int)) }),
    ;
    if hp < 80 && !s.called_boulders {
        s.called_boulders = true;
        plan.call_boulders = true;
    }
    if s.immune {
        m.special.horned_encounter = Some(s);
        return plan;
    }
    if hp < 10 && !s.called_shield {
        s.spike_ready = u64::MAX;
        m.next_ai_ready_at_ms = now + 300;
        m.next_attack_ready_at_ms = now + m.attack_speed_ms;
        s.called_shield = true;
        s.immune = true;
        s.shield_until = Some(now + 20000);
        plan.raise_shield = true;
        m.special.horned_encounter = Some(s);
        return plan;
    }
    if 10 <= hp && hp < 50 && !s.called_spikes {
        s.called_spikes = true;
        s.next_spike = 0;
        plan.start_spikes = true;
    }
    plan.spikes_due = s.called_spikes && now > s.spike_ready;
    if hp < 100 && !s.advanced {
        s.advanced = true;
    } else if hp == 100 && s.advanced {
        s.advanced = false;
        s.called_boulders = false;
        s.called_spikes = false;
        s.called_shield = false;
        s.spike_ready = u64::MAX;
        s.next_spike = 0;
        plan.reset = true;
    }
    m.special.horned_encounter = Some(s);
    plan
}

} // verus!
