//! The Horned warriors (AI 163 to 165): timed self-buffs that widen stat
//! ranges, their pending hits and their random stream.
use vstd::prelude::*;
use crate::monster::{HornedBuff, HornedHit, HornedState, MonsterTemplate, NativeMonster, SpecialAi, spec_clamp_i32};
use crate::zone::{find_monster, spec_monster_index, ZoneRuntime};
use crate::types::{rotated, spec_rotated, spec_tile_distance, tile_distance, Direction, EntityRef, EntityRefView, Point};
use crate::seqs::{partition_by, spec_not};
use crate::ai::kirin::spec_coord_gap;
use crate::entity::{insert_sorted, spec_entity_targets, spec_targets_sorted, tview, tviews, EntityTargetPurpose, NativeEntityTarget, TargetView};
use crate::rng::{draw_below_seeded_or_zero, first_acceptance, lemma_drawn_state, spec_drawn_state, spec_mix, spec_seeded, state_after};
use crate::ai::revival::spec_div_toward_zero;
use crate::seqs::retain_by;
use crate::arith::sat_add_i32;

verus! {

/// The stat a Horned buff may widen.
#[derive(Clone, Copy, Debug, PartialEq, Eq, Structural)]
pub enum HornedStat {
    Dc,
    Mc,
    Sc,
    Ac,
    Mac,
}

/// Whether a buff of `kind` widens `stat`: kind 50 widens DC and MC,
/// kind 51 widens AC and MAC, kind 55 widens AC only.
pub open spec fn spec_buff_applies(kind: u8, stat: HornedStat) -> bool {
    if kind == 50 {
        stat == HornedStat::Dc || stat == HornedStat::Mc
    } else if kind == 51 {
        stat == HornedStat::Ac || stat == HornedStat::Mac
    } else if kind == 55 {
        stat == HornedStat::Ac
    } else {
        false
    }
}

/// `(min, max)` widened by every buff in `buffs` that is still running at
/// `now` and applies to `stat`, saturating.
pub open spec fn spec_widened_range(
    buffs: Seq<HornedBuff>,
    stat: HornedStat,
    min: i32,
    max: i32,
    now: u64,
) -> (int, int)
    decreases buffs.len(),
{
    if buffs.len() == 0 {
        (min as int, max as int)
    } else {
        let (a, b) = spec_widened_range(buffs.drop_last(), stat, min, max, now);
        let bf = buffs.last();
        if now < bf.expires && spec_buff_applies(bf.kind, stat) {
            (spec_clamp_i32(a + bf.min), spec_clamp_i32(b + bf.max))
        } else {
            (a, b)
        }
    }
}

/// The stat range of `m` after its running Horned buffs.
pub open spec fn spec_horned_stat_range(
    m: NativeMonster,
    stat: HornedStat,
    min: i32,
    max: i32,
    now: u64,
) -> (int, int) {
    match m.special.horned {
        Some(s) => spec_widened_range(s.buffs@, stat, min, max, now),
        None => (min as int, max as int),
    }
}

proof fn lemma_widened_in_range(
    buffs: Seq<HornedBuff>,
    stat: HornedStat,
    min: i32,
    max: i32,
    now: u64,
)
    ensures
        i32::MIN <= spec_widened_range(buffs, stat, min, max, now).0 <= i32::MAX,
        i32::MIN <= spec_widened_range(buffs, stat, min, max, now).1 <= i32::MAX,
    decreases buffs.len(),
{
    if buffs.len() > 0 {
        lemma_widened_in_range(buffs.drop_last(), stat, min, max, now);
    }
}

/// The `(min, max)` range of `stat` for `m` at `now`, widened by its
/// running Horned buffs.
pub fn horned_stat_range(m: &NativeMonster, kind: HornedStat, min: i32, max: i32, now: u64) -> (r: (
    i32,
    i32,
))
    ensures
        (r.0 as int, r.1 as int) == spec_horned_stat_range(*m, kind, min, max, now),
{
    let mut result: (i32, i32) = (min, max);
    match &m.special.horned {
        Some(s) => {
            let mut i: usize = 0;
            while i < s.buffs.len()
                invariant
                    0 <= i <= s.buffs@.len(),
                    (result.0 as int, result.1 as int) == spec_widened_range(
                        s.buffs@.take(i as int),
                        kind,
                        min,
                        max,
                        now,
                    ),
                decreases s.buffs@.len() - i,
            {
                proof {
                    assert(s.buffs@.take(i + 1).drop_last() =~= s.buffs@.take(i as int));
                    lemma_widened_in_range(s.buffs@.take(i as int), kind, min, max, now);
                }
                let b = s.buffs[i];
                if now < b.expires {
                    let applies = if b.kind == 50 {
                        kind == HornedStat::Dc || kind == HornedStat::Mc
                    } else if b.kind == 51 {
                        kind == HornedStat::Ac || kind == HornedStat::Mac
                    } else if b.kind == 55 {
                        kind == HornedStat::Ac
                    } else {
                        false
                    };
                    if applies {
                        result = (sat_add_i32(result.0, b.min), sat_add_i32(result.1, b.max));
                    }
                }
                i += 1;
            }
            proof {
                assert(s.buffs@.take(s.buffs@.len() as int) =~= s.buffs@);
            }
        },
        None => {},
    }
    result
}

/// A Horned state as it starts, whatever its buffs.
pub open spec fn spec_fresh_horned_but_buffs(s: HornedState) -> bool {
    &&& s.rng == 0
    &&& s.fear_until == 0
    &&& s.buff_ready == 0
    &&& s.shield_ready == 0
    &&& s.target is None
    &&& s.target_ref is None
    &&& s.pending@.len() == 0
}

/// A Horned state as it starts.
pub open spec fn spec_fresh_horned(s: HornedState) -> bool {
    &&& s.rng == 0
    &&& s.fear_until == 0
    &&& s.buff_ready == 0
    &&& s.shield_ready == 0
    &&& s.target is None
    &&& s.target_ref is None
    &&& s.pending@.len() == 0
    &&& s.buffs@.len() == 0
}

fn fresh_horned() -> (s: HornedState)
    ensures
        spec_fresh_horned(s),
{
    HornedState {
        rng: 0,
        fear_until: 0,
        buff_ready: 0,
        shield_ready: 0,
        target: None,
        target_ref: None,
        pending: Vec::new(),
        buffs: Vec::new(),
    }
}

/// Whether `ai` is a Horned warrior.
pub open spec fn spec_is_horned(ai: u8) -> bool {
    163 <= ai <= 165
}

/// Gives a Horned warrior its state if it has none.
pub fn initialize_horned_monster(m: &mut NativeMonster)
    ensures
        !spec_is_horned(old(m).ai) || old(m).special.horned is Some ==> *final(m) == *old(m),
        spec_is_horned(old(m).ai) && old(m).special.horned is None ==> (final(m).special.horned matches Some(s)
            && spec_fresh_horned(s)) && *final(m) == (NativeMonster {
            special: SpecialAi { horned: final(m).special.horned, ..old(m).special },
            ..*old(m)
        }),
{
    if m.ai >= 163 && m.ai <= 165 && m.special.horned.is_none() {
        m.special.horned = Some(fresh_horned());
    }
}

/// The seed of a Horned stream.
pub open spec fn spec_horned_seed(id: u32) -> u64 {
    ((id as u64) << 32u64) ^ 0x163165u64
}

/// An unbiased Horned roll in `0..upper` (0 for an empty range).
pub fn horned_roll(s: &mut HornedState, id: u32, upper: u64) -> (r: u64)
    ensures
        upper == 0 ==> r == 0 && *final(s) == *old(s),
        upper > 0 ==> exists|k: nat|
            first_acceptance(spec_seeded(old(s).rng, spec_horned_seed(id)), upper, k) && final(s).rng
                == state_after(spec_seeded(old(s).rng, spec_horned_seed(id)), k),
        upper > 0 ==> r == spec_mix(final(s).rng) % upper && r < upper,
        upper > 0 ==> *final(s) == spec_horned_drawn(*old(s), id, upper),
        *final(s) == (HornedState { rng: final(s).rng, ..*old(s) }),
{
    let seed = ((id as u64) << 32u64) ^ 0x163165u64;
    assert(seed == spec_horned_seed(id));
    let ghost start = spec_seeded(s.rng, seed);
    let r = draw_below_seeded_or_zero(&mut s.rng, seed, upper);
    proof {
        if upper > 0 {
            let k = choose|k: nat| first_acceptance(start, upper, k) && s.rng == state_after(start, k);
            assert(first_acceptance(spec_seeded(old(s).rng, spec_horned_seed(id)), upper, k));
            lemma_drawn_state(start, upper, k);
        }
    }
    r
}

/// Horned state `s` after one roll in `0..upper` (`upper > 0`) of the
/// stream of monster `id`.
pub open spec fn spec_horned_drawn(s: HornedState, id: u32, upper: u64) -> HornedState {
    HornedState { rng: spec_drawn_state(spec_seeded(s.rng, spec_horned_seed(id)), upper), ..s }
}

/// The value of one roll in `0..upper` (`upper > 0`) of the stream of
/// monster `id` from state `s`.
pub open spec fn spec_horned_drawn_value(s: HornedState, id: u32, upper: u64) -> u64 {
    spec_mix(spec_horned_drawn(s, id, upper).rng) % upper
}

/// The template range of `kind`.
pub open spec fn spec_template_range(t: MonsterTemplate, kind: HornedStat) -> (i32, i32) {
    match kind {
        HornedStat::Dc => (t.min_dc, t.max_dc),
        HornedStat::Mc => (t.min_mc, t.max_mc),
        HornedStat::Sc => (t.min_sc, t.max_sc),
        HornedStat::Ac => (t.min_ac, t.max_ac),
        HornedStat::Mac => (t.min_mac, t.max_mac),
    }
}

fn template_range(t: &MonsterTemplate, kind: HornedStat) -> (r: (i32, i32))
    ensures
        r == spec_template_range(*t, kind),
{
    match kind {
        HornedStat::Dc => (t.min_dc, t.max_dc),
        HornedStat::Mc => (t.min_mc, t.max_mc),
        HornedStat::Sc => (t.min_sc, t.max_sc),
        HornedStat::Ac => (t.min_ac, t.max_ac),
        HornedStat::Mac => (t.min_mac, t.max_mac),
    }
}

/// The widened range a Horned power rolls over.
pub open spec fn spec_power_range(m: NativeMonster, kind: HornedStat, now: u64) -> (int, int) {
    let (a, b) = spec_template_range(m.template->0, kind);
    spec_horned_stat_range(m, kind, a, b, now)
}

/// Whether the width of a power range fits the 32-bit arithmetic it is
/// computed in.
pub open spec fn spec_power_fits(m: NativeMonster, kind: HornedStat, now: u64) -> bool {
    let (a, b) = spec_power_range(m, kind, now);
    i32::MIN <= b - a && b - a + 1 <= i32::MAX
}

/// The number of values a power range spans (at least one).
pub open spec fn spec_power_span(m: NativeMonster, kind: HornedStat, now: u64) -> u64 {
    let (a, b) = spec_power_range(m, kind, now);
    if b - a + 1 < 1 { 1 } else { (b - a + 1) as u64 }
}

impl ZoneRuntime {
    /// Horned warrior `id`'s power in `kind`: the bottom of its widened
    /// template range plus an unbiased roll over the range; 0 without a
    /// template.
    pub fn horned_power(&mut self, id: u32, kind: HornedStat, now: u64) -> (r: i32)
        requires
            spec_monster_index(old(self).native_monsters@, id) matches Some(i) && {
                let m = old(self).native_monsters@[i];
                m.template is Some ==> m.special.horned is Some && spec_power_fits(m, kind, now)
            },
        ensures
            ({
                let i = spec_monster_index(old(self).native_monsters@, id)->0;
                let m = old(self).native_monsters@[i];
                match m.template {
                    None => r == 0 && *final(self) == *old(self),
                    Some(_) => {
                        let s0 = m.special.horned->0;
                        let s1 = final(self).native_monsters@[i].special.horned->0;
                        let span = spec_power_span(m, kind, now);
                        &&& final(self).native_monsters@[i].special.horned is Some
                        &&& exists|k: nat|
                            first_acceptance(spec_seeded(s0.rng, spec_horned_seed(id)), span, k) && s1.rng
                                == state_after(spec_seeded(s0.rng, spec_horned_seed(id)), k)
                        &&& r == spec_power_range(m, kind, now).0 + spec_mix(s1.rng) % span
                        &&& s1 == (HornedState { rng: s1.rng, ..s0 })
                        &&& final(self).native_monsters@ == old(self).native_monsters@.update(
                            i,
                            NativeMonster { special: SpecialAi { horned: Some(s1), ..m.special }, ..m },
                        )
                        &&& *final(self) == (ZoneRuntime { native_monsters: final(self).native_monsters, ..*old(self) })
                    },
                }
            }),
    {
        let i = match find_monster(&self.native_monsters, id) {
            Some(i) => i,
            None => {
                return 0;
            },
        };
        let t = match self.native_monsters[i].template {
            Some(t) => t,
            None => {
                return 0;
            },
        };
        let (a, b) = template_range(&t, kind);
        let (min, max) = horned_stat_range(&self.native_monsters[i], kind, a, b, now);
        assert((min as int, max as int) == spec_power_range(self.native_monsters@[i as int], kind, now));
        let width: i32 = max - min + 1;
        let span: u64 = if width < 1 { 1 } else { width as u64 };
        let ghost m0 = self.native_monsters@;
        let mut m = self.native_monsters.remove(i);
        let mut s = m.special.horned.take().unwrap();
        let roll = horned_roll(&mut s, id, span);
        m.special.horned = Some(s);
        self.native_monsters.insert(i, m);
        assert(self.native_monsters@ == m0.update(i as int, self.native_monsters@[i as int]));
        assert(min as int + roll as int <= i32::MAX) by {
            if max < min {
                assert(span == 1);
            }
        }
        min + roll as i32
    }
}

/// Buffs of a kind other than `kind`.
pub open spec fn spec_buff_other_kind(kind: u8) -> spec_fn(HornedBuff) -> bool {
    |b: HornedBuff| b.kind != kind
}

/// Gives a Horned state `buff`, replacing any buff of the same kind.
pub fn add_horned_buff(s: &mut HornedState, buff: HornedBuff)
    ensures
        final(s).buffs@ == old(s).buffs@.filter(spec_buff_other_kind(buff.kind)).push(buff),
        *final(s) == (HornedState { buffs: final(s).buffs, ..*old(s) }),
{
    let kind = buff.kind;
    let ghost k = spec_buff_other_kind(kind);
    retain_by(
        &mut s.buffs,
        (|b: &HornedBuff| -> (r: bool)
            ensures
                r == (b.kind != kind),
            { b.kind != kind }),
        Ghost(k),
    );
    s.buffs.push(buff);
}

impl ZoneRuntime {
    /// Horned warrior `id` gains `buff` (its state created if it had none),
    /// replacing its buff of the same kind.
    pub fn horned_add_buff(&mut self, id: u32, buff: HornedBuff)
        requires
            spec_monster_index(old(self).native_monsters@, id) is Some,
        ensures
            ({
                let i = spec_monster_index(old(self).native_monsters@, id)->0;
                let m = old(self).native_monsters@[i];
                let m1 = final(self).native_monsters@[i];
                &&& final(self).native_monsters@ == old(self).native_monsters@.update(i, m1)
                &&& m1.special.horned matches Some(t) && {
                    let before: Seq<HornedBuff> = match m.special.horned {
                        Some(s) => s.buffs@,
                        None => Seq::empty(),
                    };
                    &&& t.buffs@ == before.filter(spec_buff_other_kind(buff.kind)).push(buff)
                    &&& match m.special.horned {
                        Some(s) => t == (HornedState { buffs: t.buffs, ..s }),
                        None => spec_fresh_horned_but_buffs(t),
                    }
                }
                &&& m1 == (NativeMonster { special: SpecialAi { horned: m1.special.horned, ..m.special }, ..m })
                &&& *final(self) == (ZoneRuntime { native_monsters: final(self).native_monsters, ..*old(self) })
            }),
    {
        let i = find_monster(&self.native_monsters, id).unwrap();
        let ghost m0 = self.native_monsters@;
        let mut m = self.native_monsters.remove(i);
        let mut s = match m.special.horned.take() {
            Some(s) => s,
            None => fresh_horned(),
        };
        proof {
            reveal_with_fuel(Seq::filter, 1);
        }
        add_horned_buff(&mut s, buff);
        m.special.horned = Some(s);
        self.native_monsters.insert(i, m);
        assert(self.native_monsters@ == m0.update(i as int, self.native_monsters@[i as int]));
    }
}

/// Horned hits not aimed at `id`.
pub open spec fn spec_horned_hit_keeps(id: u32) -> spec_fn(HornedHit) -> bool {
    |h: HornedHit| h.target != id
}

/// A Horned state after the life `id` is retired: a target on it and its
/// hits on it are dropped.
pub open spec fn spec_horned_state_cleared(a: HornedState, b: HornedState, id: u32) -> bool {
    &&& b.pending@ == a.pending@.filter(spec_horned_hit_keeps(id))
    &&& b.target == (if a.target == Some(id) { None } else { a.target })
    &&& b.target_ref == (if a.target == Some(id) { None } else { a.target_ref })
    &&& b == (HornedState { pending: b.pending, target: b.target, target_ref: b.target_ref, ..a })
}

fn clear_horned_state(s: &mut HornedState, id: u32)
    ensures
        spec_horned_state_cleared(*old(s), *final(s), id),
{
    if s.target == Some(id) {
        s.target = None;
        s.target_ref = None;
    }
    let ghost k = spec_horned_hit_keeps(id);
    retain_by(
        &mut s.pending,
        (|h: &HornedHit| -> (r: bool)
            ensures
                r == (h.target != id),
            { h.target != id }),
        Ghost(k),
    );
}

/// A monster after the sweep of `clear_horned_targets`: its horned state (if any)
/// cleared, nothing else changed.
pub open spec fn spec_horned_monster_cleared(a: NativeMonster, b: NativeMonster, id: u32) -> bool {
    match a.special.horned {
        Some(s) => b.special.horned matches Some(t) && spec_horned_state_cleared(s, t, id) && b
            == (NativeMonster { special: SpecialAi { horned: b.special.horned, ..a.special }, ..a }),
        None => b == a,
    }
}

fn clear_horned_monster(m: &mut NativeMonster, id: u32)
    ensures
        spec_horned_monster_cleared(*old(m), *final(m), id),
{
    match m.special.horned.take() {
        Some(mut s) => {
            clear_horned_state(&mut s, id);
            m.special.horned = Some(s);
        },
        None => {},
    }
}

impl ZoneRuntime {
    /// The life `id` is retired: every Horned warrior drops it as target and
    /// forgets its hits on it.
    pub fn clear_horned_targets(&mut self, id: u32)
        ensures
            *final(self) == (ZoneRuntime { native_monsters: final(self).native_monsters, ..*old(self) }),
            final(self).native_monsters@.len() == old(self).native_monsters@.len(),
            forall|k: int|
                0 <= k < old(self).native_monsters@.len() ==> spec_horned_monster_cleared(
                    old(self).native_monsters@[k],
                    #[trigger] final(self).native_monsters@[k],
                    id,
                ),
    {
        let ghost before = self.native_monsters@;
        let mut i: usize = 0;
        while i < self.native_monsters.len()
            invariant
                *self == (ZoneRuntime { native_monsters: self.native_monsters, ..*old(self) }),
                before == old(self).native_monsters@,
                self.native_monsters@.len() == before.len(),
                0 <= i <= before.len(),
                forall|k: int|
                    0 <= k < i ==> spec_horned_monster_cleared(before[k], #[trigger] self.native_monsters@[k], id),
                forall|k: int| i <= k < before.len() ==> #[trigger] self.native_monsters@[k] == before[k],
            decreases before.len() - i,
        {
            let mut m = self.native_monsters.remove(i);
            clear_horned_monster(&mut m, id);
            self.native_monsters.insert(i, m);
            i += 1;
        }
    }
}

/// Whether monster `f` is a friend of Horned monster `m` (id `id`) within
/// `radius` of `centre`: another living, visible monster of the same master
/// and the same side.
pub open spec fn spec_horned_friend(id: u32, m: NativeMonster, f: NativeMonster, centre: Point, radius: i32) -> bool {
    &&& f.object_id != id
    &&& !f.dead
    &&& f.hp > 0
    &&& f.master_object_id == m.master_object_id
    &&& f.hostile_to_player == m.hostile_to_player
    &&& spec_tile_distance(centre, f.position) <= radius
    &&& f.visible
}

/// The friends of `m` among the first `n` monsters of `monsters`, in
/// monster order.
pub open spec fn spec_horned_friend_candidates(
    monsters: Seq<NativeMonster>,
    id: u32,
    m: NativeMonster,
    centre: Point,
    radius: i32,
    n: int,
) -> Seq<TargetView>
    decreases n,
{
    if n <= 0 {
        Seq::empty()
    } else {
        let prev = spec_horned_friend_candidates(monsters, id, m, centre, radius, n - 1);
        let f = monsters[n - 1];
        if spec_horned_friend(id, m, f, centre, radius) {
            prev.push(
                TargetView {
                    reference: EntityRefView::Monster { object_id: f.object_id, incarnation: f.incarnation },
                    object_id: f.object_id,
                    position: f.position,
                },
            )
        } else {
            prev
        }
    }
}

/// The object ids of a candidate list.
pub open spec fn spec_target_ids(s: Seq<NativeEntityTarget>) -> Seq<u32> {
    s.map_values(|t: NativeEntityTarget| t.object_id)
}

impl ZoneRuntime {
    /// The friends of Horned monster `id` within `radius` of `center`
    /// (see [`spec_horned_friend`]), nearest first, then by row, column and
    /// id.
    pub fn horned_friends(&self, id: u32, center: &Point, radius: i32) -> (r: Vec<u32>)
        requires
            spec_monster_index(self.native_monsters@, id) is Some,
        ensures
            exists|s: Seq<NativeEntityTarget>|
                #[trigger] spec_target_ids(s) == r@ && spec_targets_sorted(s, *center) && tviews(s).to_multiset()
                    == spec_horned_friend_candidates(
                    self.native_monsters@,
                    id,
                    self.native_monsters@[spec_monster_index(self.native_monsters@, id)->0],
                    *center,
                    radius,
                    self.native_monsters@.len() as int,
                ).to_multiset(),
    {
        let k = find_monster(&self.native_monsters, id).unwrap();
        let m = &self.native_monsters[k];
        let mut out: Vec<NativeEntityTarget> = Vec::new();
        proof {
            assert(tviews(out@) =~= Seq::<TargetView>::empty());
            assert(spec_horned_friend_candidates(self.native_monsters@, id, *m, *center, radius, 0) =~= Seq::<TargetView>::empty());
        }
        let mut i: usize = 0;
        while i < self.native_monsters.len()
            invariant
                0 <= i <= self.native_monsters@.len(),
                *m == self.native_monsters@[spec_monster_index(self.native_monsters@, id)->0],
                spec_targets_sorted(out@, *center),
                tviews(out@).to_multiset() == spec_horned_friend_candidates(
                    self.native_monsters@,
                    id,
                    *m,
                    *center,
                    radius,
                    i as int,
                ).to_multiset(),
            decreases self.native_monsters@.len() - i,
        {
            let f = &self.native_monsters[i];
            let same_master = match (f.master_object_id, m.master_object_id) {
                (Some(a), Some(b)) => a == b,
                (None, None) => true,
                _ => false,
            };
            if f.object_id != id && !f.dead && f.hp > 0 && same_master && f.hostile_to_player
                == m.hostile_to_player && tile_distance(center, &f.position) <= radius as i64 && f.visible {
                let t = NativeEntityTarget {
                    reference: EntityRef::Monster { object_id: f.object_id, incarnation: f.incarnation },
                    object_id: f.object_id,
                    position: f.position,
                };
                proof {
                    let prev = spec_horned_friend_candidates(self.native_monsters@, id, *m, *center, radius, i as int);
                    vstd::seq_lib::to_multiset_build(prev, tview(t));
                }
                insert_sorted(&mut out, t, center);
            }
            i += 1;
        }
        let mut ids: Vec<u32> = Vec::new();
        let mut j: usize = 0;
        while j < out.len()
            invariant
                0 <= j <= out@.len(),
                ids@ == spec_target_ids(out@.take(j as int)),
            decreases out@.len() - j,
        {
            ids.push(out[j].object_id);
            proof {
                assert(spec_target_ids(out@.take(j + 1)) =~= spec_target_ids(out@.take(j as int)).push(out@[j as int].object_id));
            }
            j += 1;
        }
        proof {
            assert(out@.take(j as int) =~= out@);
            assert(spec_target_ids(out@) == ids@);
        }
        ids
    }
}

/// Whether a Horned buff has run out at `now`.
pub open spec fn spec_buff_expired(now: u64) -> spec_fn(HornedBuff) -> bool {
    |b: HornedBuff| now >= b.expires
}

/// The buffs of a Horned state that have run out at `now` leave it; their
/// kinds are returned in order, so that viewers can be told.
pub fn horned_expire_buffs(s: &mut HornedState, now: u64) -> (kinds: Vec<u8>)
    ensures
        kinds@ == old(s).buffs@.filter(spec_buff_expired(now)).map_values(|b: HornedBuff| b.kind),
        final(s).buffs@ == old(s).buffs@.filter(spec_not(spec_buff_expired(now))),
        *final(s) == (HornedState { buffs: final(s).buffs, ..*old(s) }),
{
    let mut buffs: Vec<HornedBuff> = Vec::new();
    std::mem::swap(&mut buffs, &mut s.buffs);
    let (expired, kept) = partition_by(
        buffs,
        (|b: &HornedBuff| -> (r: bool)
            ensures
                r == (now >= b.expires),
            { now >= b.expires }),
        Ghost(spec_buff_expired(now)),
    );
    s.buffs = kept;
    let mut kinds: Vec<u8> = Vec::new();
    let mut i: usize = 0;
    while i < expired.len()
        invariant
            0 <= i <= expired@.len(),
            kinds@ == expired@.take(i as int).map_values(|b: HornedBuff| b.kind),
        decreases expired@.len() - i,
    {
        kinds.push(expired[i].kind);
        proof {
            assert(expired@.take(i + 1).map_values(|b: HornedBuff| b.kind) =~= expired@.take(i as int).map_values(
                |b: HornedBuff| b.kind,
            ).push(expired@[i as int].kind));
        }
        i += 1;
    }
    proof {
        assert(expired@.take(i as int) =~= expired@);
    }
    kinds
}

/// Whether candidate `t` is the target Horned state `s` remembers: its
/// object, and its life when a life is remembered.
pub open spec fn spec_horned_remembers(s: HornedState, t: NativeEntityTarget) -> bool {
    &&& s.target == Some(t.object_id)
    &&& match s.target_ref {
        Some(r) => r@ == t.reference@,
        None => true,
    }
}

/// The candidate Horned state `s` keeps aiming at: the first one it
/// remembers, otherwise the first candidate; none without candidates.
pub open spec fn spec_horned_choice(s: HornedState, targets: Seq<NativeEntityTarget>) -> Option<int> {
    if exists|i: int| 0 <= i < targets.len() && spec_horned_remembers(s, targets[i]) {
        Some(choose|i: int| 0 <= i < targets.len() && spec_horned_remembers(s, targets[i]) && forall|j: int|
            0 <= j < i ==> !spec_horned_remembers(s, targets[j]))
    } else if targets.len() > 0 {
        Some(0)
    } else {
        None
    }
}

/// The candidate (by index) Horned state `s` keeps aiming at when it has
/// no bound target (see [`spec_horned_choice`]).
pub fn horned_choose_target(s: &HornedState, targets: &Vec<NativeEntityTarget>) -> (r: Option<usize>)
    ensures
        match r {
            Some(i) => spec_horned_choice(*s, targets@) == Some(i as int),
            None => spec_horned_choice(*s, targets@) is None,
        },
{
    let mut i: usize = 0;
    while i < targets.len()
        invariant
            0 <= i <= targets@.len(),
            forall|j: int| 0 <= j < i ==> !spec_horned_remembers(*s, #[trigger] targets@[j]),
        decreases targets@.len() - i,
    {
        let t = &targets[i];
        let same_object = match s.target {
            Some(o) => o == t.object_id,
            None => false,
        };
        let same_life = match &s.target_ref {
            Some(r) => r.same(&t.reference),
            None => true,
        };
        if same_object && same_life {
            proof {
                let k = choose|k: int| 0 <= k < targets@.len() && spec_horned_remembers(*s, targets@[k]) && forall|j: int|
                    0 <= j < k ==> !spec_horned_remembers(*s, targets@[j]);
                assert(spec_horned_remembers(*s, targets@[i as int]));
                if k < i {
                    assert(!spec_horned_remembers(*s, targets@[k]));
                }
                if k > i {
                    assert(!spec_horned_remembers(*s, targets@[i as int]));
                }
            }
            return Some(i);
        }
        i += 1;
    }
    if targets.len() > 0 {
        Some(0)
    } else {
        None
    }
}

/// What a Horned warrior does about its target.
#[derive(Debug, Clone, Copy, PartialEq, Eq, Structural)]
pub enum HornedMove {
    /// It steps in this direction.
    Step(Direction),
    /// It attacks, facing its target.
    Attack,
}

/// Whether Horned state `s` holds a running shield (buff kind 55) at `now`.
pub open spec fn spec_horned_shielded(s: HornedState, now: u64) -> bool {
    exists|k: int| 0 <= k < s.buffs@.len() && s.buffs@[k].kind == 55 && now < s.buffs@[k].expires
}

/// The move of Horned warrior of AI `ai` (state `s`) at `from` toward its
/// target at `to` at `now`, `toward` being the direction to the target. The
/// archer and the spear (AI 163, 164) keep their distance: unless the
/// target is within six tiles while they are still afraid, they become
/// afraid for five seconds and step toward a target six or more tiles away
/// and away from a nearer one. The axe (AI 165) strikes from one to four
/// tiles along a line or on a tile of the same colour, unless shielded; it
/// steps away while shielded and closer when out of reach. Otherwise the
/// warrior attacks.
pub open spec fn spec_horned_move(ai: u8, s: HornedState, from: Point, to: Point, toward: Direction, now: u64) -> (HornedState, HornedMove) {
    let dx = spec_coord_gap(from.x, to.x);
    let dy = spec_coord_gap(from.y, to.y);
    let distance = spec_tile_distance(from, to);
    if (ai == 163 || ai == 164) && !(distance <= 6 && now < s.fear_until) {
        (HornedState { fear_until: (now + 5000) as u64, ..s }, HornedMove::Step(if distance >= 6 { toward } else { spec_rotated(toward, 4) }))
    } else if ai == 165 && (spec_horned_shielded(s, now) || !(distance > 0 && distance <= 4 && ((dx <= 1 && dy <= 1)
        || dx == dy || dx % 2 == dy % 2))) {
        (s, HornedMove::Step(if spec_horned_shielded(s, now) { spec_rotated(toward, 4) } else { toward }))
    } else {
        (s, HornedMove::Attack)
    }
}

/// The move of a Horned warrior toward its target (see
/// [`spec_horned_move`]).
pub fn horned_move_choice(ai: u8, s: &mut HornedState, from: &Point, to: &Point, toward: Direction, now: u64) -> (r: HornedMove)
    requires
        now + 5000 <= u64::MAX,
    ensures
        (*final(s), r) == spec_horned_move(ai, *old(s), *from, *to, toward, now),
{
    let dx: i64 = if from.x >= to.x { from.x as i64 - to.x as i64 } else { to.x as i64 - from.x as i64 };
    let dy: i64 = if from.y >= to.y { from.y as i64 - to.y as i64 } else { to.y as i64 - from.y as i64 };
    let distance = tile_distance(from, to);
    if (ai == 163 || ai == 164) && !(distance <= 6 && now < s.fear_until) {
        s.fear_until = now + 5000;
        return HornedMove::Step(if distance >= 6 { toward } else { rotated(toward, 4) });
    }
    if ai == 165 {
        let mut shielded = false;
        let mut k: usize = 0;
        while k < s.buffs.len()
            invariant
                0 <= k <= s.buffs@.len(),
                shielded == exists|j: int| 0 <= j < k && s.buffs@[j].kind == 55 && now < s.buffs@[j].expires,
            decreases s.buffs@.len() - k,
        {
            if s.buffs[k].kind == 55 && now < s.buffs[k].expires {
                shielded = true;
            }
            k += 1;
        }
        let in_range = distance > 0 && distance <= 4 && ((dx <= 1 && dy <= 1) || dx == dy || dx % 2 == dy % 2);
        if shielded || !in_range {
            return HornedMove::Step(if shielded { rotated(toward, 4) } else { toward });
        }
    }
    HornedMove::Attack
}

/// How a Horned warrior attacks its target.
#[derive(Debug, Clone, Copy, PartialEq, Eq, Structural)]
pub enum HornedAttackPlan {
    /// The axe raises its shield (a buff of kind 55 for ten seconds) and may
    /// raise it again after `ready`.
    Shield { ready: u64 },
    /// The archer teleports its target next to itself.
    Teleport,
    /// A strike whose damage is magic or physical, splashes over `area`
    /// tiles and lands `delay` ms later, shown as attack type `kind`, ranged
    /// or not.
    Strike { magic: bool, area: u8, delay: u64, ranged: bool, kind: u8 },
}

/// Whether a monster of `hp` out of `max_hp` is below half its health, the
/// percentage truncated toward zero and a maximum below one read as one.
pub open spec fn spec_below_half(hp: i32, max_hp: i32) -> bool {
    spec_div_toward_zero(hp * 100, if max_hp >= 1 { max_hp as int } else { 1 }) < 50
}

/// The attack of Horned warrior `id` of AI `ai` (health `hp` of `max_hp`,
/// state `s`) on a target `distance` tiles away at `now`, and its state
/// after the rolls the choice takes. The axe (AI 165) below half health
/// raises its shield once it is ready, ready again 15 to 20 s later. The
/// archer (AI 163) casts a magic blast over three tiles at a target within
/// three tiles, teleports a farther one on one roll in five and otherwise
/// shoots it. The spear (AI 164) throws, landing 50 ms per tile after half a
/// second. Any other strikes adjacent targets plainly on two rolls in three
/// and otherwise sweeps (attack type 1).
pub open spec fn spec_horned_attack_plan(
    ai: u8,
    hp: i32,
    max_hp: i32,
    distance: int,
    s: HornedState,
    id: u32,
    now: u64,
) -> (HornedState, HornedAttackPlan) {
    if ai == 165 && spec_below_half(hp, max_hp) && now > s.shield_ready {
        let ready = (now + 15000 + spec_horned_drawn_value(s, id, 5000)) as u64;
        (HornedState { shield_ready: ready, ..spec_horned_drawn(s, id, 5000) }, HornedAttackPlan::Shield { ready })
    } else if ai == 163 && distance <= 3 {
        (s, HornedAttackPlan::Strike { magic: true, area: 3, delay: 500, ranged: false, kind: 0 })
    } else if ai == 163 {
        (spec_horned_drawn(s, id, 5), if spec_horned_drawn_value(s, id, 5) == 0 {
            HornedAttackPlan::Teleport
        } else {
            HornedAttackPlan::Strike { magic: false, area: 0, delay: 800, ranged: true, kind: 0 }
        })
    } else if ai == 164 {
        (s, HornedAttackPlan::Strike { magic: false, area: 0, delay: (distance * 50 + 500) as u64, ranged: true, kind: 0 })
    } else if distance <= 1 {
        (spec_horned_drawn(s, id, 3), if spec_horned_drawn_value(s, id, 3) > 0 {
            HornedAttackPlan::Strike { magic: false, area: 0, delay: 300, ranged: false, kind: 0 }
        } else {
            HornedAttackPlan::Strike { magic: false, area: 0, delay: 500, ranged: false, kind: 1 }
        })
    } else {
        (s, HornedAttackPlan::Strike { magic: false, area: 0, delay: 500, ranged: false, kind: 1 })
    }
}

/// The attack of a Horned warrior at `from` on a target at `to` (see
/// [`spec_horned_attack_plan`]).
pub fn horned_attack_plan(
    ai: u8,
    hp: i32,
    max_hp: i32,
    from: &Point,
    to: &Point,
    s: &mut HornedState,
    id: u32,
    now: u64,
) -> (r: HornedAttackPlan)
    requires
        now + 20000 <= u64::MAX,
    ensures
        (*final(s), r) == spec_horned_attack_plan(ai, hp, max_hp, spec_tile_distance(*from, *to), *old(s), id, now),
{
    let distance = tile_distance(from, to);
    let mh: i64 = if max_hp >= 1 { max_hp as i64 } else { 1 };
    let p: i64 = hp as i64 * 100;
    let pct: i64 = if p >= 0 { p / mh } else { -((-p) / mh) };
    if ai == 165 && pct < 50 && now > s.shield_ready {
        let extra = horned_roll(s, id, 5000);
        let ready = now + 15000 + extra;
        s.shield_ready = ready;
        return HornedAttackPlan::Shield { ready };
    }
    if ai == 163 {
        if distance <= 3 {
            return HornedAttackPlan::Strike { magic: true, area: 3, delay: 500, ranged: false, kind: 0 };
        }
        if horned_roll(s, id, 5) == 0 {
            return HornedAttackPlan::Teleport;
        }
        return HornedAttackPlan::Strike { magic: false, area: 0, delay: 800, ranged: true, kind: 0 };
    }
    if ai == 164 {
        assert(distance <= 0x1_0000_0000);
        return HornedAttackPlan::Strike { magic: false, area: 0, delay: distance as u64 * 50 + 500, ranged: true, kind: 0 };
    }
    if distance <= 1 && horned_roll(s, id, 3) > 0 {
        HornedAttackPlan::Strike { magic: false, area: 0, delay: 300, ranged: false, kind: 0 }
    } else {
        HornedAttackPlan::Strike { magic: false, area: 0, delay: 500, ranged: false, kind: 1 }
    }
}

impl ZoneRuntime {
    /// The lives Horned monster `id` may act on for `purpose` within
    /// `radius` of `center`.
    pub fn horned_targets(&self, id: u32, center: &Point, radius: i32, purpose: EntityTargetPurpose, now: u64) -> (r: Vec<
        NativeEntityTarget,
    >)
        ensures
            spec_entity_targets(*self, id, *center, radius, purpose, now, r@),
    {
        self.native_entity_targets(id, center, radius, purpose, now)
    }
}

} // verus!
