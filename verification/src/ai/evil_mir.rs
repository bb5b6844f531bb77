//! EvilMir (AI 52): its unrejected random stream, its spell power, and the
//! target and queued effects it drops when that target's life is retired.
use vstd::prelude::*;
use crate::types::{Direction, EntityRef, EntityRefView, Point, opt_ref_view, spec_tile_distance, tile_distance};
use crate::monster::{EvilMirState, NativeMonster, PendingSource, PlayerTarget, SpecialAi};
use crate::entity::{EntityTargetPurpose, NativeEntityTarget, spec_entity_targets};
use crate::entity_target::{spec_native_target_cleared, spec_native_target_set, spec_relations_ordered};
use crate::zone::{find_monster, spec_monster_index, ZoneRuntime};
use crate::rng::{draw_mod_seeded, spec_mix, spec_seeded, GOLDEN};

verus! {

/// An EvilMir state as it starts.
pub open spec fn spec_fresh_evil_mir(s: EvilMirState) -> bool {
    &&& s.rng == 0
    &&& s.target is None
    &&& s.target_ref is None
    &&& !s.mass
    &&& s.pending@.len() == 0
    &&& s.pending_sources@.len() == 0
}

/// Gives an EvilMir its state if it has none; it always faces up.
pub fn initialize_evil_mir(m: &mut NativeMonster)
    ensures
        old(m).ai != 52 ==> *final(m) == *old(m),
        old(m).ai == 52 ==> (final(m).special.evil_mir matches Some(s) && (old(m).special.evil_mir is None
            ==> spec_fresh_evil_mir(s))) && (old(m).special.evil_mir is Some ==> final(m).special.evil_mir
            == old(m).special.evil_mir) && *final(m) == (NativeMonster {
            special: SpecialAi { evil_mir: final(m).special.evil_mir, ..old(m).special },
            direction: Direction::Up,
            ..*old(m)
        }),
{
    if m.ai != 52 {
        return;
    }
    if m.special.evil_mir.is_none() {
        m.special.evil_mir = Some(
            EvilMirState {
                rng: 0,
                target: None,
                target_ref: None,
                mass: false,
                pending: Vec::new(),
                pending_sources: Vec::new(),
            },
        );
    }
    m.direction = Direction::Up;
}

/// The seed of an EvilMir stream.
pub open spec fn spec_evil_mir_seed(id: u32) -> u64 {
    ((id as u64) << 32u64) ^ 52u64
}

/// The next EvilMir roll in `0..n` (0 for an empty range): one Weyl step of
/// its stream, seeded from its id on first use, reduced without rejection.
pub fn evil_mir_roll(s: &mut EvilMirState, id: u32, n: u64) -> (r: u64)
    ensures
        n == 0 ==> r == 0 && *final(s) == *old(s),
        n > 0 ==> final(s).rng == spec_seeded(old(s).rng, spec_evil_mir_seed(id)).wrapping_add(GOLDEN)
            && r == spec_mix(final(s).rng) % n,
        *final(s) == (EvilMirState { rng: final(s).rng, ..*old(s) }),
{
    draw_mod_seeded(&mut s.rng, ((id as u64) << 32u64) ^ 52u64, n)
}

impl ZoneRuntime {
    /// EvilMir `id`'s spell power: its template SC (or DC) range, the top
    /// raised to the bottom, plus a roll over the range; 0 without a template.
    pub fn evil_mir_power(&mut self, id: u32, sc: bool) -> (r: i32)
        requires
            spec_monster_index(old(self).native_monsters@, id) matches Some(i) && old(self).native_monsters@[i].special.evil_mir is Some,
        ensures
            ({
                let i = spec_monster_index(old(self).native_monsters@, id)->0;
                let m = old(self).native_monsters@[i];
                match m.template {
                    None => r == 0 && *final(self) == *old(self),
                    Some(t) => {
                        let a: int = if sc { t.min_sc as int } else { t.min_dc as int };
                        let b0: int = if sc { t.max_sc as int } else { t.max_dc as int };
                        let b = if b0 > a { b0 } else { a };
                        let s0 = m.special.evil_mir->0;
                        let s1 = final(self).native_monsters@[i].special.evil_mir->0;
                        &&& final(self).native_monsters@[i].special.evil_mir is Some
                        &&& s1.rng == spec_seeded(s0.rng, spec_evil_mir_seed(id)).wrapping_add(GOLDEN)
                        &&& r == a + spec_mix(s1.rng) % ((b - a + 1) as u64)
                        &&& s1 == (EvilMirState { rng: s1.rng, ..s0 })
                        &&& final(self).native_monsters@ == old(self).native_monsters@.update(
                            i,
                            NativeMonster { special: SpecialAi { evil_mir: Some(s1), ..m.special }, ..m },
                        )
                        &&& *final(self) == (ZoneRuntime { native_monsters: final(self).native_monsters, ..*old(self) })
                    },
                }
            }),
    {
        let i = match find_monster(&self.native_monsters, id) {
            Some(i) => i,
            None => {
                return 0;
            },
        };
        let t = match self.native_monsters[i].template {
            Some(t) => t,
            None => {
                return 0;
            },
        };
        let a: i64 = if sc { t.min_sc as i64 } else { t.min_dc as i64 };
        let b0: i64 = if sc { t.max_sc as i64 } else { t.max_dc as i64 };
        let b: i64 = if b0 > a { b0 } else { a };
        let span: u64 = (b - a + 1) as u64;
        let ghost m0 = self.native_monsters@;
        let mut m = self.native_monsters.remove(i);
        let mut s = m.special.evil_mir.take().unwrap();
        let roll = evil_mir_roll(&mut s, id, span);
        m.special.evil_mir = Some(s);
        self.native_monsters.insert(i, m);
        assert(self.native_monsters@ == m0.update(i as int, self.native_monsters@[i as int]));
        (a + roll as i64) as i32
    }
}

/// An EvilMir state after the life `id` is retired: when it aimed at that
/// life, its target and every queued effect are dropped.
pub open spec fn spec_evil_mir_state_cleared(a: EvilMirState, b: EvilMirState, id: u32) -> bool {
    let aimed = (a.target matches Some(t) && t.object_id == id) || (a.target_ref matches Some(r)
        && r@.object_id() == id);
    if aimed {
        &&& b.target is None
        &&& b.target_ref is None
        &&& b.pending@.len() == 0
        &&& b.pending_sources@.len() == 0
        &&& b == (EvilMirState {
            target: None,
            target_ref: None,
            pending: b.pending,
            pending_sources: b.pending_sources,
            ..a
        })
    } else {
        b == a
    }
}

fn clear_evil_mir_state(s: &mut EvilMirState, id: u32)
    ensures
        spec_evil_mir_state_cleared(*old(s), *final(s), id),
{
    let aimed = (match &s.target {
        Some(t) => t.object_id == id,
        None => false,
    }) || (match &s.target_ref {
        Some(r) => r.object_id() == id,
        None => false,
    });
    if aimed {
        s.target = None;
        s.target_ref = None;
        s.pending.clear();
        s.pending_sources.clear();
    }
}

/// A monster after the sweep of `clear_evil_mir_targets`: its evil_mir state (if any)
/// cleared, nothing else changed.
pub open spec fn spec_evil_mir_monster_cleared(a: NativeMonster, b: NativeMonster, id: u32) -> bool {
    match a.special.evil_mir {
        Some(s) => b.special.evil_mir matches Some(t) && spec_evil_mir_state_cleared(s, t, id) && b
            == (NativeMonster { special: SpecialAi { evil_mir: b.special.evil_mir, ..a.special }, ..a }),
        None => b == a,
    }
}

fn clear_evil_mir_monster(m: &mut NativeMonster, id: u32)
    ensures
        spec_evil_mir_monster_cleared(*old(m), *final(m), id),
{
    match m.special.evil_mir.take() {
        Some(mut s) => {
            clear_evil_mir_state(&mut s, id);
            m.special.evil_mir = Some(s);
        },
        None => {},
    }
}

impl ZoneRuntime {
    /// The life `id` is retired: an EvilMir aiming at it drops its target and
    /// queued effects.
    pub fn clear_evil_mir_targets(&mut self, id: u32)
        ensures
            *final(self) == (ZoneRuntime { native_monsters: final(self).native_monsters, ..*old(self) }),
            final(self).native_monsters@.len() == old(self).native_monsters@.len(),
            forall|k: int|
                0 <= k < old(self).native_monsters@.len() ==> spec_evil_mir_monster_cleared(
                    old(self).native_monsters@[k],
                    #[trigger] final(self).native_monsters@[k],
                    id,
                ),
    {
        let ghost before = self.native_monsters@;
        let mut i: usize = 0;
        while i < self.native_monsters.len()
            invariant
                *self == (ZoneRuntime { native_monsters: self.native_monsters, ..*old(self) }),
                before == old(self).native_monsters@,
                self.native_monsters@.len() == before.len(),
                0 <= i <= before.len(),
                forall|k: int|
                    0 <= k < i ==> spec_evil_mir_monster_cleared(before[k], #[trigger] self.native_monsters@[k], id),
                forall|k: int| i <= k < before.len() ==> #[trigger] self.native_monsters@[k] == before[k],
            decreases before.len() - i,
        {
            let mut m = self.native_monsters.remove(i);
            clear_evil_mir_monster(&mut m, id);
            self.native_monsters.insert(i, m);
            i += 1;
        }
    }
}

/// The purpose of an EvilMir target search: sight while searching,
/// otherwise any landing effect.
pub open spec fn spec_evil_mir_purpose(search: bool) -> EntityTargetPurpose {
    if search {
        EntityTargetPurpose::Search
    } else {
        EntityTargetPurpose::Impact
    }
}

/// EvilMir state `s1` is `s0` aimed at `target` (or at nothing): the player
/// it remembers is the target's player, if any.
pub open spec fn spec_evil_mir_aimed(s0: EvilMirState, s1: EvilMirState, target: Option<EntityRefView>) -> bool {
    &&& match target {
        Some(EntityRefView::Player { session, object_id, .. }) => s1.target matches Some(pt)
            && pt.session_id@ == session && pt.object_id == object_id,
        _ => s1.target is None,
    }
    &&& opt_ref_view(s1.target_ref) == target
    &&& s1 == (EvilMirState { target: s1.target, target_ref: s1.target_ref, ..s0 })
}

/// The view of an optional candidate's reference.
pub open spec fn spec_candidate_ref(t: Option<&NativeEntityTarget>) -> Option<EntityRefView> {
    match t {
        Some(t) => Some(t.reference@),
        None => None,
    }
}

/// Zone `b` after EvilMir `id` of zone `a` is aimed at `target` by way of
/// zone `mid`: first its state is aimed, then the ledger binds it to that
/// life (or unbinds it).
pub open spec fn spec_evil_mir_set_via(
    a: ZoneRuntime,
    mid: ZoneRuntime,
    b: ZoneRuntime,
    id: u32,
    target: Option<EntityRefView>,
    now: u64,
) -> bool {
    let i = spec_monster_index(a.native_monsters@, id)->0;
    let m = a.native_monsters@[i];
    &&& mid.native_monsters@.len() == a.native_monsters@.len()
    &&& mid.native_monsters@[i].special.evil_mir matches Some(s1) && spec_evil_mir_aimed(
        m.special.evil_mir->0,
        s1,
        target,
    ) && mid.native_monsters@ == a.native_monsters@.update(
        i,
        NativeMonster { special: SpecialAi { evil_mir: Some(s1), ..m.special }, ..m },
    )
    &&& mid == (ZoneRuntime { native_monsters: mid.native_monsters, ..a })
    &&& match target {
        Some(t) => exists|r: bool| spec_native_target_set(mid, b, id, t, now, r),
        None => spec_native_target_cleared(mid, b, id),
    }
}

impl ZoneRuntime {
    /// The lives EvilMir `id` may act on within `radius` of `center`:
    /// those it sees while searching, otherwise any it may hit.
    pub fn evil_mir_targets(&self, id: u32, center: &Point, radius: i32, search: bool, now: u64) -> (r: Vec<
        NativeEntityTarget,
    >)
        ensures
            spec_entity_targets(*self, id, *center, radius, spec_evil_mir_purpose(search), now, r@),
    {
        let purpose = if search {
            EntityTargetPurpose::Search
        } else {
            EntityTargetPurpose::Impact
        };
        self.native_entity_targets(id, center, radius, purpose, now)
    }

    /// Aims EvilMir `id` at `target` (or at nothing): its state remembers
    /// the target, and the ledger binds it to that life (or unbinds it).
    pub fn set_evil_mir_target(&mut self, id: u32, target: Option<&NativeEntityTarget>, now: u64)
        requires
            spec_monster_index(old(self).native_monsters@, id) matches Some(i) && 0 <= i < old(self).native_monsters@.len() && old(self).native_monsters@[i].special.evil_mir is Some,
            old(self).entity_combat matches Some(st) ==> spec_relations_ordered(st.targets@),
        ensures
            exists|mid: ZoneRuntime| #[trigger] spec_evil_mir_set_via(*old(self), mid, *final(self), id, spec_candidate_ref(target), now),
    {
        let ghost a = *self;
        let i = match find_monster(&self.native_monsters, id) {
            Some(i) => i,
            None => {
                return;
            },
        };
        let ghost m0 = self.native_monsters@;
        let mut m = self.native_monsters.remove(i);
        let mut s = m.special.evil_mir.take().unwrap();
        s.target = match target {
            Some(t) => match &t.reference {
                EntityRef::Player { session_id, object_id, .. } => Some(
                    PlayerTarget { session_id: session_id.duplicate(), object_id: *object_id },
                ),
                EntityRef::Monster { .. } => None,
            },
            None => None,
        };
        s.target_ref = match target {
            Some(t) => Some(t.reference.duplicate()),
            None => None,
        };
        m.special.evil_mir = Some(s);
        self.native_monsters.insert(i, m);
        assert(self.native_monsters@ == m0.update(i as int, self.native_monsters@[i as int]));
        let ghost mid = *self;
        match target {
            Some(t) => {
                let r = self.set_native_entity_target(id, &t.reference, now);
                assert(spec_native_target_set(mid, *self, id, t.reference@, now, r));
            },
            None => {
                self.clear_native_entity_target(id);
            },
        }
        assert(spec_evil_mir_set_via(a, mid, *self, id, spec_candidate_ref(target), now));
    }
}

/// Whether candidate `t` is the life EvilMir state `s` remembers: its
/// remembered reference when it has one, otherwise its remembered player.
pub open spec fn spec_evil_mir_remembers(s: EvilMirState, t: NativeEntityTarget) -> bool {
    match s.target_ref {
        Some(r) => r@ == t.reference@,
        None => s.target matches Some(pt) && pt.object_id == t.object_id,
    }
}

/// The candidate EvilMir state `s` keeps aiming at: the first one it
/// remembers, otherwise the first candidate; none without candidates.
pub open spec fn spec_evil_mir_choice(s: EvilMirState, targets: Seq<NativeEntityTarget>) -> Option<int> {
    if exists|i: int| 0 <= i < targets.len() && spec_evil_mir_remembers(s, targets[i]) {
        Some(choose|i: int| 0 <= i < targets.len() && spec_evil_mir_remembers(s, targets[i]) && forall|j: int|
            0 <= j < i ==> !spec_evil_mir_remembers(s, targets[j]))
    } else if targets.len() > 0 {
        Some(0)
    } else {
        None
    }
}

/// The candidate (by index) EvilMir state `s` keeps aiming at when it has
/// no bound target (see [`spec_evil_mir_choice`]).
pub fn evil_mir_choose_target(s: &EvilMirState, targets: &Vec<NativeEntityTarget>) -> (r: Option<usize>)
    ensures
        match r {
            Some(i) => spec_evil_mir_choice(*s, targets@) == Some(i as int) && i < targets@.len(),
            None => spec_evil_mir_choice(*s, targets@) is None,
        },
{
    let mut i: usize = 0;
    while i < targets.len()
        invariant
            0 <= i <= targets@.len(),
            forall|j: int| 0 <= j < i ==> !spec_evil_mir_remembers(*s, #[trigger] targets@[j]),
        decreases targets@.len() - i,
    {
        let t = &targets[i];
        let remembered = match &s.target_ref {
            Some(r) => r.same(&t.reference),
            None => match &s.target {
                Some(pt) => pt.object_id == t.object_id,
                None => false,
            },
        };
        if remembered {
            proof {
                let k = choose|k: int| 0 <= k < targets@.len() && spec_evil_mir_remembers(*s, targets@[k]) && forall|j: int|
                    0 <= j < k ==> !spec_evil_mir_remembers(*s, targets@[j]);
                assert(spec_evil_mir_remembers(*s, targets@[i as int]));
                if k < i {
                    assert(!spec_evil_mir_remembers(*s, targets@[k]));
                }
                if k > i {
                    assert(!spec_evil_mir_remembers(*s, targets@[i as int]));
                }
            }
            return Some(i);
        }
        i += 1;
    }
    if targets.len() > 0 {
        Some(0)
    } else {
        None
    }
}

/// The facing of an EvilMir's single-target attack from the direction
/// toward its target: it turns so that its breath sweeps across the target.
pub open spec fn spec_evil_mir_facing(toward: Direction) -> Direction {
    match toward {
        Direction::DownRight | Direction::Right => Direction::Up,
        Direction::Left | Direction::UpLeft => Direction::Right,
        _ => Direction::UpRight,
    }
}

/// When an EvilMir attack launched at `now` lands: a mass attack after half
/// a second, a single-target one after 620 ms plus 50 ms per tile.
pub open spec fn spec_evil_mir_due(mass: bool, now: u64, from: Point, to: Point) -> int {
    if mass {
        now + 500
    } else {
        now + spec_tile_distance(from, to) * 50 + 620
    }
}

/// EvilMir `id` launches an attack at `now` on a target standing at
/// `target_position`; `toward` is the direction from it to the target, if
/// any. One roll in eight makes it a mass attack (facing unchanged);
/// otherwise it faces across the target. It acts again after 300 ms and
/// attacks again after its attack speed; the attack's landing time, bound
/// to this life of it, is queued. Returns whether the attack is a mass one,
/// its facing and its landing time.
pub fn evil_mir_launch(
    m: &mut NativeMonster,
    id: u32,
    target_position: Point,
    toward: Option<Direction>,
    now: u64,
) -> (r: (bool, Direction, u64))
    requires
        old(m).special.evil_mir is Some,
        now + 300 <= u64::MAX,
        now + old(m).attack_speed_ms <= u64::MAX,
        spec_evil_mir_due(false, now, old(m).position, target_position) <= u64::MAX,
    ensures
        ({
            let s0 = old(m).special.evil_mir->0;
            let rng = spec_seeded(s0.rng, spec_evil_mir_seed(id)).wrapping_add(GOLDEN);
            let mass = spec_mix(rng) % 8 == 0;
            let facing = if mass {
                old(m).direction
            } else {
                spec_evil_mir_facing(
                    match toward {
                        Some(d) => d,
                        None => old(m).direction,
                    },
                )
            };
            let due = spec_evil_mir_due(mass, now, old(m).position, target_position);
            &&& r == (mass, facing, due as u64)
            &&& final(m).special.evil_mir matches Some(s1) && {
                &&& s1.pending@ == s0.pending@.push(due as u64)
                &&& s1.pending_sources@ == s0.pending_sources@.push(
                    PendingSource {
                        due: due as u64,
                        source: EntityRef::Monster { object_id: id, incarnation: old(m).incarnation },
                    },
                )
                &&& s1 == (EvilMirState { rng, mass, pending: s1.pending, pending_sources: s1.pending_sources, ..s0 })
                &&& *final(m) == (NativeMonster {
                    direction: facing,
                    next_ai_ready_at_ms: (now + 300) as u64,
                    next_attack_ready_at_ms: (now + old(m).attack_speed_ms) as u64,
                    special: SpecialAi { evil_mir: Some(s1), ..old(m).special },
                    ..*old(m)
                })
            }
        }),
{
    let mut s = m.special.evil_mir.take().unwrap();
    let roll = evil_mir_roll(&mut s, id, 8);
    let mass = roll == 0;
    let facing = if mass {
        m.direction
    } else {
        let d = match toward {
            Some(d) => d,
            None => m.direction,
        };
        match d {
            Direction::DownRight | Direction::Right => Direction::Up,
            Direction::Left | Direction::UpLeft => Direction::Right,
            _ => Direction::UpRight,
        }
    };
    let due = if mass {
        now + 500
    } else {
        now + (tile_distance(&m.position, &target_position) as u64) * 50 + 620
    };
    m.direction = facing;
    m.next_ai_ready_at_ms = now + 300;
    m.next_attack_ready_at_ms = now + m.attack_speed_ms;
    s.mass = mass;
    s.pending.push(due);
    s.pending_sources.push(PendingSource { due, source: EntityRef::Monster { object_id: id, incarnation: m.incarnation } });
    m.special.evil_mir = Some(s);
    (mass, facing, due)
}

} // verus!
