//! GreatFoxSpirit (AI 50) and GuardianRock (AI 48): their fixed posts,
//! their random stream, a target's magic resistance, and the target and
//! queued hits they drop when that target's life is retired.
use vstd::prelude::*;
use crate::types::{Direction, EntityRef, EntityRefView, spec_tile_distance, tile_distance};
use crate::monster::{GreatFoxHit, GreatFoxState, NativeMonster, SpecialAi, spec_buff_stat_total, buff_stat_total, STAT_MAGIC_RESIST};
use crate::zone::{find_monster, find_player, has_object, spec_has_object, spec_monster_index, spec_player_index, ZoneRuntime};
use crate::outbound::ZoneOutbound;
use crate::rng::{draw_below_seeded, first_acceptance, spec_mix, spec_seeded, state_after};
use crate::seqs::retain_by;
use crate::entity::{spec_entity_targets, EntityTargetPurpose, NativeEntityTarget};

verus! {

/// A GuardianRock's HP never changes.
pub fn great_fox_accepts_hp_change(m: &NativeMonster) -> (r: bool)
    ensures
        r == (m.ai != 48),
{
    m.ai != 48
}

/// A GreatFox state as it starts: the guardian active, nothing pending.
pub open spec fn spec_fresh_great_fox(s: GreatFoxState) -> bool {
    &&& s.stage == 0
    &&& s.recall_ready_ms == 0
    &&& s.rng_state == 0
    &&& s.target_object_id is None
    &&& s.target_ref is None
    &&& s.pushed_move_ready_ms is None
    &&& s.lifecycle_alive is None
    &&& s.guardian_active
    &&& s.pending@.len() == 0
}

/// Gives a GreatFox or GuardianRock its state if it has none; a GuardianRock
/// always faces up.
pub fn initialize_great_fox_monster(m: &mut NativeMonster)
    ensures
        !(old(m).ai == 48 || old(m).ai == 50) ==> *final(m) == *old(m),
        (old(m).ai == 48 || old(m).ai == 50) ==> (final(m).special.great_fox matches Some(s)
            && (old(m).special.great_fox is None ==> spec_fresh_great_fox(s))) && (old(m).special.great_fox is Some
            ==> final(m).special.great_fox == old(m).special.great_fox) && *final(m) == (NativeMonster {
            special: SpecialAi { great_fox: final(m).special.great_fox, ..old(m).special },
            direction: if old(m).ai == 48 { Direction::Up } else { old(m).direction },
            ..*old(m)
        }),
{
    if !(m.ai == 48 || m.ai == 50) {
        return;
    }
    if m.special.great_fox.is_none() {
        m.special.great_fox = Some(
            GreatFoxState {
                stage: 0,
                recall_ready_ms: 0,
                rng_state: 0,
                target_object_id: None,
                target_ref: None,
                pushed_move_ready_ms: None,
                lifecycle_alive: None,
                guardian_active: true,
                pending: Vec::new(),
            },
        );
    }
    if m.ai == 48 {
        m.direction = Direction::Up;
    }
}

/// GreatFox and GuardianRock never walk.
pub fn great_fox_can_move(m: &NativeMonster) -> (r: bool)
    ensures
        r == !(m.ai == 48 || m.ai == 50),
{
    !(m.ai == 48 || m.ai == 50)
}

/// Whether a monster pushed by a GreatFox may move again at `now`.
pub fn great_fox_movement_ready(m: &NativeMonster, now: u64) -> (r: bool)
    ensures
        r == match m.special.great_fox {
            Some(s) => match s.pushed_move_ready_ms {
                Some(ready) => now > ready,
                None => true,
            },
            None => true,
        },
{
    match &m.special.great_fox {
        Some(s) => match s.pushed_move_ready_ms {
            Some(ready) => now > ready,
            None => true,
        },
        None => true,
    }
}

/// The seed of a GreatFox stream first used at `now`.
pub open spec fn spec_great_fox_seed(id: u32, now: u64) -> u64 {
    ((id as u64) << 32u64) ^ now ^ 0x50F04u64
}

/// An unbiased GreatFox roll in `0..upper`.
pub fn great_fox_roll(s: &mut GreatFoxState, id: u32, now: u64, upper: u64) -> (r: u64)
    requires
        upper > 0,
    ensures
        exists|k: nat|
            first_acceptance(spec_seeded(old(s).rng_state, spec_great_fox_seed(id, now)), upper, k)
                && final(s).rng_state == state_after(spec_seeded(old(s).rng_state, spec_great_fox_seed(id, now)), k),
        r == spec_mix(final(s).rng_state) % upper,
        r < upper,
        *final(s) == (GreatFoxState { rng_state: final(s).rng_state, ..*old(s) }),
{
    let seed = ((id as u64) << 32u64) ^ now ^ 0x50F04u64;
    assert(seed == spec_great_fox_seed(id, now));
    let ghost start = spec_seeded(s.rng_state, seed);
    let r = draw_below_seeded(&mut s.rng_state, seed, upper);
    proof {
        let k = choose|k: nat| first_acceptance(start, upper, k) && s.rng_state == state_after(start, k);
        assert(first_acceptance(spec_seeded(old(s).rng_state, spec_great_fox_seed(id, now)), upper, k));
    }
    r
}

/// A value clamped into `0..=10`.
pub open spec fn spec_resist(v: int) -> u64 {
    (if v < 0 { 0 } else if v > 10 { 10 } else { v }) as u64
}

impl ZoneRuntime {
    /// The magic resistance a GreatFox spell meets, clamped to `0..=10`: a
    /// player's resistance stat, a monster's buffed resistance; 0 for an
    /// absent entity.
    pub fn great_fox_magic_resist(&self, target: &EntityRef) -> (r: u64)
        ensures
            r == match target@ {
                EntityRefView::Player { session, .. } => match spec_player_index(self.players@, session) {
                    Some(p) => spec_resist(self.players@[p].magic_resist as int),
                    None => 0,
                },
                EntityRefView::Monster { object_id, .. } => match spec_monster_index(self.native_monsters@, object_id) {
                    Some(k) => spec_resist(spec_buff_stat_total(self.native_monsters@[k].buffs@, STAT_MAGIC_RESIST)),
                    None => 0,
                },
            },
    {
        let v: i32 = match target {
            EntityRef::Player { session_id, .. } => match find_player(&self.players, session_id) {
                Some(p) => self.players[p].magic_resist,
                None => 0,
            },
            EntityRef::Monster { object_id, .. } => match find_monster(&self.native_monsters, *object_id) {
                Some(k) => buff_stat_total(&self.native_monsters[k], STAT_MAGIC_RESIST),
                None => 0,
            },
        };
        if v < 0 {
            0
        } else if v > 10 {
            10
        } else {
            v as u64
        }
    }
}

/// GreatFox hits that survive the retirement of `id`: not aimed at it, and
/// (when `id` was the current target) no guardian pull.
pub open spec fn spec_fox_hit_keeps(id: u32, current: bool) -> spec_fn(GreatFoxHit) -> bool {
    |h: GreatFoxHit| h.target_id != id && !(current && h.guardian_pull)
}

/// A GreatFox state after the life `id` is retired: a current target on it
/// is dropped together with every queued guardian pull, and hits on it go.
pub open spec fn spec_great_fox_state_cleared(a: GreatFoxState, b: GreatFoxState, id: u32) -> bool {
    let current = a.target_object_id == Some(id);
    &&& b.pending@ == a.pending@.filter(spec_fox_hit_keeps(id, current))
    &&& b.target_object_id == (if current { None } else { a.target_object_id })
    &&& b.target_ref == (if current { None } else { a.target_ref })
    &&& b == (GreatFoxState {
        pending: b.pending,
        target_object_id: b.target_object_id,
        target_ref: b.target_ref,
        ..a
    })
}

fn clear_great_fox_state(s: &mut GreatFoxState, id: u32)
    ensures
        spec_great_fox_state_cleared(*old(s), *final(s), id),
{
    let current = s.target_object_id == Some(id);
    if current {
        s.target_object_id = None;
        s.target_ref = None;
    }
    let ghost k = spec_fox_hit_keeps(id, current);
    retain_by(
        &mut s.pending,
        (|h: &GreatFoxHit| -> (r: bool)
            ensures
                r == (h.target_id != id && !(current && h.guardian_pull)),
            { h.target_id != id && !(current && h.guardian_pull) }),
        Ghost(k),
    );
}

/// A monster after the sweep of `clear_great_fox_targets`: its great_fox state (if any)
/// cleared, nothing else changed.
pub open spec fn spec_great_fox_monster_cleared(a: NativeMonster, b: NativeMonster, id: u32) -> bool {
    match a.special.great_fox {
        Some(s) => b.special.great_fox matches Some(t) && spec_great_fox_state_cleared(s, t, id) && b
            == (NativeMonster { special: SpecialAi { great_fox: b.special.great_fox, ..a.special }, ..a }),
        None => b == a,
    }
}

fn clear_great_fox_monster(m: &mut NativeMonster, id: u32)
    ensures
        spec_great_fox_monster_cleared(*old(m), *final(m), id),
{
    match m.special.great_fox.take() {
        Some(mut s) => {
            clear_great_fox_state(&mut s, id);
            m.special.great_fox = Some(s);
        },
        None => {},
    }
}

impl ZoneRuntime {
    /// The life `id` is retired: every GreatFox drops it as target (with its
    /// guardian pulls) and forgets hits on it.
    pub fn clear_great_fox_targets(&mut self, id: u32)
        ensures
            *final(self) == (ZoneRuntime { native_monsters: final(self).native_monsters, ..*old(self) }),
            final(self).native_monsters@.len() == old(self).native_monsters@.len(),
            forall|k: int|
                0 <= k < old(self).native_monsters@.len() ==> spec_great_fox_monster_cleared(
                    old(self).native_monsters@[k],
                    #[trigger] final(self).native_monsters@[k],
                    id,
                ),
    {
        let ghost before = self.native_monsters@;
        let mut i: usize = 0;
        while i < self.native_monsters.len()
            invariant
                *self == (ZoneRuntime { native_monsters: self.native_monsters, ..*old(self) }),
                before == old(self).native_monsters@,
                self.native_monsters@.len() == before.len(),
                0 <= i <= before.len(),
                forall|k: int|
                    0 <= k < i ==> spec_great_fox_monster_cleared(before[k], #[trigger] self.native_monsters@[k], id),
                forall|k: int| i <= k < before.len() ==> #[trigger] self.native_monsters@[k] == before[k],
            decreases before.len() - i,
        {
            let mut m = self.native_monsters.remove(i);
            clear_great_fox_monster(&mut m, id);
            self.native_monsters.insert(i, m);
            i += 1;
        }
    }
}

impl Default for GreatFoxState {
    /// A GreatFox state as a new spirit starts: stage 0, no target, no
    /// pending hits, its guardian active.
    fn default() -> (r: GreatFoxState)
        ensures
            r.stage == 0,
            r.recall_ready_ms == 0,
            r.rng_state == 0,
            r.target_object_id is None,
            r.target_ref is None,
            r.pushed_move_ready_ms is None,
            r.lifecycle_alive is None,
            r.guardian_active,
            r.pending@.len() == 0,
    {
        GreatFoxState {
            stage: 0,
            recall_ready_ms: 0,
            rng_state: 0,
            target_object_id: None,
            target_ref: None,
            pushed_move_ready_ms: None,
            lifecycle_alive: None,
            guardian_active: true,
            pending: Vec::new(),
        }
    }
}

/// The rage stage a living GreatFoxSpirit of `hp` out of `max_hp` has
/// reached: one stage per quarter of its health lost (integer division of
/// positive values, the result taken as a byte).
pub open spec fn spec_great_fox_stage(hp: i32, max_hp: i32) -> u8 {
    (4 - (hp as int) / ((max_hp as int) / 4)) as u8
}

/// A GreatFoxSpirit (AI 50, at least 4 max HP, alive) moves up to the
/// stage its health has reached; its stage never goes down. Returns whether
/// the stage rose, so that viewers can be shown the new form.
pub fn great_fox_stage_step(m: &mut NativeMonster) -> (rose: bool)
    requires
        old(m).special.great_fox is Some,
    ensures
        ({
            let s0 = old(m).special.great_fox->0;
            let applies = old(m).ai == 50 && old(m).max_hp >= 4 && !old(m).dead && old(m).hp > 0;
            let next = spec_great_fox_stage(old(m).hp, old(m).max_hp);
            if applies && next > s0.stage {
                &&& rose
                &&& *final(m) == (NativeMonster {
                    special: SpecialAi { great_fox: Some(GreatFoxState { stage: next, ..s0 }), ..old(m).special },
                    ..*old(m)
                })
            } else {
                !rose && *final(m) == *old(m)
            }
        }),
{
    if !(m.ai == 50 && m.max_hp >= 4 && !m.dead && m.hp > 0) {
        return false;
    }
    let quarter: i32 = m.max_hp / 4;
    let next: u8 = (4 - m.hp / quarter) as u8;
    let mut s = m.special.great_fox.take().unwrap();
    if next > s.stage {
        s.stage = next;
        m.special.great_fox = Some(s);
        true
    } else {
        m.special.great_fox = Some(s);
        false
    }
}

/// Whether candidate `t` is the life GreatFox state `s` remembers: its
/// remembered reference when it has one, otherwise its remembered object.
pub open spec fn spec_great_fox_remembers(s: GreatFoxState, t: NativeEntityTarget) -> bool {
    match s.target_ref {
        Some(r) => r@ == t.reference@,
        None => s.target_object_id == Some(t.object_id),
    }
}

/// The candidate GreatFox state `s` keeps aiming at: the first one it
/// remembers, otherwise the first candidate; none without candidates.
pub open spec fn spec_great_fox_choice(s: GreatFoxState, targets: Seq<NativeEntityTarget>) -> Option<int> {
    if exists|i: int| 0 <= i < targets.len() && spec_great_fox_remembers(s, targets[i]) {
        Some(choose|i: int| 0 <= i < targets.len() && spec_great_fox_remembers(s, targets[i]) && forall|j: int|
            0 <= j < i ==> !spec_great_fox_remembers(s, targets[j]))
    } else if targets.len() > 0 {
        Some(0)
    } else {
        None
    }
}

/// The candidate (by index) GreatFox state `s` keeps aiming at when it has
/// no bound target (see [`spec_great_fox_choice`]).
pub fn great_fox_choose_target(s: &GreatFoxState, targets: &Vec<NativeEntityTarget>) -> (r: Option<usize>)
    ensures
        match r {
            Some(i) => spec_great_fox_choice(*s, targets@) == Some(i as int),
            None => spec_great_fox_choice(*s, targets@) is None,
        },
{
    let mut i: usize = 0;
    while i < targets.len()
        invariant
            0 <= i <= targets@.len(),
            forall|j: int| 0 <= j < i ==> !spec_great_fox_remembers(*s, #[trigger] targets@[j]),
        decreases targets@.len() - i,
    {
        let t = &targets[i];
        let remembered = match &s.target_ref {
            Some(r) => r.same(&t.reference),
            None => match s.target_object_id {
                Some(o) => o == t.object_id,
                None => false,
            },
        };
        if remembered {
            proof {
                let k = choose|k: int| 0 <= k < targets@.len() && spec_great_fox_remembers(*s, targets@[k]) && forall|j: int|
                    0 <= j < k ==> !spec_great_fox_remembers(*s, targets@[j]);
                assert(spec_great_fox_remembers(*s, targets@[i as int]));
                if k < i {
                    assert(!spec_great_fox_remembers(*s, targets@[k]));
                }
                if k > i {
                    assert(!spec_great_fox_remembers(*s, targets@[i as int]));
                }
            }
            return Some(i);
        }
        i += 1;
    }
    if targets.len() > 0 {
        Some(0)
    } else {
        None
    }
}

/// Whether a GreatFox monster stands alive.
pub open spec fn spec_fox_alive(m: NativeMonster) -> bool {
    !m.dead && m.hp > 0
}

/// Whether a GreatFoxSpirit's life changed since the last lifecycle pass:
/// it was recorded otherwise, or never.
pub open spec fn spec_fox_life_changed(m: NativeMonster) -> bool {
    match m.special.great_fox {
        Some(s) => s.lifecycle_alive != Some(spec_fox_alive(m)),
        None => true,
    }
}

/// What the first `n` monsters tell a GuardianRock: the life of the last
/// GreatFoxSpirit among them whose life changed and that stands within 20
/// tiles of the rock, if any.
pub open spec fn spec_guardian_signal(ms: Seq<NativeMonster>, rock: NativeMonster, n: int) -> Option<bool>
    decreases n,
{
    if n <= 0 {
        None
    } else {
        let j = ms[n - 1];
        if j.ai == 50 && spec_fox_life_changed(j) && spec_tile_distance(j.position, rock.position) <= 20 {
            Some(spec_fox_alive(j))
        } else {
            spec_guardian_signal(ms, rock, n - 1)
        }
    }
}

/// GreatFox state `t` of monster `m` after a lifecycle pass in which the
/// rock signal `signal` reached it: its life recorded; a signalled rock's
/// guard follows its spirit; everything else as it was (a fresh state when
/// it had none).
pub open spec fn spec_fox_after(m: NativeMonster, signal: Option<bool>, t: GreatFoxState) -> bool {
    &&& t.lifecycle_alive == Some(spec_fox_alive(m))
    &&& t.guardian_active == match signal {
        Some(v) => v,
        None => match m.special.great_fox {
            Some(s) => s.guardian_active,
            None => true,
        },
    }
    &&& match m.special.great_fox {
        Some(s) => t == (GreatFoxState { lifecycle_alive: t.lifecycle_alive, guardian_active: t.guardian_active, ..s }),
        None => t.stage == 0 && t.recall_ready_ms == 0 && t.rng_state == 0 && t.target_object_id is None
            && t.target_ref is None && t.pushed_move_ready_ms is None && t.pending@.len() == 0,
    }
}

/// The signal rock `m` (AI 48) receives among monsters `ms`; others none.
pub open spec fn spec_rock_signal(ms: Seq<NativeMonster>, m: NativeMonster) -> Option<bool> {
    if m.ai == 48 {
        spec_guardian_signal(ms, m, ms.len() as int)
    } else {
        None
    }
}

fn guardian_signal(ms: &Vec<NativeMonster>, rock: &NativeMonster) -> (r: Option<bool>)
    ensures
        r == spec_guardian_signal(ms@, *rock, ms@.len() as int),
{
    let mut sig: Option<bool> = None;
    let mut j: usize = 0;
    while j < ms.len()
        invariant
            0 <= j <= ms@.len(),
            sig == spec_guardian_signal(ms@, *rock, j as int),
        decreases ms@.len() - j,
    {
        let c = &ms[j];
        let changed = match &c.special.great_fox {
            Some(s) => match s.lifecycle_alive {
                Some(a) => a != (!c.dead && c.hp > 0),
                None => true,
            },
            None => true,
        };
        if c.ai == 50 && changed && tile_distance(&c.position, &rock.position) <= 20 {
            sig = Some(!c.dead && c.hp > 0);
        }
        j += 1;
    }
    sig
}

impl ZoneRuntime {
    /// The GreatFox lifecycle pass, before any guardian acts: every
    /// GreatFoxSpirit (AI 50) and GuardianRock (AI 48) records whether it
    /// stands alive, and a spirit whose life changed turns the guard of the
    /// rocks within 20 tiles on (alive) or off (dead).
    pub fn great_fox_lifecycles(&mut self)
        ensures
            final(self).native_monsters@.len() == old(self).native_monsters@.len(),
            forall|k: int|
                0 <= k < old(self).native_monsters@.len() ==> {
                    let m = old(self).native_monsters@[k];
                    let f = #[trigger] final(self).native_monsters@[k];
                    if m.ai == 48 || m.ai == 50 {
                        f.special.great_fox matches Some(t) && spec_fox_after(
                            m,
                            spec_rock_signal(old(self).native_monsters@, m),
                            t,
                        ) && f == (NativeMonster { special: SpecialAi { great_fox: Some(t), ..m.special }, ..m })
                    } else {
                        f == m
                    }
                },
            *final(self) == (ZoneRuntime { native_monsters: final(self).native_monsters, ..*old(self) }),
    {
        let ghost old_ms = self.native_monsters@;
        let n = self.native_monsters.len();
        let mut signals: Vec<Option<bool>> = Vec::new();
        let mut i: usize = 0;
        while i < n
            invariant
                0 <= i <= n,
                n == self.native_monsters@.len(),
                self.native_monsters@ == old_ms,
                signals@.len() == i,
                forall|k: int| 0 <= k < i ==> #[trigger] signals@[k] == spec_rock_signal(old_ms, old_ms[k]),
            decreases n - i,
        {
            let sig = if self.native_monsters[i].ai == 48 {
                guardian_signal(&self.native_monsters, &self.native_monsters[i])
            } else {
                None
            };
            signals.push(sig);
            i += 1;
        }
        let mut k: usize = 0;
        while k < n
            invariant
                0 <= k <= n,
                n == old_ms.len(),
                signals@.len() == n,
                forall|q: int| 0 <= q < n ==> #[trigger] signals@[q] == spec_rock_signal(old_ms, old_ms[q]),
                self.native_monsters@.len() == n,
                forall|q: int| k <= q < n ==> #[trigger] self.native_monsters@[q] == old_ms[q],
                forall|q: int|
                    0 <= q < k ==> {
                        let m = old_ms[q];
                        let f = #[trigger] self.native_monsters@[q];
                        if m.ai == 48 || m.ai == 50 {
                            f.special.great_fox matches Some(t) && spec_fox_after(m, spec_rock_signal(old_ms, m), t)
                                && f == (NativeMonster { special: SpecialAi { great_fox: Some(t), ..m.special }, ..m })
                        } else {
                            f == m
                        }
                    },
                *self == (ZoneRuntime { native_monsters: self.native_monsters, ..*old(self) }),
            decreases n - k,
        {
            if self.native_monsters[k].ai == 48 || self.native_monsters[k].ai == 50 {
                let ghost before = self.native_monsters@;
                let mut m = self.native_monsters.remove(k);
                let alive = !m.dead && m.hp > 0;
                let mut s = match m.special.great_fox.take() {
                    Some(s) => s,
                    None => GreatFoxState::default(),
                };
                s.lifecycle_alive = Some(alive);
                match signals[k] {
                    Some(v) => {
                        s.guardian_active = v;
                    },
                    None => {},
                }
                m.special.great_fox = Some(s);
                self.native_monsters.insert(k, m);
                proof {
                    assert(self.native_monsters@ =~= before.update(k as int, self.native_monsters@[k as int]));
                }
            }
            k += 1;
        }
    }
}

impl ZoneRuntime {
    /// The lives GreatFox monster `id` (standing as `m`) sees within
    /// `radius`.
    pub fn great_fox_targets(&self, id: u32, m: &NativeMonster, radius: i32, now: u64) -> (r: Vec<NativeEntityTarget>)
        ensures
            spec_entity_targets(*self, id, m.position, radius, EntityTargetPurpose::Search, now, r@),
    {
        self.native_entity_targets(id, &m.position, radius, EntityTargetPurpose::Search, now)
    }
}

impl ZoneRuntime {
    /// GreatFoxSpirit `id` moves up to the stage its health has reached (see
    /// [`great_fox_stage_step`]); when the stage rises and the zone retains
    /// the monster's object, its new form is given out. Any other monster,
    /// or one without its state, is left alone.
    pub fn great_fox_stage_tick(&mut self, id: u32) -> (out: Option<ZoneOutbound>)
        ensures
            match spec_monster_index(old(self).native_monsters@, id) {
                Some(i) if old(self).native_monsters@[i].special.great_fox is Some => {
                    let m = old(self).native_monsters@[i];
                    let s0 = m.special.great_fox->0;
                    let next = spec_great_fox_stage(m.hp, m.max_hp);
                    if m.ai == 50 && m.max_hp >= 4 && !m.dead && m.hp > 0 && next > s0.stage {
                        &&& final(self).native_monsters@ == old(self).native_monsters@.update(
                            i,
                            NativeMonster { special: SpecialAi { great_fox: Some(GreatFoxState { stage: next, ..s0 }), ..m.special }, ..m },
                        )
                        &&& *final(self) == (ZoneRuntime { native_monsters: final(self).native_monsters, ..*old(self) })
                        &&& out == if spec_has_object(old(self).objects@, id) {
                            Some(ZoneOutbound::MonsterForm { object_id: id, stage: next })
                        } else {
                            None
                        }
                    } else {
                        out is None && *final(self) == *old(self)
                    }
                },
                _ => out is None && *final(self) == *old(self),
            },
    {
        let i = match find_monster(&self.native_monsters, id) {
            Some(i) => i,
            None => {
                return None;
            },
        };
        let rises = match &self.native_monsters[i].special.great_fox {
            Some(s) => {
                let m = &self.native_monsters[i];
                m.ai == 50 && m.max_hp >= 4 && !m.dead && m.hp > 0 && ((4 - m.hp / (m.max_hp / 4)) as u8) > s.stage
            },
            None => false,
        };
        if !rises {
            return None;
        }
        let ghost m0 = self.native_monsters@;
        let mut m = self.native_monsters.remove(i);
        let rose = great_fox_stage_step(&mut m);
        let stage = match &m.special.great_fox {
            Some(s) => s.stage,
            None => 0,
        };
        self.native_monsters.insert(i, m);
        assert(self.native_monsters@ =~= m0.update(i as int, self.native_monsters@[i as int]));
        if rose && has_object(&self.objects, id) {
            Some(ZoneOutbound::MonsterForm { object_id: id, stage })
        } else {
            None
        }
    }
}

} // verus!
