//! Shinsu (AI 18): its spawn lock, its strike reach and the hits it forgets
//! when a target life is retired.
use vstd::prelude::*;
use crate::types::Point;
use crate::monster::{NativeMonster, ShinsuHit, ShinsuState, SpecialAi};
use crate::zone::{ZoneObject, ZoneRuntime};
use crate::seqs::retain_by;

verus! {

/// Gives a Shinsu its state if it has none; it cannot act for two seconds.
pub fn initialize_shinsu(m: &mut NativeMonster, now: u64)
    ensures
        old(m).ai != 18 || old(m).special.shinsu is Some ==> *final(m) == *old(m),
        old(m).ai == 18 && old(m).special.shinsu is None ==> (final(m).special.shinsu matches Some(s)
            && !s.mode && s.mode_until_ms == 0 && s.action_until_ms == now.saturating_add(2000)
            && s.hits@.len() == 0) && *final(m) == (NativeMonster {
            special: SpecialAi { shinsu: final(m).special.shinsu, ..old(m).special },
            ..*old(m)
        }),
{
    if m.ai == 18 && m.special.shinsu.is_none() {
        m.special.shinsu = Some(
            ShinsuState {
                mode: false,
                mode_until_ms: 0,
                action_until_ms: now.saturating_add(2000),
                hits: Vec::new(),
            },
        );
    }
}

/// Whether a monster is free to act at `now`: any non-Shinsu is, and a
/// Shinsu once its action lock has passed.
pub fn shinsu_can_act(m: &NativeMonster, now: u64) -> (r: bool)
    ensures
        r == (m.ai != 18 || (m.special.shinsu matches Some(s) && now > s.action_until_ms)),
{
    if m.ai != 18 {
        return true;
    }
    match &m.special.shinsu {
        Some(s) => now > s.action_until_ms,
        None => false,
    }
}

/// The absolute coordinate difference, widened.
pub open spec fn spec_abs_i64(v: int) -> int {
    if v < 0 { -v } else { v }
}

/// Whether `target` lies in Shinsu's strike reach from `source`: one or two
/// tiles away (king moves), and at distance two only along a diagonal or
/// with equally odd/even offsets.
pub open spec fn spec_shinsu_range(source: Point, target: Point) -> bool {
    let x = spec_abs_i64(source.x - target.x);
    let y = spec_abs_i64(source.y - target.y);
    let d = if x >= y { x } else { y };
    d > 0 && d <= 2 && (d <= 1 || x == y || x % 2 == y % 2)
}

/// Whether `target` lies in Shinsu's strike reach from `source`.
pub fn shinsu_range(source: &Point, target: &Point) -> (r: bool)
    ensures
        r == spec_shinsu_range(*source, *target),
{
    let dx: i64 = source.x as i64 - target.x as i64;
    let dy: i64 = source.y as i64 - target.y as i64;
    let x: i64 = if dx < 0 { -dx } else { dx };
    let y: i64 = if dy < 0 { -dy } else { dy };
    let d: i64 = if x >= y { x } else { y };
    d > 0 && d <= 2 && (d <= 1 || x == y || x % 2 == y % 2)
}

/// Whether the retained object `id` exists and has not expired at `now`.
pub open spec fn spec_object_live(objects: Seq<ZoneObject>, id: u32, now: u64) -> bool {
    exists|i: int|
        0 <= i < objects.len() && objects[i].object_id == id && (forall|j: int| 0 <= j < i ==> objects[j].object_id != id)
            && match objects[i].expires_at_ms {
            Some(deadline) => now < deadline,
            None => true,
        }
}

impl ZoneRuntime {
    /// Whether the Shinsu object `id` is still present and unexpired at `now`.
    pub fn shinsu_not_expired(&self, id: u32, now: u64) -> (r: bool)
        ensures
            r == spec_object_live(self.objects@, id, now),
    {
        let mut i: usize = 0;
        while i < self.objects.len()
            invariant
                0 <= i <= self.objects@.len(),
                forall|j: int| 0 <= j < i ==> self.objects@[j].object_id != id,
            decreases self.objects@.len() - i,
        {
            if self.objects[i].object_id == id {
                let live = match self.objects[i].expires_at_ms {
                    Some(deadline) => now < deadline,
                    None => true,
                };
                proof {
                    if !live {
                        assert forall|k: int|
                            0 <= k < self.objects@.len() && self.objects@[k].object_id == id && (forall|j: int|
                                0 <= j < k ==> self.objects@[j].object_id != id) implies !match self.objects@[k].expires_at_ms {
                            Some(deadline) => now < deadline,
                            None => true,
                        } by {
                            if k > i {
                                assert(self.objects@[i as int].object_id == id);
                            }
                        }
                    }
                }
                return live;
            }
            i += 1;
        }
        false
    }
}

/// Shinsu hits not aimed at `target`.
pub open spec fn spec_shinsu_hit_keeps(target: u32) -> spec_fn(ShinsuHit) -> bool {
    |h: ShinsuHit| h.target != target
}

/// A Shinsu state after the life `target` is retired.
pub open spec fn spec_shinsu_state_cleared(a: ShinsuState, b: ShinsuState, target: u32) -> bool {
    &&& b.hits@ == a.hits@.filter(spec_shinsu_hit_keeps(target))
    &&& b == (ShinsuState { hits: b.hits, ..a })
}

fn clear_shinsu_state(s: &mut ShinsuState, target: u32)
    ensures
        spec_shinsu_state_cleared(*old(s), *final(s), target),
{
    let ghost k = spec_shinsu_hit_keeps(target);
    retain_by(
        &mut s.hits,
        (|h: &ShinsuHit| -> (r: bool)
            ensures
                r == (h.target != target),
            { h.target != target }),
        Ghost(k),
    );
}

/// A monster after the sweep of `clear_shinsu_hits_for_target`: its shinsu state (if any)
/// cleared, nothing else changed.
pub open spec fn spec_shinsu_monster_cleared(a: NativeMonster, b: NativeMonster, id: u32) -> bool {
    match a.special.shinsu {
        Some(s) => b.special.shinsu matches Some(t) && spec_shinsu_state_cleared(s, t, id) && b
            == (NativeMonster { special: SpecialAi { shinsu: b.special.shinsu, ..a.special }, ..a }),
        None => b == a,
    }
}

fn clear_shinsu_monster(m: &mut NativeMonster, id: u32)
    ensures
        spec_shinsu_monster_cleared(*old(m), *final(m), id),
{
    match m.special.shinsu.take() {
        Some(mut s) => {
            clear_shinsu_state(&mut s, id);
            m.special.shinsu = Some(s);
        },
        None => {},
    }
}

impl ZoneRuntime {
    /// The life `target` is retired: every Shinsu forgets its hits on it.
    pub fn clear_shinsu_hits_for_target(&mut self, id: u32)
        ensures
            *final(self) == (ZoneRuntime { native_monsters: final(self).native_monsters, ..*old(self) }),
            final(self).native_monsters@.len() == old(self).native_monsters@.len(),
            forall|k: int|
                0 <= k < old(self).native_monsters@.len() ==> spec_shinsu_monster_cleared(
                    old(self).native_monsters@[k],
                    #[trigger] final(self).native_monsters@[k],
                    id,
                ),
    {
        let ghost before = self.native_monsters@;
        let mut i: usize = 0;
        while i < self.native_monsters.len()
            invariant
                *self == (ZoneRuntime { native_monsters: self.native_monsters, ..*old(self) }),
                before == old(self).native_monsters@,
                self.native_monsters@.len() == before.len(),
                0 <= i <= before.len(),
                forall|k: int|
                    0 <= k < i ==> spec_shinsu_monster_cleared(before[k], #[trigger] self.native_monsters@[k], id),
                forall|k: int| i <= k < before.len() ==> #[trigger] self.native_monsters@[k] == before[k],
            decreases before.len() - i,
        {
            let mut m = self.native_monsters.remove(i);
            clear_shinsu_monster(&mut m, id);
            self.native_monsters.insert(i, m);
            i += 1;
        }
    }
}

/// The mode (shown when `true`) a Shinsu switches to at `now` given how
/// long its mode lasts: it shows itself while its mode lasts and hides once
/// the mode has run out.
pub open spec fn spec_shinsu_next_mode(mode: bool, until: u64, now: u64) -> bool {
    if !mode && now < until {
        true
    } else if mode && now > until {
        false
    } else {
        mode
    }
}

/// One mode decision of a Shinsu at `now`, where `has_target` tells whether
/// something it may attack is near: nothing while its last switch still
/// locks it; otherwise a near target keeps its mode up for thirty seconds,
/// and when its mode then switches it is locked for a second. Returns the
/// new mode (shown or hidden) when it switched, for viewers to be told.
pub fn shinsu_mode_step(s: &mut ShinsuState, now: u64, has_target: bool) -> (switched: Option<bool>)
    ensures
        now <= old(s).action_until_ms ==> *final(s) == *old(s) && switched is None,
        now > old(s).action_until_ms ==> {
            let until = if has_target { now.saturating_add(30_000) } else { old(s).mode_until_ms };
            let next = spec_shinsu_next_mode(old(s).mode, until, now);
            if next == old(s).mode {
                *final(s) == (ShinsuState { mode_until_ms: until, ..*old(s) }) && switched is None
            } else {
                *final(s) == (ShinsuState {
                    mode: next,
                    mode_until_ms: until,
                    action_until_ms: now.saturating_add(1000),
                    ..*old(s)
                }) && switched == Some(next)
            }
        },
{
    if now <= s.action_until_ms {
        return None;
    }
    if has_target {
        s.mode_until_ms = now.saturating_add(30_000);
    }
    let next = if !s.mode && now < s.mode_until_ms {
        true
    } else if s.mode && now > s.mode_until_ms {
        false
    } else {
        s.mode
    };
    if next == s.mode {
        return None;
    }
    s.mode = next;
    s.action_until_ms = now.saturating_add(1000);
    Some(next)
}

} // verus!
