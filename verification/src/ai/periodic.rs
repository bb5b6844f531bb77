//! Counted periodic poison leases on players: a lease outlives its source
//! (which only marks it), and ends with its target's life.
use vstd::prelude::*;
use crate::types::SessionId;
use crate::zone::{find_player, has_object, spec_has_object, spec_player_index, NativePeriodicPlayerPoison, PendingNativePlayerHit, ZoneRuntime};
use crate::monster::ZonePlayer;
use crate::entity_status::{apply_player_status_bit, lift_player_status, spec_player_replaced, spec_player_status_applied, spec_player_status_lifted};
use crate::seqs::retain_by;

verus! {

/// Leases not on the player life `id`.
pub open spec fn spec_lease_not_on(id: u32) -> spec_fn(NativePeriodicPlayerPoison) -> bool {
    |p: NativePeriodicPlayerPoison| p.target != id
}

impl ZoneRuntime {
    /// The source `object_id` leaves: its leases keep running, marked as
    /// having lost their source.
    pub fn invalidate_native_periodic_poison_source(&mut self, object_id: u32)
        ensures
            final(self).native_periodic_player_poisons@.len() == old(self).native_periodic_player_poisons@.len(),
            forall|k: int|
                0 <= k < old(self).native_periodic_player_poisons@.len() ==> #[trigger] final(self).native_periodic_player_poisons@[k] == (if old(self).native_periodic_player_poisons@[k].owner
                    == object_id {
                    NativePeriodicPlayerPoison { source_removed: true, ..old(self).native_periodic_player_poisons@[k] }
                } else {
                    old(self).native_periodic_player_poisons@[k]
                }),
            *final(self) == (ZoneRuntime {
                native_periodic_player_poisons: final(self).native_periodic_player_poisons,
                ..*old(self)
            }),
    {
        let ghost p0 = self.native_periodic_player_poisons@;
        let mut k: usize = 0;
        while k < self.native_periodic_player_poisons.len()
            invariant
                *self == (ZoneRuntime {
                    native_periodic_player_poisons: self.native_periodic_player_poisons,
                    ..*old(self)
                }),
                p0 == old(self).native_periodic_player_poisons@,
                self.native_periodic_player_poisons@.len() == p0.len(),
                0 <= k <= p0.len(),
                forall|j: int|
                    0 <= j < k ==> #[trigger] self.native_periodic_player_poisons@[j] == (if p0[j].owner == object_id {
                        NativePeriodicPlayerPoison { source_removed: true, ..p0[j] }
                    } else {
                        p0[j]
                    }),
                forall|j: int| k <= j < p0.len() ==> #[trigger] self.native_periodic_player_poisons@[j] == p0[j],
            decreases p0.len() - k,
        {
            if self.native_periodic_player_poisons[k].owner == object_id {
                self.native_periodic_player_poisons[k].source_removed = true;
            }
            k += 1;
        }
    }

    /// The player life `object_id` is retired or purified: its leases end.
    pub fn clear_native_periodic_player_poisons(&mut self, object_id: u32)
        ensures
            final(self).native_periodic_player_poisons@ == old(self).native_periodic_player_poisons@.filter(
                spec_lease_not_on(object_id),
            ),
            *final(self) == (ZoneRuntime {
                native_periodic_player_poisons: final(self).native_periodic_player_poisons,
                ..*old(self)
            }),
    {
        let ghost k = spec_lease_not_on(object_id);
        retain_by(
            &mut self.native_periodic_player_poisons,
            (|p: &NativePeriodicPlayerPoison| -> (r: bool)
                ensures
                    r == (p.target != object_id),
                { p.target != object_id }),
            Ghost(k),
        );
    }
}

/// Whether a lease is the one of player life `target` for poison `mask`.
pub open spec fn spec_lease_matches(l: NativePeriodicPlayerPoison, target: u32, mask: u16) -> bool {
    l.target == target && l.mask == mask
}

/// Leases other than the one of `target` for `mask`.
pub open spec fn spec_lease_other(target: u32, mask: u16) -> spec_fn(NativePeriodicPlayerPoison) -> bool {
    |l: NativePeriodicPlayerPoison| !spec_lease_matches(l, target, mask)
}

/// Whether a running lease outranks a new one: a stronger green poison, or
/// another poison with more ticks left than the new one brings.
pub open spec fn spec_lease_outranks(l: NativePeriodicPlayerPoison, mask: u16, value: i32, ticks: u64) -> bool {
    (mask == 1 && l.value > value) || (mask != 1 && l.ticks.saturating_sub(l.count) > ticks)
}

/// Whether the first lease of `target` for `mask` outranks the new one.
pub open spec fn spec_first_lease_outranks(
    leases: Seq<NativePeriodicPlayerPoison>,
    target: u32,
    mask: u16,
    value: i32,
    ticks: u64,
) -> bool {
    exists|i: int|
        0 <= i < leases.len() && spec_lease_matches(leases[i], target, mask) && (forall|j: int|
            0 <= j < i ==> !spec_lease_matches(#[trigger] leases[j], target, mask)) && spec_lease_outranks(
            leases[i],
            mask,
            value,
            ticks,
        )
}

/// Whether the control statuses that never stack are named by `mask`.
pub open spec fn spec_exclusive_mask(mask: u16) -> bool {
    mask == 4 || mask == 8 || mask == 32 || mask == 256
}

/// Whether a counted poison `mask` of `ticks` ticks and strength `value`
/// lands on the player life `target` of `session`: the life is current and
/// alive, the lease has ticks, an exclusive control is not already showing,
/// and no running lease outranks it.
pub open spec fn spec_periodic_admitted(
    rt: ZoneRuntime,
    session: Seq<char>,
    target: u32,
    mask: u16,
    value: i32,
    ticks: u64,
) -> bool {
    spec_player_index(rt.players@, session) matches Some(p) && {
        let pl = rt.players@[p];
        &&& pl.object_id == target
        &&& !pl.dead
        &&& ticks != 0
        &&& !(spec_exclusive_mask(mask) && pl.poison & mask != 0)
        &&& !spec_first_lease_outranks(rt.native_periodic_player_poisons@, target, mask, value, ticks)
    }
}

/// The zone after an admitted lease: the life's lease for the same poison
/// is replaced by a fresh one (appended last), and the player shows the
/// status until the lease ends.
pub open spec fn spec_periodic_applied(
    a: ZoneRuntime,
    b: ZoneRuntime,
    source_id: u32,
    session: Seq<char>,
    target: u32,
    mask: u16,
    value: i32,
    ticks: u64,
    tick_speed_ms: u64,
) -> bool {
    let p = spec_player_index(a.players@, session)->0;
    let leases = b.native_periodic_player_poisons@;
    let kept = a.native_periodic_player_poisons@.filter(spec_lease_other(target, mask));
    &&& leases.len() == kept.len() + 1
    &&& leases.drop_last() == kept
    &&& leases.last().owner == source_id
    &&& !leases.last().source_removed
    &&& leases.last().session@ == session
    &&& leases.last().target == target
    &&& leases.last().mask == mask
    &&& leases.last().value == value
    &&& leases.last().count == 0
    &&& leases.last().ticks == ticks
    &&& leases.last().tick_speed_ms == tick_speed_ms
    &&& leases.last().next_tick == 0
    &&& b.players@.len() == a.players@.len()
    &&& b.players@ == a.players@.update(p, b.players@[p])
    &&& spec_player_status_applied(a.players@[p], b.players@[p], mask)
    &&& b == (ZoneRuntime { players: b.players, native_periodic_player_poisons: b.native_periodic_player_poisons, ..a })
}

fn first_lease_outranks(
    leases: &Vec<NativePeriodicPlayerPoison>,
    target: u32,
    mask: u16,
    value: i32,
    ticks: u64,
) -> (r: bool)
    ensures
        r == spec_first_lease_outranks(leases@, target, mask, value, ticks),
{
    let mut i: usize = 0;
    while i < leases.len()
        invariant
            0 <= i <= leases@.len(),
            forall|j: int| 0 <= j < i ==> !spec_lease_matches(#[trigger] leases@[j], target, mask),
        decreases leases@.len() - i,
    {
        if leases[i].target == target && leases[i].mask == mask {
            let l = &leases[i];
            let out = (mask == 1 && l.value > value) || (mask != 1 && l.ticks.saturating_sub(l.count) > ticks);
            proof {
                if !out {
                    assert forall|k: int|
                        0 <= k < leases@.len() && spec_lease_matches(leases@[k], target, mask) && (forall|j: int|
                            0 <= j < k ==> !spec_lease_matches(#[trigger] leases@[j], target, mask)) implies !spec_lease_outranks(
                        leases@[k],
                        mask,
                        value,
                        ticks,
                    ) by {
                        if k > i {
                            assert(spec_lease_matches(leases@[i as int], target, mask));
                        }
                    }
                }
            }
            return out;
        }
        i += 1;
    }
    false
}

impl ZoneRuntime {
    /// Starts a counted poison lease `mask` (strength `value`, `ticks` ticks
    /// every `tick_speed_ms`) from `source_id` on the player life `target`
    /// of `session`, once resistance rolls have passed. An admitted lease
    /// replaces the life's lease for the same poison and shows the status
    /// until the lease ends. Returns whether it was admitted.
    pub fn apply_native_player_periodic_poison(
        &mut self,
        source_id: u32,
        session: &SessionId,
        target: u32,
        mask: u16,
        value: i32,
        ticks: u64,
        tick_speed_ms: u64,
    ) -> (r: bool)
        ensures
            r == spec_periodic_admitted(*old(self), session@, target, mask, value, ticks),
            !r ==> *final(self) == *old(self),
            r ==> spec_periodic_applied(*old(self), *final(self), source_id, session@, target, mask, value, ticks, tick_speed_ms),
    {
        let p = match find_player(&self.players, session) {
            Some(p) => p,
            None => {
                return false;
            },
        };
        if self.players[p].object_id != target || self.players[p].dead || ticks == 0 {
            return false;
        }
        if (mask == 4 || mask == 8 || mask == 32 || mask == 256) && self.players[p].poison & mask != 0 {
            return false;
        }
        if first_lease_outranks(&self.native_periodic_player_poisons, target, mask, value, ticks) {
            return false;
        }
        let ghost k = spec_lease_other(target, mask);
        retain_by(
            &mut self.native_periodic_player_poisons,
            (|l: &NativePeriodicPlayerPoison| -> (r: bool)
                ensures
                    r == !spec_lease_matches(*l, target, mask),
                { !(l.target == target && l.mask == mask) }),
            Ghost(k),
        );
        self.native_periodic_player_poisons.push(
            NativePeriodicPlayerPoison {
                owner: source_id,
                source_removed: false,
                session: session.duplicate(),
                target,
                mask,
                value,
                count: 0,
                ticks,
                tick_speed_ms,
                next_tick: 0,
            },
        );
        let ghost p0 = self.players@;
        let mut pl = self.players.remove(p);
        apply_player_status_bit(&mut pl, mask);
        self.players.insert(p, pl);
        assert(self.players@ == p0.update(p as int, self.players@[p as int]));
        assert(self.native_periodic_player_poisons@.drop_last() =~= old(self).native_periodic_player_poisons@.filter(
            spec_lease_other(target, mask),
        ));
        assert(spec_player_index(old(self).players@, session@)->0 == p as int);
        true
    }

    /// A green poison (mask 1) lease on a player life.
    pub fn apply_native_player_green_poison(
        &mut self,
        source_id: u32,
        session: &SessionId,
        target: u32,
        value: i32,
        ticks: u64,
        tick_speed_ms: u64,
    ) -> (r: bool)
        ensures
            r == spec_periodic_admitted(*old(self), session@, target, 1, value, ticks),
            !r ==> *final(self) == *old(self),
            r ==> spec_periodic_applied(*old(self), *final(self), source_id, session@, target, 1, value, ticks, tick_speed_ms),
    {
        self.apply_native_player_periodic_poison(source_id, session, target, 1, value, ticks, tick_speed_ms)
    }
}

/// What one step of a periodic lease gives back.
#[derive(Debug)]
pub enum PeriodicPoisonStep {
    /// The lease no longer names a living life that shows its status; it
    /// is dropped silently.
    Dropped,
    /// The lease ended and its status left the player, whose poison bits
    /// are now `poison`.
    Ended { poison: u16 },
    /// The lease runs on. When it counted a tick, `hit` is the damage it
    /// deals now (green and bleeding only) and `bleed_effect` tells whether
    /// the bleeding effect shows.
    Kept { lease: NativePeriodicPlayerPoison, bleed_effect: bool, hit: Option<PendingNativePlayerHit> },
}

/// Whether lease `l` still names a living player life that shows its status.
pub open spec fn spec_periodic_valid(a: ZoneRuntime, l: NativePeriodicPlayerPoison) -> bool {
    spec_player_index(a.players@, l.session@) matches Some(i) && {
        let p = a.players@[i];
        p.object_id == l.target && !p.dead && p.poison & l.mask != 0
    }
}

/// Whether lease `l` ends now: its source is gone (marked removed, or its
/// retained object despawned) or it has counted all its ticks.
pub open spec fn spec_periodic_ends(a: ZoneRuntime, l: NativePeriodicPlayerPoison) -> bool {
    l.source_removed || (l.owner != 0 && !spec_has_object(a.objects@, l.owner)) || l.count >= l.ticks
}

/// The damage a counted tick of lease `l` deals at `now`.
pub open spec fn spec_periodic_hit(h: PendingNativePlayerHit, l: NativePeriodicPlayerPoison, now: u64) -> bool {
    &&& h.ready_at_ms == now
    &&& h.attacker_object_id == l.owner
    &&& h.attacker_ai == 0
    &&& h.target_session_id@ == l.session@
    &&& h.target_object_id == l.target
    &&& h.damage == l.value
    &&& !h.magic
}

/// One periodic lease stepping at `now` from zone `a` to zone `b`.
pub open spec fn spec_periodic_step(
    a: ZoneRuntime,
    b: ZoneRuntime,
    l: NativePeriodicPlayerPoison,
    r: PeriodicPoisonStep,
    now: u64,
) -> bool {
    if !spec_periodic_valid(a, l) {
        r is Dropped && b == a
    } else if spec_periodic_ends(a, l) {
        let i = spec_player_index(a.players@, l.session@)->0;
        &&& spec_player_status_lifted(a.players@[i], b.players@[i], l.mask)
        &&& spec_player_replaced(a, b, i, b.players@[i])
        &&& r matches PeriodicPoisonStep::Ended { poison } && poison == b.players@[i].poison
    } else {
        &&& b == a
        &&& r matches PeriodicPoisonStep::Kept { lease, bleed_effect, hit } && if now > l.next_tick {
            &&& lease == (NativePeriodicPlayerPoison {
                count: l.count.saturating_add(1),
                next_tick: now.saturating_add(l.tick_speed_ms),
                ..l
            })
            &&& bleed_effect == (l.mask == 128)
            &&& if l.mask == 1 || l.mask == 128 {
                hit matches Some(h) && spec_periodic_hit(h, l, now)
            } else {
                hit is None
            }
        } else {
            lease == l && !bleed_effect && hit is None
        }
    }
}

impl ZoneRuntime {
    /// One step of the periodic lease `l` at `now` (see
    /// [`spec_periodic_step`]): an invalid lease is dropped, an ending one
    /// lifts its status from the player, a running one counts a tick when
    /// `now` is past its next tick and then deals its damage. The caller
    /// resolves that damage before the next lease steps, and keeps the
    /// running lease.
    pub fn step_native_periodic_player_poison(&mut self, l: NativePeriodicPlayerPoison, now: u64) -> (r:
        PeriodicPoisonStep)
        ensures
            spec_periodic_step(*old(self), *final(self), l, r, now),
    {
        let i = match find_player(&self.players, &l.session) {
            Some(i) => i,
            None => {
                return PeriodicPoisonStep::Dropped;
            },
        };
        {
            let p = &self.players[i];
            if !(p.object_id == l.target && !p.dead && p.poison & l.mask != 0) {
                return PeriodicPoisonStep::Dropped;
            }
        }
        if l.source_removed || (l.owner != 0 && !has_object(&self.objects, l.owner)) || l.count >= l.ticks {
            let ghost before = self.players@;
            lift_player_status(&mut self.players[i], l.mask);
            proof {
                assert(self.players@ =~= before.update(i as int, self.players@[i as int]));
            }
            return PeriodicPoisonStep::Ended { poison: self.players[i].poison };
        }
        if now > l.next_tick {
            let hit = if l.mask == 1 || l.mask == 128 {
                Some(
                    PendingNativePlayerHit {
                        ready_at_ms: now,
                        attacker_object_id: l.owner,
                        attacker_ai: 0,
                        target_session_id: l.session.duplicate(),
                        target_object_id: l.target,
                        damage: l.value,
                        magic: false,
                    },
                )
            } else {
                None
            };
            let bleed_effect = l.mask == 128;
            let lease = NativePeriodicPlayerPoison {
                count: l.count.saturating_add(1),
                next_tick: now.saturating_add(l.tick_speed_ms),
                ..l
            };
            PeriodicPoisonStep::Kept { lease, bleed_effect, hit }
        } else {
            PeriodicPoisonStep::Kept { lease: l, bleed_effect: false, hit: None }
        }
    }
}

} // verus!
