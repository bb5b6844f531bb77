//! Summoned pets with special behaviour (AI 60 to 62 and 255): their spawn
//! readiness and facing, the spitting toad's first search, and the shared
//! vampire heals and toad hits dropped when an owner or a source leaves.
use vstd::prelude::*;
use crate::types::{spec_tile_distance, tile_distance, Direction};
use crate::monster::{NativeMonster, PetSpecialState, SpecialAi};
use crate::zone::{find_player, spec_player_index, PetSpecialWorld, PetToadHit, PetVampirePool, ZoneObject, ZoneRuntime};
use crate::seqs::retain_by;

verus! {

/// A special pet as it is initialized at `now`: vampire, toad and deva pets
/// wait a second before acting, the deva and AI 255 face up, and a toad
/// without a search clock first searches `search_delay` after `now`.
pub fn initialize_pet_special(m: &mut NativeMonster, now: u64, search_delay: u64)
    requires
        old(m).ai == 61 && old(m).special.pet_special is None ==> now + search_delay <= u64::MAX,
    ensures
        *final(m) == (NativeMonster {
            next_ai_ready_at_ms: if (old(m).ai == 60 || old(m).ai == 61 || old(m).ai == 62)
                && old(m).next_ai_ready_at_ms < now.saturating_add(1000) {
                now.saturating_add(1000)
            } else {
                old(m).next_ai_ready_at_ms
            },
            direction: if old(m).ai == 62 || old(m).ai == 255 { Direction::Up } else { old(m).direction },
            special: SpecialAi { pet_special: final(m).special.pet_special, ..old(m).special },
            ..*old(m)
        }),
        final(m).special.pet_special == (if old(m).ai == 61 && old(m).special.pet_special is None {
            Some(PetSpecialState { search_at: (now + search_delay) as u64 })
        } else {
            old(m).special.pet_special
        }),
{
    if m.ai == 60 || m.ai == 61 || m.ai == 62 {
        let ready = now.saturating_add(1000);
        if m.next_ai_ready_at_ms < ready {
            m.next_ai_ready_at_ms = ready;
        }
    }
    if m.ai == 62 || m.ai == 255 {
        m.direction = Direction::Up;
    }
    if m.ai == 61 && m.special.pet_special.is_none() {
        m.special.pet_special = Some(PetSpecialState { search_at: now + search_delay });
    }
}

/// Vampire heals not owed to `id`.
pub open spec fn spec_vampire_not_owed_to(id: u32) -> spec_fn(PetVampirePool) -> bool {
    |v: PetVampirePool| v.owner_id != id
}

/// Toad hits not owned by `id`.
pub open spec fn spec_toad_not_owned_by(id: u32) -> spec_fn(PetToadHit) -> bool {
    |h: PetToadHit| h.owner_id != id
}

/// Toad hits neither from nor on `id`.
pub open spec fn spec_toad_untouched(id: u32) -> spec_fn(PetToadHit) -> bool {
    |h: PetToadHit| h.source != id && h.target != id
}

impl ZoneRuntime {
    /// The owner `id` leaves: heals owed to it and its toads' hits go.
    pub fn clear_pet_special_owner(&mut self, id: u32)
        ensures
            match old(self).pet_special_world {
                Some(w) => final(self).pet_special_world matches Some(v) && v.vampire@ == w.vampire@.filter(
                    spec_vampire_not_owed_to(id),
                ) && v.toad_hits@ == w.toad_hits@.filter(spec_toad_not_owned_by(id)),
                None => final(self).pet_special_world is None,
            },
            *final(self) == (ZoneRuntime { pet_special_world: final(self).pet_special_world, ..*old(self) }),
    {
        match self.pet_special_world.take() {
            Some(mut w) => {
                let ghost k1 = spec_vampire_not_owed_to(id);
                retain_by(
                    &mut w.vampire,
                    (|v: &PetVampirePool| -> (r: bool)
                        ensures
                            r == (v.owner_id != id),
                        { v.owner_id != id }),
                    Ghost(k1),
                );
                let ghost k2 = spec_toad_not_owned_by(id);
                retain_by(
                    &mut w.toad_hits,
                    (|h: &PetToadHit| -> (r: bool)
                        ensures
                            r == (h.owner_id != id),
                        { h.owner_id != id }),
                    Ghost(k2),
                );
                self.pet_special_world = Some(w);
            },
            None => {},
        }
    }

    /// The object `id` leaves: toad hits from it or on it go.
    pub fn invalidate_pet_special_source(&mut self, id: u32)
        ensures
            match old(self).pet_special_world {
                Some(w) => final(self).pet_special_world matches Some(v) && v.vampire == w.vampire
                    && v.toad_hits@ == w.toad_hits@.filter(spec_toad_untouched(id)),
                None => final(self).pet_special_world is None,
            },
            *final(self) == (ZoneRuntime { pet_special_world: final(self).pet_special_world, ..*old(self) }),
    {
        match self.pet_special_world.take() {
            Some(mut w) => {
                let ghost k = spec_toad_untouched(id);
                retain_by(
                    &mut w.toad_hits,
                    (|h: &PetToadHit| -> (r: bool)
                        ensures
                            r == (h.source != id && h.target != id),
                        { h.source != id && h.target != id }),
                    Ghost(k),
                );
                self.pet_special_world = Some(w);
            },
            None => {},
        }
    }
}

/// Whether the retained object of `id` has outlived its expiry at `now`.
pub open spec fn spec_object_expired(objects: Seq<ZoneObject>, id: u32, now: u64) -> bool {
    exists|i: int|
        0 <= i < objects.len() && objects[i].object_id == id && (objects[i].expires_at_ms matches Some(d) && now > d)
            && forall|j: int| 0 <= j < i ==> objects[j].object_id != id
}

fn object_expired(objects: &Vec<ZoneObject>, id: u32, now: u64) -> (r: bool)
    ensures
        r == spec_object_expired(objects@, id, now),
{
    let mut i: usize = 0;
    while i < objects.len()
        invariant
            0 <= i <= objects@.len(),
            forall|j: int| 0 <= j < i ==> objects@[j].object_id != id,
        decreases objects@.len() - i,
    {
        if objects[i].object_id == id {
            let r = match objects[i].expires_at_ms {
                Some(d) => now > d,
                None => false,
            };
            proof {
                if spec_object_expired(objects@, id, now) {
                    let k = choose|k: int|
                        0 <= k < objects@.len() && objects@[k].object_id == id && (objects@[k].expires_at_ms matches Some(
                            d,
                        ) && now > d) && forall|j: int| 0 <= j < k ==> objects@[j].object_id != id;
                    if k > i as int {
                        assert(objects@[i as int].object_id != id);
                    }
                    if k < i as int {
                        assert(objects@[k].object_id != id);
                    }
                }
            }
            return r;
        }
        i += 1;
    }
    false
}

/// Whether the owner of spitting toad `m` (session `owner`) is gone: not
/// on the life that summoned it, or more than 15 tiles away.
pub open spec fn spec_toad_owner_gone(rt: ZoneRuntime, m: NativeMonster, owner: Seq<char>) -> bool {
    !(spec_player_index(rt.players@, owner) matches Some(i) && rt.players@[i].object_id == m.owner_player_object_id
        && spec_tile_distance(rt.players@[i].position, m.position) <= 15)
}

/// Whether monster `m` is a living owned spitting toad (AI 61) that must go
/// at `now`: its owner is gone or its time is up.
pub open spec fn spec_toad_due(rt: ZoneRuntime, m: NativeMonster, now: u64) -> bool {
    &&& m.ai == 61
    &&& !m.dead
    &&& m.owner_session_id matches Some(owner) && (spec_toad_owner_gone(rt, m, owner@) || spec_object_expired(
        rt.objects@,
        m.object_id,
        now,
    ))
}

/// The spitting toads among the first `n` monsters that must go at `now`,
/// in monster order.
pub open spec fn spec_toads_due(rt: ZoneRuntime, now: u64, n: int) -> Seq<u32>
    decreases n,
{
    if n <= 0 {
        Seq::empty()
    } else {
        let prev = spec_toads_due(rt, now, n - 1);
        let m = rt.native_monsters@[n - 1];
        if spec_toad_due(rt, m, now) {
            prev.push(m.object_id)
        } else {
            prev
        }
    }
}

impl ZoneRuntime {
    /// The spitting toads that must go at `now` (see [`spec_toad_due`]), in
    /// monster order; each is then finished off.
    pub fn expired_spitting_toads(&self, now: u64) -> (r: Vec<u32>)
        ensures
            r@ == spec_toads_due(*self, now, self.native_monsters@.len() as int),
    {
        let mut r: Vec<u32> = Vec::new();
        let mut i: usize = 0;
        while i < self.native_monsters.len()
            invariant
                0 <= i <= self.native_monsters@.len(),
                r@ == spec_toads_due(*self, now, i as int),
            decreases self.native_monsters@.len() - i,
        {
            let m = &self.native_monsters[i];
            if m.ai == 61 && !m.dead {
                match &m.owner_session_id {
                    Some(owner) => {
                        let present = match find_player(&self.players, owner) {
                            Some(pi) => self.players[pi].object_id == m.owner_player_object_id && tile_distance(
                                &self.players[pi].position,
                                &m.position,
                            ) <= 15,
                            None => false,
                        };
                        if !present || object_expired(&self.objects, m.object_id, now) {
                            r.push(m.object_id);
                        }
                    },
                    None => {},
                }
            }
            i += 1;
        }
        r
    }
}

} // verus!
