//! The peaceful castle gate (AI 81): its footprint, its closed facing and
//! the tiles live gates block; and the Football (AI 68), whose HP never
//! changes.
use vstd::prelude::*;
use crate::types::{Direction, Point};
use crate::monster::NativeMonster;
use crate::zone::ZoneRuntime;

verus! {

/// The tiles a gate of template effect `effect` blocks, relative to its
/// anchor tile.
pub open spec fn spec_gate_offsets(effect: u8) -> Seq<(i32, i32)> {
    if effect == 1 {
        seq![(0i32, -1i32), (0i32, -2i32), (1i32, -1i32), (1i32, -2i32), (-1i32, 0i32), (-2i32, 0i32), (-1i32, -1i32), (-1i32, 1i32)]
    } else if effect == 2 {
        seq![(0i32, -1i32), (-1i32, -1i32), (-1i32, 0i32), (0i32, 1i32), (1i32, 1i32), (1i32, 0i32), (1i32, -1i32), (0i32, -2i32)]
    } else if effect == 3 {
        seq![(1i32, -1i32), (0i32, -1i32), (0i32, -2i32), (-1i32, -1i32), (-2i32, -1i32), (-1i32, 0i32), (-1i32, 1i32), (-2i32, 0i32)]
    } else if effect == 4 {
        seq![(-2i32, 0i32), (-1i32, 1i32), (0i32, 2i32), (0i32, 1i32), (-1i32, 0i32), (-1i32, -1i32), (1i32, 1i32)]
    } else {
        Seq::empty()
    }
}

/// The footprint of a gate with template effect `effect`.
pub fn gate_offsets(effect: u8) -> (r: Vec<(i32, i32)>)
    ensures
        r@ == spec_gate_offsets(effect),
{
    let r: Vec<(i32, i32)> = if effect == 1 {
        vec![(0, -1), (0, -2), (1, -1), (1, -2), (-1, 0), (-2, 0), (-1, -1), (-1, 1)]
    } else if effect == 2 {
        vec![(0, -1), (-1, -1), (-1, 0), (0, 1), (1, 1), (1, 0), (1, -1), (0, -2)]
    } else if effect == 3 {
        vec![(1, -1), (0, -1), (0, -2), (-1, -1), (-2, -1), (-1, 0), (-1, 1), (-2, 0)]
    } else if effect == 4 {
        vec![(-2, 0), (-1, 1), (0, 2), (0, 1), (-1, 0), (-1, -1), (1, 1)]
    } else {
        Vec::new()
    };
    assert(r@ =~= spec_gate_offsets(effect));
    r
}

/// Every known footprint blocks distinct tiles, never the anchor itself:
/// eight tiles for effects 1 to 3, seven for effect 4, none otherwise.
pub proof fn lemma_gate_footprints_distinct(effect: u8)
    ensures
        spec_gate_offsets(effect).no_duplicates(),
        !spec_gate_offsets(effect).contains((0i32, 0i32)),
        spec_gate_offsets(effect).len() == if effect == 4 {
            7nat
        } else if 1 <= effect <= 3 {
            8nat
        } else {
            0nat
        },
{
    let s = spec_gate_offsets(effect);
    assert(forall|i: int, j: int| 0 <= i < s.len() && 0 <= j < s.len() && i != j ==> s[i] != s[j]);
    if s.contains((0i32, 0i32)) {
        let k = choose|k: int| 0 <= k < s.len() && s[k] == (0i32, 0i32);
        assert(false);
    }
}

/// The closed gate's damage stage: `3 * hp / max_hp` rounded half to even
/// (.NET `Math.Round`), with a zero or negative `max_hp` read as one and a
/// negative `hp` read as zero.
pub open spec fn spec_gate_rounded_stage(hp: i32, max_hp: i32) -> int {
    let den: int = if max_hp < 1 { 1 } else { max_hp as int };
    let num: int = 3 * (if hp < 0 { 0 } else { hp as int });
    let q = num / den;
    let r = num % den;
    if r * 2 > den || (r * 2 == den && q % 2 != 0) {
        q + 1
    } else {
        q
    }
}

/// The facing that shows a closed gate's damage stage: the rounded stage is
/// clamped to 1..=3, and stage 3 faces up, 2 up-right and 1 right.
pub open spec fn spec_closed_facing(hp: i32, max_hp: i32) -> Direction {
    let s = spec_gate_rounded_stage(hp, max_hp);
    let c = if s < 1 { 1 } else if s > 3 { 3 } else { s };
    if c == 3 {
        Direction::Up
    } else if c == 2 {
        Direction::UpRight
    } else {
        Direction::Right
    }
}

/// The facing of a closed gate at `hp` out of `max_hp`.
pub fn closed_facing(hp: i32, max_hp: i32) -> (r: Direction)
    ensures
        r == spec_closed_facing(hp, max_hp),
{
    let denominator: i64 = if max_hp < 1 { 1 } else { max_hp as i64 };
    let numerator: i64 = 3 * (if hp < 0 { 0 } else { hp as i64 });
    let quotient = numerator / denominator;
    let remainder = numerator % denominator;
    let rounded: i64 = if remainder * 2 > denominator || (remainder * 2 == denominator
        && quotient % 2 != 0) {
        quotient + 1
    } else {
        quotient
    };
    let clamped: i64 = if rounded < 1 {
        1
    } else if rounded > 3 {
        3
    } else {
        rounded
    };
    if clamped == 3 {
        Direction::Up
    } else if clamped == 2 {
        Direction::UpRight
    } else {
        Direction::Right
    }
}

/// A gate (AI 81) shows its damage stage through its facing.
pub fn initialize_gate(m: &mut NativeMonster)
    ensures
        *final(m) == (NativeMonster {
            direction: if old(m).ai == 81 { spec_closed_facing(old(m).hp, old(m).max_hp) } else { old(m).direction },
            ..*old(m)
        }),
{
    if m.ai == 81 {
        m.direction = closed_facing(m.hp, m.max_hp);
    }
}

/// The footprint effect of a monster: its template's, or none.
pub open spec fn spec_effect(m: NativeMonster) -> u8 {
    match m.template {
        Some(t) => t.effect,
        None => 0,
    }
}

/// Whether `anchor` moved by `offset` lands on `point`.
pub open spec fn spec_offset_hits(anchor: Point, offset: (i32, i32), point: Point) -> bool {
    anchor.x + offset.0 == point.x && anchor.y + offset.1 == point.y
}

/// Whether the live gate `m` covers `point`.
pub open spec fn spec_gate_covers(m: NativeMonster, point: Point) -> bool {
    &&& m.ai == 81
    &&& !m.dead
    &&& m.hp > 0
    &&& exists|k: int|
        0 <= k < spec_gate_offsets(spec_effect(m)).len() && spec_offset_hits(m.position, #[trigger] spec_gate_offsets(spec_effect(m))[k], point)
}

fn gate_covers(m: &NativeMonster, point: &Point) -> (r: bool)
    ensures
        r == spec_gate_covers(*m, *point),
{
    if m.ai != 81 || m.dead || m.hp <= 0 {
        return false;
    }
    let effect = match m.template {
        Some(t) => t.effect,
        None => 0,
    };
    let offsets = gate_offsets(effect);
    let mut k: usize = 0;
    while k < offsets.len()
        invariant
            offsets@ == spec_gate_offsets(spec_effect(*m)),
            m.ai == 81 && !m.dead && m.hp > 0,
            0 <= k <= offsets@.len(),
            forall|j: int| 0 <= j < k ==> !spec_offset_hits(m.position, #[trigger] offsets@[j], *point),
        decreases offsets@.len() - k,
    {
        let (dx, dy) = offsets[k];
        if m.position.x as i64 + dx as i64 == point.x as i64 && m.position.y as i64 + dy as i64 == point.y as i64 {
            assert(spec_offset_hits(m.position, offsets@[k as int], *point));
            return true;
        }
        k += 1;
    }
    false
}

impl ZoneRuntime {
    /// Whether any live gate's footprint covers `point` (gates never change
    /// the static map walls).
    pub fn gate_blocks_tile(&self, point: &Point) -> (r: bool)
        ensures
            r == exists|i: int| 0 <= i < self.native_monsters@.len() && spec_gate_covers(self.native_monsters@[i], *point),
    {
        let mut i: usize = 0;
        while i < self.native_monsters.len()
            invariant
                0 <= i <= self.native_monsters@.len(),
                forall|j: int| 0 <= j < i ==> !spec_gate_covers(self.native_monsters@[j], *point),
            decreases self.native_monsters@.len() - i,
        {
            if gate_covers(&self.native_monsters[i], point) {
                return true;
            }
            i += 1;
        }
        false
    }
}

/// A Football (AI 68) never changes HP.
pub fn football_accepts_hp_change(m: &NativeMonster) -> (r: bool)
    ensures
        r == (m.ai != 68),
{
    m.ai != 68
}

/// Whether `(dx, dy)` is one of the tiles a gate of template effect
/// `effect` blocks, relative to its anchor.
pub open spec fn spec_gate_table(effect: u8, dx: int, dy: int) -> bool {
    if effect == 1 {
        (dx == 0 && (dy == -1 || dy == -2)) || (dx == 1 && (dy == -1 || dy == -2)) || (dy == 0 && (dx == -1 || dx == -2))
            || (dx == -1 && (dy == -1 || dy == 1))
    } else if effect == 2 {
        (dx == 0 && (dy == -1 || dy == 1 || dy == -2)) || (dx == -1 && (dy == -1 || dy == 0)) || (dx == 1 && (dy
            == 1 || dy == 0 || dy == -1))
    } else if effect == 3 {
        (dx == 1 && dy == -1) || (dx == 0 && (dy == -1 || dy == -2)) || (dx == -1 && (dy == -1 || dy == 0 || dy
            == 1)) || (dx == -2 && (dy == -1 || dy == 0))
    } else if effect == 4 {
        (dx == -2 && dy == 0) || (dx == -1 && (dy == 1 || dy == 0 || dy == -1)) || (dx == 0 && (dy == 2 || dy == 1))
            || (dx == 1 && dy == 1)
    } else {
        false
    }
}

/// A standing gate (AI 81, alive, with health) covers a tile exactly when
/// the tile lies at one of the offsets its effect blocks (see
/// [`spec_gate_table`]); a fallen gate, or any other monster, covers
/// nothing.
pub proof fn lemma_gate_covers_its_table(m: NativeMonster, point: Point)
    ensures
        spec_gate_covers(m, point) <==> (m.ai == 81 && !m.dead && m.hp > 0 && spec_gate_table(
            spec_effect(m),
            point.x - m.position.x,
            point.y - m.position.y,
        )),
{
    let s = spec_gate_offsets(spec_effect(m));
    let dx = point.x - m.position.x;
    let dy = point.y - m.position.y;
    if m.ai == 81 && !m.dead && m.hp > 0 {
        if spec_gate_table(spec_effect(m), dx, dy) {
            assert(exists|k: int| 0 <= k < s.len() && spec_offset_hits(m.position, #[trigger] s[k], point)) by {
                let e = spec_effect(m);
                if e == 1 {
                    if dx == 0 && dy == -1 { assert(spec_offset_hits(m.position, s[0], point)); }
                    else if dx == 0 && dy == -2 { assert(spec_offset_hits(m.position, s[1], point)); }
                    else if dx == 1 && dy == -1 { assert(spec_offset_hits(m.position, s[2], point)); }
                    else if dx == 1 && dy == -2 { assert(spec_offset_hits(m.position, s[3], point)); }
                    else if dx == -1 && dy == 0 { assert(spec_offset_hits(m.position, s[4], point)); }
                    else if dx == -2 && dy == 0 { assert(spec_offset_hits(m.position, s[5], point)); }
                    else if dx == -1 && dy == -1 { assert(spec_offset_hits(m.position, s[6], point)); }
                    else { assert(spec_offset_hits(m.position, s[7], point)); }
                } else if e == 2 {
                    if dx == 0 && dy == -1 { assert(spec_offset_hits(m.position, s[0], point)); }
                    else if dx == -1 && dy == -1 { assert(spec_offset_hits(m.position, s[1], point)); }
                    else if dx == -1 && dy == 0 { assert(spec_offset_hits(m.position, s[2], point)); }
                    else if dx == 0 && dy == 1 { assert(spec_offset_hits(m.position, s[3], point)); }
                    else if dx == 1 && dy == 1 { assert(spec_offset_hits(m.position, s[4], point)); }
                    else if dx == 1 && dy == 0 { assert(spec_offset_hits(m.position, s[5], point)); }
                    else if dx == 1 && dy == -1 { assert(spec_offset_hits(m.position, s[6], point)); }
                    else { assert(spec_offset_hits(m.position, s[7], point)); }
                } else if e == 3 {
                    if dx == 1 && dy == -1 { assert(spec_offset_hits(m.position, s[0], point)); }
                    else if dx == 0 && dy == -1 { assert(spec_offset_hits(m.position, s[1], point)); }
                    else if dx == 0 && dy == -2 { assert(spec_offset_hits(m.position, s[2], point)); }
                    else if dx == -1 && dy == -1 { assert(spec_offset_hits(m.position, s[3], point)); }
                    else if dx == -2 && dy == -1 { assert(spec_offset_hits(m.position, s[4], point)); }
                    else if dx == -1 && dy == 0 { assert(spec_offset_hits(m.position, s[5], point)); }
                    else if dx == -1 && dy == 1 { assert(spec_offset_hits(m.position, s[6], point)); }
                    else { assert(spec_offset_hits(m.position, s[7], point)); }
                } else {
                    if dx == -2 && dy == 0 { assert(spec_offset_hits(m.position, s[0], point)); }
                    else if dx == -1 && dy == 1 { assert(spec_offset_hits(m.position, s[1], point)); }
                    else if dx == 0 && dy == 2 { assert(spec_offset_hits(m.position, s[2], point)); }
                    else if dx == 0 && dy == 1 { assert(spec_offset_hits(m.position, s[3], point)); }
                    else if dx == -1 && dy == 0 { assert(spec_offset_hits(m.position, s[4], point)); }
                    else if dx == -1 && dy == -1 { assert(spec_offset_hits(m.position, s[5], point)); }
                    else { assert(spec_offset_hits(m.position, s[6], point)); }
                }
            }
        }
        if spec_gate_covers(m, point) {
            let k = choose|k: int| 0 <= k < s.len() && spec_offset_hits(m.position, #[trigger] s[k], point);
            assert(dx == s[k].0 && dy == s[k].1);
        }
    }
}

} // verus!
