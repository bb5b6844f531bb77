//! What a monster's turn gives the players who see it. The caller addresses
//! each message to its recipients (those who see the monster or its target)
//! and encodes it as a client packet.
use vstd::prelude::*;
use crate::types::{Direction, Point};

verus! {

/// One message about a monster's turn.
#[derive(Debug, Clone, Copy, PartialEq, Eq, Structural)]
pub enum ZoneOutbound {
    /// The monster attacks in place, facing `direction`.
    ObjectAttack { object_id: u32, location: Point, direction: Direction, attack_type: u8 },
    /// The monster attacks the object `target_id` at `target` from afar.
    ObjectRangeAttack {
        object_id: u32,
        location: Point,
        direction: Direction,
        target_id: u32,
        target: Point,
        attack_type: u8,
    },
    /// The monster steps one tile to `destination`, facing `direction`. The
    /// caller, which holds the collision map and the occupancy, walks it
    /// there when the tile is free and otherwise only turns it.
    ObjectStep { object_id: u32, destination: Point, direction: Direction },
    /// The monster takes form `stage`: its retained appearance now carries
    /// that form, and those who see it are shown it again.
    MonsterForm { object_id: u32, stage: u8 },
}

} // verus!
