//! The authoritative zone runtime of a Mir2 simulation: monster behaviour
//! rules, the shared entity-combat ledger, deterministic per-monster random
//! streams, and zone checkpoint restoration.
use vstd::prelude::*;

pub mod arith;
pub mod seqs;
pub mod rng;
pub mod types;
pub mod drops;
pub mod gate;
pub mod monster;
pub mod guild;
pub mod zone;
pub mod entity;
pub mod entity_life;
pub mod entity_target;
pub mod entity_status;
pub mod entity_poison;
pub mod entity_tick;
pub mod entity_hit;
pub mod ai;
pub mod outbound;
pub mod checkpoint;
pub mod restore;

verus! {
}
