# simulation

The authoritative zone runtime of a Mir 2 world: the state a zone owns, the
entity-combat ledger of wild monsters, the turn of the MudZombie and the
attack turn of the EvilMir, the decision steps the other special monster
species take (target choice, attack plans, delayed hits, random rolls),
and the checkpoints a zone is saved to and restored from. A monster's
turn gives `ZoneOutbound` messages and step requests; the collision map,
packet encoding and addressing, and the damage and death of a struck life
belong to the program that embeds the library, which this crate does not
include. The
library is written in Verus; every function in `src/` carries a contract
that Verus proves.

## Layout

- `src/types.rs`, `src/monster.rs`, `src/zone.rs`: points, sessions, entity
  references, players, monsters with their species state, and the zone.
- `src/rng.rs`: the unbiased random streams the species draw from.
- `src/entity*.rs`: the entity-combat ledger: hostility, targets and their
  relations, status leases (green, bleeding, slow, red, frozen, paralysis,
  dazed), their clocks, and what a retired life leaves behind.
- `src/ai/`: one module per species family (Horned and its encounter,
  Hell, Hugger, KirinSnow, Meow, Shinsu, Armadillo, EvilMir, GreatFox,
  reactive foxes, MudBoulder, reviving zombies, pets, passive wanderers,
  YinDevil nodes, periodic player poisons, kill-reward ownership).
- `src/gate.rs`, `src/drops.rs`, `src/guild.rs`, `src/arith.rs`,
  `src/seqs.rs`: gates and their footprints, drop-rate arithmetic, guild
  friendship, saturating arithmetic and sequence helpers.
- `src/outbound.rs`: the messages a monster's turn gives.
- `src/entity_hit.rs`: how a hit on an entity life is decided (accuracy,
  magic resistance, armour; struck hits skip the first two).
- `src/checkpoint.rs`, `src/restore.rs`: ground-drop authority digests,
  state roots (SHA-256 through `sha2`), and the verified restore of a
  decoded checkpoint.
- `app/`: the JSON encoding of checkpoints with `serde`, the canonical
  serialization a state root commits to, and the text of a refused
  checkpoint.
- `tests/`: tests run against the compiled library.
