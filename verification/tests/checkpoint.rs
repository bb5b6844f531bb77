use sha2::{Digest, Sha256};
use simulation::checkpoint::{
    claim_idempotency_key, hex_lower, payload_digest, state_root, GroundDropClaim,
    GroundDropClaimTicket, GroundDropSnapshot, StoredGroundDrop,
};
use simulation::monster::{MonsterDefense, NativeMonster, SpecialAi, ZonePlayer};
use simulation::restore::{
    rebuild_checkpoint, CheckpointError, ObjectEntry, PlayerEntry, ZoneRuntimeCheckpoint,
};
use simulation::types::{Direction, Disposition, Point, SessionId};
use simulation::zone::{ZoneKey, ZoneObject, ZoneRuntime};

fn player(session: &str, object_id: u32, x: i32, y: i32) -> ZonePlayer {
    ZonePlayer {
        session_id: SessionId::new(session),
        object_id,
        life_generation: 1,
        level: 12,
        hp: 43,
        dead: false,
        hidden: false,
        position: Point { x, y },
        in_safe_zone: false,
        is_gm: false,
        gm_never_die: false,
        guild_name: None,
        pk_points: 0,
        attack_mode: 0,
        poison_resist: 0,
        magic_resist: 0,
        agility: 0,
        min_dc: 0,
        buff_min_dc: 0,
        poison: 0,
        native_status_poison: 0,
        native_status_poison_deadlines: Vec::new(),
        native_status_poison_expires_at_ms: None,
    }
}

fn monster(object_id: u32, disposition: Option<Disposition>, hostile: bool) -> NativeMonster {
    NativeMonster {
        object_id,
        name: "WoomaSoldier".to_string(),
        ai: 2,
        level: 24,
        hp: 500,
        max_hp: 500,
        dead: false,
        incarnation: 1,
        owner_session_id: None,
        owner_player_object_id: 0,
        master_object_id: None,
        hostile_to_player: hostile,
        disposition,
        friendly_guild: None,
        position: Point { x: 30, y: 30 },
        direction: Direction::Down,
        move_speed_ms: 0,
        attack_speed_ms: 0,
        next_ai_ready_at_ms: 0,
        next_attack_ready_at_ms: 0,
        hallucination_until_ms: 0,
        entity_poison: 0,
        poison: 0,
        control_poison: 0,
        control_until_ms: 0,
        damage_poison: 0,
        damage_poison_value: 0,
        damage_poison_next_damage_at_ms: 0,
        damage_poison_expires_at_ms: 0,
        damage_poison_owner_session_id: None,
        damage_poison_owner_object_id: 0,
        attackable: true,
        visible: true,
        hidden: false,
        cool_eye_sees: false,
        template: None,
        defense: MonsterDefense { min_ac: 0, max_ac: 0, min_mac: 0, max_mac: 0, agility: 0 },
        buffs: Vec::new(),
        special: SpecialAi::empty(),
    }
}

fn gold_drop(object_id: u32) -> GroundDropSnapshot {
    GroundDropSnapshot {
        object_id,
        owner_object_id: None,
        canonical_bytes: format!("gold:{object_id}:25").into_bytes(),
    }
}

fn checkpoint(version: u32, map: &str) -> ZoneRuntimeCheckpoint {
    ZoneRuntimeCheckpoint {
        version,
        state_root: String::new(),
        key: ZoneKey { map_file_name: map.to_string() },
        players: Vec::new(),
        objects: Vec::new(),
        dead_object_ids: Vec::new(),
        revived_object_ids: Vec::new(),
        removed_object_ids: Vec::new(),
        harvested_object_ids: Vec::new(),
        native_monsters: Vec::new(),
        pending_native_hits: Vec::new(),
        pending_native_projectiles: Vec::new(),
        pending_native_player_hits: Vec::new(),
        ground_drops: Vec::new(),
        claimed_ground_drops: Vec::new(),
        next_ground_drop_generation: 1,
        next_ground_drop_claim_id: 1,
        open_doors: Vec::new(),
        next_object_id: 1,
    }
}

/// A stand-in canonical serialization of the state a checkpoint rebuilds to.
fn canonical_of(build: &dyn Fn() -> ZoneRuntimeCheckpoint) -> Vec<u8> {
    let runtime = rebuild_checkpoint(build()).expect("fixture rebuilds");
    format!("{runtime:?}").into_bytes()
}

fn sealed(build: &dyn Fn() -> ZoneRuntimeCheckpoint) -> (ZoneRuntimeCheckpoint, Vec<u8>) {
    let canonical = canonical_of(build);
    let mut c = build();
    c.state_root = state_root(c.version, &canonical);
    (c, canonical)
}

fn sha256_hex(parts: &[&[u8]]) -> String {
    let mut hasher = Sha256::new();
    for part in parts {
        hasher.update(part);
    }
    hasher.finalize().iter().map(|b| format!("{b:02x}")).collect()
}

fn player_fixture() -> ZoneRuntimeCheckpoint {
    let mut c = checkpoint(2, "checkpoint-map");
    c.players.push(PlayerEntry {
        key: SessionId::new("checkpoint-player"),
        player: player("checkpoint-player", 77, 14, 27),
    });
    c.objects.push(ObjectEntry {
        key: 5,
        object: ZoneObject {
            object_id: 5,
            position: Point { x: 3, y: 4 },
            packet_frame: vec![1, 2, 3],
            hidden: false,
            expires_at_ms: Some(9_000),
        },
    });
    c.open_doors.push((3, 12_000));
    c.next_object_id = 78;
    c
}

fn legacy_fixture() -> ZoneRuntimeCheckpoint {
    let mut c = checkpoint(1, "legacy-drop-map");
    c.ground_drops.push(StoredGroundDrop {
        object_id: 101,
        drop: gold_drop(101),
        owner_expires_at_ms: Some(6_000),
        drop_generation: 0,
        payload_digest: String::new(),
    });
    c.claimed_ground_drops.push(GroundDropClaim {
        object_id: 102,
        session_id: SessionId::new("legacy-claimer"),
        drop: gold_drop(102),
        ticket: None,
    });
    c
}

fn v2_drop_fixture() -> ZoneRuntimeCheckpoint {
    let mut c = checkpoint(2, "v2-drop-validation");
    let drop = gold_drop(201);
    let digest = payload_digest(&drop);
    c.ground_drops.push(StoredGroundDrop {
        object_id: 201,
        drop,
        owner_expires_at_ms: None,
        drop_generation: 1,
        payload_digest: digest,
    });
    c.next_ground_drop_generation = 2;
    c
}

#[test]
fn state_root_is_sha256_of_the_domain_and_canonical_bytes() {
    let bytes = b"{\"version\":2}".to_vec();
    assert_eq!(
        state_root(2, &bytes),
        sha256_hex(&[b"obelisk.mir2.zone-state.v2\0", &bytes])
    );
    assert_eq!(
        state_root(1, &bytes),
        sha256_hex(&[b"obelisk.mir2.zone-state.v1\0", &bytes])
    );
    assert_ne!(state_root(1, &bytes), state_root(2, &bytes));
    assert_eq!(state_root(2, &bytes).len(), 64);
}

#[test]
fn hex_lower_writes_two_digits_per_byte() {
    assert_eq!(hex_lower(&[0x00, 0x0f, 0xa5, 0xff]), "000fa5ff");
    assert_eq!(hex_lower(&[]), "");
}

#[test]
fn payload_digest_binds_the_canonical_payload() {
    let drop = gold_drop(7);
    assert_eq!(payload_digest(&drop), sha256_hex(&[&drop.canonical_bytes]));
    assert_ne!(payload_digest(&drop), payload_digest(&gold_drop(8)));
}

#[test]
fn claim_idempotency_key_lists_every_identity_field() {
    let key = claim_idempotency_key(&"m".to_string(), 0x66, 2, 1, &"ab".to_string());
    assert_eq!(key, "m/00000066/0000000000000002/0000000000000001/ab");
}

#[test]
fn complete_zone_checkpoint_restores_authoritative_and_derived_state() {
    let (c, canonical) = sealed(&player_fixture);
    let restored = ZoneRuntime::restore_checkpoint(c, &canonical).expect("checkpoint restore");
    assert_eq!(format!("{restored:?}").into_bytes(), canonical);
    assert_eq!(restored.players.len(), 1);
    assert_eq!(restored.players[0].position, Point { x: 14, y: 27 });
    assert_eq!(restored.players[0].hp, 43);
    assert_eq!(restored.occupancy.len(), 1);
    assert_eq!(restored.occupancy[0].tile, Point { x: 14, y: 27 });
    assert_eq!(restored.opened_doors, vec![3]);
    assert_eq!(restored.objects[0].packet_frame, vec![1, 2, 3]);
    assert_eq!(restored.next_object_id, 78);
}

#[test]
fn complete_zone_checkpoint_rejects_valid_json_with_changed_state() {
    let (_, canonical) = sealed(&player_fixture);
    let tampered_build = || {
        let mut c = player_fixture();
        c.next_object_id = c.next_object_id.saturating_add(1);
        c
    };
    let tampered_canonical = canonical_of(&tampered_build);
    assert_ne!(tampered_canonical, canonical);
    let mut tampered = tampered_build();
    tampered.state_root = state_root(2, &canonical);
    match ZoneRuntime::restore_checkpoint(tampered, &tampered_canonical) {
        Err(CheckpointError::StateRootMismatch { expected, got }) => {
            assert_eq!(expected, state_root(2, &canonical));
            assert_eq!(got, state_root(2, &tampered_canonical));
        }
        other => panic!("tampered state must fail: {other:?}"),
    }
}

#[test]
fn verified_world_checkpoint_reanchors_a_module_dependent_state_root() {
    let canonical = canonical_of(&|| checkpoint(2, "module-upgrade-map"));
    let build = || {
        let mut c = checkpoint(2, "module-upgrade-map");
        c.state_root = "0".repeat(64);
        c
    };
    assert!(ZoneRuntime::restore_checkpoint(build(), &canonical).is_err());
    let restored = ZoneRuntime::restore_verified_world_checkpoint(build(), &canonical)
        .expect("outer-verified World checkpoint should re-anchor");
    assert_ne!(state_root(2, &format!("{restored:?}").into_bytes()), "0".repeat(64));
}

#[test]
fn legacy_v1_ground_drop_fixture_rebuilds_authority_from_legacy_payload_only() {
    let (c, canonical) = sealed(&legacy_fixture);
    let restored = ZoneRuntime::restore_checkpoint(c, &canonical).expect("strict v1 fixture restore");
    let active = &restored.ground_drops[0];
    assert_eq!(active.object_id, 101);
    assert_eq!(active.drop_generation, 1);
    assert_eq!(active.payload_digest, payload_digest(&active.drop));
    let claim = &restored.claimed_ground_drops[0];
    let ticket = claim.ticket.as_ref().expect("rebuilt claimed-drop ticket");
    assert_eq!(ticket.claim_id, 1);
    assert_eq!(ticket.drop_generation, 2);
    assert_eq!(ticket.payload_digest, payload_digest(&claim.drop));
    assert_eq!(
        ticket.idempotency_key,
        claim_idempotency_key(
            &restored.key.map_file_name,
            ticket.object_id,
            ticket.drop_generation,
            ticket.claim_id,
            &ticket.payload_digest,
        )
    );
    assert_eq!(restored.next_ground_drop_generation, 3);
    assert_eq!(restored.next_ground_drop_claim_id, 2);
}

#[test]
fn legacy_v1_restore_ignores_injected_v2_ground_drop_authority_fields() {
    let (_, canonical) = sealed(&legacy_fixture);
    let mut c = legacy_fixture();
    c.state_root = state_root(1, &canonical);
    c.next_ground_drop_generation = 999;
    c.next_ground_drop_claim_id = 998;
    c.ground_drops[0].drop_generation = 777;
    c.ground_drops[0].payload_digest = "forged-active".to_string();
    c.claimed_ground_drops[0].ticket = Some(GroundDropClaimTicket {
        claim_id: 555,
        object_id: 102,
        drop_generation: 666,
        payload_digest: "forged-claim".to_string(),
        idempotency_key: "forged-idempotency-key".to_string(),
        session_id: SessionId::new("forged-session"),
        owner_object_id: Some(123),
        drop: gold_drop(102),
    });
    // The injected fields are not part of the legacy canonical state.
    let restored = ZoneRuntime::restore_checkpoint(c, &canonical)
        .expect("injected v2 fields must not affect verified v1 restore");
    let active = &restored.ground_drops[0];
    assert_eq!(active.drop_generation, 1);
    assert_ne!(active.payload_digest, "forged-active");
    let ticket = restored.claimed_ground_drops[0].ticket.as_ref().expect("ticket");
    assert_eq!(ticket.claim_id, 1);
    assert_eq!(ticket.drop_generation, 2);
    assert_ne!(ticket.payload_digest, "forged-claim");
    assert_ne!(ticket.idempotency_key, "forged-idempotency-key");
    assert_eq!(ticket.session_id.name, "legacy-claimer");
    assert_eq!(ticket.owner_object_id, None);
    assert_eq!(restored.next_ground_drop_generation, 3);
    assert_eq!(restored.next_ground_drop_claim_id, 2);
}

#[test]
fn verified_world_checkpoint_keeps_v2_ground_drop_authority_validation() {
    let forged = || {
        let mut c = v2_drop_fixture();
        c.ground_drops[0].payload_digest = "forged-v2-digest".to_string();
        c
    };
    let canonical = canonical_of(&forged);
    match ZoneRuntime::restore_verified_world_checkpoint(forged(), &canonical) {
        Err(CheckpointError::InvalidGroundDrop { object_id }) => assert_eq!(object_id, 201),
        other => panic!("v2 authority validation must survive re-anchoring: {other:?}"),
    }
}

#[test]
fn valid_v2_ground_drop_authority_restores() {
    let (c, canonical) = sealed(&v2_drop_fixture);
    let restored = ZoneRuntime::restore_checkpoint(c, &canonical).expect("valid v2 authority");
    assert_eq!(restored.ground_drops[0].drop_generation, 1);
}

#[test]
fn v2_counters_must_exceed_persisted_generations() {
    let behind = || {
        let mut c = v2_drop_fixture();
        c.next_ground_drop_generation = 1;
        c
    };
    let (c, canonical) = sealed(&behind);
    assert!(matches!(
        ZoneRuntime::restore_checkpoint(c, &canonical),
        Err(CheckpointError::CountersBehind)
    ));
}

#[test]
fn v2_claim_without_ticket_is_refused() {
    let missing = || {
        let mut c = v2_drop_fixture();
        c.claimed_ground_drops.push(GroundDropClaim {
            object_id: 202,
            session_id: SessionId::new("claimer"),
            drop: gold_drop(202),
            ticket: None,
        });
        c
    };
    let (c, canonical) = sealed(&missing);
    assert!(matches!(
        ZoneRuntime::restore_checkpoint(c, &canonical),
        Err(CheckpointError::MissingTicket { object_id: 202 })
    ));
}

#[test]
fn v2_claim_with_forged_ticket_is_refused() {
    let forged = || {
        let mut c = v2_drop_fixture();
        c.claimed_ground_drops.push(GroundDropClaim {
            object_id: 202,
            session_id: SessionId::new("claimer"),
            drop: gold_drop(202),
            ticket: Some(GroundDropClaimTicket {
                claim_id: 1,
                object_id: 202,
                drop_generation: 1,
                payload_digest: "forged".to_string(),
                idempotency_key: "forged".to_string(),
                session_id: SessionId::new("claimer"),
                owner_object_id: None,
                drop: gold_drop(202),
            }),
        });
        c.next_ground_drop_claim_id = 2;
        c
    };
    let (c, canonical) = sealed(&forged);
    assert!(matches!(
        ZoneRuntime::restore_checkpoint(c, &canonical),
        Err(CheckpointError::InvalidTicket { object_id: 202 })
    ));
}

#[test]
fn unsupported_checkpoint_version_is_refused() {
    assert!(matches!(
        rebuild_checkpoint(checkpoint(3, "m")),
        Err(CheckpointError::UnsupportedVersion { version: 3 })
    ));
}

#[test]
fn player_key_must_match_embedded_session() {
    let mut c = checkpoint(2, "m");
    c.players.push(PlayerEntry { key: SessionId::new("a"), player: player("b", 1, 1, 1) });
    match rebuild_checkpoint(c) {
        Err(CheckpointError::PlayerKeyMismatch { key, embedded }) => {
            assert_eq!(key.name, "a");
            assert_eq!(embedded.name, "b");
        }
        other => panic!("key mismatch expected: {other:?}"),
    }
}

#[test]
fn object_key_must_match_embedded_id() {
    let mut c = checkpoint(2, "m");
    c.objects.push(ObjectEntry {
        key: 4,
        object: ZoneObject {
            object_id: 5,
            position: Point { x: 0, y: 0 },
            packet_frame: Vec::new(),
            hidden: false,
            expires_at_ms: None,
        },
    });
    assert!(matches!(
        rebuild_checkpoint(c),
        Err(CheckpointError::ObjectKeyMismatch { object_key: 4, embedded_id: 5 })
    ));
}

#[test]
fn two_players_on_one_tile_are_refused() {
    let mut c = checkpoint(2, "m");
    c.players.push(PlayerEntry { key: SessionId::new("a"), player: player("a", 1, 9, 9) });
    c.players.push(PlayerEntry { key: SessionId::new("b"), player: player("b", 2, 9, 9) });
    assert!(matches!(
        rebuild_checkpoint(c),
        Err(CheckpointError::MultiplePlayersAt { x: 9, y: 9 })
    ));
}

#[test]
fn legacy_checkpoint_missing_monster_disposition_fails_closed() {
    let build = || {
        let mut c = checkpoint(2, "D022");
        c.native_monsters.push(monster(9_100_099, None, true));
        c.native_monsters.push(monster(9_100_001, Some(Disposition::Hostile), false));
        c
    };
    let canonical = canonical_of(&build);
    let restored = ZoneRuntime::restore_verified_world_checkpoint(build(), &canonical)
        .expect("verified legacy checkpoint should restore");
    assert_eq!(restored.native_monsters[0].disposition, None);
    assert!(!restored.native_monsters[0].hostile_to_player);
    assert!(restored.native_monsters[1].hostile_to_player);
}

#[test]
fn world_event_monster_without_player_is_authoritative_and_checkpointed() {
    let build = || {
        let mut c = checkpoint(2, "D022");
        c.native_monsters.push(monster(9_100_001, Some(Disposition::Hostile), true));
        c
    };
    let (c, canonical) = sealed(&build);
    let restored = ZoneRuntime::restore_checkpoint(c, &canonical).expect("event checkpoint restore");
    assert_eq!(restored.native_monsters.len(), 1);
    assert_eq!(restored.native_monsters[0].object_id, 9_100_001);
    assert_eq!(format!("{restored:?}").into_bytes(), canonical);
}

#[test]
fn new_zone_is_empty() {
    let rt = ZoneRuntime::new(ZoneKey { map_file_name: "0".to_string() });
    assert!(rt.players.is_empty());
    assert!(rt.native_monsters.is_empty());
    assert_eq!(rt.next_ground_drop_generation, 1);
}
