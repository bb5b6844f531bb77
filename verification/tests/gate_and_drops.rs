use simulation::drops::crystal_adjusted_drop_denominator;
use simulation::gate::{closed_facing, gate_offsets};
use simulation::types::Direction;

#[test]
fn gate_rounding_matches_dotnet_half_even() {
    assert_eq!(closed_facing(100, 100), Direction::Up);
    assert_eq!(closed_facing(50, 60), Direction::UpRight); // 2.5 -> 2
    assert_eq!(closed_facing(30, 60), Direction::UpRight); // 1.5 -> 2
    assert_eq!(closed_facing(10, 60), Direction::Right); // .5 -> 0, min 1
}

#[test]
fn all_four_source_gate_footprints_are_distinct_and_unique() {
    for effect in 1..=4 {
        let offsets = gate_offsets(effect);
        let unique: std::collections::BTreeSet<_> = offsets.iter().copied().collect();
        assert_eq!(unique.len(), if effect == 4 { 7 } else { 8 });
        assert!(!unique.contains(&(0, 0)));
    }
    assert!(gate_offsets(0).is_empty());
    assert_ne!(gate_offsets(1), gate_offsets(2));
    assert_ne!(gate_offsets(2), gate_offsets(3));
}

#[test]
fn reward_rate_uses_original_integer_denominator_reduction() {
    assert_eq!(crystal_adjusted_drop_denominator(100, 50), 50);
    assert_eq!(crystal_adjusted_drop_denominator(10, 20), 8);
    assert_eq!(crystal_adjusted_drop_denominator(3, 50), 2);
    assert_eq!(crystal_adjusted_drop_denominator(10, -20), 10);
    assert_eq!(crystal_adjusted_drop_denominator(10, 100), 1);
    assert_eq!(crystal_adjusted_drop_denominator(u32::MAX, i32::MAX), 1);
}

#[test]
fn gate_footprint_lengths_match_every_effect() {
    assert_eq!(gate_offsets(1).len(), 8);
    assert_eq!(gate_offsets(4).len(), 7);
    assert_eq!(gate_offsets(5).len(), 0);
}

#[test]
fn closed_gate_facing_clamps_bad_vitals() {
    assert_eq!(closed_facing(-5, 60), Direction::Right);
    assert_eq!(closed_facing(0, 0), Direction::Right);
    assert_eq!(closed_facing(60, 60), Direction::Up);
}

#[test]
fn drop_denominator_never_falls_below_one() {
    assert_eq!(crystal_adjusted_drop_denominator(0, 0), 0);
    assert_eq!(crystal_adjusted_drop_denominator(1, 1000), 1);
    assert_eq!(crystal_adjusted_drop_denominator(7, 0), 7);
}
