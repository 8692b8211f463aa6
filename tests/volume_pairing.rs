use gdan::{DesiredVolume, GameState, IntersectionTest, Intersects, intersection_test};

#[test]
fn sweeps_test_both_kinds() {
    assert_eq!(
        intersection_test(GameState::AabbSweep, DesiredVolume::Circle),
        Some(IntersectionTest::Overlap { probe: DesiredVolume::Aabb, target: DesiredVolume::Circle })
    );
    assert_eq!(
        intersection_test(GameState::CircleSweep, DesiredVolume::Aabb),
        Some(IntersectionTest::Overlap { probe: DesiredVolume::Circle, target: DesiredVolume::Aabb })
    );
}

#[test]
fn ray_tests_both_kinds() {
    assert_eq!(
        intersection_test(GameState::RayCast, DesiredVolume::Aabb),
        Some(IntersectionTest::Ray { target: DesiredVolume::Aabb })
    );
    assert_eq!(
        intersection_test(GameState::RayCast, DesiredVolume::Circle),
        Some(IntersectionTest::Ray { target: DesiredVolume::Circle })
    );
}

#[test]
fn casts_only_meet_their_own_kind() {
    assert_eq!(
        intersection_test(GameState::AabbCast, DesiredVolume::Aabb),
        Some(IntersectionTest::Cast { kind: DesiredVolume::Aabb })
    );
    assert_eq!(intersection_test(GameState::AabbCast, DesiredVolume::Circle), None);
    assert_eq!(
        intersection_test(GameState::CircleCast, DesiredVolume::Circle),
        Some(IntersectionTest::Cast { kind: DesiredVolume::Circle })
    );
    assert_eq!(intersection_test(GameState::CircleCast, DesiredVolume::Aabb), None);
}

#[test]
fn hit_flag_starts_clear() {
    assert_eq!(Intersects::default(), Intersects(false));
}
