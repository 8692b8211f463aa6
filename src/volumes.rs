use vstd::prelude::*;
use crate::test_mode::GameState;

verus! {

/// Which bounding volume is kept for a shape.
#[derive(Clone, Copy, Debug, PartialEq, Eq, Structural, Hash)]
pub enum DesiredVolume {
    Aabb,
    Circle,
}

/// Whether a shape's volume was hit by the probe in the last evaluated frame.
#[derive(Clone, Copy, Debug, PartialEq, Eq, Structural)]
pub struct Intersects(pub bool);

impl Default for Intersects {
    fn default() -> (r: Intersects)
        ensures
            !r.0,
    {
        Intersects(false)
    }
}

/// The geometric test that decides a shape's hit flag.
#[derive(Clone, Copy, Debug, PartialEq, Eq, Structural)]
pub enum IntersectionTest {
    /// The probe volume shares a point with the target volume.
    Overlap { probe: DesiredVolume, target: DesiredVolume },
    /// A bounded ray reaches the target volume.
    Ray { target: DesiredVolume },
    /// A volume swept along a bounded ray touches a target of the same kind.
    Cast { kind: DesiredVolume },
}

/// The test that `mode` runs against a volume of kind `target`; none where a
/// cast probe meets a volume of the other kind, which then counts as no impact.
pub open spec fn spec_intersection_test(mode: GameState, target: DesiredVolume) -> Option<
    IntersectionTest,
> {
    match mode {
        GameState::AabbSweep => Some(IntersectionTest::Overlap { probe: DesiredVolume::Aabb, target }),
        GameState::CircleSweep => Some(
            IntersectionTest::Overlap { probe: DesiredVolume::Circle, target },
        ),
        GameState::RayCast => Some(IntersectionTest::Ray { target }),
        GameState::AabbCast => if target == DesiredVolume::Aabb {
            Some(IntersectionTest::Cast { kind: target })
        } else {
            None
        },
        GameState::CircleCast => if target == DesiredVolume::Circle {
            Some(IntersectionTest::Cast { kind: target })
        } else {
            None
        },
    }
}

pub fn intersection_test(mode: GameState, target: DesiredVolume) -> (r: Option<IntersectionTest>)
    ensures
        r == spec_intersection_test(mode, target),
        r is None <==> (mode == GameState::AabbCast && target == DesiredVolume::Circle) || (mode
            == GameState::CircleCast && target == DesiredVolume::Aabb),
{
    match mode {
        GameState::AabbSweep => Some(IntersectionTest::Overlap { probe: DesiredVolume::Aabb, target }),
        GameState::CircleSweep => Some(
            IntersectionTest::Overlap { probe: DesiredVolume::Circle, target },
        ),
        GameState::RayCast => Some(IntersectionTest::Ray { target }),
        GameState::AabbCast => match target {
            DesiredVolume::Aabb => Some(IntersectionTest::Cast { kind: DesiredVolume::Aabb }),
            DesiredVolume::Circle => None,
        },
        GameState::CircleCast => match target {
            DesiredVolume::Aabb => None,
            DesiredVolume::Circle => Some(IntersectionTest::Cast { kind: DesiredVolume::Circle }),
        },
    }
}

} // verus!
