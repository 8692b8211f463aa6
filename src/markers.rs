use vstd::prelude::*;

verus! {

/// Tags what belongs to the main menu, so that leaving it removes exactly that.
#[derive(Clone, Copy, Debug, PartialEq, Eq, Structural, Default)]
pub struct MainMenu;

/// Tags what belongs to the intersection-test screen.
#[derive(Clone, Copy, Debug, PartialEq, Eq, Structural, Default)]
pub struct GameMenu;

/// Tags the shapes of the intersection-test screen that keep turning.
#[derive(Clone, Copy, Debug, PartialEq, Eq, Structural, Default)]
pub struct Spin;

/// Tags what belongs to the map screens.
#[derive(Clone, Copy, Debug, PartialEq, Eq, Structural, Default)]
pub struct MapMenu;

/// Tags the map imagery itself.
#[derive(Clone, Copy, Debug, PartialEq, Eq, Structural, Default)]
pub struct MapNC;

/// Tags the hexagon overlay on the map.
#[derive(Clone, Copy, Debug, PartialEq, Eq, Structural, Default)]
pub struct MapHexagon;

/// Tags what belongs to the drawing screen.
#[derive(Clone, Copy, Debug, PartialEq, Eq, Structural, Default)]
pub struct RuleMenu;

} // verus!
