//! Verified core of a small multi-screen demo: the cycle of intersection
//! test modes and its on-screen summary, the rules that pair a test mode
//! with a bounding-volume kind, and the screen navigation decisions.
//! Geometry on floating-point values, rendering and input polling live
//! around this library.

pub mod markers;
pub mod test_mode;
pub mod volumes;
pub mod screens;
pub mod texture;

pub use test_mode::{GameState, ModeSwitch, update_test_state, update_text};
pub use volumes::{DesiredVolume, IntersectionTest, Intersects, intersection_test};
pub use screens::{
    ButtonInteraction, ButtonResponse, EscapeAction, MyAppState, back_main_menu, close_on_esc,
    focused_windows, main_menu_button, main_menu_target, submenu_button,
};
pub use markers::{GameMenu, MainMenu, MapHexagon, MapMenu, MapNC, RuleMenu, Spin};
pub use texture::{TEXTURE_SIZE, uv_debug_texture_data};
