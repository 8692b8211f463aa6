use gdan::{
    ButtonInteraction, ButtonResponse, EscapeAction, MyAppState, back_main_menu, close_on_esc,
    focused_windows, main_menu_button, main_menu_target, submenu_button,
};

#[test]
fn main_menu_labels() {
    assert_eq!(main_menu_target("Map"), Some(MyAppState::MapMenu));
    assert_eq!(main_menu_target("Oper"), Some(MyAppState::OperMenu));
    assert_eq!(main_menu_target("Rule"), Some(MyAppState::RuleMenu));
    assert_eq!(main_menu_target("Game"), Some(MyAppState::GameMenu));
    assert_eq!(main_menu_target("map"), None);
    assert_eq!(main_menu_target(""), None);
    assert_eq!(main_menu_target("Maps"), None);
}

#[test]
fn main_menu_press_switches_screen() {
    assert_eq!(
        main_menu_button(MyAppState::MainMenu, ButtonInteraction::Pressed, "Game"),
        ButtonResponse { restyle: true, next: Some(MyAppState::GameMenu) }
    );
    assert_eq!(
        main_menu_button(MyAppState::GameMenu, ButtonInteraction::Pressed, "Game"),
        ButtonResponse { restyle: true, next: None }
    );
    assert_eq!(
        main_menu_button(MyAppState::MainMenu, ButtonInteraction::Hovered, "Map"),
        ButtonResponse { restyle: true, next: None }
    );
}

#[test]
fn submenu_three_d_buttons() {
    assert_eq!(
        submenu_button(MyAppState::MapMenu, ButtonInteraction::Pressed, "3D"),
        ButtonResponse { restyle: false, next: Some(MyAppState::Map3D) }
    );
    assert_eq!(
        submenu_button(MyAppState::OperMenu, ButtonInteraction::Pressed, "3D"),
        ButtonResponse { restyle: false, next: Some(MyAppState::Oper3D) }
    );
    assert_eq!(
        submenu_button(MyAppState::Map3D, ButtonInteraction::Pressed, "3D"),
        ButtonResponse { restyle: false, next: None }
    );
    assert_eq!(
        submenu_button(MyAppState::MapMenu, ButtonInteraction::Pressed, "2D"),
        ButtonResponse { restyle: false, next: None }
    );
    assert_eq!(
        submenu_button(MyAppState::MapMenu, ButtonInteraction::Idle, "3D"),
        ButtonResponse { restyle: true, next: None }
    );
}

#[test]
fn back_key_returns_to_main_menu() {
    assert_eq!(back_main_menu(true), Some(MyAppState::MainMenu));
    assert_eq!(back_main_menu(false), None);
}

#[test]
fn escape_depends_on_screen() {
    assert_eq!(close_on_esc(MyAppState::MainMenu, false), EscapeAction::Ignore);
    assert_eq!(close_on_esc(MyAppState::MainMenu, true), EscapeAction::CloseFocusedWindows);
    assert_eq!(close_on_esc(MyAppState::RuleMenu, true), EscapeAction::ReturnAndExit);
}

#[test]
fn only_focused_windows_close() {
    assert_eq!(focused_windows(&[false, true, false, true]), vec![1, 3]);
    assert_eq!(focused_windows(&[]), Vec::<usize>::new());
    assert_eq!(focused_windows(&[false, false]), Vec::<usize>::new());
}

#[test]
fn initial_screen_is_scene_view() {
    assert_eq!(MyAppState::default(), MyAppState::Scene3D);
}
