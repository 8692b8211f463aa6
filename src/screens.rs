use vstd::prelude::*;

verus! {

/// The screen the program shows.
#[derive(Clone, Copy, Debug, PartialEq, Eq, Structural, Hash)]
pub enum MyAppState {
    MainMenu,
    MapMenu,
    Map3D,
    OperMenu,
    Oper3D,
    RuleMenu,
    SceneMenu,
    Scene3D,
    GameMenu,
}

impl Default for MyAppState {
    fn default() -> (r: MyAppState)
        ensures
            r == MyAppState::Scene3D,
    {
        MyAppState::Scene3D
    }
}

/// What the pointer is doing to a menu button this frame.
#[derive(Clone, Copy, Debug, PartialEq, Eq, Structural)]
pub enum ButtonInteraction {
    Pressed,
    Hovered,
    Idle,
}

/// What a menu button does in response to an interaction: whether it takes
/// the colours of that interaction, and the screen to switch to, if any.
#[derive(Clone, Copy, Debug, PartialEq, Eq, Structural)]
pub struct ButtonResponse {
    pub restyle: bool,
    pub next: Option<MyAppState>,
}

/// What the escape key does.
#[derive(Clone, Copy, Debug, PartialEq, Eq, Structural)]
pub enum EscapeAction {
    /// The key was not pressed.
    Ignore,
    /// On the main menu: close every window that has the focus.
    CloseFocusedWindows,
    /// Elsewhere: go back to the main menu and quit the program.
    ReturnAndExit,
}

fn same_text(a: &str, b: &str) -> (r: bool)
    ensures
        r == (a@ == b@),
{
    let n = a.unicode_len();
    if n != b.unicode_len() {
        return false;
    }
    let mut i: usize = 0;
    while i < n
        invariant
            n == a@.len(),
            n == b@.len(),
            i <= n,
            a@.subrange(0, i as int) == b@.subrange(0, i as int),
        decreases n - i,
    {
        if a.get_char(i) != b.get_char(i) {
            assert(a@[i as int] != b@[i as int]);
            return false;
        }
        assert(a@.subrange(0, i + 1) =~= a@.subrange(0, i as int).push(a@[i as int]));
        assert(b@.subrange(0, i + 1) =~= b@.subrange(0, i as int).push(b@[i as int]));
        i = i + 1;
    }
    assert(a@ =~= a@.subrange(0, n as int));
    assert(b@ =~= b@.subrange(0, n as int));
    true
}

/// The screen that a main-menu button with this label leads to.
pub open spec fn spec_main_menu_target(label: Seq<char>) -> Option<MyAppState> {
    if label == "Map"@ {
        Some(MyAppState::MapMenu)
    } else if label == "Oper"@ {
        Some(MyAppState::OperMenu)
    } else if label == "Rule"@ {
        Some(MyAppState::RuleMenu)
    } else if label == "Game"@ {
        Some(MyAppState::GameMenu)
    } else {
        None
    }
}

pub fn main_menu_target(label: &str) -> (r: Option<MyAppState>)
    ensures
        r == spec_main_menu_target(label@),
{
    if same_text(label, "Map") {
        Some(MyAppState::MapMenu)
    } else if same_text(label, "Oper") {
        Some(MyAppState::OperMenu)
    } else if same_text(label, "Rule") {
        Some(MyAppState::RuleMenu)
    } else if same_text(label, "Game") {
        Some(MyAppState::GameMenu)
    } else {
        None
    }
}

/// A main-menu button always takes the colours of its interaction; pressed
/// while the main menu is shown, it leads to the screen its label names.
pub fn main_menu_button(state: MyAppState, interaction: ButtonInteraction, label: &str) -> (r:
    ButtonResponse)
    ensures
        r.restyle,
        r.next == (if interaction == ButtonInteraction::Pressed && state == MyAppState::MainMenu {
            spec_main_menu_target(label@)
        } else {
            None
        }),
{
    let next = match interaction {
        ButtonInteraction::Pressed => match state {
            MyAppState::MainMenu => main_menu_target(label),
            _ => None,
        },
        _ => None,
    };
    ButtonResponse { restyle: true, next }
}

/// The three-dimensional screen that a menu screen's "3D" button opens.
pub open spec fn spec_three_d_view(state: MyAppState) -> Option<MyAppState> {
    match state {
        MyAppState::MapMenu => Some(MyAppState::Map3D),
        MyAppState::OperMenu => Some(MyAppState::Oper3D),
        _ => None,
    }
}

/// A button of the map or primitives screen: a press keeps its colours and,
/// on the "3D" button of either menu screen, opens that screen's 3D view;
/// hovering and leaving restyle it.
pub fn submenu_button(state: MyAppState, interaction: ButtonInteraction, label: &str) -> (r:
    ButtonResponse)
    ensures
        r.restyle == (interaction != ButtonInteraction::Pressed),
        r.next == (if interaction == ButtonInteraction::Pressed && label@ == "3D"@ {
            spec_three_d_view(state)
        } else {
            None
        }),
{
    match interaction {
        ButtonInteraction::Pressed => {
            let next = if same_text(label, "3D") {
                match state {
                    MyAppState::MapMenu => Some(MyAppState::Map3D),
                    MyAppState::OperMenu => Some(MyAppState::Oper3D),
                    _ => None,
                }
            } else {
                None
            };
            ButtonResponse { restyle: false, next }
        },
        _ => ButtonResponse { restyle: true, next: None },
    }
}

/// The back key leads to the main menu from any screen.
pub fn back_main_menu(back_just_pressed: bool) -> (r: Option<MyAppState>)
    ensures
        r == (if back_just_pressed {
            Some(MyAppState::MainMenu)
        } else {
            None
        }),
{
    if back_just_pressed {
        Some(MyAppState::MainMenu)
    } else {
        None
    }
}

pub fn close_on_esc(state: MyAppState, esc_just_pressed: bool) -> (r: EscapeAction)
    ensures
        r == (if !esc_just_pressed {
            EscapeAction::Ignore
        } else if state == MyAppState::MainMenu {
            EscapeAction::CloseFocusedWindows
        } else {
            EscapeAction::ReturnAndExit
        }),
{
    if !esc_just_pressed {
        EscapeAction::Ignore
    } else {
        match state {
            MyAppState::MainMenu => EscapeAction::CloseFocusedWindows,
            _ => EscapeAction::ReturnAndExit,
        }
    }
}

/// The positions, in increasing order, of the first `n` flags that are set.
pub open spec fn set_positions(flags: Seq<bool>, n: nat) -> Seq<usize>
    decreases n,
{
    if n == 0 {
        Seq::empty()
    } else if flags[n - 1] {
        set_positions(flags, (n - 1) as nat).push((n - 1) as usize)
    } else {
        set_positions(flags, (n - 1) as nat)
    }
}

/// Of the windows, given by whether each has the focus, those to close.
pub fn focused_windows(focused: &[bool]) -> (r: Vec<usize>)
    ensures
        r@ == set_positions(focused@, focused@.len()),
{
    let mut r: Vec<usize> = Vec::new();
    let mut i: usize = 0;
    while i < focused.len()
        invariant
            i <= focused@.len(),
            r@ == set_positions(focused@, i as nat),
        decreases focused@.len() - i,
    {
        if focused[i] {
            r.push(i);
        }
        i = i + 1;
    }
    r
}

} // verus!
