use vstd::prelude::*;

verus! {

/// The intersection test that the game screen runs each frame.
#[derive(Clone, Copy, Debug, PartialEq, Eq, Structural, Hash)]
pub enum GameState {
    AabbSweep,
    CircleSweep,
    RayCast,
    AabbCast,
    CircleCast,
}

/// The fixed cyclic order in which the modes are visited.
pub open spec fn mode_order() -> Seq<GameState> {
    seq![
        GameState::AabbSweep,
        GameState::CircleSweep,
        GameState::RayCast,
        GameState::AabbCast,
        GameState::CircleCast,
    ]
}

impl GameState {
    /// Where the mode stands in `mode_order()`.
    pub open spec fn position(self) -> int {
        match self {
            GameState::AabbSweep => 0,
            GameState::CircleSweep => 1,
            GameState::RayCast => 2,
            GameState::AabbCast => 3,
            GameState::CircleCast => 4,
        }
    }

    /// The mode that follows this one in the cycle.
    pub open spec fn spec_next(self) -> GameState {
        mode_order()[(self.position() + 1) % 5]
    }

    pub fn next(self) -> (r: GameState)
        ensures
            r == self.spec_next(),
    {
        match self {
            GameState::AabbSweep => GameState::CircleSweep,
            GameState::CircleSweep => GameState::RayCast,
            GameState::RayCast => GameState::AabbCast,
            GameState::AabbCast => GameState::CircleCast,
            GameState::CircleCast => GameState::AabbSweep,
        }
    }
}

/// The mode reached from `m` after `n` advances.
pub open spec fn advanced(m: GameState, n: nat) -> GameState
    decreases n,
{
    if n == 0 {
        m
    } else {
        advanced(m, (n - 1) as nat).spec_next()
    }
}

proof fn lemma_position_determines_mode(a: GameState, b: GameState)
    ensures
        0 <= a.position() < 5,
        a.position() == b.position() ==> a == b,
        mode_order()[a.position()] == a,
{
}

proof fn lemma_advanced_position(m: GameState, n: nat)
    ensures
        advanced(m, n).position() == (m.position() + n) % 5,
    decreases n,
{
    if n > 0 {
        lemma_advanced_position(m, (n - 1) as nat);
        let p = advanced(m, (n - 1) as nat);
        lemma_position_determines_mode(p, p);
        let k = (p.position() + 1) % 5;
        assert(0 <= k < 5);
        lemma_position_determines_mode(mode_order()[k], mode_order()[k]);
        assert(mode_order()[k].position() == k);
        assert(((m.position() + (n - 1)) % 5 + 1) % 5 == (m.position() + n) % 5) by {
            assert(0 <= m.position() < 5);
        }
    }
}

/// Advancing five times from any mode comes back to it; on the way the modes
/// come in the declared order, starting from `m`, and none comes twice.
pub proof fn lemma_cycle_is_rotation(m: GameState)
    ensures
        advanced(m, 5) == m,
        forall|i: nat| i < 5 ==> #[trigger] advanced(m, i) == mode_order()[(m.position() + i) % 5],
        forall|i: nat, j: nat| i < j < 5 ==> advanced(m, i) != advanced(m, j),
{
    lemma_position_determines_mode(m, m);
    lemma_advanced_position(m, 5);
    lemma_position_determines_mode(advanced(m, 5), m);
    assert forall|i: nat| i < 5 implies #[trigger] advanced(m, i) == mode_order()[(m.position() + i) % 5] by {
        lemma_advanced_position(m, i);
        lemma_position_determines_mode(advanced(m, i), advanced(m, i));
    }
    assert forall|i: nat, j: nat| i < j < 5 implies advanced(m, i) != advanced(m, j) by {
        lemma_advanced_position(m, i);
        lemma_advanced_position(m, j);
    }
}

/// Every mode is met within five advances from any mode: after as many
/// advances as it stands ahead of the starting mode in the declared order.
pub proof fn lemma_cycle_meets_every_mode(m: GameState, g: GameState)
    ensures
        0 <= (g.position() - m.position() + 5) % 5 < 5,
        advanced(m, ((g.position() - m.position() + 5) % 5) as nat) == g,
{
    lemma_position_determines_mode(g, g);
    lemma_position_determines_mode(m, m);
    let i = ((g.position() - m.position() + 5) % 5) as nat;
    lemma_advanced_position(m, i);
    lemma_position_determines_mode(advanced(m, i), g);
}

impl Default for GameState {
    fn default() -> (r: GameState)
        ensures
            r == GameState::RayCast,
    {
        GameState::RayCast
    }
}

/// The mode after one frame of the game screen: one step along the cycle
/// when the advance key went down this frame, the same mode otherwise.
pub fn update_test_state(current: GameState, advance_just_pressed: bool) -> (r: GameState)
    ensures
        r == (if advance_just_pressed {
            current.spec_next()
        } else {
            current
        }),
{
    if advance_just_pressed {
        current.next()
    } else {
        current
    }
}

/// The active mode together with the level of the advance key at the last
/// poll, so that holding the key down advances the mode only once.
#[derive(Clone, Copy, Debug, PartialEq, Eq, Structural)]
pub struct ModeSwitch {
    pub mode: GameState,
    pub key_down: bool,
}

impl ModeSwitch {
    pub fn new(initial: GameState) -> (r: ModeSwitch)
        ensures
            r.mode == initial,
            !r.key_down,
    {
        ModeSwitch { mode: initial, key_down: false }
    }

    /// Takes the key level polled this frame; returns whether the mode
    /// advanced, which it does exactly when the key has just gone down.
    pub fn poll(&mut self, key_down: bool) -> (advanced: bool)
        ensures
            advanced == (key_down && !old(self).key_down),
            final(self).key_down == key_down,
            final(self).mode == (if advanced {
                old(self).mode.spec_next()
            } else {
                old(self).mode
            }),
    {
        let rising = key_down && !self.key_down;
        self.mode = update_test_state(self.mode, rising);
        self.key_down = key_down;
        rising
    }
}

/// The name under which a mode is listed in the summary.
pub open spec fn mode_name(m: GameState) -> Seq<char> {
    match m {
        GameState::AabbSweep => "AabbSweep"@,
        GameState::CircleSweep => "CircleSweep"@,
        GameState::RayCast => "RayCast"@,
        GameState::AabbCast => "AabbCast"@,
        GameState::CircleCast => "CircleCast"@,
    }
}

/// One line of the summary: the mode's name, framed by stars when it is
/// the active one and by blanks otherwise.
pub open spec fn summary_line(m: GameState, current: GameState) -> Seq<char> {
    let mark = if m == current {
        "*"@
    } else {
        " "@
    };
    " "@ + mark + " "@ + mode_name(m) + " "@ + mark + "\n"@
}

/// The lines of the first `n` modes of the cycle.
pub open spec fn summary_lines(current: GameState, n: nat) -> Seq<char>
    decreases n,
{
    if n == 0 {
        Seq::empty()
    } else {
        summary_lines(current, (n - 1) as nat) + summary_line(mode_order()[n - 1], current)
    }
}

/// The text shown on the game screen while `current` is active.
pub open spec fn summary_text(current: GameState) -> Seq<char> {
    "Intersection test:\n"@ + summary_lines(current, 5) + "\npress Space to cycle"@
}

impl GameState {
    pub fn name(&self) -> (r: &'static str)
        ensures
            r@ == mode_name(*self),
    {
        match self {
            GameState::AabbSweep => "AabbSweep",
            GameState::CircleSweep => "CircleSweep",
            GameState::RayCast => "RayCast",
            GameState::AabbCast => "AabbCast",
            GameState::CircleCast => "CircleCast",
        }
    }
}

fn line_text(m: GameState, current: GameState) -> (r: String)
    ensures
        r@ == summary_line(m, current),
{
    let mark = if m == current {
        "*"
    } else {
        " "
    };
    let mut line = String::from_str(" ");
    line.append(mark);
    line.append(" ");
    line.append(m.name());
    line.append(" ");
    line.append(mark);
    line.append("\n");
    line
}

/// The summary of the test modes, the active one marked.
pub fn update_text(current: GameState) -> (r: String)
    ensures
        r@ == summary_text(current),
{
    let order: Vec<GameState> = vec![
        GameState::AabbSweep,
        GameState::CircleSweep,
        GameState::RayCast,
        GameState::AabbCast,
        GameState::CircleCast,
    ];
    assert(order@ =~= mode_order());
    let mut text = String::from_str("Intersection test:\n");
    assert(text@ =~= "Intersection test:\n"@ + summary_lines(current, 0));
    let mut i: usize = 0;
    while i < order.len()
        invariant
            order@ == mode_order(),
            i <= 5,
            text@ == "Intersection test:\n"@ + summary_lines(current, i as nat),
        decreases 5 - i,
    {
        let line = line_text(order[i], current);
        text.append(line.as_str());
        assert(summary_lines(current, (i + 1) as nat) == summary_lines(current, i as nat)
            + summary_line(mode_order()[i as int], current));
        assert(text@ =~= "Intersection test:\n"@ + summary_lines(current, (i + 1) as nat));
        i = i + 1;
    }
    text.append("\npress Space to cycle");
    text
}

} // verus!
