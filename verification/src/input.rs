//! Input-mode state machine: which UI control has focus and how key
//! events route to mode changes, widget input, session submission and
//! termination requests.

use vstd::prelude::*;

verus! {

/// All the different modes for input. Exactly one is active at a time.
#[derive(Clone, Copy, Debug, PartialEq, Eq, Structural)]
pub enum InputMode {
    /// Nothing selected
    Normal,

    /// Using the environment switcher widget
    EnvironmentSwitcher,

    /// Typing within the username input field
    UsernameField,

    /// Typing within the password input field
    PasswordField,
}

/// Successor of an input mode: focus moves one control down and
/// saturates at the password field.
pub open spec fn spec_next(mode: InputMode) -> InputMode {
    match mode {
        InputMode::Normal => InputMode::EnvironmentSwitcher,
        InputMode::EnvironmentSwitcher => InputMode::UsernameField,
        InputMode::UsernameField => InputMode::PasswordField,
        InputMode::PasswordField => InputMode::PasswordField,
    }
}

/// Predecessor of an input mode: focus moves one control up and
/// saturates at `Normal`.
pub open spec fn spec_prev(mode: InputMode) -> InputMode {
    match mode {
        InputMode::Normal => InputMode::Normal,
        InputMode::EnvironmentSwitcher => InputMode::Normal,
        InputMode::UsernameField => InputMode::EnvironmentSwitcher,
        InputMode::PasswordField => InputMode::UsernameField,
    }
}

/// `spec_next` applied `n` times.
pub open spec fn next_n(mode: InputMode, n: nat) -> InputMode
    decreases n,
{
    if n == 0 {
        mode
    } else {
        spec_next(next_n(mode, (n - 1) as nat))
    }
}

/// `spec_prev` applied `n` times.
pub open spec fn prev_n(mode: InputMode, n: nat) -> InputMode
    decreases n,
{
    if n == 0 {
        mode
    } else {
        spec_prev(prev_n(mode, (n - 1) as nat))
    }
}

/// From any mode, `next` saturates at the password field: three or
/// more applications always land on `PasswordField`, which is a fixed
/// point.
pub proof fn lemma_next_saturates(mode: InputMode, n: nat)
    requires
        n >= 3,
    ensures
        next_n(mode, n) == InputMode::PasswordField,
    decreases n,
{
    if n > 3 {
        lemma_next_saturates(mode, (n - 1) as nat);
    } else {
        reveal_with_fuel(next_n, 4);
    }
}

/// From any mode, `prev` saturates at `Normal`: three or more
/// applications always land on `Normal`, which is a fixed point.
pub proof fn lemma_prev_saturates(mode: InputMode, n: nat)
    requires
        n >= 3,
    ensures
        prev_n(mode, n) == InputMode::Normal,
    decreases n,
{
    if n > 3 {
        lemma_prev_saturates(mode, (n - 1) as nat);
    } else {
        reveal_with_fuel(prev_n, 4);
    }
}

impl InputMode {
    /// Move to the next mode.
    pub fn next(&mut self)
        ensures
            *final(self) == spec_next(*old(self)),
    {
        *self = match *self {
            InputMode::Normal => InputMode::EnvironmentSwitcher,
            InputMode::EnvironmentSwitcher => InputMode::UsernameField,
            InputMode::UsernameField => InputMode::PasswordField,
            InputMode::PasswordField => InputMode::PasswordField,
        };
    }

    /// Move to the previous mode.
    pub fn prev(&mut self)
        ensures
            *final(self) == spec_prev(*old(self)),
    {
        *self = match *self {
            InputMode::Normal => InputMode::Normal,
            InputMode::EnvironmentSwitcher => InputMode::Normal,
            InputMode::UsernameField => InputMode::EnvironmentSwitcher,
            InputMode::PasswordField => InputMode::UsernameField,
        };
    }
}

/// Holds the currently active input mode of the login form.
pub struct LoginFormInputMode {
    pub mode: InputMode,
}

impl LoginFormInputMode {
    pub fn new(mode: InputMode) -> (r: Self)
        ensures
            r.mode == mode,
    {
        Self { mode }
    }

    pub fn get(&self) -> (r: InputMode)
        ensures
            r == self.mode,
    {
        self.mode
    }

    pub fn prev(&mut self)
        ensures
            final(self).mode == spec_prev(old(self).mode),
    {
        self.mode.prev()
    }

    pub fn next(&mut self)
        ensures
            final(self).mode == spec_next(old(self).mode),
    {
        self.mode.next()
    }

    pub fn set(&mut self, mode: InputMode)
        ensures
            final(self).mode == mode,
    {
        self.mode = mode;
    }
}

/// A key event as far as routing is concerned. Keys that only the
/// focused widget interprets (characters, backspace, ...) are all
/// `Other`.
#[derive(Clone, Copy, Debug, PartialEq, Eq, Structural)]
pub enum KeyInput {
    Enter,
    Down,
    Up,
    Tab,
    BackTab,
    Escape,
    Other,
}

/// What the input thread must do with a key event, besides adopting
/// the new input mode.
#[derive(Clone, Copy, Debug, PartialEq, Eq, Structural)]
pub enum RoutedAction {
    /// Nothing beyond the mode change.
    Nothing,
    /// Submit the credentials: invoke the session orchestrator.
    Submit,
    /// Push exactly one `Stop` request: terminate the render thread.
    EmitStop,
    /// Hand the key to the widget owned by the active mode.
    ForwardToWidget,
}

/// Outcome of routing one key event.
#[derive(Clone, Copy, Debug, PartialEq, Eq, Structural)]
pub struct KeyRouting {
    /// The input mode after the event.
    pub mode: InputMode,
    pub action: RoutedAction,
}

/// Routing table for key events, given the active mode and whether
/// the form runs in preview mode:
/// - enter in the password field submits; enter or down elsewhere
///   moves focus to the next mode;
/// - up and back-tab move focus to the previous mode; tab moves to
///   the next, or to the previous when shift or alt is held;
/// - escape resets any non-`Normal` mode to `Normal`; in `Normal` it
///   does nothing, except in preview mode, where it requests that
///   drawing stop;
/// - every other key goes to the widget of the active mode, and is a
///   no-op in `Normal`.
pub open spec fn spec_route(
    key: KeyInput,
    shift: bool,
    alt: bool,
    mode: InputMode,
    preview: bool,
) -> KeyRouting {
    match key {
        KeyInput::Enter => {
            if mode == InputMode::PasswordField {
                KeyRouting { mode, action: RoutedAction::Submit }
            } else {
                KeyRouting { mode: spec_next(mode), action: RoutedAction::Nothing }
            }
        },
        KeyInput::Down => KeyRouting { mode: spec_next(mode), action: RoutedAction::Nothing },
        KeyInput::Up => KeyRouting { mode: spec_prev(mode), action: RoutedAction::Nothing },
        KeyInput::BackTab => KeyRouting { mode: spec_prev(mode), action: RoutedAction::Nothing },
        KeyInput::Tab => {
            if shift || alt {
                KeyRouting { mode: spec_prev(mode), action: RoutedAction::Nothing }
            } else {
                KeyRouting { mode: spec_next(mode), action: RoutedAction::Nothing }
            }
        },
        KeyInput::Escape => {
            if mode == InputMode::Normal {
                if preview {
                    KeyRouting { mode, action: RoutedAction::EmitStop }
                } else {
                    KeyRouting { mode, action: RoutedAction::Nothing }
                }
            } else {
                KeyRouting { mode: InputMode::Normal, action: RoutedAction::Nothing }
            }
        },
        KeyInput::Other => {
            if mode == InputMode::Normal {
                KeyRouting { mode, action: RoutedAction::Nothing }
            } else {
                KeyRouting { mode, action: RoutedAction::ForwardToWidget }
            }
        },
    }
}

/// Route one key event. `shift` and `alt` are the modifiers held with
/// the key.
pub fn route_key_event(key: KeyInput, shift: bool, alt: bool, mode: InputMode, preview: bool) -> (r:
    KeyRouting)
    ensures
        r == spec_route(key, shift, alt, mode, preview),
{
    match key {
        KeyInput::Enter => {
            if mode == InputMode::PasswordField {
                KeyRouting { mode, action: RoutedAction::Submit }
            } else {
                let mut m = mode;
                m.next();
                KeyRouting { mode: m, action: RoutedAction::Nothing }
            }
        },
        KeyInput::Down => {
            let mut m = mode;
            m.next();
            KeyRouting { mode: m, action: RoutedAction::Nothing }
        },
        KeyInput::Up | KeyInput::BackTab => {
            let mut m = mode;
            m.prev();
            KeyRouting { mode: m, action: RoutedAction::Nothing }
        },
        KeyInput::Tab => {
            let mut m = mode;
            if shift || alt {
                m.prev();
            } else {
                m.next();
            }
            KeyRouting { mode: m, action: RoutedAction::Nothing }
        },
        KeyInput::Escape => {
            if mode == InputMode::Normal {
                if preview {
                    KeyRouting { mode, action: RoutedAction::EmitStop }
                } else {
                    KeyRouting { mode, action: RoutedAction::Nothing }
                }
            } else {
                KeyRouting { mode: InputMode::Normal, action: RoutedAction::Nothing }
            }
        },
        KeyInput::Other => {
            if mode == InputMode::Normal {
                KeyRouting { mode, action: RoutedAction::Nothing }
            } else {
                KeyRouting { mode, action: RoutedAction::ForwardToWidget }
            }
        },
    }
}

/// Escape in preview mode while in `Normal` emits exactly one `Stop`
/// request; escape in any other mode emits no `Stop` request and
/// returns the mode to `Normal`.
pub proof fn lemma_escape_routing(shift: bool, alt: bool, mode: InputMode, preview: bool)
    ensures
        mode == InputMode::Normal && preview ==> spec_route(KeyInput::Escape, shift, alt, mode, preview)
            == (KeyRouting { mode: InputMode::Normal, action: RoutedAction::EmitStop }),
        mode != InputMode::Normal ==> spec_route(KeyInput::Escape, shift, alt, mode, preview)
            == (KeyRouting { mode: InputMode::Normal, action: RoutedAction::Nothing }),
        mode == InputMode::Normal && !preview ==> spec_route(KeyInput::Escape, shift, alt, mode, preview)
            == (KeyRouting { mode: InputMode::Normal, action: RoutedAction::Nothing }),
{
}

/// `Stop` is requested only by escape: no other key event ever routes
/// to `EmitStop`.
pub proof fn lemma_stop_only_from_escape(
    key: KeyInput,
    shift: bool,
    alt: bool,
    mode: InputMode,
    preview: bool,
)
    ensures
        spec_route(key, shift, alt, mode, preview).action == RoutedAction::EmitStop ==> key
            == KeyInput::Escape && mode == InputMode::Normal && preview,
{
}

} // verus!
