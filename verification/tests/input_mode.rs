use lemurs::input::InputMode;
use lemurs::input::KeyInput;
use lemurs::input::KeyRouting;
use lemurs::input::LoginFormInputMode;
use lemurs::input::RoutedAction;
use lemurs::input::route_key_event;

const ALL_MODES: [InputMode; 4] = [
    InputMode::Normal,
    InputMode::EnvironmentSwitcher,
    InputMode::UsernameField,
    InputMode::PasswordField,
];

fn next_of(mode: InputMode) -> InputMode {
    match mode {
        InputMode::Normal => InputMode::EnvironmentSwitcher,
        InputMode::EnvironmentSwitcher => InputMode::UsernameField,
        InputMode::UsernameField => InputMode::PasswordField,
        InputMode::PasswordField => InputMode::PasswordField,
    }
}

fn prev_of(mode: InputMode) -> InputMode {
    match mode {
        InputMode::Normal => InputMode::Normal,
        InputMode::EnvironmentSwitcher => InputMode::Normal,
        InputMode::UsernameField => InputMode::EnvironmentSwitcher,
        InputMode::PasswordField => InputMode::UsernameField,
    }
}

#[test]
fn next_saturates_at_password_field() {
    for start in ALL_MODES {
        let mut mode = start;
        for _ in 0..4 {
            mode.next();
        }
        assert_eq!(mode, InputMode::PasswordField);
        // Once saturated, it stays there.
        mode.next();
        assert_eq!(mode, InputMode::PasswordField);
    }
}

#[test]
fn prev_saturates_at_normal() {
    for start in ALL_MODES {
        let mut mode = start;
        for _ in 0..4 {
            mode.prev();
        }
        assert_eq!(mode, InputMode::Normal);
        mode.prev();
        assert_eq!(mode, InputMode::Normal);
    }
}

#[test]
fn next_and_prev_single_steps() {
    assert_eq!(next_of(InputMode::Normal), InputMode::EnvironmentSwitcher);
    let mut m = InputMode::Normal;
    m.next();
    assert_eq!(m, InputMode::EnvironmentSwitcher);
    m.next();
    assert_eq!(m, InputMode::UsernameField);
    m.next();
    assert_eq!(m, InputMode::PasswordField);
    m.prev();
    assert_eq!(m, InputMode::UsernameField);
    m.prev();
    assert_eq!(m, InputMode::EnvironmentSwitcher);
    m.prev();
    assert_eq!(m, InputMode::Normal);
}

/// Table-driven check over all (state, key) pairs of the routing
/// rules: enter submits from the password field and advances focus
/// elsewhere; down advances; up and back-tab go back; tab goes
/// forward, or back with shift or alt; escape resets non-Normal
/// modes; other keys go to the focused widget and are a no-op in
/// Normal.
#[test]
fn routing_table_matches_specification() {
    for preview in [false, true] {
        for mode in ALL_MODES {
            // Enter
            let expected = if mode == InputMode::PasswordField {
                KeyRouting { mode, action: RoutedAction::Submit }
            } else {
                KeyRouting { mode: next_of(mode), action: RoutedAction::Nothing }
            };
            assert_eq!(route_key_event(KeyInput::Enter, false, false, mode, preview), expected);

            // Down
            assert_eq!(
                route_key_event(KeyInput::Down, false, false, mode, preview),
                KeyRouting { mode: next_of(mode), action: RoutedAction::Nothing }
            );

            // Up and BackTab
            for key in [KeyInput::Up, KeyInput::BackTab] {
                assert_eq!(
                    route_key_event(key, false, false, mode, preview),
                    KeyRouting { mode: prev_of(mode), action: RoutedAction::Nothing }
                );
            }

            // Tab with and without shift/alt
            assert_eq!(
                route_key_event(KeyInput::Tab, false, false, mode, preview),
                KeyRouting { mode: next_of(mode), action: RoutedAction::Nothing }
            );
            for (shift, alt) in [(true, false), (false, true), (true, true)] {
                assert_eq!(
                    route_key_event(KeyInput::Tab, shift, alt, mode, preview),
                    KeyRouting { mode: prev_of(mode), action: RoutedAction::Nothing }
                );
            }

            // Other keys go to the widget of the active mode.
            let expected = if mode == InputMode::Normal {
                KeyRouting { mode, action: RoutedAction::Nothing }
            } else {
                KeyRouting { mode, action: RoutedAction::ForwardToWidget }
            };
            assert_eq!(route_key_event(KeyInput::Other, false, false, mode, preview), expected);
        }
    }
}

#[test]
fn escape_in_preview_normal_emits_exactly_one_stop() {
    let r = route_key_event(KeyInput::Escape, false, false, InputMode::Normal, true);
    assert_eq!(r, KeyRouting { mode: InputMode::Normal, action: RoutedAction::EmitStop });
}

#[test]
fn escape_outside_normal_emits_no_stop_and_resets_mode() {
    for preview in [false, true] {
        for mode in [
            InputMode::EnvironmentSwitcher,
            InputMode::UsernameField,
            InputMode::PasswordField,
        ] {
            let r = route_key_event(KeyInput::Escape, false, false, mode, preview);
            assert_eq!(r, KeyRouting { mode: InputMode::Normal, action: RoutedAction::Nothing });
        }
    }
}

#[test]
fn escape_in_normal_without_preview_does_nothing() {
    let r = route_key_event(KeyInput::Escape, false, false, InputMode::Normal, false);
    assert_eq!(r, KeyRouting { mode: InputMode::Normal, action: RoutedAction::Nothing });
}

#[test]
fn input_mode_holder_tracks_mode() {
    let mut holder = LoginFormInputMode::new(InputMode::Normal);
    assert_eq!(holder.get(), InputMode::Normal);
    holder.next();
    assert_eq!(holder.get(), InputMode::EnvironmentSwitcher);
    holder.set(InputMode::PasswordField);
    assert_eq!(holder.get(), InputMode::PasswordField);
    holder.prev();
    assert_eq!(holder.get(), InputMode::UsernameField);
}
