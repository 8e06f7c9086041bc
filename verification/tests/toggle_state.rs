use lenzu::toggle_state::{
    classify, is_toggle_key, CaptureStateMachine, InputEvent, ToggleState, KEY_DOWN_MESSAGE,
    LEFT_BUTTON_UP_MESSAGE, QUIT_KEY, TOGGLE_KEY,
};

const ALL_STATES: [ToggleState; 4] =
    [ToggleState::Free, ToggleState::MoveWindow, ToggleState::Capturing, ToggleState::Frozen];

#[test]
fn toggle_walks_the_cycle() {
    let mut state = ToggleState::new();
    assert_eq!(state, ToggleState::Free);
    state = state.on_input(InputEvent::Toggle);
    assert_eq!(state, ToggleState::MoveWindow);
    state = state.on_input(InputEvent::Toggle);
    assert_eq!(state, ToggleState::Capturing);
    state = state.on_input(InputEvent::Toggle);
    assert_eq!(state, ToggleState::Frozen);
    state = state.on_input(InputEvent::Toggle);
    assert_eq!(state, ToggleState::Free);
}

#[test]
fn toggle_always_changes_the_state() {
    for state in ALL_STATES {
        assert_ne!(state.on_input(InputEvent::Toggle), state);
        assert_eq!(state.on_input(InputEvent::Toggle), state.next());
    }
}

#[test]
fn other_inputs_change_nothing() {
    for state in ALL_STATES {
        assert_eq!(state.on_input(InputEvent::Other), state);
        assert_eq!(state.on_input(InputEvent::Quit), state);
    }
}

#[test]
fn capture_settles_into_frozen() {
    assert_eq!(ToggleState::Capturing.settle(), ToggleState::Frozen);
    assert_eq!(ToggleState::Free.settle(), ToggleState::Free);
    assert_eq!(ToggleState::MoveWindow.settle(), ToggleState::MoveWindow);
    assert_eq!(ToggleState::Frozen.settle(), ToggleState::Frozen);
}

#[test]
fn machine_freezes_after_a_capture_whatever_came_of_it() {
    for recognized in [true, false] {
        let mut machine = CaptureStateMachine::new();
        assert_eq!(machine.state(), ToggleState::Free);
        machine.handle_input(InputEvent::Toggle);
        machine.finish_tick(recognized);
        assert_eq!(machine.state(), ToggleState::MoveWindow);
        machine.handle_input(InputEvent::Other);
        assert_eq!(machine.state(), ToggleState::MoveWindow);
        machine.handle_input(InputEvent::Toggle);
        assert_eq!(machine.state(), ToggleState::Capturing);
        machine.finish_tick(recognized);
        assert_eq!(machine.state(), ToggleState::Frozen);
        machine.finish_tick(recognized);
        assert_eq!(machine.state(), ToggleState::Frozen);
        machine.handle_input(InputEvent::Toggle);
        assert_eq!(machine.state(), ToggleState::Free);
    }
}

#[test]
fn messages_are_read_as_inputs() {
    assert_eq!(classify(KEY_DOWN_MESSAGE, TOGGLE_KEY), InputEvent::Toggle);
    assert_eq!(classify(KEY_DOWN_MESSAGE, QUIT_KEY), InputEvent::Quit);
    assert_eq!(classify(KEY_DOWN_MESSAGE, 0x41), InputEvent::Other);
    assert_eq!(classify(LEFT_BUTTON_UP_MESSAGE, 0), InputEvent::Toggle);
    assert_eq!(classify(LEFT_BUTTON_UP_MESSAGE, QUIT_KEY), InputEvent::Toggle);
    assert_eq!(classify(0x0200, TOGGLE_KEY), InputEvent::Other);
    assert_eq!(classify(0x0101, TOGGLE_KEY), InputEvent::Other);
    assert_eq!(KEY_DOWN_MESSAGE, 0x0100);
    assert_eq!(LEFT_BUTTON_UP_MESSAGE, 0x0202);
    assert_eq!(TOGGLE_KEY, 0x20);
    assert_eq!(QUIT_KEY, 0x1B);
}

#[test]
fn only_the_space_bar_is_the_toggle_key() {
    assert!(is_toggle_key(0x20));
    assert!(!is_toggle_key(0x1B));
    assert!(!is_toggle_key(0));
    assert!(!is_toggle_key(-0x20));
}
