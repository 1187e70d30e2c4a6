use clockwork::input::{InputState, Keyboard};

#[test]
fn test_check_fresh() {
    let input_state = InputState::new();
    assert!(!input_state.check_pressed(Keyboard::A));
    assert!(input_state.check_released(Keyboard::A));
}

#[test]
fn test_check_when_pressed() {
    let mut input_state = InputState::new();
    input_state.signal_press_of(Keyboard::A);
    assert!(input_state.check_pressed(Keyboard::A));
    assert!(!input_state.check_released(Keyboard::A));
}

#[test]
fn test_check_when_released() {
    let mut input_state = InputState::new();
    input_state.signal_press_of(Keyboard::A);
    input_state.signal_release_of(Keyboard::A);
    assert!(!input_state.check_pressed(Keyboard::A));
    assert!(input_state.check_released(Keyboard::A));
}
