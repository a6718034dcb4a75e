use autobahx::input::{Action, InputState};

#[test]
fn unobserved_action_counts_as_released() {
    let input = InputState::new();
    assert!(!input.is_pressed(Action::MoveLeft));
    assert!(!input.is_pressed(Action::MoveRight));
    assert!(!input.is_pressed(Action::MoveUp));
    assert!(!input.is_pressed(Action::MoveDown));
    assert!(!input.is_pressed(Action::PauseToggle));
    assert!(!input.is_pressed(Action::Quit));
}

#[test]
fn last_write_wins_per_action() {
    let mut input = InputState::new();
    input.set(Action::MoveLeft, true);
    assert!(input.is_pressed(Action::MoveLeft));
    input.set(Action::MoveLeft, false);
    assert!(!input.is_pressed(Action::MoveLeft));
    input.set(Action::MoveLeft, true);
    assert!(input.is_pressed(Action::MoveLeft));
}

#[test]
fn actions_are_independent() {
    let mut input = InputState::new();
    input.set(Action::MoveRight, true);
    input.set(Action::MoveUp, true);
    assert!(input.is_pressed(Action::MoveRight));
    assert!(input.is_pressed(Action::MoveUp));
    assert!(!input.is_pressed(Action::MoveLeft));
    input.set(Action::MoveUp, false);
    assert!(input.is_pressed(Action::MoveRight));
}
