use autobahx::boundary::Boundary;
use autobahx::geometry::Vector2i;
use autobahx::input::{Action, InputState};
use autobahx::player::Player;

const STAGE_HEIGHT: i32 = 600;

fn reference_player() -> Player {
    Player { pos: Vector2i { x: 385, y: 540 }, size: Vector2i { x: 30, y: 60 } }
}

fn corridor() -> Boundary {
    Boundary { left: 300, right: 500 }
}

#[test]
fn pressing_right_walks_to_the_edge_and_clamps() {
    // from x = 385 at speed 2, fifty right-pressing ticks hit the clamp at
    // 470 (= 500 - 30); any further ticks stay there
    let mut p = reference_player();
    let mut input = InputState::new();
    input.set(Action::MoveRight, true);
    let b = corridor();
    for _ in 0..50 {
        p.advance(&input, &b, STAGE_HEIGHT, 2, 2);
    }
    assert_eq!(p.pos.x, 470);
    p.advance(&input, &b, STAGE_HEIGHT, 2, 2);
    assert_eq!(p.pos.x, 470);
}

#[test]
fn pressing_left_clamps_at_left_boundary() {
    let mut p = reference_player();
    let mut input = InputState::new();
    input.set(Action::MoveLeft, true);
    let b = corridor();
    for _ in 0..100 {
        p.advance(&input, &b, STAGE_HEIGHT, 2, 2);
    }
    assert_eq!(p.pos.x, 300);
}

#[test]
fn vertical_movement_clamps_to_stage() {
    let mut p = reference_player();
    let mut input = InputState::new();
    input.set(Action::MoveUp, true);
    let b = corridor();
    for _ in 0..400 {
        p.advance(&input, &b, STAGE_HEIGHT, 2, 2);
    }
    assert_eq!(p.pos.y, 0);
    input.set(Action::MoveUp, false);
    input.set(Action::MoveDown, true);
    for _ in 0..400 {
        p.advance(&input, &b, STAGE_HEIGHT, 2, 2);
    }
    assert_eq!(p.pos.y, 540);
}

#[test]
fn right_takes_priority_over_left() {
    let mut p = reference_player();
    let mut input = InputState::new();
    input.set(Action::MoveLeft, true);
    input.set(Action::MoveRight, true);
    p.advance(&input, &corridor(), STAGE_HEIGHT, 2, 2);
    assert_eq!(p.pos.x, 387);
}

#[test]
fn up_takes_priority_over_down() {
    let mut p = reference_player();
    let mut input = InputState::new();
    input.set(Action::MoveUp, true);
    input.set(Action::MoveDown, true);
    p.advance(&input, &corridor(), STAGE_HEIGHT, 2, 2);
    assert_eq!(p.pos.y, 538);
}

#[test]
fn no_input_means_no_motion() {
    let mut p = reference_player();
    let input = InputState::new();
    p.advance(&input, &corridor(), STAGE_HEIGHT, 2, 2);
    assert_eq!(p.pos.x, 385);
    assert_eq!(p.pos.y, 540);
}
