use autobahx::boundary::ConfigError;
use autobahx::input::Action;
use autobahx::rng::SeededRng;
use autobahx::sim::{ColorTag, Config, GameState, Simulation};
use autobahx::traffic::TrafficCar;

fn new_session() -> Simulation {
    let mut rng = SeededRng::new(1);
    Simulation::new_seeded(Config::default(), &mut rng).unwrap()
}

#[test]
fn new_session_starts_playing_at_bottom_centre() {
    let sim = new_session();
    assert_eq!(sim.state, GameState::Playing);
    assert_eq!(sim.boundary.left, 300);
    assert_eq!(sim.boundary.right, 500);
    assert_eq!(sim.player.pos.x, 385);
    assert_eq!(sim.player.pos.y, 540);
    assert_eq!(sim.player.size.x, 30);
    assert_eq!(sim.player.size.y, 60);
    assert_eq!(sim.traffic.cars.len(), 8);
    assert!(!sim.quit_requested());
}

#[test]
fn invalid_configuration_is_rejected() {
    let bad = Config { lane_count: 0, ..Config::default() };
    assert!(matches!(Simulation::new(bad), Err(ConfigError::InvalidConfiguration)));
    let bad = Config { lane_width: -4, ..Config::default() };
    assert!(matches!(Simulation::new(bad), Err(ConfigError::InvalidConfiguration)));
}

#[test]
fn pause_toggle_freezes_and_resumes() {
    let mut rng = SeededRng::new(3);
    let mut sim = new_session();

    sim.on_key_down(Action::PauseToggle);
    assert_eq!(sim.state, GameState::Paused);

    // while paused, ticks change nothing at all
    let player_before = sim.player;
    let cars_before = sim.traffic.cars.clone();
    sim.tick_seeded(&mut rng);
    sim.tick_seeded(&mut rng);
    assert_eq!(sim.state, GameState::Paused);
    assert_eq!(sim.player, player_before);
    assert_eq!(sim.traffic.cars, cars_before);

    // input keeps being recorded while paused, so unpausing resumes
    sim.on_key_down(Action::MoveRight);
    assert!(sim.input.right);

    // a held pause key is not a second edge
    sim.on_key_down(Action::PauseToggle);
    assert_eq!(sim.state, GameState::Paused);

    // release and press again: a real edge resumes play
    sim.on_key_up(Action::PauseToggle);
    sim.on_key_down(Action::PauseToggle);
    assert_eq!(sim.state, GameState::Playing);
    assert_eq!(sim.player, player_before);
}

#[test]
fn collision_forces_game_over_and_halts() {
    let mut rng = SeededRng::new(5);
    let mut sim = new_session();
    // one car right above the player: lane 2 spans x 380..410, the player
    // spans 385..415; after one scroll step their y ranges overlap too
    sim.traffic.cars = vec![TrafficCar { lane: 2, y: 500 }];
    sim.tick_seeded(&mut rng);
    assert_eq!(sim.state, GameState::GameOver);

    // GameOver is terminal: further ticks are no-ops
    let player_before = sim.player;
    let car_before = sim.traffic.cars[0];
    sim.tick_seeded(&mut rng);
    sim.tick();
    assert_eq!(sim.state, GameState::GameOver);
    assert_eq!(sim.player, player_before);
    assert_eq!(sim.traffic.cars[0], car_before);

    // and a pause toggle no longer moves the state machine
    sim.on_key_down(Action::PauseToggle);
    assert_eq!(sim.state, GameState::GameOver);
}

#[test]
fn clear_road_keeps_playing() {
    let mut rng = SeededRng::new(9);
    let mut sim = new_session();
    // every car far above the stage: no contact for many ticks
    sim.traffic.cars = vec![
        TrafficCar { lane: 0, y: -800 },
        TrafficCar { lane: 2, y: -700 },
        TrafficCar { lane: 4, y: -600 },
    ];
    for _ in 0..100 {
        sim.tick_seeded(&mut rng);
        assert_eq!(sim.state, GameState::Playing);
    }
}

#[test]
fn quit_action_is_reported() {
    let mut sim = new_session();
    sim.on_key_down(Action::Quit);
    assert!(sim.quit_requested());
    assert_eq!(sim.state, GameState::Playing);
}

#[test]
fn render_frame_lists_lines_player_and_cars() {
    let mut sim = new_session();
    sim.traffic.cars = vec![TrafficCar { lane: 3, y: 120 }];
    let frame = sim.render_frame();
    assert_eq!(frame.len(), 4);

    // left line at left-2..left, right line at right..right+2, full height
    assert_eq!(frame[0].rect.pos.x, 298);
    assert_eq!(frame[0].rect.pos.y, 0);
    assert_eq!(frame[0].rect.size.x, 2);
    assert_eq!(frame[0].rect.size.y, 600);
    assert_eq!(frame[1].rect.pos.x, 500);
    assert_eq!(frame[1].rect.size.x, 2);

    assert_eq!(frame[2].rect.pos.x, 385);
    assert_eq!(frame[2].rect.pos.y, 540);

    // the car in lane 3 sits at 300 + 3 * 40 = 420, player-sized
    assert_eq!(frame[3].rect.pos.x, 420);
    assert_eq!(frame[3].rect.pos.y, 120);
    assert_eq!(frame[3].rect.size.x, 30);
    assert_eq!(frame[3].rect.size.y, 60);
    assert!(frame.iter().all(|cmd| cmd.color == ColorTag::White));
}
