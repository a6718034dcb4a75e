//! The per-tick orchestrator: resolves input into player movement, advances
//! the traffic, runs collision detection and drives the game-state machine,
//! and produces the rectangles a renderer should draw.

use vstd::prelude::*;

use crate::boundary::Boundary;
use crate::boundary::ConfigError;
use crate::boundary::spec_half_corridor;
use crate::boundary::spec_left;
use crate::boundary::spec_right;
use crate::geometry::Rect;
use crate::geometry::Vector2i;
use crate::geometry::check_collision;
use crate::geometry::rects_overlap;
use crate::input::Action;
use crate::input::InputState;
use crate::player::Player;
use crate::player::spec_clamp;
use crate::rng::SeededRng;
use crate::traffic::TrafficField;
use crate::traffic::car_fresh;

verus! {

/// The session state machine.  `GameOver` is terminal: no further ticks
/// advance anything.
#[derive(Clone, Copy, PartialEq, Eq, Structural, Debug)]
pub enum GameState {
    Paused,
    Playing,
    GameOver,
}

/// What a pause-toggle edge does to the state machine: it flips Playing and
/// Paused and leaves the terminal state alone.
pub open spec fn spec_toggle_pause(s: GameState) -> GameState {
    match s {
        GameState::Playing => GameState::Paused,
        GameState::Paused => GameState::Playing,
        GameState::GameOver => GameState::GameOver,
    }
}

/// Law: toggling pause twice returns any state to itself, one toggle flips
/// Playing and Paused, and the terminal state never leaves.
pub proof fn lemma_pause_toggle(s: GameState)
    ensures
        spec_toggle_pause(GameState::Playing) == GameState::Paused,
        spec_toggle_pause(GameState::Paused) == GameState::Playing,
        spec_toggle_pause(GameState::GameOver) == GameState::GameOver,
        spec_toggle_pause(spec_toggle_pause(s)) == s,
{
}

/// The session configuration, fixed when the session starts.
#[derive(Clone, Copy, PartialEq, Eq, Structural, Debug)]
pub struct Config {
    pub stage_width: i32,
    pub stage_height: i32,
    pub lane_count: i32,
    pub lane_width: i32,
    pub player_size: Vector2i,
    pub x_speed: i32,
    pub y_speed: i32,
    pub scroll_speed: i32,
    pub pool_size: usize,
}

/// The configuration of the reference session: an 800 by 600 stage, five
/// 40-wide lanes, a 30 by 60 player, all speeds 2, eight traffic cars.
pub open spec fn spec_default_config() -> Config {
    Config {
        stage_width: 800,
        stage_height: 600,
        lane_count: 5,
        lane_width: 40,
        player_size: Vector2i { x: 30, y: 60 },
        x_speed: 2,
        y_speed: 2,
        scroll_speed: 2,
        pool_size: 8,
    }
}

impl Config {
    /// A sound configuration: positive dimensions small enough for the
    /// geometry to stay inside `i32`, and a player that fits the corridor
    /// and the stage.
    pub open spec fn valid(self) -> bool {
        &&& 0 < self.stage_width <= 500_000
        &&& 0 < self.stage_height <= 500_000
        &&& 0 < self.lane_count <= 1000
        &&& 0 < self.lane_width <= 500
        &&& 0 < self.player_size.x <= 2 * spec_half_corridor(
            self.lane_count as int,
            self.lane_width as int,
        )
        &&& 0 < self.player_size.y <= self.stage_height
        &&& 0 < self.x_speed <= 0x10_0000
        &&& 0 < self.y_speed <= 0x10_0000
        &&& 0 < self.scroll_speed <= 0x10_0000
    }

    /// The executable validity test.
    pub fn is_valid(&self) -> (r: bool)
        ensures
            r == self.valid(),
    {
        if !(0 < self.stage_width && self.stage_width <= 500_000) {
            return false;
        }
        if !(0 < self.stage_height && self.stage_height <= 500_000) {
            return false;
        }
        if !(0 < self.lane_count && self.lane_count <= 1000) {
            return false;
        }
        if !(0 < self.lane_width && self.lane_width <= 500) {
            return false;
        }
        assert(0 <= self.lane_count * self.lane_width <= 500_000) by (nonlinear_arith)
            requires
                0 < self.lane_count <= 1000,
                0 < self.lane_width <= 500,
        ;
        let half: i32 = (self.lane_count * self.lane_width) / 2;
        if !(0 < self.player_size.x && self.player_size.x <= 2 * half) {
            return false;
        }
        if !(0 < self.player_size.y && self.player_size.y <= self.stage_height) {
            return false;
        }
        if !(0 < self.x_speed && self.x_speed <= 0x10_0000) {
            return false;
        }
        if !(0 < self.y_speed && self.y_speed <= 0x10_0000) {
            return false;
        }
        if !(0 < self.scroll_speed && self.scroll_speed <= 0x10_0000) {
            return false;
        }
        true
    }
}

impl Default for Config {
    /// The configuration of the reference session.
    fn default() -> (c: Config)
        ensures
            c == spec_default_config(),
            c.valid(),
    {
        Config {
            stage_width: 800,
            stage_height: 600,
            lane_count: 5,
            lane_width: 40,
            player_size: Vector2i { x: 30, y: 60 },
            x_speed: 2,
            y_speed: 2,
            scroll_speed: 2,
            pool_size: 8,
        }
    }
}

/// A colour tag for the renderer: the stage is cleared black and every box
/// is drawn white.
#[derive(Clone, Copy, PartialEq, Eq, Structural, Debug)]
pub enum ColorTag {
    Black,
    White,
}

/// One box for the renderer to draw.
#[derive(Clone, Copy, PartialEq, Eq, Structural, Debug)]
pub struct DrawCmd {
    pub rect: Rect,
    pub color: ColorTag,
}

/// One session: the orchestrator owns the input snapshot, the player, the
/// traffic pool and the state machine.
#[derive(Debug)]
pub struct Simulation {
    pub config: Config,
    pub boundary: Boundary,
    pub state: GameState,
    pub input: InputState,
    pub player: Player,
    pub traffic: TrafficField,
}

impl Simulation {
    /// Session well-formedness: the configuration is valid, the corridor is
    /// the one derived from it, the player fits and sits inside it, and the
    /// traffic pool matches the stage parameters.
    pub open spec fn wf(self) -> bool {
        &&& self.config.valid()
        &&& self.boundary.left == spec_left(
            self.config.stage_width as int,
            self.config.lane_count as int,
            self.config.lane_width as int,
        )
        &&& self.boundary.right == spec_right(
            self.config.stage_width as int,
            self.config.lane_count as int,
            self.config.lane_width as int,
        )
        &&& self.player.size == self.config.player_size
        &&& self.player.fits(self.boundary, self.config.stage_height as int)
        &&& self.player.in_bounds(self.boundary, self.config.stage_height as int)
        &&& self.traffic.wf()
        &&& self.traffic.lane_count == self.config.lane_count
        &&& self.traffic.stage_height == self.config.stage_height
        &&& self.traffic.scroll_speed == self.config.scroll_speed
    }

    /// The box one traffic car occupies in this session.
    pub open spec fn spec_car_rect_at(self, i: int) -> Rect {
        self.traffic.spec_car_rect(
            self.traffic.cars@[i],
            self.boundary,
            self.config.lane_width as int,
            self.config.player_size,
        )
    }

    /// Some traffic car overlaps the player.
    pub open spec fn spec_collided(self) -> bool {
        exists|i: int|
            0 <= i < self.traffic.cars@.len() && rects_overlap(
                self.player.spec_rect(),
                self.spec_car_rect_at(i),
            )
    }

    /// Builds a session: the corridor derived from the configuration, the
    /// state machine at Playing, nothing pressed, the player at the bottom
    /// centre of the corridor, and a freshly drawn traffic pool.  Fails with
    /// `InvalidConfiguration` exactly when the configuration is not valid.
    pub fn new(config: Config) -> (r: Result<Simulation, ConfigError>)
        ensures
            r is Ok <==> config.valid(),
            r is Err ==> r->Err_0 == ConfigError::InvalidConfiguration,
            r is Ok ==> r->Ok_0.wf(),
            r is Ok ==> r->Ok_0.config == config,
            r is Ok ==> r->Ok_0.state == GameState::Playing,
            r is Ok ==> forall|a: Action| !r->Ok_0.input.spec_is_pressed(a),
            r is Ok ==> r->Ok_0.player.pos.x == spec_clamp(
                config.stage_width as int / 2 - config.player_size.x as int / 2,
                r->Ok_0.boundary.left as int,
                r->Ok_0.boundary.right - config.player_size.x,
            ),
            r is Ok ==> r->Ok_0.player.pos.y == config.stage_height - config.player_size.y,
            r is Ok ==> r->Ok_0.traffic.cars@.len() == config.pool_size,
            r is Ok ==> forall|i: int|
                0 <= i < config.pool_size ==> car_fresh(
                    config.lane_count as int,
                    r->Ok_0.traffic.cars@[i],
                ),
    {
        if !config.is_valid() {
            return Err(ConfigError::InvalidConfiguration);
        }
        let b = match Boundary::compute(config.stage_width, config.lane_count, config.lane_width) {
            Ok(b) => b,
            Err(e) => {
                return Err(e);
            },
        };
        proof {
            lemma_corridor_bounds(config, b);
        }
        let mut start_x: i32 = config.stage_width / 2 - config.player_size.x / 2;
        if start_x < b.left {
            start_x = b.left;
        } else if start_x > b.right - config.player_size.x {
            start_x = b.right - config.player_size.x;
        }
        let player = Player {
            pos: Vector2i { x: start_x, y: config.stage_height - config.player_size.y },
            size: config.player_size,
        };
        let traffic = TrafficField::new(
            config.pool_size,
            config.lane_count,
            config.stage_height,
            config.scroll_speed,
        );
        Ok(
            Simulation {
                config,
                boundary: b,
                state: GameState::Playing,
                input: InputState::new(),
                player,
                traffic,
            },
        )
    }

    /// As `new`, drawing the traffic pool from a seedable generator for
    /// deterministic sessions.
    pub fn new_seeded(config: Config, rng: &mut SeededRng) -> (r: Result<Simulation, ConfigError>)
        requires
            old(rng).wf(),
        ensures
            final(rng).wf(),
            r is Ok <==> config.valid(),
            r is Err ==> r->Err_0 == ConfigError::InvalidConfiguration,
            r is Ok ==> r->Ok_0.wf(),
            r is Ok ==> r->Ok_0.config == config,
            r is Ok ==> r->Ok_0.state == GameState::Playing,
            r is Ok ==> forall|a: Action| !r->Ok_0.input.spec_is_pressed(a),
            r is Ok ==> r->Ok_0.player.pos.x == spec_clamp(
                config.stage_width as int / 2 - config.player_size.x as int / 2,
                r->Ok_0.boundary.left as int,
                r->Ok_0.boundary.right - config.player_size.x,
            ),
            r is Ok ==> r->Ok_0.player.pos.y == config.stage_height - config.player_size.y,
            r is Ok ==> r->Ok_0.traffic.cars@.len() == config.pool_size,
            r is Ok ==> forall|i: int|
                0 <= i < config.pool_size ==> car_fresh(
                    config.lane_count as int,
                    r->Ok_0.traffic.cars@[i],
                ),
    {
        if !config.is_valid() {
            return Err(ConfigError::InvalidConfiguration);
        }
        let b = match Boundary::compute(config.stage_width, config.lane_count, config.lane_width) {
            Ok(b) => b,
            Err(e) => {
                return Err(e);
            },
        };
        proof {
            lemma_corridor_bounds(config, b);
        }
        let mut start_x: i32 = config.stage_width / 2 - config.player_size.x / 2;
        if start_x < b.left {
            start_x = b.left;
        } else if start_x > b.right - config.player_size.x {
            start_x = b.right - config.player_size.x;
        }
        let player = Player {
            pos: Vector2i { x: start_x, y: config.stage_height - config.player_size.y },
            size: config.player_size,
        };
        let traffic = TrafficField::new_seeded(
            config.pool_size,
            config.lane_count,
            config.stage_height,
            config.scroll_speed,
            rng,
        );
        Ok(
            Simulation {
                config,
                boundary: b,
                state: GameState::Playing,
                input: InputState::new(),
                player,
                traffic,
            },
        )
    }
    /// Records a key-down event for a logical action.  A pause-toggle edge
    /// (the action was not already held) flips Playing and Paused; the
    /// terminal state and everything else are untouched.
    pub fn on_key_down(&mut self, action: Action)
        ensures
            final(self).input == old(self).input.spec_set(action, true),
            final(self).state == (if action == Action::PauseToggle
                && !old(self).input.spec_is_pressed(Action::PauseToggle) {
                spec_toggle_pause(old(self).state)
            } else {
                old(self).state
            }),
            final(self).config == old(self).config,
            final(self).boundary == old(self).boundary,
            final(self).player == old(self).player,
            final(self).traffic == old(self).traffic,
            old(self).wf() ==> final(self).wf(),
    {
        match action {
            Action::PauseToggle => {
                if !self.input.pause {
                    self.state = match self.state {
                        GameState::Playing => GameState::Paused,
                        GameState::Paused => GameState::Playing,
                        GameState::GameOver => GameState::GameOver,
                    };
                }
            },
            _ => {},
        }
        self.input.set(action, true);
    }

    /// Records a key-up event for a logical action.  Releasing a key never
    /// moves the state machine.
    pub fn on_key_up(&mut self, action: Action)
        ensures
            final(self).input == old(self).input.spec_set(action, false),
            final(self).state == old(self).state,
            final(self).config == old(self).config,
            final(self).boundary == old(self).boundary,
            final(self).player == old(self).player,
            final(self).traffic == old(self).traffic,
            old(self).wf() ==> final(self).wf(),
    {
        self.input.set(action, false);
    }

    /// Whether the caller should halt the session loop: the quit action is
    /// held.
    pub fn quit_requested(&self) -> (r: bool)
        ensures
            r == self.input.spec_is_pressed(Action::Quit),
    {
        self.input.is_pressed(Action::Quit)
    }

    /// One simulation tick.  Outside Playing nothing at all happens.  In
    /// Playing, the player advances from the held input, every traffic car
    /// advances, and the state machine moves to GameOver exactly when some
    /// post-advance car overlaps the post-advance player.
    pub fn tick(&mut self)
        requires
            old(self).wf(),
        ensures
            final(self).wf(),
            final(self).config == old(self).config,
            final(self).boundary == old(self).boundary,
            final(self).input == old(self).input,
            old(self).state != GameState::Playing ==> *final(self) == *old(self),
            old(self).state == GameState::Playing ==> old(self).player.spec_advanced(
                final(self).player,
                old(self).input,
                old(self).boundary,
                old(self).config.stage_height as int,
                old(self).config.x_speed as int,
                old(self).config.y_speed as int,
            ),
            old(self).state == GameState::Playing ==> old(self).traffic.spec_advanced(
                final(self).traffic,
            ),
            old(self).state == GameState::Playing ==> final(self).state == (if final(self)
                .spec_collided() {
                GameState::GameOver
            } else {
                GameState::Playing
            }),
    {
        match self.state {
            GameState::Playing => {},
            _ => {
                return ;
            },
        }
        self.player.advance(
            &self.input,
            &self.boundary,
            self.config.stage_height,
            self.config.x_speed,
            self.config.y_speed,
        );
        self.traffic.advance();
        proof {
            lemma_corridor_bounds(self.config, self.boundary);
        }
        let player_rect = Rect { pos: self.player.pos, size: self.player.size };
        let car_rects = self.traffic.car_rects(
            &self.boundary,
            self.config.lane_width,
            self.config.player_size,
        );
        let collided = check_collision(&player_rect, &car_rects);
        if collided {
            self.state = GameState::GameOver;
        }
        proof {
            assert(forall|i: int|
                0 <= i < car_rects@.len() ==> car_rects@[i] == self.spec_car_rect_at(i));
            assert(player_rect == self.player.spec_rect());
            assert(collided == self.spec_collided());
        }
    }

    /// As `tick`, drawing recycled lanes and offsets from a seedable
    /// generator for deterministic sessions.
    pub fn tick_seeded(&mut self, rng: &mut SeededRng)
        requires
            old(self).wf(),
            old(rng).wf(),
        ensures
            final(rng).wf(),
            final(self).wf(),
            final(self).config == old(self).config,
            final(self).boundary == old(self).boundary,
            final(self).input == old(self).input,
            old(self).state != GameState::Playing ==> *final(self) == *old(self),
            old(self).state == GameState::Playing ==> old(self).player.spec_advanced(
                final(self).player,
                old(self).input,
                old(self).boundary,
                old(self).config.stage_height as int,
                old(self).config.x_speed as int,
                old(self).config.y_speed as int,
            ),
            old(self).state == GameState::Playing ==> old(self).traffic.spec_advanced(
                final(self).traffic,
            ),
            old(self).state == GameState::Playing ==> final(self).state == (if final(self)
                .spec_collided() {
                GameState::GameOver
            } else {
                GameState::Playing
            }),
    {
        match self.state {
            GameState::Playing => {},
            _ => {
                return ;
            },
        }
        self.player.advance(
            &self.input,
            &self.boundary,
            self.config.stage_height,
            self.config.x_speed,
            self.config.y_speed,
        );
        self.traffic.advance_seeded(rng);
        proof {
            lemma_corridor_bounds(self.config, self.boundary);
        }
        let player_rect = Rect { pos: self.player.pos, size: self.player.size };
        let car_rects = self.traffic.car_rects(
            &self.boundary,
            self.config.lane_width,
            self.config.player_size,
        );
        let collided = check_collision(&player_rect, &car_rects);
        if collided {
            self.state = GameState::GameOver;
        }
        proof {
            assert(forall|i: int|
                0 <= i < car_rects@.len() ==> car_rects@[i] == self.spec_car_rect_at(i));
            assert(player_rect == self.player.spec_rect());
            assert(collided == self.spec_collided());
        }
    }
    /// The left corridor line: a thin vertical box hugging the corridor
    /// from outside, full stage height.
    pub open spec fn spec_left_line(self) -> Rect {
        Rect {
            pos: Vector2i { x: (self.boundary.left - 2) as i32, y: 0 },
            size: Vector2i { x: 2, y: self.config.stage_height },
        }
    }

    /// The right corridor line.
    pub open spec fn spec_right_line(self) -> Rect {
        Rect {
            pos: Vector2i { x: self.boundary.right, y: 0 },
            size: Vector2i { x: 2, y: self.config.stage_height },
        }
    }

    /// What one frame hands the renderer: the two corridor lines, the
    /// player, then every car in pool order, all drawn white on the black
    /// stage.
    pub fn render_frame(&self) -> (r: Vec<DrawCmd>)
        requires
            self.wf(),
        ensures
            r@.len() == 3 + self.traffic.cars@.len(),
            r@[0] == (DrawCmd { rect: self.spec_left_line(), color: ColorTag::White }),
            r@[1] == (DrawCmd { rect: self.spec_right_line(), color: ColorTag::White }),
            r@[2] == (DrawCmd { rect: self.player.spec_rect(), color: ColorTag::White }),
            forall|i: int|
                0 <= i < self.traffic.cars@.len() ==> r@[3 + i] == (DrawCmd {
                    rect: self.spec_car_rect_at(i),
                    color: ColorTag::White,
                }),
    {
        proof {
            lemma_corridor_bounds(self.config, self.boundary);
        }
        let mut r: Vec<DrawCmd> = Vec::new();
        r.push(
            DrawCmd {
                rect: Rect {
                    pos: Vector2i { x: self.boundary.left - 2, y: 0 },
                    size: Vector2i { x: 2, y: self.config.stage_height },
                },
                color: ColorTag::White,
            },
        );
        r.push(
            DrawCmd {
                rect: Rect {
                    pos: Vector2i { x: self.boundary.right, y: 0 },
                    size: Vector2i { x: 2, y: self.config.stage_height },
                },
                color: ColorTag::White,
            },
        );
        r.push(
            DrawCmd {
                rect: Rect { pos: self.player.pos, size: self.player.size },
                color: ColorTag::White,
            },
        );
        let car_rects = self.traffic.car_rects(
            &self.boundary,
            self.config.lane_width,
            self.config.player_size,
        );
        let mut idx: usize = 0;
        while idx < car_rects.len()
            invariant
                idx <= car_rects@.len(),
                car_rects@.len() == self.traffic.cars@.len(),
                r@.len() == 3 + idx,
                r@[0] == (DrawCmd { rect: self.spec_left_line(), color: ColorTag::White }),
                r@[1] == (DrawCmd { rect: self.spec_right_line(), color: ColorTag::White }),
                r@[2] == (DrawCmd { rect: self.player.spec_rect(), color: ColorTag::White }),
                forall|i: int|
                    0 <= i < car_rects@.len() ==> car_rects@[i] == self.spec_car_rect_at(i),
                forall|i: int|
                    0 <= i < idx ==> r@[3 + i] == (DrawCmd {
                        rect: self.spec_car_rect_at(i),
                        color: ColorTag::White,
                    }),
            decreases car_rects@.len() - idx,
        {
            r.push(DrawCmd { rect: car_rects[idx], color: ColorTag::White });
            idx = idx + 1;
        }
        r
    }
}

/// The corridor derived from a valid configuration stays inside the
/// geometry's coordinate range and is wide enough for the player.
pub proof fn lemma_corridor_bounds(config: Config, b: Boundary)
    requires
        config.valid(),
        b.left == spec_left(
            config.stage_width as int,
            config.lane_count as int,
            config.lane_width as int,
        ),
        b.right == spec_right(
            config.stage_width as int,
            config.lane_count as int,
            config.lane_width as int,
        ),
    ensures
        -0x10_0000 <= b.left,
        b.right <= 0x10_0000,
        b.left + config.player_size.x <= b.right,
        b.left + config.lane_count * config.lane_width <= 0x10_0000,
        0 <= spec_half_corridor(config.lane_count as int, config.lane_width as int) <= 250_000,
        config.player_size.x <= 500_000,
{
    assert(0 <= config.lane_count as int * config.lane_width as int <= 500_000)
        by (nonlinear_arith)
        requires
            0 < config.lane_count <= 1000,
            0 < config.lane_width <= 500,
    ;
    let total = config.lane_count as int * config.lane_width as int;
    let half = spec_half_corridor(config.lane_count as int, config.lane_width as int);
    assert(half == total / 2);
    assert(0 <= total / 2 <= total && total / 2 <= 250_000) by (nonlinear_arith)
        requires
            0 <= total <= 500_000,
    ;
    assert(0 <= config.stage_width as int / 2 <= 250_000);
}

} // verus!
