//! Game state, the owning container of one game, and the per-frame step.
use vstd::prelude::*;

use crate::ai::{ai_paddles_steered, update_ai_paddles};
use crate::collision::{collided, update_ball_collision};
use crate::game::{
    check_game_over, evaluated, steered_by_keys, update_player_paddle, AiStrategy, Ball,
    BorderRestriction, Control, Direction, DirectionInverter, Field, Paddle, Speed, SpeedFactor,
    Transform, Vector3, SPEED_FACTOR_ONE, UNITS_PER_PIXEL,
};
use crate::motion::{
    travel,
    moved_ball, moved_paddle, restricted, update_directional_movement, update_paddle_restrictor,
};

verus! {

/// Which group of systems runs each frame.
#[derive(Clone, Copy, Debug, PartialEq, Eq, Structural, Hash)]
pub enum GameState {
    Playing,
    GameOver,
}

/// Who won the last game, if it has ended.
#[derive(Clone, Copy, Debug, PartialEq, Eq, Structural, Hash)]
pub enum GameWinner {
    Nobody,
    Player1,
    Player2,
}

impl Default for GameWinner {
    fn default() -> (r: GameWinner)
        ensures
            r == GameWinner::Nobody,
    {
        GameWinner::Nobody
    }
}

/// The score and the outcome of the current game.
#[derive(Clone, Copy, Debug, PartialEq, Eq, Structural)]
pub struct Game {
    pub score: u64,
    pub winner: GameWinner,
}

impl Game {
    /// A game with no points and no winner.
    pub fn new() -> (r: Game)
        ensures
            r.score == 0,
            r.winner == GameWinner::Nobody,
    {
        Game { score: 0, winner: GameWinner::Nobody }
    }
}


/// Returns to playing from a finished game when the restart key is pressed;
/// in any other case the state stays.
pub fn gameover_keyboard(state: &mut GameState, restart_pressed: bool)
    ensures
        *final(state) == (if restart_pressed && *old(state) == GameState::GameOver {
            GameState::Playing
        } else {
            *old(state)
        }),
{
    if restart_pressed {
        match state {
            GameState::GameOver => {
                *state = GameState::Playing;
            },
            GameState::Playing => {},
        }
    }
}

/// How a finished game reads for the human on the left side.
#[derive(Clone, Copy, Debug, PartialEq, Eq, Structural)]
pub enum Outcome {
    Won,
    Lost,
}

/// The left side won when the winner is the first player; any other record
/// reads as lost.
pub fn game_over_outcome(game: &Game) -> (r: Outcome)
    ensures
        r == (if game.winner == GameWinner::Player1 {
            Outcome::Won
        } else {
            Outcome::Lost
        }),
{
    match game.winner {
        GameWinner::Player1 => Outcome::Won,
        _ => Outcome::Lost,
    }
}

/// Choices that differ between variants of the game.
#[derive(Clone, Copy, Debug, PartialEq, Eq, Structural)]
pub struct Config {
    /// What moves the left paddle.
    pub player_control: Control,
    /// What moves the right paddle.
    pub opponent_control: Control,
    /// How many times wider the ball counts when tested against a paddle.
    pub hit_width_factor: u32,
    /// Whether the game ends when the ball's leading edge, rather than its
    /// centre, passes a paddle's plane.
    pub game_over_at_ball_edge: bool,
}

impl Config {
    /// Two predicting AI paddles, a ball ten times wider for paddle hits,
    /// and the game ending on the ball's centre.
    pub fn standard() -> (r: Config)
        ensures
            r.player_control == Control::AiControlled(AiStrategy::FullPrediction),
            r.opponent_control == Control::AiControlled(AiStrategy::FullPrediction),
            r.hit_width_factor == 10,
            !r.game_over_at_ball_edge,
    {
        Config {
            player_control: Control::AiControlled(AiStrategy::FullPrediction),
            opponent_control: Control::AiControlled(AiStrategy::FullPrediction),
            hit_width_factor: 10,
            game_over_at_ball_edge: false,
        }
    }
}

/// The keys and the frame time handed to one simulation step.
#[derive(Clone, Copy, Debug, PartialEq, Eq, Structural)]
pub struct FrameInput {
    /// Time since the previous frame, in microseconds.
    pub elapsed_micros: u32,
    pub up_pressed: bool,
    pub down_pressed: bool,
    pub restart_pressed: bool,
}

/// Everything the simulation reads and writes: the field, the ball, the
/// two paddles, the score and the state.
#[derive(Clone, Copy, Debug, PartialEq, Eq, Structural)]
pub struct Pong {
    pub field: Field,
    pub config: Config,
    pub ball: Ball,
    pub player: Paddle,
    pub opponent: Paddle,
    pub game: Game,
    pub state: GameState,
}

pub const BALL_SIZE: i64 = 10 * UNITS_PER_PIXEL;
pub const BALL_SPEED: u32 = 400 * 1000;
pub const PADDLE_WIDTH: i64 = 10 * UNITS_PER_PIXEL;
pub const PADDLE_SPEED: u32 = 900 * 1000;
pub const PADDLE_INSET: i64 = 30 * UNITS_PER_PIXEL;
pub const PADDLE_BORDER_OFFSET: i64 = 20 * UNITS_PER_PIXEL;
/// A paddle is a fifth of the field's height.
pub const PADDLE_HEIGHT_DIVISOR: i64 = 5;

pub open spec fn vector(x: int, y: int, z: int) -> Vector3 {
    Vector3 { x: x as i64, y: y as i64, z: z as i64 }
}

/// A paddle at rest at height zero, `x` from the centre.
pub open spec fn initial_paddle(field: Field, x: int, control: Control, awards_points: bool) -> Paddle {
    Paddle {
        transform: Transform {
            translation: vector(x, 0, 0),
            scale: vector(PADDLE_WIDTH as int, field.height as int / PADDLE_HEIGHT_DIVISOR as int, 0),
        },
        direction: Direction { value: vector(0, 0, 0) },
        speed: Speed(PADDLE_SPEED),
        border: BorderRestriction { border_offset: PADDLE_BORDER_OFFSET },
        inverter: DirectionInverter {
            axis_x: true,
            axis_y: false,
            axis_z: false,
            awards_points,
        },
        control,
    }
}

/// A fresh game: the ball in the centre heading up and left at speed
/// factor 1.0, the scoring player's paddle on the left and the opponent's on
/// the right, each `PADDLE_INSET` in from its edge of the field (an odd width
/// leaves its extra unit on the left), no points, no winner, playing.
pub open spec fn initial(field: Field, config: Config) -> Pong {
    let left_x = -((field.width as int + 1) / 2 - PADDLE_INSET as int);
    let right_x = field.width as int / 2 - PADDLE_INSET as int;
    Pong {
        field,
        config,
        ball: Ball {
            transform: Transform {
                translation: vector(0, 0, 0),
                scale: vector(BALL_SIZE as int, BALL_SIZE as int, 0),
            },
            direction: Direction { value: vector(-1, 1, 0) },
            speed: Speed(BALL_SPEED),
            speed_factor: SpeedFactor { value: SPEED_FACTOR_ONE },
        },
        player: initial_paddle(field, left_x, config.player_control, true),
        opponent: initial_paddle(field, right_x, config.opponent_control, false),
        game: Game { score: 0, winner: GameWinner::Nobody },
        state: GameState::Playing,
    }
}

impl Pong {
    /// The field is non-empty and every entity fits in it with a direction
    /// of signs.
    pub open spec fn wf(&self) -> bool {
        &&& self.field.wf()
        &&& self.ball.wf(self.field)
        &&& self.player.wf(self.field)
        &&& self.opponent.wf(self.field)
    }
}

/// The world after one frame. While playing: the human paddle reads the
/// keys, the AI paddles choose, the paddles are clamped into the field,
/// everything moves, the ball bounces, and the ball's position is checked.
/// A finished game only waits for the restart key, which starts a fresh one.
pub open spec fn ticked(w: Pong, input: FrameInput) -> Pong {
    match w.state {
        GameState::Playing => {
            let dt = input.elapsed_micros as nat;
            let keyed = match w.player.control {
                Control::HumanControlled => Paddle {
                    direction: steered_by_keys(
                        w.player.direction,
                        input.up_pressed,
                        input.down_pressed,
                    ),
                    ..w.player
                },
                Control::AiControlled(_) => w.player,
            };
            let (steered_p, steered_o) = ai_paddles_steered(keyed, w.opponent, w.ball, w.field);
            let player_moved = moved_paddle(restricted(steered_p, w.field), dt);
            let opponent_moved = moved_paddle(restricted(steered_o, w.field), dt);
            let ball_moved = moved_ball(w.ball, dt);
            let (ball_hit, game_hit) = collided(
                ball_moved,
                player_moved,
                opponent_moved,
                w.field,
                w.game,
                w.config.hit_width_factor as nat,
            );
            let (state_end, game_end) = evaluated(
                GameState::Playing,
                game_hit,
                ball_hit,
                player_moved,
                opponent_moved,
                w.config.game_over_at_ball_edge,
            );
            Pong {
                ball: ball_hit,
                player: player_moved,
                opponent: opponent_moved,
                game: game_end,
                state: state_end,
                ..w
            }
        },
        GameState::GameOver => {
            if input.restart_pressed {
                initial(w.field, w.config)
            } else {
                w
            }
        },
    }
}

fn initial_paddle_exec(field: &Field, x: i64, control: Control, awards_points: bool) -> (r: Paddle)
    requires
        field.wf(),
    ensures
        r == initial_paddle(*field, x as int, control, awards_points),
        r.wf(*field),
{
    Paddle {
        transform: Transform {
            translation: Vector3 { x, y: 0, z: 0 },
            scale: Vector3 { x: PADDLE_WIDTH, y: field.height / PADDLE_HEIGHT_DIVISOR, z: 0 },
        },
        direction: Direction { value: Vector3 { x: 0, y: 0, z: 0 } },
        speed: Speed(PADDLE_SPEED),
        border: BorderRestriction { border_offset: PADDLE_BORDER_OFFSET },
        inverter: DirectionInverter { axis_x: true, axis_y: false, axis_z: false, awards_points },
        control,
    }
}

/// Starts a fresh game on `field`.
pub fn setup_game(field: Field, config: Config) -> (r: Pong)
    requires
        field.wf(),
    ensures
        r == initial(field, config),
        r.wf(),
        r.game.score == 0,
        r.game.winner == GameWinner::Nobody,
        r.state == GameState::Playing,
        r.opponent.transform.translation.x - r.player.transform.translation.x == field.width - 2
            * PADDLE_INSET,
        field.width > 2 * PADDLE_INSET ==> r.player.transform.translation.x
            < r.opponent.transform.translation.x,
{
    let left_x = -((field.width - field.width / 2) - PADDLE_INSET);
    let right_x = field.width / 2 - PADDLE_INSET;
    assert(field.width - field.width / 2 == (field.width + 1) / 2);
    Pong {
        field,
        config,
        ball: Ball {
            transform: Transform {
                translation: Vector3 { x: 0, y: 0, z: 0 },
                scale: Vector3 { x: BALL_SIZE, y: BALL_SIZE, z: 0 },
            },
            direction: Direction { value: Vector3 { x: -1, y: 1, z: 0 } },
            speed: Speed(BALL_SPEED),
            speed_factor: SpeedFactor { value: SPEED_FACTOR_ONE },
        },
        player: initial_paddle_exec(&field, left_x, config.player_control, true),
        opponent: initial_paddle_exec(&field, right_x, config.opponent_control, false),
        game: Game::new(),
        state: GameState::Playing,
    }
}

impl Pong {
    /// Runs one frame of the game.
    pub fn tick(&mut self, input: FrameInput)
        requires
            old(self).wf(),
        ensures
            *final(self) == ticked(*old(self), input),
            final(self).wf(),
    {
        match self.state {
            GameState::Playing => {},
            GameState::GameOver => {
                let mut state = self.state;
                gameover_keyboard(&mut state, input.restart_pressed);
                if state == GameState::Playing {
                    *self = setup_game(self.field, self.config);
                }
                return ;
            },
        }
        if self.player.control == Control::HumanControlled {
            update_player_paddle(&mut self.player.direction, input.up_pressed, input.down_pressed);
        }
        update_ai_paddles(&mut self.player, &mut self.opponent, &self.ball, &self.field);
        update_paddle_restrictor(&mut self.player, &self.field);
        update_paddle_restrictor(&mut self.opponent, &self.field);
        update_directional_movement(
            &mut self.ball,
            &mut self.player,
            &mut self.opponent,
            input.elapsed_micros,
        );
        update_ball_collision(
            &mut self.ball,
            &self.player,
            &self.opponent,
            &self.field,
            &mut self.game,
            self.config.hit_width_factor,
        );
        check_game_over(
            &self.ball,
            &self.player,
            &self.opponent,
            self.config.game_over_at_ball_edge,
            &mut self.state,
            &mut self.game,
        );
    }
}


/// A ball moving left that starts at or beyond the left paddle's plane and
/// covers some distance in a frame is past that plane after the integration
/// step, while the paddle, which moves vertically only, keeps its plane; the
/// game-over evaluation then ends the game with the right side as winner.
pub proof fn lemma_ball_escapes_left(
    ball: Ball,
    player: Paddle,
    opponent: Paddle,
    field: Field,
    g: Game,
    at_edge: bool,
    elapsed: nat,
)
    requires
        player.wf(field),
        ball.wf(field),
        ball.direction.value.x == -1,
        ball.transform.translation.x <= player.transform.translation.x,
        player.transform.translation.x > i64::MIN,
        travel(ball.speed.0 as nat, ball.speed_factor.value as nat, elapsed) > 0,
    ensures
        evaluated(
            GameState::Playing,
            g,
            moved_ball(ball, elapsed),
            moved_paddle(player, elapsed),
            opponent,
            at_edge,
        ) == (GameState::GameOver, Game { winner: GameWinner::Player2, ..g }),
{
}

} // verus!
