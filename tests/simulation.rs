use pong::ai::{ai_direction_y, update_ai_paddles};
use pong::collision::update_ball_collision;
use pong::game::{
    check_game_over, update_player_paddle, AiStrategy, Ball, BorderRestriction, Control, Direction,
    DirectionInverter, Field, Paddle, Speed, SpeedFactor, Transform, Vector3, UNITS_PER_PIXEL,
};
use pong::motion::{move_transform, update_directional_movement, update_paddle_restrictor};
use pong::pong::{
    game_over_outcome, gameover_keyboard, setup_game, Config, FrameInput, Game, GameState,
    GameWinner, Outcome, Pong,
};
use pong::predictor::find_ball_hitpoint;
use pong::text::{game_over_text, update_score};

fn v(x: i64, y: i64, z: i64) -> Vector3 {
    Vector3 { x, y, z }
}

fn ball_at(x: i64, y: i64, dx: i64, dy: i64) -> Ball {
    Ball {
        transform: Transform { translation: v(x, y, 0), scale: v(10, 10, 0) },
        direction: Direction { value: v(dx, dy, 0) },
        speed: Speed(400),
        speed_factor: SpeedFactor { value: 1000 },
    }
}

fn paddle_at(x: i64, y: i64, control: Control, awards_points: bool) -> Paddle {
    Paddle {
        transform: Transform { translation: v(x, y, 0), scale: v(10, 120, 0) },
        direction: Direction { value: v(0, 0, 0) },
        speed: Speed(900),
        border: BorderRestriction { border_offset: 20 },
        inverter: DirectionInverter {
            axis_x: true,
            axis_y: false,
            axis_z: false,
            awards_points,
        },
        control,
    }
}

const AI: Control = Control::AiControlled(AiStrategy::FullPrediction);
const FIELD: Field = Field { width: 800, height: 600 };

fn big_field() -> Field {
    Field { width: 800 * UNITS_PER_PIXEL, height: 600 * UNITS_PER_PIXEL }
}

fn no_keys(elapsed_micros: u32) -> FrameInput {
    FrameInput { elapsed_micros, up_pressed: false, down_pressed: false, restart_pressed: false }
}

#[test]
fn motion_adds_direction_times_speed_times_factor_times_time() {
    let mut t = Transform { translation: v(100, -50, 7), scale: v(10, 10, 0) };
    let d = Direction { value: v(-1, 1, 0) };
    // 400000 units/s, factor 1.0, 16 ms: 6400 units.
    move_transform(&mut t, &d, Speed(400_000), 1000, 16_000);
    assert_eq!(t.translation, v(100 - 6400, -50 + 6400, 7));
    assert_eq!(t.scale, v(10, 10, 0));
    // With factor 1.1 the step is 7040 units.
    let mut t2 = Transform { translation: v(0, 0, 0), scale: v(1, 1, 0) };
    move_transform(&mut t2, &d, Speed(400_000), 1100, 16_000);
    assert_eq!(t2.translation, v(-7040, 7040, 0));
}

#[test]
fn motion_rounds_travel_down_and_saturates() {
    let d = Direction { value: v(1, 0, 0) };
    // 3 units/s for 0.5 s: 1.5 units, rounded down to 1.
    let mut t = Transform { translation: v(0, 0, 0), scale: v(1, 1, 0) };
    move_transform(&mut t, &d, Speed(3), 1000, 500_000);
    assert_eq!(t.translation.x, 1);
    let mut far = Transform { translation: v(i64::MAX - 5, 0, 0), scale: v(1, 1, 0) };
    move_transform(&mut far, &d, Speed(1_000_000), 1000, 1_000_000);
    assert_eq!(far.translation.x, i64::MAX);
}

#[test]
fn movement_moves_ball_with_factor_and_paddles_without() {
    let mut ball = ball_at(0, 0, -1, 1);
    ball.speed = Speed(1000);
    ball.speed_factor = SpeedFactor { value: 2000 };
    let mut player = paddle_at(-370, 0, AI, true);
    player.direction = Direction { value: v(0, 1, 0) };
    let mut opponent = paddle_at(370, 0, AI, false);
    opponent.direction = Direction { value: v(0, -1, 0) };
    update_directional_movement(&mut ball, &mut player, &mut opponent, 500_000);
    assert_eq!(ball.transform.translation, v(-1000, 1000, 0));
    assert_eq!(player.transform.translation, v(-370, 450, 0));
    assert_eq!(opponent.transform.translation, v(370, -450, 0));
}

#[test]
fn restrictor_clamps_paddle_into_field() {
    // Field 600 high, paddle 120 high: centre within [-240, 240].
    let mut p = paddle_at(-370, 500, AI, true);
    update_paddle_restrictor(&mut p, &FIELD);
    assert_eq!(p.transform.translation.y, 240);
    let mut q = paddle_at(-370, -500, AI, true);
    update_paddle_restrictor(&mut q, &FIELD);
    assert_eq!(q.transform.translation.y, -240);
    let mut r = paddle_at(-370, 10, AI, true);
    update_paddle_restrictor(&mut r, &FIELD);
    assert_eq!(r.transform.translation.y, 10);
    // An odd span rounds towards the centre: (601 - 120) / 2 = 240.
    let mut s = paddle_at(-370, 241, AI, true);
    update_paddle_restrictor(&mut s, &Field { width: 800, height: 601 });
    assert_eq!(s.transform.translation.y, 240);
}

#[test]
fn predictor_one_bounce() {
    let y = find_ball_hitpoint(v(0, 0, 0), v(1, 1, 0), 100, -100, -300, 300);
    assert_eq!(y, -100);
}

#[test]
fn predictor_many_bounces_both_ways() {
    assert_eq!(find_ball_hitpoint(v(0, 0, 0), v(1, 1, 0), 10, -10, -100, 100), 0);
    assert_eq!(find_ball_hitpoint(v(0, 0, 0), v(-1, 1, 0), 10, -10, -100, 100), 0);
    assert_eq!(find_ball_hitpoint(v(0, 5, 0), v(1, -1, 0), 10, -10, -100, 100), -5);
}

#[test]
fn predictor_straight_line_without_bounce() {
    assert_eq!(find_ball_hitpoint(v(0, 7, 0), v(1, 0, 0), 100, -100, -300, 300), 7);
    assert_eq!(find_ball_hitpoint(v(0, 0, 0), v(-1, -1, 0), 500, -500, -300, 300), -300);
}

#[test]
fn predictor_stops_when_walls_coincide() {
    // Walls at the same height would bounce forever; tracing allows one.
    assert_eq!(find_ball_hitpoint(v(0, -5, 0), v(1, 1, 0), 0, 0, -100, 100), -95);
}

#[test]
fn predictor_is_idempotent_for_static_ball() {
    let a = find_ball_hitpoint(v(13, -4, 0), v(1, 1, 0), 295, -295, -370, 370);
    let b = find_ball_hitpoint(v(13, -4, 0), v(1, 1, 0), 295, -295, -370, 370);
    assert_eq!(a, b);
    let ball = ball_at(13, -4, 1, 1);
    let mut player = paddle_at(-370, 0, AI, true);
    let mut opponent = paddle_at(370, 0, AI, false);
    update_ai_paddles(&mut player, &mut opponent, &ball, &FIELD);
    let (first_p, first_o) = (player, opponent);
    update_ai_paddles(&mut player, &mut opponent, &ball, &FIELD);
    assert_eq!((player, opponent), (first_p, first_o));
}

const U: i64 = UNITS_PER_PIXEL;

fn big_ball(x: i64, y: i64, dx: i64, dy: i64) -> Ball {
    let mut b = ball_at(x * U, y * U, dx, dy);
    b.transform.scale = v(10 * U, 10 * U, 0);
    b
}

fn big_paddle(x: i64, y: i64, control: Control, awards_points: bool) -> Paddle {
    let mut p = paddle_at(x * U, y * U, control, awards_points);
    p.transform.scale = v(10 * U, 120 * U, 0);
    p
}

#[test]
fn ai_recentres_while_ball_moves_away() {
    let field = big_field();
    let ball = big_ball(0, 0, -1, 1);
    let s = AiStrategy::FullPrediction;
    let (l, r) = (-370 * U, 370 * U);
    assert_eq!(ai_direction_y(s, &big_paddle(370, 200, AI, false).transform, &ball, &field, l, r), -1);
    assert_eq!(ai_direction_y(s, &big_paddle(370, -200, AI, false).transform, &ball, &field, l, r), 1);
    assert_eq!(ai_direction_y(s, &big_paddle(370, 5, AI, false).transform, &ball, &field, l, r), 0);
    // A ball without horizontal motion also sends the paddle to the centre.
    let still = big_ball(0, 250, 0, 1);
    assert_eq!(ai_direction_y(s, &big_paddle(370, 200, AI, false).transform, &still, &field, l, r), -1);
}

#[test]
fn ai_strategies_aim_differently() {
    // Ball heading right and up: it bounces at (295, 295) and arrives at
    // the right plane at height 295 - 75 = 220 (in pixels).
    let field = big_field();
    let ball = big_ball(0, 0, 1, 1);
    let full = AiStrategy::FullPrediction;
    let direct = AiStrategy::DirectTracking;
    let (l, r) = (-370 * U, 370 * U);
    let centre = big_paddle(370, 0, AI, false);
    assert_eq!(ai_direction_y(full, &centre.transform, &ball, &field, l, r), 1);
    assert_eq!(ai_direction_y(direct, &centre.transform, &ball, &field, l, r), 0);
    assert_eq!(ai_direction_y(full, &big_paddle(370, 300, AI, false).transform, &ball, &field, l, r), -1);
    assert_eq!(ai_direction_y(full, &big_paddle(370, 215, AI, false).transform, &ball, &field, l, r), 0);
    assert_eq!(ai_direction_y(direct, &big_paddle(370, -20, AI, false).transform, &ball, &field, l, r), 1);
}

#[test]
fn human_paddle_is_left_alone_by_ai() {
    let field = big_field();
    let ball = big_ball(0, 0, -1, 1);
    let mut player = big_paddle(-370, 200, Control::HumanControlled, true);
    player.direction = Direction { value: v(0, 1, 0) };
    let mut opponent = big_paddle(370, 200, AI, false);
    update_ai_paddles(&mut player, &mut opponent, &ball, &field);
    assert_eq!(player.direction.value.y, 1);
    assert_eq!(opponent.direction.value.y, -1);
}

#[test]
fn player_keys_set_direction() {
    let mut d = Direction { value: v(0, 0, 0) };
    update_player_paddle(&mut d, true, false);
    assert_eq!(d.value.y, 1);
    update_player_paddle(&mut d, false, true);
    assert_eq!(d.value.y, -1);
    update_player_paddle(&mut d, false, false);
    assert_eq!(d.value.y, -1);
    update_player_paddle(&mut d, true, true);
    assert_eq!(d.value.y, 1);
}

#[test]
fn horizontal_inverter_flips_only_x() {
    let mut ball = ball_at(-365, 0, -1, 1);
    ball.direction.value.z = 1;
    let player = paddle_at(-370, 0, AI, true);
    let opponent = paddle_at(370, 0, AI, false);
    let mut game = Game::new();
    update_ball_collision(&mut ball, &player, &opponent, &FIELD, &mut game, 1);
    assert_eq!(ball.direction.value, v(1, 1, 1));
}

#[test]
fn awarding_hit_scores_one_and_speeds_up() {
    let mut ball = ball_at(-365, 0, -1, 1);
    let player = paddle_at(-370, 0, AI, true);
    let opponent = paddle_at(370, 0, AI, false);
    let mut game = Game::new();
    update_ball_collision(&mut ball, &player, &opponent, &FIELD, &mut game, 1);
    assert_eq!(game.score, 1);
    assert_eq!(ball.speed_factor.value, 1100);
    // The opponent's inverter awards nothing but still speeds up.
    let mut back = ball_at(365, 0, 1, 1);
    back.speed_factor = SpeedFactor { value: 1100 };
    update_ball_collision(&mut back, &player, &opponent, &FIELD, &mut game, 1);
    assert_eq!(game.score, 1);
    assert_eq!(back.speed_factor.value, 1210);
    assert_eq!(back.direction.value.x, -1);
}

#[test]
fn widened_ball_hits_from_further_away() {
    let player = paddle_at(-370, 0, AI, true);
    let opponent = paddle_at(370, 0, AI, false);
    let mut game = Game::new();
    // Half-widths 5 + 5: a centre 20 away misses; widened ten times it hits.
    let mut narrow = ball_at(-350, 0, -1, 1);
    update_ball_collision(&mut narrow, &player, &opponent, &FIELD, &mut game, 1);
    assert_eq!(narrow.direction.value.x, -1);
    let mut wide = ball_at(-350, 0, -1, 1);
    update_ball_collision(&mut wide, &player, &opponent, &FIELD, &mut game, 10);
    assert_eq!(wide.direction.value.x, 1);
    assert_eq!(game.score, 1);
    // Touching edges do not count.
    let mut touching = ball_at(-360, 0, -1, 1);
    update_ball_collision(&mut touching, &player, &opponent, &FIELD, &mut game, 1);
    assert_eq!(touching.direction.value.x, -1);
}

#[test]
fn top_wall_flips_vertical_only() {
    // Field 600 high, ball 10 high: the top limit is 295.
    let mut ball = ball_at(0, 296, -1, 1);
    let player = paddle_at(-370, 0, AI, true);
    let opponent = paddle_at(370, 0, AI, false);
    let mut game = Game::new();
    update_ball_collision(&mut ball, &player, &opponent, &FIELD, &mut game, 10);
    assert_eq!(ball.direction.value, v(-1, -1, 0));
    assert_eq!(game.score, 0);
    assert_eq!(ball.speed_factor.value, 1000);
    // At the limit itself nothing happens; the bottom wall flips too.
    let mut at_limit = ball_at(0, 295, -1, 1);
    update_ball_collision(&mut at_limit, &player, &opponent, &FIELD, &mut game, 10);
    assert_eq!(at_limit.direction.value.y, 1);
    let mut below = ball_at(0, -296, 1, -1);
    update_ball_collision(&mut below, &player, &opponent, &FIELD, &mut game, 10);
    assert_eq!(below.direction.value, v(1, 1, 0));
}

#[test]
fn speed_factor_holds_at_the_largest_value() {
    let player = paddle_at(-370, 0, AI, true);
    let opponent = paddle_at(370, 0, AI, false);
    let mut game = Game::new();
    let mut ball = ball_at(-365, 0, -1, 0);
    let mut last = ball.speed_factor.value;
    for _ in 0..1000 {
        ball.transform.translation.x = -365;
        update_ball_collision(&mut ball, &player, &opponent, &FIELD, &mut game, 1);
        assert!(ball.speed_factor.value >= last);
        last = ball.speed_factor.value;
    }
    assert_eq!(ball.speed_factor.value, u64::MAX);
    assert_eq!(game.score, 1000);
}

#[test]
fn ball_past_left_paddle_ends_game_for_player2() {
    let field = big_field();
    let mut world = setup_game(field, Config::standard());
    world.ball.transform.translation = v(-400, 0, 0);
    world.ball.direction = Direction { value: v(-1, 0, 0) };
    world.player.transform.translation = v(-390, 0, 0);
    world.tick(no_keys(16_000));
    assert_eq!(world.state, GameState::GameOver);
    assert_eq!(world.game.winner, GameWinner::Player2);
    assert_eq!(game_over_outcome(&world.game), Outcome::Lost);
}

#[test]
fn check_game_over_sides_and_edge_variant() {
    let player = paddle_at(-390, 0, AI, true);
    let opponent = paddle_at(390, 0, AI, false);
    let mut state = GameState::Playing;
    let mut game = Game::new();
    check_game_over(&ball_at(-385, 0, -1, 0), &player, &opponent, false, &mut state, &mut game);
    assert_eq!(state, GameState::Playing);
    check_game_over(&ball_at(-385, 0, -1, 0), &player, &opponent, true, &mut state, &mut game);
    assert_eq!(state, GameState::Playing);
    check_game_over(&ball_at(-386, 0, -1, 0), &player, &opponent, true, &mut state, &mut game);
    assert_eq!(state, GameState::GameOver);
    assert_eq!(game.winner, GameWinner::Player2);
    let mut state2 = GameState::Playing;
    let mut game2 = Game::new();
    check_game_over(&ball_at(391, 0, 1, 0), &player, &opponent, false, &mut state2, &mut game2);
    assert_eq!((state2, game2.winner), (GameState::GameOver, GameWinner::Player1));
    assert_eq!(game_over_outcome(&game2), Outcome::Won);
    // Once over, the evaluator leaves the record alone.
    check_game_over(&ball_at(-500, 0, 1, 0), &player, &opponent, false, &mut state2, &mut game2);
    assert_eq!(game2.winner, GameWinner::Player1);
}

#[test]
fn fresh_game_starts_playing_with_no_score() {
    let world = setup_game(big_field(), Config::standard());
    assert_eq!(world.game.score, 0);
    assert_eq!(world.game.winner, GameWinner::Nobody);
    assert_eq!(world.state, GameState::Playing);
    assert_eq!(world.player.transform.translation, v(-370 * UNITS_PER_PIXEL, 0, 0));
    assert_eq!(world.opponent.transform.translation, v(370 * UNITS_PER_PIXEL, 0, 0));
    assert_eq!(world.player.transform.scale.y, 120 * UNITS_PER_PIXEL);
    assert_eq!(world.ball.direction.value, v(-1, 1, 0));
    assert_eq!(world.ball.speed_factor.value, 1000);
    assert_eq!(GameWinner::default(), GameWinner::Nobody);
}

#[test]
fn restart_key_returns_to_fresh_game() {
    let mut state = GameState::Playing;
    gameover_keyboard(&mut state, true);
    assert_eq!(state, GameState::Playing);
    let mut over = GameState::GameOver;
    gameover_keyboard(&mut over, false);
    assert_eq!(over, GameState::GameOver);
    gameover_keyboard(&mut over, true);
    assert_eq!(over, GameState::Playing);

    let field = big_field();
    let mut world: Pong = setup_game(field, Config::standard());
    world.state = GameState::GameOver;
    world.game = Game { score: 7, winner: GameWinner::Player1 };
    world.tick(no_keys(16_000));
    assert_eq!(world.state, GameState::GameOver);
    assert_eq!(world.game.score, 7);
    world.tick(FrameInput { restart_pressed: true, ..no_keys(16_000) });
    assert_eq!(world, setup_game(field, Config::standard()));
}

#[test]
fn tick_runs_a_playing_frame() {
    let mut config = Config::standard();
    config.player_control = Control::HumanControlled;
    let mut world = setup_game(big_field(), config);
    world.tick(FrameInput { up_pressed: true, ..no_keys(10_000) });
    // 400000 units/s for 10 ms: 4000 units up and left.
    assert_eq!(world.ball.transform.translation, v(-4000, 4000, 0));
    // The human paddle went up at 900000 units/s: 9000 units.
    assert_eq!(world.player.transform.translation.y, 9000);
    assert_eq!(world.state, GameState::Playing);
}

#[test]
fn score_line_and_game_over_message() {
    let mut game = Game::new();
    assert_eq!(update_score(&game), b"Score: 0".to_vec());
    game.score = 1207;
    assert_eq!(update_score(&game), b"Score: 1207".to_vec());
    game.score = u64::MAX;
    assert_eq!(update_score(&game), format!("Score: {}", u64::MAX).into_bytes());
    let won = Game { score: 3, winner: GameWinner::Player1 };
    assert_eq!(game_over_text(&won), b"You won! Score: 3".to_vec());
    let lost = Game { score: 10, winner: GameWinner::Player2 };
    assert_eq!(game_over_text(&lost), b"You lost! Score: 10".to_vec());
}

#[test]
fn paddles_stay_apart_on_odd_width() {
    // Just over 60 px wide: the paddles stand one unit apart, left before right.
    let world = setup_game(Field { width: 60_001, height: 600 * UNITS_PER_PIXEL }, Config::standard());
    assert_eq!(world.player.transform.translation.x, -1);
    assert_eq!(world.opponent.transform.translation.x, 0);
    assert!(world.player.transform.translation.x < world.opponent.transform.translation.x);
    let odd = setup_game(Field { width: 800_001, height: 600 * UNITS_PER_PIXEL }, Config::standard());
    assert_eq!(odd.player.transform.translation.x, -370_001);
    assert_eq!(odd.opponent.transform.translation.x, 370_000);
}

#[test]
fn field_lower_than_the_ball_still_plays() {
    let field = Field { width: 100_000, height: 5 };
    let mut world = setup_game(field, Config::standard());
    assert_eq!(world.game, Game::new());
    assert_eq!(world.state, GameState::Playing);
    assert_eq!(world.player.transform.translation.x, -20_000);
    assert_eq!(world.opponent.transform.translation.x, 20_000);
    // The ball is taller than the field: it reaches past a wall every frame
    // and its vertical direction flips each time.
    world.tick(no_keys(1_000));
    assert_eq!(world.ball.direction.value.y, -1);
    world.tick(no_keys(1_000));
    assert_eq!(world.ball.direction.value.y, 1);
}
