use snake_engine::collision::Field;
use snake_engine::game::{Game, GameState};
use snake_engine::grid::{Dir, Position};
use snake_engine::scheduler::{Timer, TURN_DELAY};
use snake_engine::snake::{Ate, Snake};

fn p(x: i32, y: i32) -> Position {
    Position { x, y }
}

#[test]
fn three_frames_to_first_step() {
    let mut t = Timer::new(TURN_DELAY);
    assert_eq!(TURN_DELAY, 800_000);
    assert!(!t.advance(300_000));
    assert_eq!(t.remaining, 500_000);
    assert!(!t.advance(300_000));
    assert_eq!(t.remaining, 200_000);
    assert!(t.advance(300_000));
    assert_eq!(t.remaining, 800_000);
}

#[test]
fn step_is_due_when_countdown_reaches_zero() {
    let mut t = Timer::new(800);
    assert!(!t.advance(799));
    assert!(t.advance(1));
    assert_eq!(t, Timer { delay: 800, remaining: 800 });
}

#[test]
fn oversized_frame_fires_only_once() {
    let mut t = Timer::new(800);
    assert!(t.advance(10_000));
    assert_eq!(t.remaining, 800);
    assert!(!t.advance(1));
    assert_eq!(t.remaining, 799);
}

#[test]
fn new_session() {
    let g = Game::new(Field::standard());
    assert_eq!(g.state, GameState::Playing);
    assert_eq!(g.snake.positions(), vec![p(1, 0), p(0, 0)]);
    assert_eq!(g.score, 0);
    assert_eq!(g.food, p(3, 3));
    assert_eq!(g.timer, Timer { delay: TURN_DELAY, remaining: TURN_DELAY });
}

#[test]
fn tick_moves_only_when_due() {
    let mut g = Game::new(Field::standard());
    assert!(!g.tick(300_000));
    assert!(!g.tick(300_000));
    assert_eq!(g.snake.positions(), vec![p(1, 0), p(0, 0)]);
    assert!(g.tick(300_000));
    assert_eq!(g.snake.positions(), vec![p(2, 0), p(1, 0)]);
    assert_eq!(g.state, GameState::Playing);
}

#[test]
fn leaving_the_field_ends_the_session() {
    let mut g = Game::new(Field::standard());
    for x in 2..=6 {
        assert!(g.tick(TURN_DELAY));
        assert_eq!(g.snake.head_position(), p(x, 0));
        assert_eq!(g.state, GameState::Playing);
    }
    assert!(g.tick(TURN_DELAY));
    assert_eq!(g.snake.head_position(), p(7, 0));
    assert_eq!(g.state, GameState::GameOver);
    // An ended session does not move.
    assert!(!g.tick(TURN_DELAY));
    assert_eq!(g.snake.head_position(), p(7, 0));
}

#[test]
fn four_segments_growing_into_tail() {
    let mut g = Game::new(Field::standard());
    let cells = vec![p(0, 0), p(1, 0), p(1, 1), p(0, 1)];
    g.snake = Snake::from_cells(&cells, Dir::Up);
    g.snake.head.ate = Ate(true);
    // Not yet due: nothing moves and the session goes on.
    assert!(!g.tick(TURN_DELAY - 1));
    assert_eq!(g.state, GameState::Playing);
    // The step that puts the head on the kept tail ends the session.
    assert!(g.tick(1));
    assert_eq!(g.snake.positions(), vec![p(0, 1), p(0, 0), p(1, 0), p(1, 1), p(0, 1)]);
    assert_eq!(g.state, GameState::GameOver);
}

#[test]
fn four_segments_following_tail_survive() {
    let mut g = Game::new(Field::standard());
    let cells = vec![p(0, 0), p(1, 0), p(1, 1), p(0, 1)];
    g.snake = Snake::from_cells(&cells, Dir::Up);
    // The tail leaves its cell in the same step.
    assert!(g.tick(TURN_DELAY));
    assert_eq!(g.snake.positions(), vec![p(0, 1), p(0, 0), p(1, 0), p(1, 1)]);
    assert_eq!(g.state, GameState::Playing);
}

#[test]
fn five_segments_turning_into_body() {
    let mut g = Game::new(Field::standard());
    let cells = vec![p(0, 0), p(0, -1), p(1, -1), p(1, 0), p(1, 1)];
    g.snake = Snake::from_cells(&cells, Dir::Up);
    g.snake.request_direction(Dir::Right);
    assert!(g.tick(TURN_DELAY));
    assert_eq!(g.snake.head_position(), p(1, 0));
    assert_eq!(g.state, GameState::GameOver);
}

#[test]
fn eating_moves_food_and_grows_next_step() {
    let mut g = Game::new(Field::standard());
    g.food = p(1, 0);
    assert!(g.eat(p(-2, 4)));
    assert_eq!(g.food, p(-2, 4));
    assert_eq!(g.score, 1);
    assert_eq!(g.snake.head.ate, Ate(true));
    assert!(!g.eat(p(0, 0)));
    assert_eq!(g.food, p(-2, 4));
    assert_eq!(g.score, 1);
    assert!(g.tick(TURN_DELAY));
    assert_eq!(g.snake.positions(), vec![p(2, 0), p(1, 0), p(0, 0)]);
    assert_eq!(g.snake.head.ate, Ate(false));
}

#[test]
fn score_holds_at_largest_value() {
    let mut g = Game::new(Field::standard());
    g.score = u64::MAX;
    g.food = p(1, 0);
    assert!(g.eat(p(0, 5)));
    assert_eq!(g.score, u64::MAX);
}

#[test]
fn random_food_stays_in_field() {
    let mut g = Game::new(Field::standard());
    let mut xs = Vec::new();
    for _ in 0..200 {
        g.food = g.snake.head_position();
        assert!(g.check_food());
        assert!(g.food.x >= -5 && g.food.x < 6);
        assert!(g.food.y >= -5 && g.food.y < 6);
        xs.push(g.food.x);
    }
    assert!(xs.iter().any(|x| *x != xs[0]));
    assert_eq!(g.score, 200);
}

#[test]
fn food_elsewhere_is_not_eaten() {
    let mut g = Game::new(Field::standard());
    assert!(!g.check_food());
    assert_eq!(g.food, p(3, 3));
    assert_eq!(g.score, 0);
}

#[test]
fn frame_runs_input_tick_and_food() {
    let mut g = Game::new(Field::standard());
    g.food = p(1, 1);
    assert_eq!(g.frame(300_000, false, false, true, false), (false, false));
    assert_eq!(g.snake.head.direction, Dir::Up);
    assert_eq!(g.frame(600_000, false, false, false, false), (true, true));
    assert_eq!(g.snake.positions(), vec![p(1, 1), p(1, 0)]);
    assert_eq!(g.score, 1);
    assert_eq!(g.snake.head.ate, Ate(true));
}

#[test]
fn restart_only_after_game_over() {
    let mut g = Game::new(Field::standard());
    g.score = 4;
    assert!(!g.request_restart());
    assert_eq!(g.score, 4);
    g.state = GameState::GameOver;
    assert!(g.request_restart());
    assert_eq!(g.state, GameState::Playing);
    assert_eq!(g.score, 0);
    assert_eq!(g.snake.positions(), vec![p(1, 0), p(0, 0)]);
    assert_eq!(g.snake.head.direction, Dir::Right);
}

#[test]
fn pause_stops_the_session() {
    let mut g = Game::new(Field::standard());
    g.toggle_pause();
    assert_eq!(g.state, GameState::Paused);
    assert!(!g.tick(TURN_DELAY));
    assert_eq!(g.snake.positions(), vec![p(1, 0), p(0, 0)]);
    assert_eq!(g.frame(TURN_DELAY, false, false, true, false), (false, false));
    assert_eq!(g.snake.head.direction, Dir::Right);
    g.toggle_pause();
    assert_eq!(g.state, GameState::Playing);
    g.state = GameState::GameOver;
    g.toggle_pause();
    assert_eq!(g.state, GameState::GameOver);
}
