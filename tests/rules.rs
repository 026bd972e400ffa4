use snake_core::{Direction, Food, GameConfig, GameEngine, GameState, Position, Snake};

fn step_from(p: Position, d: Direction, w: i32, h: i32) -> Position {
    let mut snake = Snake::new(p, 1);
    snake.direction = d;
    snake.move_forward(w, h);
    snake.head()
}

#[test]
fn moves_stay_on_board_over_long_walks() {
    let dirs = [Direction::Up, Direction::Left, Direction::Down, Direction::Right];
    for &(w, h) in &[(1, 1), (1, 5), (7, 1), (3, 4), (20, 20)] {
        let mut snake = Snake::new(Position { x: 0, y: 0 }, 1);
        for k in 0..200usize {
            snake.change_direction(dirs[(k / 7) % 4]);
            snake.move_forward(w, h);
            let head = snake.head();
            assert!(head.x >= 0 && head.x < w && head.y >= 0 && head.y < h);
        }
    }
}

#[test]
fn one_step_each_direction_with_wrap_at_every_edge() {
    assert_eq!(step_from(Position { x: 19, y: 4 }, Direction::Right, 20, 20), Position { x: 0, y: 4 });
    assert_eq!(step_from(Position { x: 0, y: 4 }, Direction::Left, 20, 20), Position { x: 19, y: 4 });
    assert_eq!(step_from(Position { x: 4, y: 0 }, Direction::Up, 20, 20), Position { x: 4, y: 19 });
    assert_eq!(step_from(Position { x: 4, y: 19 }, Direction::Down, 20, 20), Position { x: 4, y: 0 });
    assert_eq!(step_from(Position { x: 4, y: 4 }, Direction::Right, 20, 20), Position { x: 5, y: 4 });
    assert_eq!(step_from(Position { x: 4, y: 4 }, Direction::Up, 20, 20), Position { x: 4, y: 3 });
}

#[test]
fn move_from_off_board_cell_lands_on_board() {
    // A head left of the board, as a long first snake can have, re-enters it.
    assert_eq!(step_from(Position { x: -3, y: 2 }, Direction::Up, 10, 10), Position { x: 7, y: 1 });
    assert_eq!(step_from(Position { x: -10, y: 2 }, Direction::Right, 10, 10), Position { x: 1, y: 2 });
    assert_eq!(step_from(Position { x: i32::MAX, y: 0 }, Direction::Right, 7, 3), Position { x: 2, y: 0 });
}

#[test]
fn reversal_is_refused_and_every_other_turn_taken() {
    let all = [Direction::Up, Direction::Down, Direction::Left, Direction::Right];
    for &from in &all {
        for &to in &all {
            let mut snake = Snake::new(Position { x: 5, y: 5 }, 1);
            snake.direction = from;
            snake.change_direction(to);
            let reverse = matches!(
                (from, to),
                (Direction::Up, Direction::Down)
                    | (Direction::Down, Direction::Up)
                    | (Direction::Left, Direction::Right)
                    | (Direction::Right, Direction::Left)
            );
            assert_eq!(snake.direction, if reverse { from } else { to });
        }
    }
}

#[test]
fn length_is_kept_without_growth() {
    let mut snake = Snake::new(Position { x: 5, y: 5 }, 4);
    for _ in 0..30 {
        snake.move_forward(8, 8);
        assert_eq!(snake.length(), 4);
    }
    snake.grow();
    snake.move_forward(8, 8);
    assert_eq!(snake.length(), 5);
    snake.move_forward(8, 8);
    assert_eq!(snake.length(), 5);
}

#[test]
fn new_snake_layout_and_tail() {
    let snake = Snake::new(Position { x: 1, y: 7 }, 4);
    assert_eq!(
        snake.body,
        vec![
            Position { x: 1, y: 7 },
            Position { x: 0, y: 7 },
            Position { x: -1, y: 7 },
            Position { x: -2, y: 7 }
        ]
    );
    assert_eq!(snake.tail(), Position { x: -2, y: 7 });
    assert!(!snake.growing);
    assert!(snake.contains(Position { x: -1, y: 7 }));
    assert!(!snake.contains(Position { x: 2, y: 7 }));
}

#[test]
fn collision_only_when_head_meets_body() {
    let snake = Snake::new(Position { x: 10, y: 10 }, 5);
    assert!(!snake.self_collision());

    let mut snake = Snake::new(Position { x: 10, y: 10 }, 5);
    snake.change_direction(Direction::Down);
    snake.move_forward(20, 20);
    assert!(!snake.self_collision());
    snake.change_direction(Direction::Left);
    snake.move_forward(20, 20);
    assert!(!snake.self_collision());
    snake.change_direction(Direction::Up);
    snake.move_forward(20, 20);
    assert!(snake.self_collision());
}

#[test]
fn moving_onto_the_old_tail_is_no_collision() {
    let mut snake = Snake::new(Position { x: 1, y: 0 }, 4);
    snake.body = vec![
        Position { x: 1, y: 0 },
        Position { x: 1, y: 1 },
        Position { x: 0, y: 1 },
        Position { x: 0, y: 0 },
    ];
    snake.direction = Direction::Left;
    snake.move_forward(5, 5);
    assert_eq!(snake.head(), Position { x: 0, y: 0 });
    assert!(!snake.self_collision());
}

#[test]
fn food_never_lands_on_the_snake() {
    let snake = Snake::new(Position { x: 4, y: 1 }, 4);
    for _ in 0..500 {
        let p = Food::generate_new_position(&snake, 5, 2);
        assert!(!snake.contains(p));
        assert!(p.x >= 0 && p.x < 5 && p.y >= 0 && p.y < 2);
    }
}

#[test]
fn food_finds_the_single_free_cell() {
    let snake = Snake::new(Position { x: 3, y: 0 }, 3);
    for _ in 0..20 {
        assert_eq!(Food::generate_new_position(&snake, 4, 1), Position { x: 0, y: 0 });
    }
}

#[test]
fn full_board_has_no_food_cell() {
    let snake = Snake::new(Position { x: 1, y: 0 }, 2);
    assert_eq!(Food::try_generate_new_position(&snake, 2, 1), None);
    assert_eq!(Food::try_generate_new_position(&snake, 3, 1), Some(Position { x: 2, y: 0 }));
}

#[test]
fn food_eaten_only_by_the_head() {
    let snake = Snake::new(Position { x: 3, y: 3 }, 3);
    assert!(Food::new(Position { x: 3, y: 3 }).is_eaten_by(&snake));
    assert!(!Food::new(Position { x: 2, y: 3 }).is_eaten_by(&snake));
    assert_eq!(Food::new(Position { x: 2, y: 9 }).position(), Position { x: 2, y: 9 });
}

#[test]
fn default_engine_first_tick_moves_right_then_pauses() {
    let mut engine = GameEngine::new(GameConfig::default());
    assert_eq!(engine.snake.head(), Position { x: 10, y: 10 });
    assert_eq!(engine.current_speed(), 200);
    engine.food = Food::new(Position { x: 0, y: 0 });
    engine.update();
    assert_eq!(engine.snake.head(), Position { x: 11, y: 10 });
    assert_eq!(
        engine.snake_body().to_vec(),
        vec![Position { x: 11, y: 10 }, Position { x: 10, y: 10 }, Position { x: 9, y: 10 }]
    );
    engine.toggle_pause();
    assert!(engine.is_paused());
    engine.toggle_pause();
    assert!(engine.is_playing());
}

#[test]
fn eating_scores_grows_and_speeds_up() {
    let mut engine = GameEngine::new(GameConfig::default());
    engine.food = Food::new(Position { x: 11, y: 10 });
    engine.update();
    assert_eq!(engine.stats.score, 10);
    assert_eq!(engine.snake.length(), 3);
    assert!(engine.snake.growing);
    assert_eq!(engine.current_speed(), 190);
    assert!(engine.is_playing());
    let food = engine.food_position();
    assert!(!engine.snake.contains(food));
    assert!(food.x >= 0 && food.x < 20 && food.y >= 0 && food.y < 20);
    engine.food = Food::new(Position { x: 0, y: 0 });
    engine.update();
    assert_eq!(engine.snake.head(), Position { x: 12, y: 10 });
    assert_eq!(engine.snake.length(), 4);
    assert!(!engine.snake.growing);
    assert_eq!(engine.stats.score, 10);
    assert_eq!(engine.current_speed(), 190);
}

#[test]
fn tick_interval_stops_at_fifty() {
    let config = GameConfig { initial_speed: 55, ..GameConfig::default() };
    let mut engine = GameEngine::new(config);
    engine.food = Food::new(Position { x: 11, y: 10 });
    engine.update();
    assert_eq!(engine.current_speed(), 50);

    let config = GameConfig { initial_speed: 60, speed_increment: 100, ..GameConfig::default() };
    let mut engine = GameEngine::new(config);
    engine.food = Food::new(Position { x: 11, y: 10 });
    engine.update();
    assert_eq!(engine.current_speed(), 50);
}

#[test]
fn nothing_moves_while_paused_or_over() {
    let mut engine = GameEngine::new(GameConfig::default());
    engine.toggle_pause();
    engine.change_direction(Direction::Down);
    engine.update();
    assert_eq!(engine.snake.head(), Position { x: 10, y: 10 });
    assert_eq!(engine.snake.direction, Direction::Right);

    engine.state = GameState::GameOver;
    engine.toggle_pause();
    assert!(engine.is_game_over());
    engine.update();
    assert_eq!(engine.snake.head(), Position { x: 10, y: 10 });
}

#[test]
fn running_into_itself_ends_the_run() {
    let config = GameConfig { initial_snake_length: 5, ..GameConfig::default() };
    let mut engine = GameEngine::new(config);
    engine.food = Food::new(Position { x: 0, y: 0 });
    engine.change_direction(Direction::Down);
    engine.update();
    engine.change_direction(Direction::Left);
    engine.update();
    engine.change_direction(Direction::Up);
    engine.update();
    assert!(engine.is_game_over());
    assert_eq!(engine.stats.score, 0);
}

#[test]
fn new_game_folds_scores_into_totals() {
    let mut engine = GameEngine::new(GameConfig::default());
    engine.food = Food::new(Position { x: 11, y: 10 });
    engine.update();
    assert_eq!(engine.stats.score, 10);
    engine.start_new_game();
    assert_eq!(engine.stats.score, 0);
    assert_eq!(engine.stats.high_score, 10);
    assert_eq!(engine.stats.games_played, 1);
    assert_eq!(engine.stats.total_score, 10);
    assert_eq!(engine.current_speed(), 200);
    assert_eq!(engine.snake.head(), Position { x: 10, y: 10 });
    assert!(engine.is_playing());

    engine.start_new_game();
    assert_eq!(engine.stats.high_score, 10);
    assert_eq!(engine.stats.games_played, 2);
    assert_eq!(engine.stats.total_score, 10);
}

#[test]
fn reset_keeps_totals() {
    let mut engine = GameEngine::new(GameConfig::default());
    engine.stats.high_score = 40;
    engine.stats.score = 30;
    engine.state = GameState::GameOver;
    engine.reset();
    assert_eq!(engine.stats.score, 0);
    assert_eq!(engine.stats.high_score, 40);
    assert!(engine.is_playing());
}

#[test]
fn board_without_free_cell_is_over_at_once() {
    let config = GameConfig { board_width: 1, board_height: 1, initial_snake_length: 1, ..GameConfig::default() };
    let engine = GameEngine::new(config);
    assert!(engine.is_game_over());

    let config = GameConfig { board_width: 2, board_height: 1, initial_snake_length: 1, ..GameConfig::default() };
    let mut engine = GameEngine::new(config);
    assert!(engine.is_playing());
    assert_eq!(engine.food_position(), Position { x: 0, y: 0 });
    engine.update();
    assert_eq!(engine.stats.score, 10);
    assert!(engine.is_playing());
    assert_eq!(engine.food_position(), Position { x: 1, y: 0 });
    engine.update();
    assert_eq!(engine.stats.score, 20);
    assert_eq!(engine.snake.length(), 2);
    assert!(engine.is_game_over());
}
