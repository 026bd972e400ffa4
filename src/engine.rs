use crate::food::{has_free_cell, Food};
use crate::grid::{in_board, Direction, Position};
use crate::snake::{
    collides, connected, initial_body, lemma_initial_body_connected, lemma_move_keeps_connected,
    moved_body, Snake,
};
use vstd::prelude::*;

verus! {

/// Points added to the score for each food eaten.
pub const POINTS_PER_FOOD: u32 = 10;

/// The shortest tick interval, in milliseconds, that eating can bring about.
pub const MIN_TICK_MS: u64 = 50;

/// Where a run stands.
#[derive(Debug, Clone, Copy, PartialEq, Eq, Structural)]
pub enum GameState {
    Playing,
    Paused,
    GameOver,
}

/// The settings an engine is built with.
#[derive(Debug, Clone, Copy)]
pub struct GameConfig {
    pub board_width: i32,
    pub board_height: i32,
    pub initial_snake_length: usize,
    /// Milliseconds between two moves at the start of a run.
    pub initial_speed: u64,
    /// Milliseconds taken off the tick interval for each food eaten.
    pub speed_increment: u64,
}

impl GameConfig {
    /// A board of at least one cell, and a first snake of at least one
    /// segment whose cells left of the board's middle have representable
    /// coordinates.
    pub open spec fn valid(&self) -> bool {
        &&& self.board_width > 0
        &&& self.board_height > 0
        &&& self.initial_snake_length >= 1
        &&& self.board_width / 2 - (self.initial_snake_length - 1) >= i32::MIN
    }

    /// The cell in the middle of the board, where each run's head starts.
    pub open spec fn start(&self) -> Position {
        Position { x: (self.board_width / 2) as i32, y: (self.board_height / 2) as i32 }
    }
}

impl Default for GameConfig {
    /// A 20 x 20 board, a snake of 3, 200 ms per move, 10 ms faster per food.
    fn default() -> (r: Self)
        ensures
            r.board_width == 20,
            r.board_height == 20,
            r.initial_snake_length == 3,
            r.initial_speed == 200,
            r.speed_increment == 10,
    {
        GameConfig {
            board_width: 20,
            board_height: 20,
            initial_snake_length: 3,
            initial_speed: 200,
            speed_increment: 10,
        }
    }
}

/// Scores of the current run and over all runs.
#[derive(Debug, Clone, Copy)]
pub struct GameStats {
    pub score: u32,
    pub high_score: u32,
    pub games_played: u32,
    pub total_score: u32,
}

impl Default for GameStats {
    /// All counts at zero.
    fn default() -> (r: Self)
        ensures
            r.score == 0,
            r.high_score == 0,
            r.games_played == 0,
            r.total_score == 0,
    {
        GameStats { score: 0, high_score: 0, games_played: 0, total_score: 0 }
    }
}

/// `a + b`, or the largest `u32` where the sum does not fit.
pub open spec fn add_capped(a: u32, b: u32) -> u32 {
    if a + b > u32::MAX {
        u32::MAX
    } else {
        (a + b) as u32
    }
}

/// The tick interval after eating: `decrement` less, but never below
/// `MIN_TICK_MS`.
pub open spec fn next_speed(speed: u64, decrement: u64) -> u64 {
    if speed - decrement >= MIN_TICK_MS {
        (speed - decrement) as u64
    } else {
        MIN_TICK_MS
    }
}

/// The snake, the food, the run's state, the settings, the scores and the
/// current tick interval.
#[derive(Debug, Clone)]
pub struct GameEngine {
    pub snake: Snake,
    pub food: Food,
    pub state: GameState,
    pub config: GameConfig,
    pub stats: GameStats,
    pub current_speed: u64,
}

impl GameEngine {
    /// Valid settings, a snake with a head whose segments each lie one step
    /// from the next, and, while the run is not over,
    /// food on a cell of the board that the snake does not occupy.
    pub open spec fn wf(&self) -> bool {
        &&& self.config.valid()
        &&& self.snake.wf()
        &&& connected(
            self.snake.body@,
            self.config.board_width as int,
            self.config.board_height as int,
        )
        &&& self.state != GameState::GameOver ==> {
            &&& in_board(
                self.food.position,
                self.config.board_width as int,
                self.config.board_height as int,
            )
            &&& !self.snake.body@.contains(self.food.position)
        }
    }

    /// The state at the start of a run: the first snake in the middle of the
    /// board facing right, the first tick interval, no score, and play under
    /// way unless the snake leaves no cell free for food.
    pub open spec fn starts_run(&self) -> bool {
        &&& self.snake.body@ == initial_body(
            self.config.start(),
            self.config.initial_snake_length as nat,
        )
        &&& self.snake.direction == Direction::Right
        &&& !self.snake.growing
        &&& self.current_speed == self.config.initial_speed
        &&& self.stats.score == 0
        &&& (self.state == GameState::Playing <==> has_free_cell(
            self.snake.body@,
            self.config.board_width as int,
            self.config.board_height as int,
        ))
        &&& (self.state == GameState::Playing || self.state == GameState::GameOver)
    }

    /// Everything but the state is as in `other`.
    pub open spec fn same_run(&self, other: &GameEngine) -> bool {
        &&& self.snake.body@ == other.snake.body@
        &&& self.snake.direction == other.snake.direction
        &&& self.snake.growing == other.snake.growing
        &&& self.food == other.food
        &&& self.config == other.config
        &&& self.stats == other.stats
        &&& self.current_speed == other.current_speed
    }

    /// The snake, food and state that a run starts with.
    fn first_placement(config: &GameConfig) -> (r: (Snake, Food, GameState))
        requires
            config.valid(),
        ensures
            r.0.body@ == initial_body(config.start(), config.initial_snake_length as nat),
            r.0.direction == Direction::Right,
            !r.0.growing,
            r.0.wf(),
            connected(r.0.body@, config.board_width as int, config.board_height as int),
            r.2 == GameState::Playing <==> has_free_cell(
                r.0.body@,
                config.board_width as int,
                config.board_height as int,
            ),
            r.2 == GameState::Playing || r.2 == GameState::GameOver,
            r.2 != GameState::GameOver ==> in_board(
                r.1.position,
                config.board_width as int,
                config.board_height as int,
            ) && !r.0.body@.contains(r.1.position),
    {
        let start_pos = Position { x: config.board_width / 2, y: config.board_height / 2 };
        let snake = Snake::new(start_pos, config.initial_snake_length);
        proof {
            lemma_initial_body_connected(
                start_pos,
                config.initial_snake_length as nat,
                config.board_width as int,
                config.board_height as int,
            );
        }
        match Food::try_generate_new_position(&snake, config.board_width, config.board_height) {
            Some(p) => (snake, Food::new(p), GameState::Playing),
            None => (snake, Food::new(start_pos), GameState::GameOver),
        }
    }

    /// An engine at the start of its first run. Where the first snake covers
    /// the whole board, no food can be placed and the run is over at once.
    pub fn new(config: GameConfig) -> (r: Self)
        requires
            config.valid(),
        ensures
            r.wf(),
            r.config == config,
            r.starts_run(),
            r.stats.high_score == 0,
            r.stats.games_played == 0,
            r.stats.total_score == 0,
    {
        let (snake, food, state) = GameEngine::first_placement(&config);
        GameEngine {
            snake,
            food,
            state,
            config,
            stats: GameStats::default(),
            current_speed: config.initial_speed,
        }
    }

    /// Starts the run again; the scores of earlier runs are kept.
    pub fn reset(&mut self)
        requires
            old(self).wf(),
        ensures
            final(self).wf(),
            final(self).config == old(self).config,
            final(self).starts_run(),
            final(self).stats.high_score == old(self).stats.high_score,
            final(self).stats.games_played == old(self).stats.games_played,
            final(self).stats.total_score == old(self).stats.total_score,
    {
        let (snake, food, state) = GameEngine::first_placement(&self.config);
        self.snake = snake;
        self.food = food;
        self.state = state;
        self.stats.score = 0;
        self.current_speed = self.config.initial_speed;
    }

    /// Counts the finished run into the scores, then starts a new one.
    pub fn start_new_game(&mut self)
        requires
            old(self).wf(),
        ensures
            final(self).wf(),
            final(self).config == old(self).config,
            final(self).starts_run(),
            final(self).stats.games_played == add_capped(old(self).stats.games_played, 1),
            final(self).stats.total_score == add_capped(
                old(self).stats.total_score,
                old(self).stats.score,
            ),
            final(self).stats.high_score == (if old(self).stats.score > old(self).stats.high_score {
                old(self).stats.score
            } else {
                old(self).stats.high_score
            }),
    {
        self.update_stats();
        self.reset();
    }

    /// Turns the snake as `Snake::change_direction` does, while play is under
    /// way; otherwise nothing changes.
    pub fn change_direction(&mut self, direction: Direction)
        requires
            old(self).wf(),
        ensures
            final(self).wf(),
            final(self).state == old(self).state,
            final(self).snake.direction == (if old(self).state == GameState::Playing
                && !old(self).snake.direction.is_opposite(direction) {
                direction
            } else {
                old(self).snake.direction
            }),
            final(self).snake.body@ == old(self).snake.body@,
            final(self).snake.growing == old(self).snake.growing,
            final(self).food == old(self).food,
            final(self).config == old(self).config,
            final(self).stats == old(self).stats,
            final(self).current_speed == old(self).current_speed,
    {
        if matches!(self.state, GameState::Playing) {
            self.snake.change_direction(direction);
        }
    }

    /// Pauses a run under way, or resumes a paused one; a finished run stays
    /// over.
    pub fn toggle_pause(&mut self)
        requires
            old(self).wf(),
        ensures
            final(self).wf(),
            final(self).same_run(old(self)),
            final(self).state == match old(self).state {
                GameState::Playing => GameState::Paused,
                GameState::Paused => GameState::Playing,
                GameState::GameOver => GameState::GameOver,
            },
    {
        match self.state {
            GameState::Playing => self.state = GameState::Paused,
            GameState::Paused => self.state = GameState::Playing,
            GameState::GameOver => (),
        }
    }

    /// One tick. While play is under way: the snake moves; if it runs into
    /// itself the run is over; else if its head reached the food, it grows on
    /// the next move, the score rises by `POINTS_PER_FOOD`, the tick interval
    /// shortens and food is placed again (where no cell is free the run is
    /// over). Otherwise nothing changes.
    pub fn update(&mut self)
        requires
            old(self).wf(),
        ensures
            final(self).wf(),
            old(self).state != GameState::Playing ==> final(self).same_run(old(self))
                && final(self).state == old(self).state,
            old(self).state == GameState::Playing ==> {
                let w = old(self).config.board_width as int;
                let h = old(self).config.board_height as int;
                let body = moved_body(
                    old(self).snake.body@,
                    old(self).snake.direction,
                    old(self).snake.growing,
                    w,
                    h,
                );
                &&& final(self).snake.body@ == body
                &&& final(self).snake.direction == old(self).snake.direction
                &&& final(self).config == old(self).config
                &&& final(self).stats.high_score == old(self).stats.high_score
                &&& final(self).stats.games_played == old(self).stats.games_played
                &&& final(self).stats.total_score == old(self).stats.total_score
                &&& if collides(body) {
                    &&& final(self).state == GameState::GameOver
                    &&& !final(self).snake.growing
                    &&& final(self).food == old(self).food
                    &&& final(self).stats.score == old(self).stats.score
                    &&& final(self).current_speed == old(self).current_speed
                } else if body[0] == old(self).food.position {
                    &&& final(self).snake.growing
                    &&& final(self).stats.score == add_capped(
                        old(self).stats.score,
                        POINTS_PER_FOOD,
                    )
                    &&& final(self).current_speed == next_speed(
                        old(self).current_speed,
                        old(self).config.speed_increment,
                    )
                    &&& (final(self).state == GameState::Playing <==> has_free_cell(body, w, h))
                    &&& (final(self).state == GameState::Playing || final(self).state
                        == GameState::GameOver)
                    &&& final(self).state == GameState::GameOver ==> final(self).food == old(
                        self,
                    ).food
                } else {
                    &&& final(self).state == GameState::Playing
                    &&& !final(self).snake.growing
                    &&& final(self).food == old(self).food
                    &&& final(self).stats.score == old(self).stats.score
                    &&& final(self).current_speed == old(self).current_speed
                }
            },
    {
        if !matches!(self.state, GameState::Playing) {
            return;
        }
        let ghost before = self.snake.body@;
        self.snake.move_forward(self.config.board_width, self.config.board_height);
        proof {
            lemma_move_keeps_connected(
                before,
                old(self).snake.direction,
                old(self).snake.growing,
                self.config.board_width as int,
                self.config.board_height as int,
            );
        }
        if self.snake.self_collision() {
            self.state = GameState::GameOver;
            return;
        }
        if self.food.is_eaten_by(&self.snake) {
            self.snake.grow();
            self.stats.score = self.stats.score.saturating_add(POINTS_PER_FOOD);
            self.increase_speed();
            match Food::try_generate_new_position(
                &self.snake,
                self.config.board_width,
                self.config.board_height,
            ) {
                Some(p) => self.food = Food::new(p),
                None => self.state = GameState::GameOver,
            }
        } else {
            proof {
                let body = self.snake.body@;
                let food = self.food.position;
                assert forall|i: int| 0 <= i < body.len() implies #[trigger] body[i] != food by {
                    if i > 0 {
                        assert(body[i] == before[i - 1]);
                    }
                }
            }
        }
    }

    /// Shortens the tick interval by the configured step, down to
    /// `MIN_TICK_MS` at the least.
    fn increase_speed(&mut self)
        ensures
            final(self).current_speed == next_speed(
                old(self).current_speed,
                old(self).config.speed_increment,
            ),
            final(self).snake.body@ == old(self).snake.body@,
            final(self).snake.direction == old(self).snake.direction,
            final(self).snake.growing == old(self).snake.growing,
            final(self).food == old(self).food,
            final(self).config == old(self).config,
            final(self).stats == old(self).stats,
            final(self).state == old(self).state,
    {
        self.current_speed = self.current_speed.saturating_sub(self.config.speed_increment);
        self.current_speed = self.current_speed.max(MIN_TICK_MS);
    }

    /// Counts the current run into the totals and the high score.
    fn update_stats(&mut self)
        ensures
            final(self).stats.games_played == add_capped(old(self).stats.games_played, 1),
            final(self).stats.total_score == add_capped(
                old(self).stats.total_score,
                old(self).stats.score,
            ),
            final(self).stats.high_score == (if old(self).stats.score > old(self).stats.high_score {
                old(self).stats.score
            } else {
                old(self).stats.high_score
            }),
            final(self).stats.score == old(self).stats.score,
            final(self).snake.body@ == old(self).snake.body@,
            final(self).snake.direction == old(self).snake.direction,
            final(self).snake.growing == old(self).snake.growing,
            final(self).food == old(self).food,
            final(self).config == old(self).config,
            final(self).state == old(self).state,
            final(self).current_speed == old(self).current_speed,
    {
        self.stats.games_played = self.stats.games_played.saturating_add(1);
        self.stats.total_score = self.stats.total_score.saturating_add(self.stats.score);
        if self.stats.score > self.stats.high_score {
            self.stats.high_score = self.stats.score;
        }
    }

    /// Milliseconds the host should wait before the next `update`.
    pub fn current_speed(&self) -> (r: u64)
        ensures
            r == self.current_speed,
    {
        self.current_speed
    }

    /// The snake's cells, head first.
    pub fn snake_body(&self) -> (r: &[Position])
        ensures
            r@ == self.snake.body@,
    {
        self.snake.body.as_slice()
    }

    /// The cell the food lies on.
    pub fn food_position(&self) -> (r: Position)
        ensures
            r == self.food.position,
    {
        self.food.position()
    }

    /// Whether the run is over.
    pub fn is_game_over(&self) -> (r: bool)
        ensures
            r == (self.state == GameState::GameOver),
    {
        matches!(self.state, GameState::GameOver)
    }

    /// Whether the run is paused.
    pub fn is_paused(&self) -> (r: bool)
        ensures
            r == (self.state == GameState::Paused),
    {
        matches!(self.state, GameState::Paused)
    }

    /// Whether play is under way.
    pub fn is_playing(&self) -> (r: bool)
        ensures
            r == (self.state == GameState::Playing),
    {
        matches!(self.state, GameState::Playing)
    }
}

} // verus!
