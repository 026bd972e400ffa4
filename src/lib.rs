//! Game core of a snake game on a toroidal grid: the snake, its food and the
//! engine that applies the rules of one tick.

pub mod grid;
pub mod snake;
pub mod food;
pub mod engine;

pub use engine::{GameConfig, GameEngine, GameState, GameStats};
pub use food::Food;
pub use grid::{Direction, Position};
pub use snake::Snake;
