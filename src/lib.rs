//! Simulation core of a terminal snake game: the heading state machine, the
//! per-tick snake engine, apple placement and the game session that ties
//! them together. Drawing and input polling live outside this library; it
//! takes plain values from them and hands plain values back.

pub mod apple;
pub mod direction;
pub mod game;
pub mod snake;

pub use apple::Apple;
pub use direction::{Direction, Key};
pub use game::{App, AppView};
pub use snake::{Snake, SnakeView, SPEED_TUNER};
