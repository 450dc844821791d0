pub mod draw;
pub mod game;
pub mod snake;
