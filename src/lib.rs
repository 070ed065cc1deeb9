pub mod config;
pub mod direction;
pub mod game;
pub mod object;
pub mod snake;
