pub mod apple;
pub mod direction;
pub mod game;
pub mod highscore;
pub mod player;
pub mod point;
