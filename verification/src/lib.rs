pub mod combat;
pub mod effects;
pub mod game_state;
pub mod player;
pub mod random;
pub mod timer;
pub mod ui;
