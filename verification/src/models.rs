pub mod game;
pub mod model;
pub mod mongo;
pub mod redis;
pub mod live_games;
pub mod lobby;
