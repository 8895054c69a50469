pub mod client_messages;
pub mod game_requests;
pub mod games;
pub mod live_game;
pub mod rooms;
pub mod time_control;
pub mod messages;
