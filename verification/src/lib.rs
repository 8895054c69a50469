//! Game-server logic of a shuuro chess site: lobby requests, chat rooms,
//! spectator bookkeeping, chess clocks and the record of live games.
pub mod chance;
pub mod clock;
pub mod lichess;
pub mod lishuuro;
pub mod models;
pub mod database;
pub mod names;
pub mod shared;
pub mod text;
pub mod websockets;
