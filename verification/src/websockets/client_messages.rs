use vstd::prelude::*;

use crate::websockets::game_requests::GameRequest;
use crate::websockets::time_control::TimeCheck;

verus! {

/// A message about one game: its type, id, a move and the variant.
pub struct GameGet {
    pub t: String,
    pub game_id: String,
    pub game_move: String,
    pub variant: String,
}

impl Clone for GameGet {
    fn clone(&self) -> (c: Self)
        ensures
            c == *self,
    {
        GameGet {
            t: self.t.clone(),
            game_id: self.game_id.clone(),
            game_move: self.game_move.clone(),
            variant: self.variant.clone(),
        }
    }
}

impl GameGet {
    pub fn new(id: &String, variant: &String) -> (g: Self)
        ensures
            g.t@ == Seq::<char>::empty(),
            g.game_id@ == id@,
            g.game_move@ == Seq::<char>::empty(),
            g.variant@ == variant@,
    {
        GameGet {
            t: String::new(),
            game_id: id.clone(),
            game_move: String::new(),
            variant: variant.clone(),
        }
    }

    /// The message about the game that `request` started under `id`.
    pub fn from_request(value: (&GameRequest, &String)) -> (g: Self)
        ensures
            g.t@ == Seq::<char>::empty(),
            g.game_id@ == value.1@,
            g.game_move@ == Seq::<char>::empty(),
            g.variant@ == value.0.variant@,
    {
        GameGet::new(value.1, &value.0.variant)
    }
}

/// What a move in a live game produced.
pub enum LiveGameMove {
    /// A purchase confirmed by the players given.
    BuyMove([bool; 2]),
    /// The player with this index ran out of time.
    LostOnTime(usize),
    /// Placed piece, clocks, whether the first fight move is an error, whether
    /// the deployment is over, and the players.
    PlaceMove(String, [u64; 2], bool, bool, [String; 2]),
    /// Move, clocks, status, result, players and the outcome text.
    FightMove(String, [u64; 2], i32, String, [String; 2], String),
}

/// Work for the database task.
pub enum MsgDatabase {
    GetGame(String),
    LostOnTime(TimeCheck),
    InsertGameMove(GameGet),
}

} // verus!
