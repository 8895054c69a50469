use vstd::prelude::*;
use vstd::string::*;

use crate::clock::bson_now_millis;
use crate::names::views;
use crate::database::redis::UserSession;
use crate::websockets::game_requests::GameRequest;
use crate::websockets::time_control::{TimeControl, MAX_DELTA_SECS};

verus! {

broadcast use vstd::array::group_array_axioms;

/// One player as stored: name, whether registered, creation time (Unix ms).
pub struct Player {
    pub _id: String,
    pub reg: bool,
    pub created_at: i64,
}

impl Player {
    /// The stored player for a session, created at `now` (Unix ms).
    pub fn from_session_at(other: &UserSession, now: i64) -> (p: Player)
        ensures
            p._id@ == other.username@,
            p.reg == other.reg,
            p.created_at == now,
    {
        Player { _id: other.username.clone(), reg: other.reg, created_at: now }
    }

    /// The stored player for a session, created now.
    pub fn from(other: &UserSession) -> (p: Player)
        ensures
            p._id@ == other.username@,
            p.reg == other.reg,
    {
        Self::from_session_at(other, bson_now_millis())
    }
}

/// News for main page.
pub struct Article {
    pub _id: String,
    pub title: String,
    pub user: String,
    pub date: String,
    pub category: String,
    pub text: String,
    pub headline: String,
}

/// The record of one game. Durations are milliseconds and `last_clock` is a
/// Unix timestamp in milliseconds. `history` holds the moves of the shop, of
/// the deployment and of the fight.
pub struct ShuuroGame {
    pub _id: String,
    pub min: i64,
    pub incr: i64,
    pub players: [String; 2],
    pub side_to_move: u8,
    pub clocks: [i64; 2],
    pub last_clock: i64,
    pub current_stage: u8,
    pub result: String,
    pub status: i32,
    pub credits: [u16; 2],
    pub hands: [String; 2],
    pub sfen: String,
    pub history: (Vec<String>, Vec<String>, Vec<String>),
    pub draws: [bool; 2],
    pub tc: TimeControl,
    pub variant: String,
}

/// What a game record holds, with strings as character sequences.
pub struct GameView {
    pub id: Seq<char>,
    pub min: i64,
    pub incr: i64,
    pub players: (Seq<char>, Seq<char>),
    pub side_to_move: u8,
    pub clocks: [i64; 2],
    pub last_clock: i64,
    pub current_stage: u8,
    pub result: Seq<char>,
    pub status: i32,
    pub credits: [u16; 2],
    pub hands: (Seq<char>, Seq<char>),
    pub sfen: Seq<char>,
    pub history: (Seq<Seq<char>>, Seq<Seq<char>>, Seq<Seq<char>>),
    pub draws: [bool; 2],
    pub tc: TimeControl,
    pub variant: Seq<char>,
}

impl View for ShuuroGame {
    type V = GameView;

    open spec fn view(&self) -> GameView {
        GameView {
            id: self._id@,
            min: self.min,
            incr: self.incr,
            players: (self.players[0]@, self.players[1]@),
            side_to_move: self.side_to_move,
            clocks: self.clocks,
            last_clock: self.last_clock,
            current_stage: self.current_stage,
            result: self.result@,
            status: self.status,
            credits: self.credits,
            hands: (self.hands[0]@, self.hands[1]@),
            sfen: self.sfen@,
            history: (views(self.history.0@), views(self.history.1@), views(self.history.2@)),
            draws: self.draws,
            tc: self.tc,
            variant: self.variant@,
        }
    }
}

pub fn copy_strings(v: &Vec<String>) -> (c: Vec<String>)
    ensures
        c@ == v@,
{
    crate::names::copy_names(v)
}

impl Clone for TimeControl {
    fn clone(&self) -> (c: Self)
        ensures
            c == *self,
    {
        TimeControl {
            last_click: self.last_click,
            clocks: self.clocks,
            stage: self.stage,
            incr: self.incr,
        }
    }
}

impl Clone for ShuuroGame {
    fn clone(&self) -> (c: Self)
        ensures
            c@ == self@,
    {
        ShuuroGame {
            _id: self._id.clone(),
            min: self.min,
            incr: self.incr,
            players: [self.players[0].clone(), self.players[1].clone()],
            side_to_move: self.side_to_move,
            clocks: self.clocks,
            last_clock: self.last_clock,
            current_stage: self.current_stage,
            result: self.result.clone(),
            status: self.status,
            credits: self.credits,
            hands: [self.hands[0].clone(), self.hands[1].clone()],
            sfen: self.sfen.clone(),
            history: (
                copy_strings(&self.history.0),
                copy_strings(&self.history.1),
                copy_strings(&self.history.2),
            ),
            draws: self.draws,
            tc: self.tc.clone(),
            variant: self.variant.clone(),
        }
    }
}

/// Credits each player starts the shop with.
pub const START_CREDITS: u16 = 800;

impl ShuuroGame {
    /// The game that `request` starts between `players` (white first) under id
    /// `id`: both clocks hold the minutes plus one increment, the shop stage
    /// comes first, nobody has moved and the status is -2.
    pub open spec fn started(
        self,
        request: GameRequest,
        players: [String; 2],
        id: Seq<char>,
    ) -> bool {
        &&& self._id@ == id
        &&& self.min == request.time * 60 * 1000
        &&& self.incr == request.incr * 1000
        &&& self.players[0]@ == players[0]@
        &&& self.players[1]@ == players[1]@
        &&& self.side_to_move == 0
        &&& self.clocks[0] == (request.time * 60 + request.incr) * 1000
        &&& self.clocks[1] == (request.time * 60 + request.incr) * 1000
        &&& self.current_stage == 0
        &&& self.result@ == Seq::<char>::empty()
        &&& self.status == -2
        &&& self.credits == [START_CREDITS, START_CREDITS]
        &&& self.hands[0]@ == Seq::<char>::empty()
        &&& self.hands[1]@ == Seq::<char>::empty()
        &&& self.sfen@ == Seq::<char>::empty()
        &&& self.history.0@.len() == 0
        &&& self.history.1@.len() == 0
        &&& self.history.2@.len() == 0
        &&& self.draws == [false, false]
        &&& self.variant == request.variant
        &&& self.tc.clocks == self.clocks
        &&& self.tc.stage == 0
        &&& self.tc.incr == request.incr
        &&& self.tc.well_formed()
    }

    /// New game from a lobby request, the players and the game id.
    pub fn from(f: (&GameRequest, &[String; 2], &str)) -> (g: Self)
        requires
            -MAX_DELTA_SECS <= f.0.time * 60 + f.0.incr <= MAX_DELTA_SECS,
            -MAX_DELTA_SECS <= f.0.time * 60 <= MAX_DELTA_SECS,
            -MAX_DELTA_SECS <= f.0.incr <= MAX_DELTA_SECS,
        ensures
            g.started(*f.0, *f.1, f.2@),
    {
        let (request, players, id) = f;
        let clock = (request.time * 60 + request.incr) * 1000;
        let tc = TimeControl::new(request.time, request.incr);
        assert(tc.clocks =~= [clock, clock]);
        ShuuroGame {
            _id: id.to_owned(),
            min: request.time * 60 * 1000,
            incr: request.incr * 1000,
            players: [players[0].clone(), players[1].clone()],
            side_to_move: 0,
            clocks: [clock, clock],
            last_clock: bson_now_millis(),
            current_stage: 0,
            result: String::new(),
            status: -2,
            credits: [START_CREDITS, START_CREDITS],
            hands: [String::new(), String::new()],
            sfen: String::new(),
            history: (Vec::new(), Vec::new(), Vec::new()),
            draws: [false, false],
            tc,
            variant: request.variant.clone(),
        }
    }
}

} // verus!
