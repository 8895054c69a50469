use vstd::prelude::*;

use crate::database::redis::UserSession;
use crate::names::{copy_names, has_name, views};
use crate::text::str_eq;
use crate::websockets::game_requests::{GameReqs, GameRequest};
use crate::websockets::rooms::Players;
use crate::websockets::time_control::TimeCheck;

verus! {

/// Who a message of the server goes to.
pub enum SendTo {
    Me,
    All,
    Spectators(Vec<String>),
    Players([String; 2]),
    SpectatorsAndPlayers((Vec<String>, [String; 2])),
}

/// `name` is one of the two players.
pub open spec fn is_player(players: [String; 2], name: Seq<char>) -> bool {
    players@[0]@ == name || players@[1]@ == name
}

impl SendTo {
    /// A message that `sender` sent with these recipients reaches the socket
    /// of `receiver`.
    pub open spec fn reaches(&self, sender: Seq<char>, receiver: Seq<char>) -> bool {
        match self {
            SendTo::Me => receiver == sender,
            SendTo::All => true,
            SendTo::Spectators(s) => views(s@).contains(receiver),
            SendTo::Players(p) => is_player(*p, receiver),
            SendTo::SpectatorsAndPlayers(sp) => is_player(sp.1, receiver) || views(sp.0@).contains(receiver),
        }
    }

    /// Whether the socket of `receiver` passes on a message that `sender` sent.
    pub fn delivers(&self, sender: &str, receiver: &str) -> (r: bool)
        ensures
            r == self.reaches(sender@, receiver@),
    {
        match self {
            SendTo::Me => str_eq(receiver, sender),
            SendTo::All => true,
            SendTo::Spectators(s) => has_name(s, receiver),
            SendTo::Players(p) => str_eq(p[0].as_str(), receiver) || str_eq(p[1].as_str(), receiver),
            SendTo::SpectatorsAndPlayers(sp) => {
                if str_eq(sp.1[0].as_str(), receiver) || str_eq(sp.1[1].as_str(), receiver) {
                    true
                } else {
                    has_name(&sp.0, receiver)
                }
            },
        }
    }
}

impl Clone for SendTo {
    /// A copy that reaches the same sockets.
    fn clone(&self) -> (c: Self)
        ensures
            forall|sender: Seq<char>, receiver: Seq<char>| #[trigger] c.reaches(sender, receiver) == self.reaches(sender, receiver),
    {
        match self {
            SendTo::Me => SendTo::Me,
            SendTo::All => SendTo::All,
            SendTo::Spectators(s) => SendTo::Spectators(copy_names(s)),
            SendTo::Players(p) => SendTo::Players([p[0].clone(), p[1].clone()]),
            SendTo::SpectatorsAndPlayers(sp) => {
                let p = [sp.1[0].clone(), sp.1[1].clone()];
                SendTo::SpectatorsAndPlayers((copy_names(&sp.0), p))
            },
        }
    }
}

/// Recipients of a new chat line of room `id`: the room's spectators, and the
/// players too when the room belongs to a live game.
pub fn chat_recipients(id: &str, spectators: Vec<String>, players: Option<[String; 2]>) -> (to: SendTo)
    ensures
        id@ == "home"@ ==> to == SendTo::Spectators(spectators),
        id@ != "home"@ ==> match players {
            Some(p) => to == SendTo::SpectatorsAndPlayers((spectators, p)),
            None => to == SendTo::Spectators(spectators),
        },
{
    if str_eq(id, "home") {
        SendTo::Spectators(spectators)
    } else {
        match players {
            Some(p) => SendTo::SpectatorsAndPlayers((spectators, p)),
            None => SendTo::Spectators(spectators),
        }
    }
}

/// Recipients of a move, a draw or a resignation: the players, and the
/// spectators of the game when it has a room.
pub fn game_recipients(spectators: Option<Vec<String>>, players: [String; 2]) -> (to: SendTo)
    ensures
        match spectators {
            Some(s) => to == SendTo::SpectatorsAndPlayers((s, players)),
            None => to == SendTo::Players(players),
        },
{
    match spectators {
        Some(s) => SendTo::SpectatorsAndPlayers((s, players)),
        None => SendTo::Players(players),
    }
}

/// What the server does after a fight move was recorded.
pub struct FightMoveActions {
    /// The game is over: it is saved and removed, its spectators are dropped
    /// and the new game count goes to everyone.
    pub end_game: bool,
    /// Who receives the move.
    pub to: SendTo,
    /// The watchers of the TV hear that the game ended.
    pub tv_end: bool,
}

/// The steps after a fight move that left the game in `status`: a positive
/// status ends the game, and its room goes before the move is sent, so the move
/// goes to the players alone; otherwise it goes to the players, and to the
/// game's spectators when the game has a room.
pub fn after_fight_move(status: i32, spectators: Option<Vec<String>>, players: [String; 2]) -> (a: FightMoveActions)
    ensures
        a.end_game == (status > 0),
        a.tv_end == (status > 0),
        status > 0 ==> a.to == SendTo::Players(players),
        status <= 0 ==> match spectators {
            Some(s) => a.to == SendTo::SpectatorsAndPlayers((s, players)),
            None => a.to == SendTo::Players(players),
        },
{
    if status > 0 {
        FightMoveActions { end_game: true, to: SendTo::Players(players), tv_end: true }
    } else {
        FightMoveActions { end_game: false, to: game_recipients(spectators, players), tv_end: false }
    }
}

/// The requests a client sends over its socket, by their `t` field.
#[derive(PartialEq, Eq, Structural)]
pub enum WsRequest {
    ChatMessage,
    ChatFull,
    PlayersFull,
    PlayersCount,
    RemoveSpectator,
    LobbyAdd,
    LobbyFull,
    LobbyAccept,
    GameHand,
    GameConfirmed,
    GameStart,
    ShopMove,
    PlaceMove,
    FightMove,
    Draw,
    Resign,
    Sfen,
    Tv,
    SaveAll,
}

/// The request named by `t`; no other name is answered.
pub open spec fn request_named(t: Seq<char>) -> Option<WsRequest> {
    if t == "live_chat_message"@ {
        Some(WsRequest::ChatMessage)
    } else if t == "live_chat_full"@ {
        Some(WsRequest::ChatFull)
    } else if t == "active_players_full"@ {
        Some(WsRequest::PlayersFull)
    } else if t == "active_players_count"@ {
        Some(WsRequest::PlayersCount)
    } else if t == "live_game_remove_spectator"@ {
        Some(WsRequest::RemoveSpectator)
    } else if t == "home_lobby_add"@ {
        Some(WsRequest::LobbyAdd)
    } else if t == "home_lobby_full"@ {
        Some(WsRequest::LobbyFull)
    } else if t == "home_lobby_accept"@ {
        Some(WsRequest::LobbyAccept)
    } else if t == "live_game_hand"@ {
        Some(WsRequest::GameHand)
    } else if t == "live_game_confirmed"@ {
        Some(WsRequest::GameConfirmed)
    } else if t == "live_game_start"@ {
        Some(WsRequest::GameStart)
    } else if t == "live_game_buy"@ || t == "live_game_confirm"@ {
        Some(WsRequest::ShopMove)
    } else if t == "live_game_place"@ {
        Some(WsRequest::PlaceMove)
    } else if t == "live_game_play"@ {
        Some(WsRequest::FightMove)
    } else if t == "live_game_draw"@ {
        Some(WsRequest::Draw)
    } else if t == "live_game_resign"@ {
        Some(WsRequest::Resign)
    } else if t == "live_game_sfen"@ {
        Some(WsRequest::Sfen)
    } else if t == "live_tv"@ {
        Some(WsRequest::Tv)
    } else if t == "save_all"@ {
        Some(WsRequest::SaveAll)
    } else {
        None
    }
}

/// The message type of each request, as the client writes it (a shop move is
/// also sent as "live_game_confirm").
pub open spec fn request_name(r: WsRequest) -> Seq<char> {
    match r {
        WsRequest::ChatMessage => "live_chat_message"@,
        WsRequest::ChatFull => "live_chat_full"@,
        WsRequest::PlayersFull => "active_players_full"@,
        WsRequest::PlayersCount => "active_players_count"@,
        WsRequest::RemoveSpectator => "live_game_remove_spectator"@,
        WsRequest::LobbyAdd => "home_lobby_add"@,
        WsRequest::LobbyFull => "home_lobby_full"@,
        WsRequest::LobbyAccept => "home_lobby_accept"@,
        WsRequest::GameHand => "live_game_hand"@,
        WsRequest::GameConfirmed => "live_game_confirmed"@,
        WsRequest::GameStart => "live_game_start"@,
        WsRequest::ShopMove => "live_game_buy"@,
        WsRequest::PlaceMove => "live_game_place"@,
        WsRequest::FightMove => "live_game_play"@,
        WsRequest::Draw => "live_game_draw"@,
        WsRequest::Resign => "live_game_resign"@,
        WsRequest::Sfen => "live_game_sfen"@,
        WsRequest::Tv => "live_tv"@,
        WsRequest::SaveAll => "save_all"@,
    }
}

/// The message types of the requests are distinct texts.
proof fn lemma_request_names_distinct()
    ensures
        "live_chat_message"@ != "live_chat_full"@,
        "live_chat_message"@ != "active_players_full"@,
        "live_chat_message"@ != "active_players_count"@,
        "live_chat_message"@ != "live_game_remove_spectator"@,
        "live_chat_message"@ != "home_lobby_add"@,
        "live_chat_message"@ != "home_lobby_full"@,
        "live_chat_message"@ != "home_lobby_accept"@,
        "live_chat_message"@ != "live_game_hand"@,
        "live_chat_message"@ != "live_game_confirmed"@,
        "live_chat_message"@ != "live_game_start"@,
        "live_chat_message"@ != "live_game_buy"@,
        "live_chat_message"@ != "live_game_place"@,
        "live_chat_message"@ != "live_game_play"@,
        "live_chat_message"@ != "live_game_draw"@,
        "live_chat_message"@ != "live_game_resign"@,
        "live_chat_message"@ != "live_game_sfen"@,
        "live_chat_message"@ != "live_tv"@,
        "live_chat_message"@ != "save_all"@,
        "live_chat_message"@ != "live_game_confirm"@,
        "live_chat_full"@ != "active_players_full"@,
        "live_chat_full"@ != "active_players_count"@,
        "live_chat_full"@ != "live_game_remove_spectator"@,
        "live_chat_full"@ != "home_lobby_add"@,
        "live_chat_full"@ != "home_lobby_full"@,
        "live_chat_full"@ != "home_lobby_accept"@,
        "live_chat_full"@ != "live_game_hand"@,
        "live_chat_full"@ != "live_game_confirmed"@,
        "live_chat_full"@ != "live_game_start"@,
        "live_chat_full"@ != "live_game_buy"@,
        "live_chat_full"@ != "live_game_place"@,
        "live_chat_full"@ != "live_game_play"@,
        "live_chat_full"@ != "live_game_draw"@,
        "live_chat_full"@ != "live_game_resign"@,
        "live_chat_full"@ != "live_game_sfen"@,
        "live_chat_full"@ != "live_tv"@,
        "live_chat_full"@ != "save_all"@,
        "live_chat_full"@ != "live_game_confirm"@,
        "active_players_full"@ != "active_players_count"@,
        "active_players_full"@ != "live_game_remove_spectator"@,
        "active_players_full"@ != "home_lobby_add"@,
        "active_players_full"@ != "home_lobby_full"@,
        "active_players_full"@ != "home_lobby_accept"@,
        "active_players_full"@ != "live_game_hand"@,
        "active_players_full"@ != "live_game_confirmed"@,
        "active_players_full"@ != "live_game_start"@,
        "active_players_full"@ != "live_game_buy"@,
        "active_players_full"@ != "live_game_place"@,
        "active_players_full"@ != "live_game_play"@,
        "active_players_full"@ != "live_game_draw"@,
        "active_players_full"@ != "live_game_resign"@,
        "active_players_full"@ != "live_game_sfen"@,
        "active_players_full"@ != "live_tv"@,
        "active_players_full"@ != "save_all"@,
        "active_players_full"@ != "live_game_confirm"@,
        "active_players_count"@ != "live_game_remove_spectator"@,
        "active_players_count"@ != "home_lobby_add"@,
        "active_players_count"@ != "home_lobby_full"@,
        "active_players_count"@ != "home_lobby_accept"@,
        "active_players_count"@ != "live_game_hand"@,
        "active_players_count"@ != "live_game_confirmed"@,
        "active_players_count"@ != "live_game_start"@,
        "active_players_count"@ != "live_game_buy"@,
        "active_players_count"@ != "live_game_place"@,
        "active_players_count"@ != "live_game_play"@,
        "active_players_count"@ != "live_game_draw"@,
        "active_players_count"@ != "live_game_resign"@,
        "active_players_count"@ != "live_game_sfen"@,
        "active_players_count"@ != "live_tv"@,
        "active_players_count"@ != "save_all"@,
        "active_players_count"@ != "live_game_confirm"@,
        "live_game_remove_spectator"@ != "home_lobby_add"@,
        "live_game_remove_spectator"@ != "home_lobby_full"@,
        "live_game_remove_spectator"@ != "home_lobby_accept"@,
        "live_game_remove_spectator"@ != "live_game_hand"@,
        "live_game_remove_spectator"@ != "live_game_confirmed"@,
        "live_game_remove_spectator"@ != "live_game_start"@,
        "live_game_remove_spectator"@ != "live_game_buy"@,
        "live_game_remove_spectator"@ != "live_game_place"@,
        "live_game_remove_spectator"@ != "live_game_play"@,
        "live_game_remove_spectator"@ != "live_game_draw"@,
        "live_game_remove_spectator"@ != "live_game_resign"@,
        "live_game_remove_spectator"@ != "live_game_sfen"@,
        "live_game_remove_spectator"@ != "live_tv"@,
        "live_game_remove_spectator"@ != "save_all"@,
        "live_game_remove_spectator"@ != "live_game_confirm"@,
        "home_lobby_add"@ != "home_lobby_full"@,
        "home_lobby_add"@ != "home_lobby_accept"@,
        "home_lobby_add"@ != "live_game_hand"@,
        "home_lobby_add"@ != "live_game_confirmed"@,
        "home_lobby_add"@ != "live_game_start"@,
        "home_lobby_add"@ != "live_game_buy"@,
        "home_lobby_add"@ != "live_game_place"@,
        "home_lobby_add"@ != "live_game_play"@,
        "home_lobby_add"@ != "live_game_draw"@,
        "home_lobby_add"@ != "live_game_resign"@,
        "home_lobby_add"@ != "live_game_sfen"@,
        "home_lobby_add"@ != "live_tv"@,
        "home_lobby_add"@ != "save_all"@,
        "home_lobby_add"@ != "live_game_confirm"@,
        "home_lobby_full"@ != "home_lobby_accept"@,
        "home_lobby_full"@ != "live_game_hand"@,
        "home_lobby_full"@ != "live_game_confirmed"@,
        "home_lobby_full"@ != "live_game_start"@,
        "home_lobby_full"@ != "live_game_buy"@,
        "home_lobby_full"@ != "live_game_place"@,
        "home_lobby_full"@ != "live_game_play"@,
        "home_lobby_full"@ != "live_game_draw"@,
        "home_lobby_full"@ != "live_game_resign"@,
        "home_lobby_full"@ != "live_game_sfen"@,
        "home_lobby_full"@ != "live_tv"@,
        "home_lobby_full"@ != "save_all"@,
        "home_lobby_full"@ != "live_game_confirm"@,
        "home_lobby_accept"@ != "live_game_hand"@,
        "home_lobby_accept"@ != "live_game_confirmed"@,
        "home_lobby_accept"@ != "live_game_start"@,
        "home_lobby_accept"@ != "live_game_buy"@,
        "home_lobby_accept"@ != "live_game_place"@,
        "home_lobby_accept"@ != "live_game_play"@,
        "home_lobby_accept"@ != "live_game_draw"@,
        "home_lobby_accept"@ != "live_game_resign"@,
        "home_lobby_accept"@ != "live_game_sfen"@,
        "home_lobby_accept"@ != "live_tv"@,
        "home_lobby_accept"@ != "save_all"@,
        "home_lobby_accept"@ != "live_game_confirm"@,
        "live_game_hand"@ != "live_game_confirmed"@,
        "live_game_hand"@ != "live_game_start"@,
        "live_game_hand"@ != "live_game_buy"@,
        "live_game_hand"@ != "live_game_place"@,
        "live_game_hand"@ != "live_game_play"@,
        "live_game_hand"@ != "live_game_draw"@,
        "live_game_hand"@ != "live_game_resign"@,
        "live_game_hand"@ != "live_game_sfen"@,
        "live_game_hand"@ != "live_tv"@,
        "live_game_hand"@ != "save_all"@,
        "live_game_hand"@ != "live_game_confirm"@,
        "live_game_confirmed"@ != "live_game_start"@,
        "live_game_confirmed"@ != "live_game_buy"@,
        "live_game_confirmed"@ != "live_game_place"@,
        "live_game_confirmed"@ != "live_game_play"@,
        "live_game_confirmed"@ != "live_game_draw"@,
        "live_game_confirmed"@ != "live_game_resign"@,
        "live_game_confirmed"@ != "live_game_sfen"@,
        "live_game_confirmed"@ != "live_tv"@,
        "live_game_confirmed"@ != "save_all"@,
        "live_game_confirmed"@ != "live_game_confirm"@,
        "live_game_start"@ != "live_game_buy"@,
        "live_game_start"@ != "live_game_place"@,
        "live_game_start"@ != "live_game_play"@,
        "live_game_start"@ != "live_game_draw"@,
        "live_game_start"@ != "live_game_resign"@,
        "live_game_start"@ != "live_game_sfen"@,
        "live_game_start"@ != "live_tv"@,
        "live_game_start"@ != "save_all"@,
        "live_game_start"@ != "live_game_confirm"@,
        "live_game_buy"@ != "live_game_place"@,
        "live_game_buy"@ != "live_game_play"@,
        "live_game_buy"@ != "live_game_draw"@,
        "live_game_buy"@ != "live_game_resign"@,
        "live_game_buy"@ != "live_game_sfen"@,
        "live_game_buy"@ != "live_tv"@,
        "live_game_buy"@ != "save_all"@,
        "live_game_buy"@ != "live_game_confirm"@,
        "live_game_place"@ != "live_game_play"@,
        "live_game_place"@ != "live_game_draw"@,
        "live_game_place"@ != "live_game_resign"@,
        "live_game_place"@ != "live_game_sfen"@,
        "live_game_place"@ != "live_tv"@,
        "live_game_place"@ != "save_all"@,
        "live_game_place"@ != "live_game_confirm"@,
        "live_game_play"@ != "live_game_draw"@,
        "live_game_play"@ != "live_game_resign"@,
        "live_game_play"@ != "live_game_sfen"@,
        "live_game_play"@ != "live_tv"@,
        "live_game_play"@ != "save_all"@,
        "live_game_play"@ != "live_game_confirm"@,
        "live_game_draw"@ != "live_game_resign"@,
        "live_game_draw"@ != "live_game_sfen"@,
        "live_game_draw"@ != "live_tv"@,
        "live_game_draw"@ != "save_all"@,
        "live_game_draw"@ != "live_game_confirm"@,
        "live_game_resign"@ != "live_game_sfen"@,
        "live_game_resign"@ != "live_tv"@,
        "live_game_resign"@ != "save_all"@,
        "live_game_resign"@ != "live_game_confirm"@,
        "live_game_sfen"@ != "live_tv"@,
        "live_game_sfen"@ != "save_all"@,
        "live_game_sfen"@ != "live_game_confirm"@,
        "live_tv"@ != "save_all"@,
        "live_tv"@ != "live_game_confirm"@,
        "save_all"@ != "live_game_confirm"@,
{
    reveal_strlit("live_chat_message");
    reveal_strlit("live_chat_full");
    reveal_strlit("active_players_full");
    reveal_strlit("active_players_count");
    reveal_strlit("live_game_remove_spectator");
    reveal_strlit("home_lobby_add");
    reveal_strlit("home_lobby_full");
    reveal_strlit("home_lobby_accept");
    reveal_strlit("live_game_hand");
    reveal_strlit("live_game_confirmed");
    reveal_strlit("live_game_start");
    reveal_strlit("live_game_buy");
    reveal_strlit("live_game_place");
    reveal_strlit("live_game_play");
    reveal_strlit("live_game_draw");
    reveal_strlit("live_game_resign");
    reveal_strlit("live_game_sfen");
    reveal_strlit("live_tv");
    reveal_strlit("save_all");
    reveal_strlit("live_game_confirm");
    assert("live_chat_message"@.len() == 17);
    assert("live_chat_full"@.len() == 14);
    assert("active_players_full"@.len() == 19);
    assert("active_players_count"@.len() == 20);
    assert("live_game_remove_spectator"@.len() == 26);
    assert("home_lobby_add"@.len() == 14);
    assert("home_lobby_full"@.len() == 15);
    assert("home_lobby_accept"@.len() == 17);
    assert("live_game_hand"@.len() == 14);
    assert("live_game_confirmed"@.len() == 19);
    assert("live_game_start"@.len() == 15);
    assert("live_game_buy"@.len() == 13);
    assert("live_game_place"@.len() == 15);
    assert("live_game_play"@.len() == 14);
    assert("live_game_draw"@.len() == 14);
    assert("live_game_resign"@.len() == 16);
    assert("live_game_sfen"@.len() == 14);
    assert("live_tv"@.len() == 7);
    assert("save_all"@.len() == 8);
    assert("live_game_confirm"@.len() == 17);
    assert("live_chat_message"@[0] != "home_lobby_accept"@[0]);
    assert("live_chat_message"@[5] != "live_game_confirm"@[5]);
    assert("live_chat_full"@[0] != "home_lobby_add"@[0]);
    assert("live_chat_full"@[5] != "live_game_hand"@[5]);
    assert("live_chat_full"@[5] != "live_game_play"@[5]);
    assert("live_chat_full"@[5] != "live_game_draw"@[5]);
    assert("live_chat_full"@[5] != "live_game_sfen"@[5]);
    assert("active_players_full"@[0] != "live_game_confirmed"@[0]);
    assert("home_lobby_add"@[0] != "live_game_hand"@[0]);
    assert("home_lobby_add"@[0] != "live_game_play"@[0]);
    assert("home_lobby_add"@[0] != "live_game_draw"@[0]);
    assert("home_lobby_add"@[0] != "live_game_sfen"@[0]);
    assert("home_lobby_full"@[0] != "live_game_start"@[0]);
    assert("home_lobby_full"@[0] != "live_game_place"@[0]);
    assert("home_lobby_accept"@[0] != "live_game_confirm"@[0]);
    assert("live_game_hand"@[10] != "live_game_play"@[10]);
    assert("live_game_hand"@[10] != "live_game_draw"@[10]);
    assert("live_game_hand"@[10] != "live_game_sfen"@[10]);
    assert("live_game_start"@[10] != "live_game_place"@[10]);
    assert("live_game_play"@[10] != "live_game_draw"@[10]);
    assert("live_game_play"@[10] != "live_game_sfen"@[10]);
    assert("live_game_draw"@[10] != "live_game_sfen"@[10]);
}

/// Every request is reached from its own message type, and a message type
/// reaches only the request it names: a draw offer is never taken for a
/// resignation, nor any request for another.
pub proof fn requests_by_their_names(r: WsRequest, t: Seq<char>)
    ensures
        request_named(request_name(r)) == Some(r),
        request_named(t) == Some(r) ==> t == request_name(r) || (r == WsRequest::ShopMove && t == "live_game_confirm"@),
{
    lemma_request_names_distinct();
    match r {
        WsRequest::ChatMessage => {},
        WsRequest::ChatFull => {},
        WsRequest::PlayersFull => {},
        WsRequest::PlayersCount => {},
        WsRequest::RemoveSpectator => {},
        WsRequest::LobbyAdd => {},
        WsRequest::LobbyFull => {},
        WsRequest::LobbyAccept => {},
        WsRequest::GameHand => {},
        WsRequest::GameConfirmed => {},
        WsRequest::GameStart => {},
        WsRequest::ShopMove => {},
        WsRequest::PlaceMove => {},
        WsRequest::FightMove => {},
        WsRequest::Draw => {},
        WsRequest::Resign => {},
        WsRequest::Sfen => {},
        WsRequest::Tv => {},
        WsRequest::SaveAll => {},
    }
}

/// Which request the message type `t` names.
pub fn ws_request(t: &str) -> (r: Option<WsRequest>)
    ensures
        r == request_named(t@),
{
    if str_eq(t, "live_chat_message") {
        Some(WsRequest::ChatMessage)
    } else if str_eq(t, "live_chat_full") {
        Some(WsRequest::ChatFull)
    } else if str_eq(t, "active_players_full") {
        Some(WsRequest::PlayersFull)
    } else if str_eq(t, "active_players_count") {
        Some(WsRequest::PlayersCount)
    } else if str_eq(t, "live_game_remove_spectator") {
        Some(WsRequest::RemoveSpectator)
    } else if str_eq(t, "home_lobby_add") {
        Some(WsRequest::LobbyAdd)
    } else if str_eq(t, "home_lobby_full") {
        Some(WsRequest::LobbyFull)
    } else if str_eq(t, "home_lobby_accept") {
        Some(WsRequest::LobbyAccept)
    } else if str_eq(t, "live_game_hand") {
        Some(WsRequest::GameHand)
    } else if str_eq(t, "live_game_confirmed") {
        Some(WsRequest::GameConfirmed)
    } else if str_eq(t, "live_game_start") {
        Some(WsRequest::GameStart)
    } else if str_eq(t, "live_game_buy") || str_eq(t, "live_game_confirm") {
        Some(WsRequest::ShopMove)
    } else if str_eq(t, "live_game_place") {
        Some(WsRequest::PlaceMove)
    } else if str_eq(t, "live_game_play") {
        Some(WsRequest::FightMove)
    } else if str_eq(t, "live_game_draw") {
        Some(WsRequest::Draw)
    } else if str_eq(t, "live_game_resign") {
        Some(WsRequest::Resign)
    } else if str_eq(t, "live_game_sfen") {
        Some(WsRequest::Sfen)
    } else if str_eq(t, "live_tv") {
        Some(WsRequest::Tv)
    } else if str_eq(t, "save_all") {
        Some(WsRequest::SaveAll)
    } else {
        None
    }
}

/// What the watcher of a game's clocks does after one check.
#[derive(PartialEq, Eq, Structural)]
pub enum ClockWatch {
    /// The game is gone: stop watching.
    Stop,
    /// The game is over: announce it, remove it and stop watching.
    Finish,
    /// Nothing happened: wait for the next check.
    Wait,
}

/// The watcher's step after a check of the clocks.
pub fn clock_watch(check: &TimeCheck) -> (w: ClockWatch)
    ensures
        !check.exist ==> w == ClockWatch::Stop,
        check.exist && check.finished ==> w == ClockWatch::Finish,
        check.exist && !check.finished ==> w == ClockWatch::Wait,
{
    if !check.exist {
        ClockWatch::Stop
    } else if check.finished {
        ClockWatch::Finish
    } else {
        ClockWatch::Wait
    }
}

/// The clock poller stops once the game is over, both players lost, or the
/// game is gone.
pub fn clock_poll_done(check: &TimeCheck) -> (done: bool)
    ensures
        done == (check.finished || check.both_lost || !check.exist),
{
    check.finished || check.both_lost || !check.exist
}

/// What an accepted lobby request leads to.
#[derive(PartialEq, Eq, Structural)]
pub enum AcceptAction {
    /// New games are not being made: nothing happens.
    Ignore,
    /// A user accepts its own request: it is withdrawn.
    Withdraw,
    /// Another user accepts: both users' requests go and a game starts.
    StartGame,
}

/// The action for `me` accepting the request of `owner`.
pub fn accept_action(adding: bool, owner: &str, me: &str) -> (a: AcceptAction)
    ensures
        !adding ==> a == AcceptAction::Ignore,
        adding && owner@ == me@ ==> a == AcceptAction::Withdraw,
        adding && owner@ != me@ ==> a == AcceptAction::StartGame,
{
    if !adding {
        AcceptAction::Ignore
    } else if str_eq(owner, me) {
        AcceptAction::Withdraw
    } else {
        AcceptAction::StartGame
    }
}

/// The user allowed to save all games and restart their clocks.
pub const ADMIN: &'static str = "iiiurosiii";

pub fn is_admin(username: &str) -> (r: bool)
    ensures
        r == (username@ == ADMIN@),
{
    str_eq(username, ADMIN)
}

/// A user connects (`con`) or leaves. Connecting makes the user an active
/// player and a spectator of "home". Leaving removes the user from "home", from
/// the room `watched` (the game its session watches), from the players, and withdraws its lobby request,
/// which is returned. The count is the number of active players after.
pub fn connecting_with(
    players: &mut Players,
    reqs: &mut GameReqs,
    user: &UserSession,
    watched: &String,
    con: bool,
) -> (r: (usize, Option<GameRequest>))
    requires
        old(players).well_formed(),
        old(reqs).well_formed(),
    ensures
        final(players).well_formed(),
        final(reqs).well_formed(),
        r.0 == final(players).online().len(),
        con ==> {
            &&& final(players).online() == old(players).online().insert(user.username@)
            &&& final(reqs).requests() == old(reqs).requests()
            &&& r.1 is None
            &&& match old(players).room("home"@) {
                Some(s) => final(players).room("home"@) == Some(s.insert(user.username@)),
                None => final(players).room("home"@) is None,
            }
            &&& forall|x: Seq<char>| x != "home"@ ==> final(players).room(x) == old(players).room(x)
        },
        !con ==> {
            &&& final(players).online() == old(players).online().remove(user.username@)
            &&& final(reqs).requests() == old(reqs).requests().remove(user.username@)
            &&& match r.1 {
                Some(g) => old(reqs).requests().contains_key(user.username@)
                    && g == old(reqs).requests()[user.username@],
                None => !old(reqs).requests().contains_key(user.username@),
            }
            &&& match old(players).room("home"@) {
                Some(s) => final(players).room("home"@) == Some(s.remove(user.username@)),
                None => final(players).room("home"@) is None,
            }
            &&& match old(players).room(watched@) {
                Some(s) => final(players).room(watched@) == Some(s.remove(user.username@)),
                None => final(players).room(watched@) is None,
            }
            &&& forall|x: Seq<char>| x != "home"@ && x != watched@ ==> final(players).room(x)
                == old(players).room(x)
        },
{
    let home = "home".to_owned();
    if con {
        let _ = players.add_spectator(&home, &user.username);
        let count = players.add_player(user.username.as_str());
        (count, None)
    } else {
        let _ = players.remove_spectator(&home, &user.username);
        let _ = players.remove_spectator(watched, &user.username);
        let removed = reqs.remove(&user.username);
        let count = players.remove_player(&user.username);
        (count, removed)
    }
}

/// `connecting_with` for the game that the user's session watches now.
pub fn connecting(
    players: &mut Players,
    reqs: &mut GameReqs,
    user: &UserSession,
    con: bool,
) -> (r: (usize, Option<GameRequest>))
    requires
        old(players).well_formed(),
        old(reqs).well_formed(),
    ensures
        final(players).well_formed(),
        final(reqs).well_formed(),
        r.0 == final(players).online().len(),
        con ==> {
            &&& final(players).online() == old(players).online().insert(user.username@)
            &&& final(reqs).requests() == old(reqs).requests()
            &&& r.1 is None
            &&& match old(players).room("home"@) {
                Some(s) => final(players).room("home"@) == Some(s.insert(user.username@)),
                None => final(players).room("home"@) is None,
            }
            &&& forall|x: Seq<char>| x != "home"@ ==> final(players).room(x) == old(players).room(x)
        },
        !con ==> exists|watched: Seq<char>| {
            &&& final(players).online() == old(players).online().remove(user.username@)
            &&& final(reqs).requests() == old(reqs).requests().remove(user.username@)
            &&& match r.1 {
                Some(g) => old(reqs).requests().contains_key(user.username@)
                    && g == old(reqs).requests()[user.username@],
                None => !old(reqs).requests().contains_key(user.username@),
            }
            &&& match old(players).room("home"@) {
                Some(s) => final(players).room("home"@) == Some(s.remove(user.username@)),
                None => final(players).room("home"@) is None,
            }
            &&& match #[trigger] old(players).room(watched) {
                Some(s) => final(players).room(watched) == Some(s.remove(user.username@)),
                None => final(players).room(watched) is None,
            }
            &&& forall|x: Seq<char>| x != "home"@ && x != watched ==> final(players).room(x)
                == old(players).room(x)
        },
{
    let watched = user.watching();
    connecting_with(players, reqs, user, &watched, con)
}

} // verus!
