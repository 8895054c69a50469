use vstd::prelude::*;

use crate::clock::{time_now_nanos, INSTANT_BOUND_NS};
use crate::models::game::{color_of, ShuuroGame};
use crate::models::live_games::{side, LiveGames};
use crate::models::model::{
    first_offer_index, lemma_valid_minutes, without_offer_of, ActivePlayer, ChatItem, ChatRooms, LobbyGame,
    LobbyGames, TvGame,
};
use crate::names::{find_key, key_map, keys_distinct, put_key, remove_key};
use crate::text::str_eq;

verus! {

/// The requests that the lobby answers, by their `t` field.
#[derive(PartialEq, Eq, Structural)]
pub enum LobbyRequest {
    ChatFull,
    PlayersCount,
    GamesCount,
    Tv,
    RemoveSpectator,
    News,
    GameStart,
    Sfen,
    Buy,
    Confirm,
    Place,
    Play,
    Hand,
    Confirmed,
    Draw,
    Resign,
    ChatMessage,
    LobbyFull,
    JustStop,
    LobbyAdd,
    LobbyAccept,
    SaveToDb,
}

/// The request named by `t`; no other name is answered.
pub open spec fn lobby_request_named(t: Seq<char>) -> Option<LobbyRequest> {
    if t == "live_chat_full"@ {
        Some(LobbyRequest::ChatFull)
    } else if t == "active_players_count"@ {
        Some(LobbyRequest::PlayersCount)
    } else if t == "active_games_count"@ {
        Some(LobbyRequest::GamesCount)
    } else if t == "live_tv"@ {
        Some(LobbyRequest::Tv)
    } else if t == "live_game_remove_spectator"@ {
        Some(LobbyRequest::RemoveSpectator)
    } else if t == "home_news"@ {
        Some(LobbyRequest::News)
    } else if t == "live_game_start"@ {
        Some(LobbyRequest::GameStart)
    } else if t == "live_game_sfen"@ {
        Some(LobbyRequest::Sfen)
    } else if t == "live_game_buy"@ {
        Some(LobbyRequest::Buy)
    } else if t == "live_game_confirm"@ {
        Some(LobbyRequest::Confirm)
    } else if t == "live_game_place"@ {
        Some(LobbyRequest::Place)
    } else if t == "live_game_play"@ {
        Some(LobbyRequest::Play)
    } else if t == "live_game_hand"@ {
        Some(LobbyRequest::Hand)
    } else if t == "live_game_confirmed"@ {
        Some(LobbyRequest::Confirmed)
    } else if t == "live_game_draw"@ {
        Some(LobbyRequest::Draw)
    } else if t == "live_game_resign"@ {
        Some(LobbyRequest::Resign)
    } else if t == "live_chat_message"@ {
        Some(LobbyRequest::ChatMessage)
    } else if t == "home_lobby_full"@ {
        Some(LobbyRequest::LobbyFull)
    } else if t == "just_stop"@ {
        Some(LobbyRequest::JustStop)
    } else if t == "home_lobby_add"@ {
        Some(LobbyRequest::LobbyAdd)
    } else if t == "home_lobby_accept"@ {
        Some(LobbyRequest::LobbyAccept)
    } else if t == "save_to_db"@ {
        Some(LobbyRequest::SaveToDb)
    } else {
        None
    }
}

/// The message type of each lobby request, as the client writes it.
pub open spec fn lobby_request_name(r: LobbyRequest) -> Seq<char> {
    match r {
        LobbyRequest::ChatFull => "live_chat_full"@,
        LobbyRequest::PlayersCount => "active_players_count"@,
        LobbyRequest::GamesCount => "active_games_count"@,
        LobbyRequest::Tv => "live_tv"@,
        LobbyRequest::RemoveSpectator => "live_game_remove_spectator"@,
        LobbyRequest::News => "home_news"@,
        LobbyRequest::GameStart => "live_game_start"@,
        LobbyRequest::Sfen => "live_game_sfen"@,
        LobbyRequest::Buy => "live_game_buy"@,
        LobbyRequest::Confirm => "live_game_confirm"@,
        LobbyRequest::Place => "live_game_place"@,
        LobbyRequest::Play => "live_game_play"@,
        LobbyRequest::Hand => "live_game_hand"@,
        LobbyRequest::Confirmed => "live_game_confirmed"@,
        LobbyRequest::Draw => "live_game_draw"@,
        LobbyRequest::Resign => "live_game_resign"@,
        LobbyRequest::ChatMessage => "live_chat_message"@,
        LobbyRequest::LobbyFull => "home_lobby_full"@,
        LobbyRequest::JustStop => "just_stop"@,
        LobbyRequest::LobbyAdd => "home_lobby_add"@,
        LobbyRequest::LobbyAccept => "home_lobby_accept"@,
        LobbyRequest::SaveToDb => "save_to_db"@,
    }
}

/// The message types of the lobby requests are distinct texts.
proof fn lemma_lobby_names_distinct()
    ensures
        "live_chat_full"@ != "active_players_count"@,
        "live_chat_full"@ != "active_games_count"@,
        "live_chat_full"@ != "live_tv"@,
        "live_chat_full"@ != "live_game_remove_spectator"@,
        "live_chat_full"@ != "home_news"@,
        "live_chat_full"@ != "live_game_start"@,
        "live_chat_full"@ != "live_game_sfen"@,
        "live_chat_full"@ != "live_game_buy"@,
        "live_chat_full"@ != "live_game_confirm"@,
        "live_chat_full"@ != "live_game_place"@,
        "live_chat_full"@ != "live_game_play"@,
        "live_chat_full"@ != "live_game_hand"@,
        "live_chat_full"@ != "live_game_confirmed"@,
        "live_chat_full"@ != "live_game_draw"@,
        "live_chat_full"@ != "live_game_resign"@,
        "live_chat_full"@ != "live_chat_message"@,
        "live_chat_full"@ != "home_lobby_full"@,
        "live_chat_full"@ != "just_stop"@,
        "live_chat_full"@ != "home_lobby_add"@,
        "live_chat_full"@ != "home_lobby_accept"@,
        "live_chat_full"@ != "save_to_db"@,
        "active_players_count"@ != "active_games_count"@,
        "active_players_count"@ != "live_tv"@,
        "active_players_count"@ != "live_game_remove_spectator"@,
        "active_players_count"@ != "home_news"@,
        "active_players_count"@ != "live_game_start"@,
        "active_players_count"@ != "live_game_sfen"@,
        "active_players_count"@ != "live_game_buy"@,
        "active_players_count"@ != "live_game_confirm"@,
        "active_players_count"@ != "live_game_place"@,
        "active_players_count"@ != "live_game_play"@,
        "active_players_count"@ != "live_game_hand"@,
        "active_players_count"@ != "live_game_confirmed"@,
        "active_players_count"@ != "live_game_draw"@,
        "active_players_count"@ != "live_game_resign"@,
        "active_players_count"@ != "live_chat_message"@,
        "active_players_count"@ != "home_lobby_full"@,
        "active_players_count"@ != "just_stop"@,
        "active_players_count"@ != "home_lobby_add"@,
        "active_players_count"@ != "home_lobby_accept"@,
        "active_players_count"@ != "save_to_db"@,
        "active_games_count"@ != "live_tv"@,
        "active_games_count"@ != "live_game_remove_spectator"@,
        "active_games_count"@ != "home_news"@,
        "active_games_count"@ != "live_game_start"@,
        "active_games_count"@ != "live_game_sfen"@,
        "active_games_count"@ != "live_game_buy"@,
        "active_games_count"@ != "live_game_confirm"@,
        "active_games_count"@ != "live_game_place"@,
        "active_games_count"@ != "live_game_play"@,
        "active_games_count"@ != "live_game_hand"@,
        "active_games_count"@ != "live_game_confirmed"@,
        "active_games_count"@ != "live_game_draw"@,
        "active_games_count"@ != "live_game_resign"@,
        "active_games_count"@ != "live_chat_message"@,
        "active_games_count"@ != "home_lobby_full"@,
        "active_games_count"@ != "just_stop"@,
        "active_games_count"@ != "home_lobby_add"@,
        "active_games_count"@ != "home_lobby_accept"@,
        "active_games_count"@ != "save_to_db"@,
        "live_tv"@ != "live_game_remove_spectator"@,
        "live_tv"@ != "home_news"@,
        "live_tv"@ != "live_game_start"@,
        "live_tv"@ != "live_game_sfen"@,
        "live_tv"@ != "live_game_buy"@,
        "live_tv"@ != "live_game_confirm"@,
        "live_tv"@ != "live_game_place"@,
        "live_tv"@ != "live_game_play"@,
        "live_tv"@ != "live_game_hand"@,
        "live_tv"@ != "live_game_confirmed"@,
        "live_tv"@ != "live_game_draw"@,
        "live_tv"@ != "live_game_resign"@,
        "live_tv"@ != "live_chat_message"@,
        "live_tv"@ != "home_lobby_full"@,
        "live_tv"@ != "just_stop"@,
        "live_tv"@ != "home_lobby_add"@,
        "live_tv"@ != "home_lobby_accept"@,
        "live_tv"@ != "save_to_db"@,
        "live_game_remove_spectator"@ != "home_news"@,
        "live_game_remove_spectator"@ != "live_game_start"@,
        "live_game_remove_spectator"@ != "live_game_sfen"@,
        "live_game_remove_spectator"@ != "live_game_buy"@,
        "live_game_remove_spectator"@ != "live_game_confirm"@,
        "live_game_remove_spectator"@ != "live_game_place"@,
        "live_game_remove_spectator"@ != "live_game_play"@,
        "live_game_remove_spectator"@ != "live_game_hand"@,
        "live_game_remove_spectator"@ != "live_game_confirmed"@,
        "live_game_remove_spectator"@ != "live_game_draw"@,
        "live_game_remove_spectator"@ != "live_game_resign"@,
        "live_game_remove_spectator"@ != "live_chat_message"@,
        "live_game_remove_spectator"@ != "home_lobby_full"@,
        "live_game_remove_spectator"@ != "just_stop"@,
        "live_game_remove_spectator"@ != "home_lobby_add"@,
        "live_game_remove_spectator"@ != "home_lobby_accept"@,
        "live_game_remove_spectator"@ != "save_to_db"@,
        "home_news"@ != "live_game_start"@,
        "home_news"@ != "live_game_sfen"@,
        "home_news"@ != "live_game_buy"@,
        "home_news"@ != "live_game_confirm"@,
        "home_news"@ != "live_game_place"@,
        "home_news"@ != "live_game_play"@,
        "home_news"@ != "live_game_hand"@,
        "home_news"@ != "live_game_confirmed"@,
        "home_news"@ != "live_game_draw"@,
        "home_news"@ != "live_game_resign"@,
        "home_news"@ != "live_chat_message"@,
        "home_news"@ != "home_lobby_full"@,
        "home_news"@ != "just_stop"@,
        "home_news"@ != "home_lobby_add"@,
        "home_news"@ != "home_lobby_accept"@,
        "home_news"@ != "save_to_db"@,
        "live_game_start"@ != "live_game_sfen"@,
        "live_game_start"@ != "live_game_buy"@,
        "live_game_start"@ != "live_game_confirm"@,
        "live_game_start"@ != "live_game_place"@,
        "live_game_start"@ != "live_game_play"@,
        "live_game_start"@ != "live_game_hand"@,
        "live_game_start"@ != "live_game_confirmed"@,
        "live_game_start"@ != "live_game_draw"@,
        "live_game_start"@ != "live_game_resign"@,
        "live_game_start"@ != "live_chat_message"@,
        "live_game_start"@ != "home_lobby_full"@,
        "live_game_start"@ != "just_stop"@,
        "live_game_start"@ != "home_lobby_add"@,
        "live_game_start"@ != "home_lobby_accept"@,
        "live_game_start"@ != "save_to_db"@,
        "live_game_sfen"@ != "live_game_buy"@,
        "live_game_sfen"@ != "live_game_confirm"@,
        "live_game_sfen"@ != "live_game_place"@,
        "live_game_sfen"@ != "live_game_play"@,
        "live_game_sfen"@ != "live_game_hand"@,
        "live_game_sfen"@ != "live_game_confirmed"@,
        "live_game_sfen"@ != "live_game_draw"@,
        "live_game_sfen"@ != "live_game_resign"@,
        "live_game_sfen"@ != "live_chat_message"@,
        "live_game_sfen"@ != "home_lobby_full"@,
        "live_game_sfen"@ != "just_stop"@,
        "live_game_sfen"@ != "home_lobby_add"@,
        "live_game_sfen"@ != "home_lobby_accept"@,
        "live_game_sfen"@ != "save_to_db"@,
        "live_game_buy"@ != "live_game_confirm"@,
        "live_game_buy"@ != "live_game_place"@,
        "live_game_buy"@ != "live_game_play"@,
        "live_game_buy"@ != "live_game_hand"@,
        "live_game_buy"@ != "live_game_confirmed"@,
        "live_game_buy"@ != "live_game_draw"@,
        "live_game_buy"@ != "live_game_resign"@,
        "live_game_buy"@ != "live_chat_message"@,
        "live_game_buy"@ != "home_lobby_full"@,
        "live_game_buy"@ != "just_stop"@,
        "live_game_buy"@ != "home_lobby_add"@,
        "live_game_buy"@ != "home_lobby_accept"@,
        "live_game_buy"@ != "save_to_db"@,
        "live_game_confirm"@ != "live_game_place"@,
        "live_game_confirm"@ != "live_game_play"@,
        "live_game_confirm"@ != "live_game_hand"@,
        "live_game_confirm"@ != "live_game_confirmed"@,
        "live_game_confirm"@ != "live_game_draw"@,
        "live_game_confirm"@ != "live_game_resign"@,
        "live_game_confirm"@ != "live_chat_message"@,
        "live_game_confirm"@ != "home_lobby_full"@,
        "live_game_confirm"@ != "just_stop"@,
        "live_game_confirm"@ != "home_lobby_add"@,
        "live_game_confirm"@ != "home_lobby_accept"@,
        "live_game_confirm"@ != "save_to_db"@,
        "live_game_place"@ != "live_game_play"@,
        "live_game_place"@ != "live_game_hand"@,
        "live_game_place"@ != "live_game_confirmed"@,
        "live_game_place"@ != "live_game_draw"@,
        "live_game_place"@ != "live_game_resign"@,
        "live_game_place"@ != "live_chat_message"@,
        "live_game_place"@ != "home_lobby_full"@,
        "live_game_place"@ != "just_stop"@,
        "live_game_place"@ != "home_lobby_add"@,
        "live_game_place"@ != "home_lobby_accept"@,
        "live_game_place"@ != "save_to_db"@,
        "live_game_play"@ != "live_game_hand"@,
        "live_game_play"@ != "live_game_confirmed"@,
        "live_game_play"@ != "live_game_draw"@,
        "live_game_play"@ != "live_game_resign"@,
        "live_game_play"@ != "live_chat_message"@,
        "live_game_play"@ != "home_lobby_full"@,
        "live_game_play"@ != "just_stop"@,
        "live_game_play"@ != "home_lobby_add"@,
        "live_game_play"@ != "home_lobby_accept"@,
        "live_game_play"@ != "save_to_db"@,
        "live_game_hand"@ != "live_game_confirmed"@,
        "live_game_hand"@ != "live_game_draw"@,
        "live_game_hand"@ != "live_game_resign"@,
        "live_game_hand"@ != "live_chat_message"@,
        "live_game_hand"@ != "home_lobby_full"@,
        "live_game_hand"@ != "just_stop"@,
        "live_game_hand"@ != "home_lobby_add"@,
        "live_game_hand"@ != "home_lobby_accept"@,
        "live_game_hand"@ != "save_to_db"@,
        "live_game_confirmed"@ != "live_game_draw"@,
        "live_game_confirmed"@ != "live_game_resign"@,
        "live_game_confirmed"@ != "live_chat_message"@,
        "live_game_confirmed"@ != "home_lobby_full"@,
        "live_game_confirmed"@ != "just_stop"@,
        "live_game_confirmed"@ != "home_lobby_add"@,
        "live_game_confirmed"@ != "home_lobby_accept"@,
        "live_game_confirmed"@ != "save_to_db"@,
        "live_game_draw"@ != "live_game_resign"@,
        "live_game_draw"@ != "live_chat_message"@,
        "live_game_draw"@ != "home_lobby_full"@,
        "live_game_draw"@ != "just_stop"@,
        "live_game_draw"@ != "home_lobby_add"@,
        "live_game_draw"@ != "home_lobby_accept"@,
        "live_game_draw"@ != "save_to_db"@,
        "live_game_resign"@ != "live_chat_message"@,
        "live_game_resign"@ != "home_lobby_full"@,
        "live_game_resign"@ != "just_stop"@,
        "live_game_resign"@ != "home_lobby_add"@,
        "live_game_resign"@ != "home_lobby_accept"@,
        "live_game_resign"@ != "save_to_db"@,
        "live_chat_message"@ != "home_lobby_full"@,
        "live_chat_message"@ != "just_stop"@,
        "live_chat_message"@ != "home_lobby_add"@,
        "live_chat_message"@ != "home_lobby_accept"@,
        "live_chat_message"@ != "save_to_db"@,
        "home_lobby_full"@ != "just_stop"@,
        "home_lobby_full"@ != "home_lobby_add"@,
        "home_lobby_full"@ != "home_lobby_accept"@,
        "home_lobby_full"@ != "save_to_db"@,
        "just_stop"@ != "home_lobby_add"@,
        "just_stop"@ != "home_lobby_accept"@,
        "just_stop"@ != "save_to_db"@,
        "home_lobby_add"@ != "home_lobby_accept"@,
        "home_lobby_add"@ != "save_to_db"@,
        "home_lobby_accept"@ != "save_to_db"@,
{
    reveal_strlit("live_chat_full");
    reveal_strlit("active_players_count");
    reveal_strlit("active_games_count");
    reveal_strlit("live_tv");
    reveal_strlit("live_game_remove_spectator");
    reveal_strlit("home_news");
    reveal_strlit("live_game_start");
    reveal_strlit("live_game_sfen");
    reveal_strlit("live_game_buy");
    reveal_strlit("live_game_confirm");
    reveal_strlit("live_game_place");
    reveal_strlit("live_game_play");
    reveal_strlit("live_game_hand");
    reveal_strlit("live_game_confirmed");
    reveal_strlit("live_game_draw");
    reveal_strlit("live_game_resign");
    reveal_strlit("live_chat_message");
    reveal_strlit("home_lobby_full");
    reveal_strlit("just_stop");
    reveal_strlit("home_lobby_add");
    reveal_strlit("home_lobby_accept");
    reveal_strlit("save_to_db");
    assert("live_chat_full"@.len() == 14);
    assert("active_players_count"@.len() == 20);
    assert("active_games_count"@.len() == 18);
    assert("live_tv"@.len() == 7);
    assert("live_game_remove_spectator"@.len() == 26);
    assert("home_news"@.len() == 9);
    assert("live_game_start"@.len() == 15);
    assert("live_game_sfen"@.len() == 14);
    assert("live_game_buy"@.len() == 13);
    assert("live_game_confirm"@.len() == 17);
    assert("live_game_place"@.len() == 15);
    assert("live_game_play"@.len() == 14);
    assert("live_game_hand"@.len() == 14);
    assert("live_game_confirmed"@.len() == 19);
    assert("live_game_draw"@.len() == 14);
    assert("live_game_resign"@.len() == 16);
    assert("live_chat_message"@.len() == 17);
    assert("home_lobby_full"@.len() == 15);
    assert("just_stop"@.len() == 9);
    assert("home_lobby_add"@.len() == 14);
    assert("home_lobby_accept"@.len() == 17);
    assert("save_to_db"@.len() == 10);
    assert("live_chat_full"@[5] != "live_game_sfen"@[5]);
    assert("live_chat_full"@[5] != "live_game_play"@[5]);
    assert("live_chat_full"@[5] != "live_game_hand"@[5]);
    assert("live_chat_full"@[5] != "live_game_draw"@[5]);
    assert("live_chat_full"@[0] != "home_lobby_add"@[0]);
    assert("home_news"@[0] != "just_stop"@[0]);
    assert("live_game_start"@[10] != "live_game_place"@[10]);
    assert("live_game_start"@[0] != "home_lobby_full"@[0]);
    assert("live_game_sfen"@[10] != "live_game_play"@[10]);
    assert("live_game_sfen"@[10] != "live_game_hand"@[10]);
    assert("live_game_sfen"@[10] != "live_game_draw"@[10]);
    assert("live_game_sfen"@[0] != "home_lobby_add"@[0]);
    assert("live_game_confirm"@[5] != "live_chat_message"@[5]);
    assert("live_game_confirm"@[0] != "home_lobby_accept"@[0]);
    assert("live_game_place"@[0] != "home_lobby_full"@[0]);
    assert("live_game_play"@[10] != "live_game_hand"@[10]);
    assert("live_game_play"@[10] != "live_game_draw"@[10]);
    assert("live_game_play"@[0] != "home_lobby_add"@[0]);
    assert("live_game_hand"@[10] != "live_game_draw"@[10]);
    assert("live_game_hand"@[0] != "home_lobby_add"@[0]);
    assert("live_game_draw"@[0] != "home_lobby_add"@[0]);
    assert("live_chat_message"@[0] != "home_lobby_accept"@[0]);
}

/// Every lobby request is reached from its own message type and from no other:
/// a resignation is never taken for a draw offer, nor any request for another.
pub proof fn lobby_requests_by_their_names(r: LobbyRequest, t: Seq<char>)
    ensures
        lobby_request_named(lobby_request_name(r)) == Some(r),
        lobby_request_named(t) == Some(r) ==> t == lobby_request_name(r),
{
    lemma_lobby_names_distinct();
    match r {
        LobbyRequest::ChatFull => {},
        LobbyRequest::PlayersCount => {},
        LobbyRequest::GamesCount => {},
        LobbyRequest::Tv => {},
        LobbyRequest::RemoveSpectator => {},
        LobbyRequest::News => {},
        LobbyRequest::GameStart => {},
        LobbyRequest::Sfen => {},
        LobbyRequest::Buy => {},
        LobbyRequest::Confirm => {},
        LobbyRequest::Place => {},
        LobbyRequest::Play => {},
        LobbyRequest::Hand => {},
        LobbyRequest::Confirmed => {},
        LobbyRequest::Draw => {},
        LobbyRequest::Resign => {},
        LobbyRequest::ChatMessage => {},
        LobbyRequest::LobbyFull => {},
        LobbyRequest::JustStop => {},
        LobbyRequest::LobbyAdd => {},
        LobbyRequest::LobbyAccept => {},
        LobbyRequest::SaveToDb => {},
    }
}

/// Which lobby request the message type `t` names.
pub fn lobby_request(t: &str) -> (r: Option<LobbyRequest>)
    ensures
        r == lobby_request_named(t@),
{
    if str_eq(t, "live_chat_full") {
        Some(LobbyRequest::ChatFull)
    } else if str_eq(t, "active_players_count") {
        Some(LobbyRequest::PlayersCount)
    } else if str_eq(t, "active_games_count") {
        Some(LobbyRequest::GamesCount)
    } else if str_eq(t, "live_tv") {
        Some(LobbyRequest::Tv)
    } else if str_eq(t, "live_game_remove_spectator") {
        Some(LobbyRequest::RemoveSpectator)
    } else if str_eq(t, "home_news") {
        Some(LobbyRequest::News)
    } else if str_eq(t, "live_game_start") {
        Some(LobbyRequest::GameStart)
    } else if str_eq(t, "live_game_sfen") {
        Some(LobbyRequest::Sfen)
    } else if str_eq(t, "live_game_buy") {
        Some(LobbyRequest::Buy)
    } else if str_eq(t, "live_game_confirm") {
        Some(LobbyRequest::Confirm)
    } else if str_eq(t, "live_game_place") {
        Some(LobbyRequest::Place)
    } else if str_eq(t, "live_game_play") {
        Some(LobbyRequest::Play)
    } else if str_eq(t, "live_game_hand") {
        Some(LobbyRequest::Hand)
    } else if str_eq(t, "live_game_confirmed") {
        Some(LobbyRequest::Confirmed)
    } else if str_eq(t, "live_game_draw") {
        Some(LobbyRequest::Draw)
    } else if str_eq(t, "live_game_resign") {
        Some(LobbyRequest::Resign)
    } else if str_eq(t, "live_chat_message") {
        Some(LobbyRequest::ChatMessage)
    } else if str_eq(t, "home_lobby_full") {
        Some(LobbyRequest::LobbyFull)
    } else if str_eq(t, "just_stop") {
        Some(LobbyRequest::JustStop)
    } else if str_eq(t, "home_lobby_add") {
        Some(LobbyRequest::LobbyAdd)
    } else if str_eq(t, "home_lobby_accept") {
        Some(LobbyRequest::LobbyAccept)
    } else if str_eq(t, "save_to_db") {
        Some(LobbyRequest::SaveToDb)
    } else {
        None
    }
}

/// How the lobby answers a draw request of the live games.
#[derive(PartialEq, Eq, Structural)]
pub enum DrawReply {
    /// Both players agreed: the game is drawn and leaves.
    Drawn,
    /// A player offered a draw.
    Offered,
    /// Nothing is sent.
    Silent,
}

/// The reply to a draw request that the live games answered with `code`.
pub fn draw_reply(code: i8) -> (r: DrawReply)
    ensures
        code == 5 ==> r == DrawReply::Drawn,
        code == -2 ==> r == DrawReply::Offered,
        code != 5 && code != -2 ==> r == DrawReply::Silent,
{
    if code == 5 {
        DrawReply::Drawn
    } else if code == -2 {
        DrawReply::Offered
    } else {
        DrawReply::Silent
    }
}

/// Only this user may save all games.
pub fn is_lobby_admin(username: &str) -> (r: bool)
    ensures
        r == (username@ == "ADMIN"@),
{
    str_eq(username, "ADMIN")
}

/// Whether a deletion at position `p` is reported: the position, taken as an
/// `i32`, is not negative.
pub open spec fn reported_removed(p: Option<int>) -> bool {
    match p {
        Some(i) => (i as i32) >= 0,
        None => false,
    }
}

/// What accepting a lobby offer does.
pub enum AcceptOutcome {
    /// The offer is not valid: an error goes back.
    Invalid,
    /// The user who made the offer accepted it: the offer is withdrawn;
    /// `removed` says whether it was in the lobby.
    Withdrawn { removed: bool },
    /// Another user accepted: the game to start, its players (white first),
    /// and whether the offer and an offer of the accepting user were removed.
    Start { game: ShuuroGame, players: [String; 2], removed_offer: bool, removed_own: bool },
}

/// The lobby: its chat rooms, the game each user watches, the live games and
/// the offers.
pub struct Lobby {
    pub chat2: ChatRooms,
    pub spectators: Vec<(String, String)>,
    pub games: LiveGames,
    pub lobby: LobbyGames,
}

impl Lobby {
    pub open spec fn well_formed(&self) -> bool {
        &&& self.chat2.well_formed()
        &&& keys_distinct(self.spectators@)
        &&& self.games.well_formed()
    }

    /// The game that each user watches.
    pub open spec fn watching(&self) -> Map<Seq<char>, String> {
        key_map(self.spectators@)
    }

    /// A lobby with the home chat, no spectators, no live games and no offers.
    pub fn new() -> (l: Self)
        ensures
            l.well_formed(),
            l.watching() == Map::<Seq<char>, String>::empty(),
            l.chat2.room("home"@) == Some(Seq::<crate::models::model::ChatItem>::empty()),
            l.games.games() == Map::<Seq<char>, crate::models::live_games::ShuuroLive>::empty(),
            l.lobby.games() == Seq::<LobbyGame>::empty(),
    {
        let l = Lobby {
            chat2: ChatRooms::new(),
            spectators: Vec::new(),
            games: LiveGames::default(),
            lobby: LobbyGames::default(),
        };
        assert(key_map(l.spectators@) =~= Map::<Seq<char>, String>::empty());
        l
    }

    /// `username` now watches game `game_id`.
    pub fn add_spectator(&mut self, username: &str, game_id: &str)
        requires
            old(self).well_formed(),
        ensures
            final(self).well_formed(),
            final(self).watching().dom() == old(self).watching().dom().insert(username@),
            final(self).watching()[username@]@ == game_id@,
            forall|u: Seq<char>| u != username@ && #[trigger] old(self).watching().contains_key(u)
                ==> final(self).watching()[u] == old(self).watching()[u],
            final(self).games == old(self).games,
            final(self).chat2 == old(self).chat2,
            final(self).lobby == old(self).lobby,
    {
        let ghost before = self.spectators@;
        put_key(&mut self.spectators, username, game_id.to_owned());
        proof {
            assert(key_map(self.spectators@).dom() =~= key_map(before).dom().insert(username@));
        }
    }

    /// `username` stops watching. When it watched a game, it leaves that
    /// game's spectators: true and their number come back, else false and 0.
    pub fn remove_spectator(&mut self, username: &str) -> (r: (bool, usize))
        requires
            old(self).well_formed(),
        ensures
            final(self).well_formed(),
            final(self).chat2 == old(self).chat2,
            final(self).lobby == old(self).lobby,
            final(self).watching() == old(self).watching().remove(username@),
            match old(self).watching().get(username@) {
                Some(game_id) if game_id@ != Seq::<char>::empty() => match old(self).games.games().get(game_id@) {
                    Some(g) => {
                        &&& r.0
                        &&& final(self).games.games() == old(self).games.games().insert(
                            game_id@,
                            final(self).games.games()[game_id@],
                        )
                        &&& final(self).games.games()[game_id@].watchers() == g.watchers().remove(username@)
                        &&& r.1 == final(self).games.games()[game_id@].watchers().len()
                    },
                    None => r == (true, 0usize) && final(self).games.games() == old(self).games.games(),
                },
                _ => r == (false, 0usize) && final(self).games == old(self).games,
            },
    {
        let ghost before = self.spectators@;
        let removed = remove_key(&mut self.spectators, username);
        proof {
            assert(key_map(self.spectators@) =~= key_map(before).remove(username@));
        }
        match removed {
            Some(entry) => {
                if entry.1.unicode_len() != 0 {
                    let count = self.games.remove_spectator(entry.1.as_str(), username);
                    (true, count)
                } else {
                    proof {
                        assert(entry.1@ =~= Seq::<char>::empty());
                    }
                    (false, 0)
                }
            },
            None => (false, 0),
        }
    }

    /// A new offer goes into the lobby when it is valid, its user has no
    /// offer there, and the live games let the user start a game.
    pub fn add_offer(&mut self, game: LobbyGame) -> (added: bool)
        requires
            old(self).well_formed(),
        ensures
            final(self).well_formed(),
            added == (game.valid() && !crate::models::model::owners(old(self).lobby.games()).contains(game.owner())
                && forall|id: Seq<char>| #[trigger] old(self).games.games().contains_key(id) ==> (
                old(self).games.games()[id].game.white@ == game.owner() || old(self).games.games()[id].game.black@
                == game.owner())),
            added ==> final(self).lobby.games() == old(self).lobby.games().push(game),
            !added ==> final(self).lobby.games() == old(self).lobby.games(),
            final(self).games == old(self).games,
            final(self).watching() == old(self).watching(),
            final(self).chat2 == old(self).chat2,
            final(self).spectators == old(self).spectators,
    {
        if game.is_valid() {
            if self.lobby.can_add(&game) {
                let name = game.username();
                if self.games.can_add(name.as_str()) {
                    self.lobby.add(game);
                    return true;
                }
            }
        }
        false
    }

    /// `player` accepts the offer `game`.
    pub fn accept_offer(&mut self, game: LobbyGame, player: &ActivePlayer, id: ::bson::oid::ObjectId) -> (r: AcceptOutcome)
        requires
            old(self).well_formed(),
        ensures
            final(self).well_formed(),
            final(self).games == old(self).games,
            final(self).watching() == old(self).watching(),
            final(self).chat2 == old(self).chat2,
            final(self).spectators == old(self).spectators,
            !game.valid() ==> r is Invalid && final(self).lobby.games() == old(self).lobby.games(),
            game.valid() && game.owner() == player.name() ==> {
                &&& r == (AcceptOutcome::Withdrawn { removed: reported_removed(old(self).lobby.position_first(game.owner())) })
                &&& match old(self).lobby.position_first(game.owner()) {
                    Some(i) => final(self).lobby.games() == old(self).lobby.games().remove(i),
                    None => final(self).lobby.games() == old(self).lobby.games(),
                }
            },
            game.valid() && game.owner() != player.name() ==> (r matches AcceptOutcome::Start {
                game: g,
                players,
                removed_offer,
                removed_own,
            } && (exists|coin: bool| players[0]@ == (#[trigger] game.colors_for(player.name(), coin)).0
                && players[1]@ == game.colors_for(player.name(), coin).1) && g.white == players[0]
                && g.black == players[1] && g.min == game.minutes() * 60 * crate::models::game::NANOS
                && g.incr == game.increment() * crate::models::game::NANOS && g.status == -2
                && g.current_stage == 0 && g._id == id && removed_offer == reported_removed(old(self).lobby.position_first(game.owner()))
                && removed_own == first_offer_index(without_offer_of(old(self).lobby.games(), game.owner()), player.name()) is Some
                && final(self).lobby.games() == without_offer_of(
                without_offer_of(old(self).lobby.games(), game.owner()),
                player.name(),
            )),
    {
        if !game.is_valid() {
            return AcceptOutcome::Invalid;
        }
        proof {
            lemma_valid_minutes(game);
        }
        let me = player.username();
        let owner = game.username();
        if str_eq(owner.as_str(), me.as_str()) {
            let deleted = self.lobby.delete(game);
            return AcceptOutcome::Withdrawn { removed: deleted >= 0 };
        }
        let mut offer = game;
        let players = offer.colors(&me);
        let mut shuuro_game = ShuuroGame::from(&offer, id);
        shuuro_game.white = players[0].clone();
        shuuro_game.black = players[1].clone();
        let deleted = self.lobby.delete(offer);
        let removed_own = self.lobby.delete_by_user(player);
        AcceptOutcome::Start { game: shuuro_game, players, removed_offer: deleted >= 0, removed_own }
    }
}


/// A request to the lobby, with what the socket read from its message.
pub enum LobbyEvent {
    ChatFull { id: String },
    GamesCount,
    Tv,
    RemoveSpectator { game_id: String },
    Sfen { game_id: String },
    Draw { game_id: String },
    Resign { game_id: String },
    ChatMessage { item: ChatItem },
    LobbyFull,
    JustStop { game_id: String },
    LobbyAdd { game: LobbyGame },
    LobbyAccept { game: LobbyGame, record_id: ::bson::oid::ObjectId },
    SaveToDb,
    /// The requester asks for the number of connected players, which the
    /// sockets know: `active`.
    PlayersCount { active: usize },
    /// The requester asks for the news.
    News,
    /// The requester opens game `game_id`.
    GameStart { game_id: String },
    /// A message that is not JSON, has no string `t`, or names no request.
    Unrecognized,
}

/// How a game left the lobby.
#[derive(PartialEq, Eq, Structural)]
pub enum GameEnd {
    Drawn,
    Resigned,
}

/// What the lobby sends, and the work it starts, after one request.
pub enum LobbyAction {
    /// Nothing is sent.
    Silent,
    /// An error goes back to the requester.
    Error,
    /// The lines of chat room `id`, to the requester.
    ChatLines { id: String, lines: Vec<ChatItem> },
    /// The number of live games, to the requester.
    GamesCount { count: usize },
    /// The games on TV, to the requester, who now watches the TV.
    TvGames { games: Vec<TvGame> },
    /// The requester stopped watching: the new spectator count of the game it
    /// watched, if any, and that of `game_id`, each to that game's spectators.
    SpectatorLeft { left: Option<(String, usize)>, game_id: String, count: usize },
    /// The position and stage of a game past the shop, to the requester.
    Sfen { game_id: String, sfen: String, stage: u8 },
    /// The requester offers a draw; its spectators hear of it.
    DrawOffered { game_id: String },
    /// The game ended: its spectators hear how, the record `game` is saved, the
    /// game leaves and the number of live games, `count`, goes to everyone.
    GameEnded { game_id: String, game: ShuuroGame, end: GameEnd, count: usize },
    /// A chat line: to everyone for the home room, else to the room's spectators.
    ChatLine { item: ChatItem, to_all: bool },
    /// The offers of the lobby, to the requester.
    Offers,
    /// A new offer, to everyone.
    OfferAdded { offer: LobbyGame },
    /// An offer was answered.
    Accepted { outcome: AcceptOutcome },
    /// Every live game is saved and everyone is told that the server restarts.
    SaveAll { records: Vec<(String, ShuuroGame)> },
    /// The number of connected players, to the requester.
    PlayersCount { count: usize },
    /// The news are read from the database and go to the requester.
    News,
    /// The live game `game_id` goes to the requester, who now watches it; its
    /// spectator count goes to its spectators.
    GameInfo { game_id: String, game: ShuuroGame, count: usize },
    /// Game `game_id` is not live: it is read from the database for the requester.
    LoadGame { game_id: String },
}

/// A copy of a chat room.
fn copy_items(v: &Vec<ChatItem>) -> (c: Vec<ChatItem>)
    ensures
        c@ == v@,
{
    let mut c: Vec<ChatItem> = Vec::new();
    let mut i: usize = 0;
    while i < v.len()
        invariant
            i <= v@.len(),
            c@ == v@.subrange(0, i as int),
        decreases v@.len() - i,
    {
        c.push(v[i].clone());
        assert(c@ =~= v@.subrange(0, i + 1));
        i = i + 1;
    }
    assert(v@.subrange(0, i as int) =~= v@);
    c
}

/// A resignation clicks the clock of its game: that clock can take one more click.
pub open spec fn resign_clock_safe(l: Lobby, event: LobbyEvent) -> bool {
    match event {
        LobbyEvent::Resign { game_id } => l.games.games().contains_key(game_id@)
            ==> l.games.games()[game_id@].time_control.click_safe(),
        _ => true,
    }
}

impl Lobby {
    /// Only the live games may have changed.
    pub open spec fn rest_kept(a: Lobby, b: Lobby) -> bool {
        &&& b.chat2 == a.chat2
        &&& b.spectators == a.spectators
        &&& b.lobby == a.lobby
    }

    /// The answer to a draw request of `who` in game `id`.
    pub open spec fn draw_handled(a: Lobby, id: Seq<char>, who: Seq<char>, out: LobbyAction, b: Lobby) -> bool {
        &&& Lobby::rest_kept(a, b)
        &&& match a.games.games().get(id) {
            None => out is Silent && b.games.games() == a.games.games(),
            Some(g) => {
                let c = color_of(g.game.white@, g.game.black@, who);
                let offered = c != 2 && !g.draws[c as int];
                let d0 = (offered && c == 0) || g.draws[0];
                let d1 = (offered && c == 1) || g.draws[1];
                if d0 && d1 {
                    &&& b.games.games() == a.games.games().remove(id)
                    &&& out matches LobbyAction::GameEnded { game_id, game, end, count }
                        && game_id@ == id && end == GameEnd::Drawn && count == b.games.games().len()
                        && game.same(ShuuroGame { status: 5, ..g.game })
                } else {
                    &&& b.games.games().dom() == a.games.games().dom()
                    &&& forall|x: Seq<char>| x != id ==> #[trigger] b.games.games().get(x) == a.games.games().get(x)
                    &&& b.games.games()[id].draws == [d0, d1]
                    &&& b.games.games()[id].game == g.game
                    &&& b.games.games()[id].time_control == g.time_control
                    &&& b.games.games()[id].watchers() == g.watchers()
                    &&& if offered {
                        out matches LobbyAction::DrawOffered { game_id } && game_id@ == id
                    } else {
                        out is Silent
                    }
                }
            },
        }
    }

    /// The answer when `who` resigns game `id` at `now`.
    pub open spec fn resign_handled(a: Lobby, id: Seq<char>, who: Seq<char>, now: int, out: LobbyAction, b: Lobby) -> bool {
        &&& Lobby::rest_kept(a, b)
        &&& match a.games.games().get(id) {
            None => out is Silent && b.games.games() == a.games.games(),
            Some(g) => {
                let c = color_of(g.game.white@, g.game.black@, who);
                if c == 2 {
                    out is Silent && b.games.games() == a.games.games()
                } else {
                    &&& b.games.games() == a.games.games().remove(id)
                    &&& out matches LobbyAction::GameEnded { game_id, game, end, count }
                        && game_id@ == id && end == GameEnd::Resigned && count == b.games.games().len()
                        && game.result@ == side(c)
                        && game.last_clock == g.time_control.after_click(side(c), now).last_click
                        && game.same(ShuuroGame { status: 7, result: game.result, last_clock: game.last_clock, ..g.game })
                }
            },
        }
    }

    /// What the lobby does for request `event` of `player` at `now`.
    pub open spec fn handled(a: Lobby, player: ActivePlayer, event: LobbyEvent, now: int, out: LobbyAction, b: Lobby) -> bool {
        match event {
            LobbyEvent::ChatFull { id } => {
                &&& b == a
                &&& match a.chat2.room(id@) {
                    Some(c) => out matches LobbyAction::ChatLines { id: rid, lines } && rid == id && lines@ == c,
                    None => out is Error,
                }
            },
            LobbyEvent::GamesCount => b == a && out == (LobbyAction::GamesCount { count: a.games.games().len() as usize }),
            LobbyEvent::Tv => {
                &&& b.games == a.games && b.chat2 == a.chat2 && b.lobby == a.lobby
                &&& b.watching().dom() == a.watching().dom().insert(player.name())
                &&& b.watching()[player.name()]@ == "tv"@
                &&& forall|u: Seq<char>| u != player.name() && #[trigger] a.watching().contains_key(u)
                    ==> b.watching()[u] == a.watching()[u]
                &&& out matches LobbyAction::TvGames { games } && forall|k: int| 0 <= k < games@.len() ==> a.games.on_tv(
                    #[trigger] games@[k],
                )
            },
            LobbyEvent::RemoveSpectator { game_id } => {
                &&& b.chat2 == a.chat2 && b.lobby == a.lobby
                &&& b.watching() == a.watching().remove(player.name())
                &&& b.games.games().dom() == a.games.games().dom()
                &&& out matches LobbyAction::SpectatorLeft { left, game_id: gid, count } && gid == game_id
                    && match a.watching().get(player.name()) {
                        Some(w) if w@ != Seq::<char>::empty() => left matches Some(p) && p.0 == w,
                        _ => left is None,
                    } && match b.games.games().get(game_id@) {
                        Some(g) => !g.watchers().contains(player.name()) && count == g.watchers().len(),
                        None => count == 0,
                    }
            },
            LobbyEvent::Sfen { game_id } => {
                &&& b == a
                &&& match a.games.games().get(game_id@) {
                    Some(g) if g.game.current_stage != 0 => out matches LobbyAction::Sfen { game_id: gid, sfen, stage }
                        && gid@ == game_id@ && sfen == g.game.sfen && stage == g.game.current_stage,
                    _ => out is Error,
                }
            },
            LobbyEvent::Draw { game_id } => Lobby::draw_handled(a, game_id@, player.name(), out, b),
            LobbyEvent::Resign { game_id } => Lobby::resign_handled(a, game_id@, player.name(), now, out, b),
            LobbyEvent::ChatMessage { item } => {
                &&& b.games == a.games && b.spectators == a.spectators && b.lobby == a.lobby
                &&& if a.chat2.accepts(item.id@, item, player) {
                    &&& out matches LobbyAction::ChatLine { item: stored, to_all }
                        && stored.user@ == player.name() && stored.id == item.id && stored.message == item.message
                        && to_all == (item.id@ == "home"@)
                        && b.chat2.room(item.id@) == Some(a.chat2.room(item.id@)->0.push(stored))
                    &&& forall|x: Seq<char>| x != item.id@ ==> b.chat2.room(x) == a.chat2.room(x)
                } else {
                    out is Silent && b.chat2 == a.chat2
                }
            },
            LobbyEvent::LobbyFull => b == a && out is Offers,
            LobbyEvent::JustStop { game_id } => {
                &&& Lobby::rest_kept(a, b)
                &&& out is Error
                &&& match a.games.games().get(game_id@) {
                    None => b.games.games() == a.games.games(),
                    Some(g) => {
                        &&& b.games.games() == a.games.games().insert(game_id@, b.games.games()[game_id@])
                        &&& !b.games.games()[game_id@].running
                        &&& b.games.games()[game_id@].game == g.game
                    },
                }
            },
            LobbyEvent::LobbyAdd { game } => {
                &&& b.games == a.games && b.chat2 == a.chat2 && b.spectators == a.spectators
                &&& if game.valid() && !crate::models::model::owners(a.lobby.games()).contains(game.owner())
                    && forall|id: Seq<char>| #[trigger] a.games.games().contains_key(id) ==> (
                    a.games.games()[id].game.white@ == game.owner() || a.games.games()[id].game.black@ == game.owner()) {
                    out == (LobbyAction::OfferAdded { offer: game }) && b.lobby.games() == a.lobby.games().push(game)
                } else {
                    out is Error && b.lobby.games() == a.lobby.games()
                }
            },
            LobbyEvent::LobbyAccept { game, record_id } => {
                &&& b.games == a.games && b.chat2 == a.chat2 && b.spectators == a.spectators
                &&& out matches LobbyAction::Accepted { outcome } && Lobby::accepted(a, game, player, record_id, outcome, b)
            },
            LobbyEvent::PlayersCount { active } => b == a && out == (LobbyAction::PlayersCount { count: active }),
            LobbyEvent::News => b == a && out is News,
            LobbyEvent::Unrecognized => b == a && out is Error,
            LobbyEvent::GameStart { game_id } => match a.games.games().get(game_id@) {
                None => {
                    &&& b == a
                    &&& out matches LobbyAction::LoadGame { game_id: gid } && gid == game_id
                },
                Some(g) => {
                    &&& b.chat2 == a.chat2 && b.lobby == a.lobby
                    &&& b.games.games() == a.games.games().insert(game_id@, b.games.games()[game_id@])
                    &&& b.games.games()[game_id@].watchers() == g.watchers().insert(player.name())
                    &&& b.games.games()[game_id@].game == g.game
                    &&& b.watching().dom() == a.watching().dom().insert(player.name())
                    &&& b.watching()[player.name()]@ == game_id@
                    &&& forall|u: Seq<char>| u != player.name() && #[trigger] a.watching().contains_key(u)
                        ==> b.watching()[u] == a.watching()[u]
                    &&& out matches LobbyAction::GameInfo { game_id: gid, game, count } && gid@ == game_id@
                        && game.same(g.game) && count == b.games.games()[game_id@].watchers().len()
                },
            },
            LobbyEvent::SaveToDb => {
                &&& b == a
                &&& if player.name() == "ADMIN"@ {
                    out matches LobbyAction::SaveAll { records } && records@.len() == a.games.games().len()
                        && forall|k: int| 0 <= k < records@.len() ==> #[trigger] a.games.games().contains_key(records@[k].0@)
                        && records@[k].1.same(a.games.games()[records@[k].0@].game)
                } else {
                    out is Error
                }
            },
        }
    }

    /// What answering the offer `game` of `player` did to the lobby's offers.
    pub open spec fn accepted(a: Lobby, game: LobbyGame, player: ActivePlayer, record_id: ::bson::oid::ObjectId, outcome: AcceptOutcome, b: Lobby) -> bool {
        &&& !game.valid() ==> outcome is Invalid && b.lobby.games() == a.lobby.games()
        &&& game.valid() && game.owner() == player.name() ==> {
            &&& outcome == (AcceptOutcome::Withdrawn { removed: reported_removed(a.lobby.position_first(game.owner())) })
            &&& b.lobby.games() == without_offer_of(a.lobby.games(), game.owner())
        }
        &&& game.valid() && game.owner() != player.name() ==> (outcome matches AcceptOutcome::Start {
            game: g,
            players,
            removed_offer,
            removed_own,
        } && (exists|coin: bool| players[0]@ == (#[trigger] game.colors_for(player.name(), coin)).0
            && players[1]@ == game.colors_for(player.name(), coin).1) && g.white == players[0]
            && g.black == players[1] && g._id == record_id && removed_offer == reported_removed(a.lobby.position_first(game.owner()))
            && removed_own == first_offer_index(without_offer_of(a.lobby.games(), game.owner()), player.name()) is Some
            && b.lobby.games() == without_offer_of(without_offer_of(a.lobby.games(), game.owner()), player.name()))
    }
}


impl Lobby {
    fn handle_draw(&mut self, game_id: String, player: &ActivePlayer) -> (out: LobbyAction)
        requires
            old(self).well_formed(),
        ensures
            final(self).well_formed(),
            Lobby::draw_handled(*old(self), game_id@, player.name(), out, *final(self)),
    {
        let me = player.username();
        let code = self.games.draw_req(game_id.as_str(), me.as_str());
        if code == 5 {
            match self.games.get_game(game_id.as_str()) {
                Some(p) => {
                    self.games.remove_game(game_id.as_str());
                    proof {
                        assert(self.games.games() =~= old(self).games.games().remove(game_id@));
                    }
                    let count = self.games.len();
                    LobbyAction::GameEnded { game_id, game: p.1, end: GameEnd::Drawn, count }
                },
                None => LobbyAction::Silent,
            }
        } else {
            proof {
                if old(self).games.games().contains_key(game_id@) {
                    assert(self.games.games().dom() =~= old(self).games.games().dom());
                }
            }
            if code == -2 {
                LobbyAction::DrawOffered { game_id }
            } else {
                LobbyAction::Silent
            }
        }
    }

    fn handle_resign(&mut self, game_id: String, player: &ActivePlayer, now: i128) -> (out: LobbyAction)
        requires
            old(self).well_formed(),
            old(self).games.games().contains_key(game_id@) ==> old(self).games.games()[game_id@].time_control.click_safe(),
            -INSTANT_BOUND_NS < now < INSTANT_BOUND_NS,
        ensures
            final(self).well_formed(),
            Lobby::resign_handled(*old(self), game_id@, player.name(), now as int, out, *final(self)),
    {
        let me = player.username();
        let resigned = self.games.resign_at(game_id.as_str(), me.as_str(), now);
        if resigned {
            match self.games.get_game(game_id.as_str()) {
                Some(p) => {
                    self.games.remove_game(game_id.as_str());
                    proof {
                        assert(self.games.games() =~= old(self).games.games().remove(game_id@));
                    }
                    let count = self.games.len();
                    LobbyAction::GameEnded { game_id, game: p.1, end: GameEnd::Resigned, count }
                },
                None => LobbyAction::Silent,
            }
        } else {
            proof {
                if old(self).games.games().contains_key(game_id@) {
                    assert(self.games.games() =~= old(self).games.games());
                }
            }
            LobbyAction::Silent
        }
    }

    fn handle_spectator_left(&mut self, game_id: String, player: &ActivePlayer) -> (out: LobbyAction)
        requires
            old(self).well_formed(),
        ensures
            final(self).well_formed(),
            final(self).chat2 == old(self).chat2 && final(self).lobby == old(self).lobby,
            final(self).watching() == old(self).watching().remove(player.name()),
            final(self).games.games().dom() == old(self).games.games().dom(),
            out matches LobbyAction::SpectatorLeft { left, game_id: gid, count } && gid == game_id
                && match old(self).watching().get(player.name()) {
                    Some(w) if w@ != Seq::<char>::empty() => left matches Some(p) && p.0 == w,
                    _ => left is None,
                } && match final(self).games.games().get(game_id@) {
                    Some(g) => !g.watchers().contains(player.name()) && count == g.watchers().len(),
                    None => count == 0,
                },
    {
        let me = player.username();
        let watched = match find_key(&self.spectators, me.as_str()) {
            Some(i) => Some(self.spectators[i].1.clone()),
            None => None,
        };
        let (was_watching, left_count) = self.remove_spectator(me.as_str());
        let left = match watched {
            Some(w) => {
                if was_watching {
                    Some((w, left_count))
                } else {
                    None
                }
            },
            None => None,
        };
        let count = self.games.remove_spectator(game_id.as_str(), me.as_str());
        proof {
            if self.games.games().contains_key(game_id@) {
                assert(!self.games.games()[game_id@].watchers().contains(player.name()));
            }
        }
        LobbyAction::SpectatorLeft { left, game_id, count }
    }

    /// Answer request `event` of `player`, with `now` as the time of a resignation.
    pub fn handle_at(&mut self, player: &ActivePlayer, event: LobbyEvent, now: i128) -> (out: LobbyAction)
        requires
            old(self).well_formed(),
            resign_clock_safe(*old(self), event),
            -INSTANT_BOUND_NS < now < INSTANT_BOUND_NS,
        ensures
            final(self).well_formed(),
            Lobby::handled(*old(self), *player, event, now as int, out, *final(self)),
    {
        match event {
            LobbyEvent::ChatFull { id } => match self.chat2.chat(&id) {
                Some(c) => {
                    let lines = copy_items(c);
                    LobbyAction::ChatLines { id, lines }
                },
                None => LobbyAction::Error,
            },
            LobbyEvent::GamesCount => LobbyAction::GamesCount { count: self.games.len() },
            LobbyEvent::Tv => {
                let games = self.games.get_tv();
                let me = player.username();
                self.add_spectator(me.as_str(), "tv");
                proof {
                    reveal_strlit("tv");
                }
                LobbyAction::TvGames { games }
            },
            LobbyEvent::RemoveSpectator { game_id } => self.handle_spectator_left(game_id, player),
            LobbyEvent::Sfen { game_id } => match self.games.get_game(game_id.as_str()) {
                Some(p) => {
                    if p.1.current_stage != 0 {
                        LobbyAction::Sfen { game_id: p.0, sfen: p.1.sfen, stage: p.1.current_stage }
                    } else {
                        LobbyAction::Error
                    }
                },
                None => LobbyAction::Error,
            },
            LobbyEvent::Draw { game_id } => self.handle_draw(game_id, player),
            LobbyEvent::Resign { game_id } => self.handle_resign(game_id, player, now),
            LobbyEvent::ChatMessage { item } => {
                let id = item.id.clone();
                let mut m = item;
                match self.chat2.add_msg(&id, &mut m, player) {
                    Some(stored) => {
                        let to_all = str_eq(id.as_str(), "home");
                        LobbyAction::ChatLine { item: stored, to_all }
                    },
                    None => LobbyAction::Silent,
                }
            },
            LobbyEvent::LobbyFull => LobbyAction::Offers,
            LobbyEvent::JustStop { game_id } => {
                self.games.stop(game_id.as_str());
                LobbyAction::Error
            },
            LobbyEvent::LobbyAdd { game } => {
                let offer = game.clone();
                if self.add_offer(game) {
                    LobbyAction::OfferAdded { offer }
                } else {
                    LobbyAction::Error
                }
            },
            LobbyEvent::LobbyAccept { game, record_id } => {
                let outcome = self.accept_offer(game, player, record_id);
                LobbyAction::Accepted { outcome }
            },
            LobbyEvent::PlayersCount { active } => LobbyAction::PlayersCount { count: active },
            LobbyEvent::News => LobbyAction::News,
            LobbyEvent::Unrecognized => LobbyAction::Error,
            LobbyEvent::GameStart { game_id } => match self.games.get_game(game_id.as_str()) {
                Some(p) => {
                    let me = player.username();
                    let count = self.games.add_spectator(game_id.as_str(), me.as_str());
                    self.add_spectator(me.as_str(), game_id.as_str());
                    LobbyAction::GameInfo { game_id: p.0, game: p.1, count }
                },
                None => LobbyAction::LoadGame { game_id },
            },
            LobbyEvent::SaveToDb => {
                let me = player.username();
                if is_lobby_admin(me.as_str()) {
                    LobbyAction::SaveAll { records: self.games.get_all() }
                } else {
                    LobbyAction::Error
                }
            },
        }
    }

    /// Answer request `event` of `player` now.
    pub fn handle(&mut self, player: &ActivePlayer, event: LobbyEvent) -> (out: LobbyAction)
        requires
            old(self).well_formed(),
            resign_clock_safe(*old(self), event),
        ensures
            final(self).well_formed(),
            exists|now: int| -INSTANT_BOUND_NS < now < INSTANT_BOUND_NS
                && #[trigger] Lobby::handled(*old(self), *player, event, now, out, *final(self)),
    {
        let now = time_now_nanos();
        self.handle_at(player, event, now)
    }
}

} // verus!
