use bson::oid::ObjectId;
use lishuuro::models::game::{ShuuroGame, NANOS};
use lishuuro::models::lobby::{
    draw_reply, is_lobby_admin, lobby_request, AcceptOutcome, DrawReply, GameEnd, Lobby, LobbyAction, LobbyEvent,
    LobbyRequest,
};
use lishuuro::models::model::{ActivePlayer, ChatItem, LobbyGame};

fn offer(user: &str, color: &str) -> LobbyGame {
    LobbyGame::new(String::from(user), String::from("shuuro12"), 3, 2, String::from(color))
}

fn player(name: &str) -> ActivePlayer {
    ActivePlayer::new(&true, &String::from(name))
}

#[test]
fn lobby_request_names() {
    assert!(lobby_request("live_chat_full") == Some(LobbyRequest::ChatFull));
    assert!(lobby_request("live_game_buy") == Some(LobbyRequest::Buy));
    assert!(lobby_request("live_game_confirm") == Some(LobbyRequest::Confirm));
    assert!(lobby_request("save_to_db") == Some(LobbyRequest::SaveToDb));
    assert!(lobby_request("just_stop") == Some(LobbyRequest::JustStop));
    assert!(lobby_request("save_all") == None);
}

#[test]
fn draw_replies_and_admin() {
    assert!(draw_reply(5) == DrawReply::Drawn);
    assert!(draw_reply(-2) == DrawReply::Offered);
    assert!(draw_reply(-3) == DrawReply::Silent);
    assert!(is_lobby_admin("ADMIN"));
    assert!(!is_lobby_admin("admin"));
}

#[test]
fn offers_enter_the_lobby_once() {
    let mut lobby = Lobby::new();
    assert!(lobby.add_offer(offer("a", "white")));
    assert!(!lobby.add_offer(offer("a", "black")));
    assert!(!lobby.add_offer(LobbyGame::new(String::from("b"), String::from("chess"), 3, 2, String::from("white"))));
    assert!(lobby.add_offer(offer("b", "white")));
}

#[test]
fn offers_wait_while_games_are_live() {
    let mut lobby = Lobby::new();
    let mut g = ShuuroGame::default_at(0, ObjectId::new());
    g.white = String::from("w");
    g.black = String::from("b");
    lobby.games.add_game_at("g", g, "", 0);
    assert!(!lobby.add_offer(offer("c", "white")));
    assert!(lobby.add_offer(offer("w", "white")));
}

#[test]
fn accepting_offers() {
    let mut lobby = Lobby::new();
    lobby.add_offer(offer("a", "white"));
    lobby.add_offer(offer("b", "black"));
    assert!(matches!(lobby.accept_offer(offer("a", "white"), &player("a"), ObjectId::new()), AcceptOutcome::Withdrawn { removed: true }));
    assert!(matches!(lobby.accept_offer(offer("a", "white"), &player("a"), ObjectId::new()), AcceptOutcome::Withdrawn { removed: false }));
    match lobby.accept_offer(offer("x", "white"), &player("b"), ObjectId::new()) {
        AcceptOutcome::Start { game, players, removed_offer, removed_own } => {
            assert_eq!(players, [String::from("x"), String::from("b")]);
            assert_eq!(game.white, "x");
            assert_eq!(game.black, "b");
            assert_eq!(game.min, 180 * NANOS);
            assert_eq!(game.incr, 2 * NANOS);
            assert!(!removed_offer);
            assert!(removed_own);
        }
        _ => panic!("another user starts a game"),
    }
    let bad = LobbyGame::new(String::from("z"), String::from("shuuro12"), 0, 2, String::from("white"));
    assert!(matches!(lobby.accept_offer(bad, &player("b"), ObjectId::new()), AcceptOutcome::Invalid));
}

#[test]
fn lobby_spectators() {
    let mut lobby = Lobby::new();
    let mut g = ShuuroGame::default_at(0, ObjectId::new());
    g.white = String::from("w");
    g.black = String::from("b");
    lobby.games.add_game_at("g", g, "", 0);
    lobby.games.add_spectator("g", "s");
    lobby.add_spectator("s", "g");
    assert_eq!(lobby.remove_spectator("s"), (true, 2));
    assert_eq!(lobby.remove_spectator("s"), (false, 0));
    lobby.add_spectator("t", "");
    assert_eq!(lobby.remove_spectator("t"), (false, 0));
    lobby.add_spectator("u", "gone");
    assert_eq!(lobby.remove_spectator("u"), (true, 0));
}

#[test]
fn starting_a_game_takes_both_offers_away() {
    let mut lobby = Lobby::new();
    lobby.add_offer(offer("a", "white"));
    lobby.add_offer(offer("c", "black"));
    lobby.add_offer(offer("d", "black"));
    match lobby.accept_offer(offer("a", "white"), &player("c"), ObjectId::new()) {
        AcceptOutcome::Start { removed_offer, removed_own, .. } => {
            assert!(removed_offer);
            assert!(removed_own);
        }
        _ => panic!("another user starts a game"),
    }
    assert!(lobby.lobby.can_add(&offer("a", "white")));
    assert!(lobby.lobby.can_add(&offer("c", "white")));
    assert!(!lobby.lobby.can_add(&offer("d", "white")));
    let mut again = lobby.lobby;
    assert!(again.delete(offer("d", "black")) == 0);
    assert!(again.delete(offer("d", "black")) == -10);
}

fn live_lobby() -> Lobby {
    let mut lobby = Lobby::new();
    let mut g = ShuuroGame::default_at(0, ObjectId::new());
    g.white = String::from("w");
    g.black = String::from("b");
    lobby.games.add_game_at("g", g, "", 0);
    lobby
}

fn event_id(id: &str) -> String {
    String::from(id)
}

#[test]
fn lobby_step_answers_requests() {
    let mut lobby = live_lobby();
    assert!(matches!(lobby.handle_at(&player("w"), LobbyEvent::GamesCount, 1000), LobbyAction::GamesCount { count: 1 }));
    assert!(matches!(lobby.handle_at(&player("w"), LobbyEvent::LobbyFull, 1000), LobbyAction::Offers));
    match lobby.handle_at(&player("w"), LobbyEvent::ChatFull { id: event_id("home") }, 1000) {
        LobbyAction::ChatLines { id, lines } => {
            assert_eq!(id, "home");
            assert!(lines.is_empty());
        }
        _ => panic!("the home room exists"),
    }
    assert!(matches!(lobby.handle_at(&player("w"), LobbyEvent::ChatFull { id: event_id("nowhere") }, 1000), LobbyAction::Error));
    assert!(matches!(lobby.handle_at(&player("w"), LobbyEvent::Sfen { game_id: event_id("g") }, 1000), LobbyAction::Error));
    assert!(matches!(lobby.handle_at(&player("w"), LobbyEvent::JustStop { game_id: event_id("g") }, 1000), LobbyAction::Error));
    assert!(matches!(lobby.handle_at(&player("w"), LobbyEvent::SaveToDb, 1000), LobbyAction::Error));
    match lobby.handle_at(&player("ADMIN"), LobbyEvent::SaveToDb, 1000) {
        LobbyAction::SaveAll { records } => assert_eq!(records.len(), 1),
        _ => panic!("the admin saves every game"),
    }
    let line = ChatItem { id: String::from("home"), user: String::new(), time: String::new(), message: String::from("hi") };
    match lobby.handle_at(&player("w"), LobbyEvent::ChatMessage { item: line }, 1000) {
        LobbyAction::ChatLine { item, to_all } => {
            assert!(to_all);
            assert_eq!(item.user, "w");
            assert_eq!(item.message, "hi");
        }
        _ => panic!("a registered player writes in the home room"),
    }
    let empty = ChatItem { id: String::from("home"), user: String::new(), time: String::new(), message: String::new() };
    assert!(matches!(lobby.handle_at(&player("w"), LobbyEvent::ChatMessage { item: empty }, 1000), LobbyAction::Silent));
}

#[test]
fn lobby_step_offers_and_tv() {
    let mut lobby = Lobby::new();
    match lobby.handle_at(&player("a"), LobbyEvent::LobbyAdd { game: offer("a", "white") }, 1000) {
        LobbyAction::OfferAdded { offer } => assert_eq!(offer.username(), "a"),
        _ => panic!("a first offer enters the lobby"),
    }
    assert!(matches!(lobby.handle_at(&player("a"), LobbyEvent::LobbyAdd { game: offer("a", "black") }, 1000), LobbyAction::Error));
    match lobby.handle_at(&player("a"), LobbyEvent::LobbyAccept { game: offer("a", "white"), record_id: ObjectId::new() }, 1000) {
        LobbyAction::Accepted { outcome: AcceptOutcome::Withdrawn { removed } } => assert!(removed),
        _ => panic!("the owner withdraws its offer"),
    }
    match lobby.handle_at(&player("t"), LobbyEvent::Tv, 1000) {
        LobbyAction::TvGames { games } => assert!(games.is_empty()),
        _ => panic!("the TV answers"),
    }
    match lobby.handle_at(&player("t"), LobbyEvent::RemoveSpectator { game_id: event_id("g") }, 1000) {
        LobbyAction::SpectatorLeft { left, game_id, count } => {
            assert_eq!(left, Some((String::from("tv"), 0)));
            assert_eq!(game_id, "g");
            assert_eq!(count, 0);
        }
        _ => panic!("a spectator leaves"),
    }
}

#[test]
fn lobby_step_ends_games() {
    let mut lobby = live_lobby();
    assert!(matches!(lobby.handle_at(&player("x"), LobbyEvent::Draw { game_id: event_id("g") }, 1000), LobbyAction::Silent));
    match lobby.handle_at(&player("w"), LobbyEvent::Draw { game_id: event_id("g") }, 1000) {
        LobbyAction::DrawOffered { game_id } => assert_eq!(game_id, "g"),
        _ => panic!("white offers a draw"),
    }
    match lobby.handle_at(&player("b"), LobbyEvent::Draw { game_id: event_id("g") }, 1000) {
        LobbyAction::GameEnded { game_id, game, end, count } => {
            assert_eq!(game_id, "g");
            assert_eq!(game.status, 5);
            assert!(end == GameEnd::Drawn);
            assert_eq!(count, 0);
        }
        _ => panic!("black accepts the draw"),
    }
    let mut lobby = live_lobby();
    assert!(matches!(lobby.handle_at(&player("x"), LobbyEvent::Resign { game_id: event_id("g") }, 1000), LobbyAction::Silent));
    match lobby.handle_at(&player("w"), LobbyEvent::Resign { game_id: event_id("g") }, 1000) {
        LobbyAction::GameEnded { game, end, count, .. } => {
            assert_eq!(game.status, 7);
            assert_eq!(game.result, "w");
            assert!(end == GameEnd::Resigned);
            assert_eq!(count, 0);
        }
        _ => panic!("white resigns"),
    }
    assert!(matches!(lobby.handle_at(&player("w"), LobbyEvent::Resign { game_id: event_id("g") }, 1000), LobbyAction::Silent));
}

#[test]
fn lobby_step_other_requests() {
    let mut lobby = live_lobby();
    assert!(matches!(lobby.handle_at(&player("w"), LobbyEvent::Unrecognized, 1000), LobbyAction::Error));
    assert!(matches!(lobby.handle_at(&player("w"), LobbyEvent::News, 1000), LobbyAction::News));
    assert!(matches!(lobby.handle_at(&player("w"), LobbyEvent::PlayersCount { active: 3 }, 1000), LobbyAction::PlayersCount { count: 3 }));
    match lobby.handle_at(&player("s"), LobbyEvent::GameStart { game_id: event_id("g") }, 1000) {
        LobbyAction::GameInfo { game_id, game, count } => {
            assert_eq!(game_id, "g");
            assert_eq!(game.white, "w");
            assert_eq!(count, 3);
        }
        _ => panic!("a live game is shown"),
    }
    assert_eq!(lobby.remove_spectator("s"), (true, 2));
    match lobby.handle_at(&player("s"), LobbyEvent::GameStart { game_id: event_id("old") }, 1000) {
        LobbyAction::LoadGame { game_id } => assert_eq!(game_id, "old"),
        _ => panic!("a finished game is read from the database"),
    }
}

#[test]
fn a_started_game_keeps_its_record_id() {
    let mut lobby = Lobby::new();
    lobby.add_offer(offer("a", "white"));
    let id = ObjectId::new();
    match lobby.accept_offer(offer("a", "white"), &player("b"), id) {
        AcceptOutcome::Start { game, .. } => assert_eq!(game._id, id),
        _ => panic!("another user starts a game"),
    }
}
