use lishuuro::database::redis::{CookieValue, UserSession};
use lishuuro::websockets::game_requests::{duration_allowed, is_known_variant, GameReqs, GameRequest};
use lishuuro::websockets::messages::{
    accept_action, after_fight_move, chat_recipients, clock_poll_done, clock_watch, connecting, game_recipients,
    is_admin, ws_request, AcceptAction, ClockWatch, SendTo, WsRequest,
};
use lishuuro::websockets::rooms::{ChatMsg, ChatRooms, Players};
use lishuuro::websockets::time_control::TimeCheck;

fn user(name: &str, reg: bool) -> UserSession {
    UserSession::new(name, "key", reg, "", CookieValue::default())
}

fn request(name: &str, color: &str) -> GameRequest {
    GameRequest {
        username: String::from(name),
        variant: String::from("shuuro"),
        time: 10,
        incr: 5,
        sub_variant: None,
        color: String::from(color),
    }
}

fn msg(text: &str, id: &str) -> ChatMsg {
    ChatMsg::_new(String::new(), String::new(), String::from(text), String::from(id))
}

#[test]
fn players_join_and_leave() {
    let mut p = Players::default();
    assert_eq!(p.add_player("a"), 1);
    assert_eq!(p.add_player("b"), 2);
    assert_eq!(p.add_player("a"), 2);
    assert_eq!(p.remove_player(&String::from("a")), 1);
    assert_eq!(p.get_players(), vec![String::from("b")]);
}

#[test]
fn spectators_need_an_open_room() {
    let mut p = Players::default();
    let home = String::from("home");
    assert_eq!(p.add_spectator(&home, &String::from("a")), Some(1));
    assert_eq!(p.add_spectator(&home, &String::from("b")), Some(2));
    assert_eq!(p.add_spectator(&home, &String::from("a")), Some(2));
    assert_eq!(p.add_spectator(&String::from("game1"), &String::from("a")), None);
    assert_eq!(p.remove_spectator(&home, &String::from("a")), Some(1));
    assert_eq!(p.get_spectators("home"), Some(vec![String::from("b")]));
    assert_eq!(p.get_spectators("tv"), None);
}

#[test]
fn spectator_joins_and_leaves_again() {
    let mut p = Players::default();
    let home = String::from("home");
    p.add_spectator(&home, &String::from("x"));
    let before = p.get_spectators("home");
    p.add_spectator(&home, &String::from("y"));
    p.remove_spectator(&home, &String::from("y"));
    assert_eq!(p.get_spectators("home"), before);
}

#[test]
fn chat_signs_and_limits_messages() {
    let mut rooms = ChatRooms::default();
    let home = String::from("home");
    let alice = user("alice", true);
    let mut m = msg("hello", "home");
    let stored = rooms.add_msg_at(&home, &mut m, &alice, 9, 5).unwrap();
    assert_eq!(stored.user, "alice");
    assert_eq!(stored.time, "09:05");
    assert_eq!(stored.message, "hello");
    for _ in 0..4 {
        let mut m = msg("again", "home");
        assert!(rooms.add_msg(&home, &mut m, &alice).is_some());
    }
    let mut sixth = msg("too many", "home");
    assert!(rooms.add_msg(&home, &mut sixth, &alice).is_none());
    assert_eq!(rooms.get_chat(&home).unwrap().len(), 5);
}

#[test]
fn chat_refuses_strangers_empty_and_long_messages() {
    let mut rooms = ChatRooms::default();
    let home = String::from("home");
    let mut m = msg("hi", "home");
    assert!(rooms.add_msg(&home, &mut m, &user("anon", false)).is_none());
    let mut empty = msg("", "home");
    assert!(rooms.add_msg(&home, &mut empty, &user("a", true)).is_none());
    let long: String = std::iter::repeat('x').take(50).collect();
    let mut m = msg(&long, "home");
    assert!(rooms.add_msg(&home, &mut m, &user("a", true)).is_none());
    let ok: String = std::iter::repeat('x').take(49).collect();
    let mut m = msg(&ok, "home");
    assert!(rooms.add_msg(&home, &mut m, &user("a", true)).is_some());
    let cyrillic: String = std::iter::repeat('ж').take(25).collect();
    assert_eq!(cyrillic.len(), 50);
    let mut m = msg(&cyrillic, "home");
    assert!(rooms.add_msg(&home, &mut m, &user("b", true)).is_some());
    let wide: String = std::iter::repeat('ж').take(50).collect();
    let mut m = msg(&wide, "home");
    assert!(rooms.add_msg(&home, &mut m, &user("b", true)).is_none());
    let mut m = msg("hi", "nowhere");
    assert!(rooms.add_msg(&String::from("nowhere"), &mut m, &user("a", true)).is_none());
    assert!(rooms.get_chat(&String::from("nowhere")).is_none());
}

#[test]
fn chat_time_is_hour_and_minute() {
    let mut m = msg("x", "home");
    m.update_at("u", 23, 59);
    assert_eq!(m.time, "23:59");
    m.update_at("u", 0, 7);
    assert_eq!(m.time, "00:07");
    m.update("v");
    assert_eq!(m.user, "v");
    assert_eq!(m.time.len(), 5);
    let parts: Vec<&str> = m.time.split(':').collect();
    assert_eq!(parts.len(), 2);
    assert!(parts[0].parse::<u32>().unwrap() < 24);
    assert!(parts[1].parse::<u32>().unwrap() < 60);
}

#[test]
fn game_request_validity() {
    assert!(is_known_variant("shuuro"));
    assert!(is_known_variant("standardFairy"));
    assert!(!is_known_variant("shuuro12"));
    assert!(duration_allowed(20));
    assert!(duration_allowed(90));
    assert!(!duration_allowed(21));
    assert!(!duration_allowed(0));
    assert!(request("a", "white").is_valid());
    let mut r = request("a", "white");
    r.incr = 0;
    assert!(r.is_valid());
    r.time = 0;
    assert!(!r.is_valid());
    let mut r = request("a", "white");
    r.variant = String::from("chess");
    assert!(!r.is_valid());
}

#[test]
fn game_request_colors() {
    let r = request("owner", "random");
    assert_eq!(r.colors_with(&String::from("other"), true), [String::from("owner"), String::from("other")]);
    assert_eq!(r.colors_with(&String::from("other"), false), [String::from("other"), String::from("owner")]);
    let w = request("owner", "white");
    assert_eq!(w.colors_with(&String::from("other"), true), [String::from("other"), String::from("owner")]);
    assert_eq!(w.colors(&String::from("other")), [String::from("other"), String::from("owner")]);
    let c = r.colors(&String::from("other"));
    assert!(c.contains(&String::from("owner")) && c.contains(&String::from("other")));
}

#[test]
fn one_request_per_user() {
    let mut reqs = GameReqs::default();
    assert!(reqs.add(request("a", "white")).is_some());
    assert!(reqs.add(request("a", "black")).is_none());
    let mut bad = request("b", "white");
    bad.time = 99;
    assert!(reqs.add(bad).is_none());
    assert!(reqs.add(request("b", "white")).is_some());
    assert_eq!(reqs.get_all().len(), 2);
    let removed = reqs.remove(&String::from("a")).unwrap();
    assert_eq!(removed.color, "white");
    assert!(reqs.remove(&String::from("a")).is_none());
    assert_eq!(reqs.get_all().len(), 1);
}

#[test]
fn request_round_trip_leaves_lobby_as_it_was() {
    let mut reqs = GameReqs::default();
    reqs.add(request("x", "white"));
    let before = reqs.get_all().len();
    reqs.add(request("y", "black"));
    let back = reqs.remove(&String::from("y")).unwrap();
    assert_eq!(back.username, "y");
    assert_eq!(reqs.get_all().len(), before);
}

#[test]
fn send_to_reaches_the_right_sockets() {
    assert!(SendTo::Me.delivers("a", "a"));
    assert!(!SendTo::Me.delivers("a", "b"));
    assert!(SendTo::All.delivers("a", "b"));
    let s = SendTo::Spectators(vec![String::from("c")]);
    assert!(s.delivers("a", "c"));
    assert!(!s.delivers("a", "a"));
    let p = SendTo::Players([String::from("w"), String::from("b")]);
    assert!(p.delivers("x", "b"));
    assert!(!p.delivers("x", "c"));
    let sp = SendTo::SpectatorsAndPlayers((vec![String::from("s")], [String::from("w"), String::from("b")]));
    assert!(sp.delivers("x", "w"));
    assert!(sp.delivers("x", "s"));
    assert!(!sp.delivers("x", "x"));
}

#[test]
fn recipients_of_chat_and_moves() {
    let s = vec![String::from("s")];
    let p = [String::from("w"), String::from("b")];
    assert!(matches!(chat_recipients("home", s.clone(), Some(p.clone())), SendTo::Spectators(_)));
    assert!(matches!(chat_recipients("g1", s.clone(), Some(p.clone())), SendTo::SpectatorsAndPlayers(_)));
    assert!(matches!(chat_recipients("g1", s.clone(), None), SendTo::Spectators(_)));
    assert!(matches!(game_recipients(Some(s), p.clone()), SendTo::SpectatorsAndPlayers(_)));
    assert!(matches!(game_recipients(None, p), SendTo::Players(_)));
}

#[test]
fn request_names() {
    assert!(ws_request("live_chat_message") == Some(WsRequest::ChatMessage));
    assert!(ws_request("live_game_buy") == Some(WsRequest::ShopMove));
    assert!(ws_request("live_game_confirm") == Some(WsRequest::ShopMove));
    assert!(ws_request("live_tv") == Some(WsRequest::Tv));
    assert!(ws_request("save_all") == Some(WsRequest::SaveAll));
    assert!(ws_request("home_lobby_accept") == Some(WsRequest::LobbyAccept));
    assert!(ws_request("nothing") == None);
    assert!(ws_request("") == None);
}

#[test]
fn clock_watchers_stop_and_finish() {
    let mut t = TimeCheck::new("g");
    assert!(clock_watch(&t) == ClockWatch::Wait);
    assert!(!clock_poll_done(&t));
    t.lost(1);
    assert!(t.finished && t.lost == 1);
    assert!(clock_watch(&t) == ClockWatch::Finish);
    assert!(clock_poll_done(&t));
    t.dont_exist();
    assert!(clock_watch(&t) == ClockWatch::Stop);
    let mut b = TimeCheck::new("h");
    b.both_lost();
    assert!(b.both_lost && b.finished);
    assert!(clock_poll_done(&b));
    let mut f = TimeCheck::new("i");
    f.finished();
    assert!(f.finished);
}

#[test]
fn accepting_requests() {
    assert!(accept_action(false, "a", "b") == AcceptAction::Ignore);
    assert!(accept_action(true, "a", "a") == AcceptAction::Withdraw);
    assert!(accept_action(true, "a", "b") == AcceptAction::StartGame);
    assert!(is_admin("iiiurosiii"));
    assert!(!is_admin("someone"));
}

#[test]
fn connecting_and_leaving() {
    let mut players = Players::default();
    let mut reqs = GameReqs::default();
    let u = user("a", true);
    let (count, removed) = connecting(&mut players, &mut reqs, &u, true);
    assert_eq!(count, 1);
    assert!(removed.is_none());
    assert_eq!(players.get_spectators("home"), Some(vec![String::from("a")]));
    reqs.add(request("a", "white"));
    u.watch("home");
    let (count, removed) = connecting(&mut players, &mut reqs, &u, false);
    assert_eq!(count, 0);
    assert_eq!(removed.unwrap().username, "a");
    assert_eq!(players.get_spectators("home"), Some(vec![]));
    assert!(reqs.get_all().is_empty());
}

#[test]
fn fight_move_routing() {
    let players = [String::from("w"), String::from("b")];
    let a = after_fight_move(1, Some(vec![String::from("s")]), players.clone());
    assert!(a.end_game && a.tv_end);
    assert!(a.to.delivers("w", "b") && !a.to.delivers("w", "s"));
    let a = after_fight_move(-1, Some(vec![String::from("s")]), players.clone());
    assert!(!a.end_game && !a.tv_end);
    assert!(a.to.delivers("w", "s") && a.to.delivers("s", "w"));
    let a = after_fight_move(0, None, players);
    assert!(!a.end_game);
}
