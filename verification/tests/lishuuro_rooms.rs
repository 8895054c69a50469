use lishuuro::database::mongo::ShuuroGame;
use lishuuro::database::redis::{CookieValue, UserSession};
use lishuuro::lishuuro::websockets::rooms::{ChatMsg, ChatRooms, Players};
use lishuuro::websockets::game_requests::GameRequest;

fn user(name: &str, reg: bool) -> UserSession {
    UserSession::new(name, "key", reg, "", CookieValue::default())
}

fn stored(id: &str) -> ShuuroGame {
    let req = GameRequest {
        username: String::from("w"),
        variant: String::from("shuuro"),
        time: 5,
        incr: 0,
        sub_variant: None,
        color: String::from("white"),
    };
    ShuuroGame::from((&req, &[String::from("w"), String::from("b")], id))
}

#[test]
fn online_and_playing_players() {
    let mut p = Players::default();
    assert_eq!(p.add_online_player("a"), 1);
    assert_eq!(p.add_online_player("a"), 1);
    assert_eq!(p.add_players(&[String::from("a"), String::from("b")]), 2);
    assert!(!p.check_in_game("a"));
    assert!(p.check_in_game("c"));
    assert_eq!(p.remove_players(&[String::from("a"), String::from("b")]), 0);
    assert!(p.check_in_game("a"));
    assert_eq!(p.remove_online_player(&String::from("a")), 0);
    assert!(p.get_online().is_empty());
}

#[test]
fn rooms_open_and_close() {
    let mut p = Players::default();
    assert_eq!(p.get_spectators("home"), Some(vec![]));
    assert_eq!(p.get_spectators("tv"), Some(vec![]));
    let g = String::from("g1");
    assert_eq!(p.add_spectator(&g, &String::from("x")), None);
    p.new_spectators(&g);
    assert_eq!(p.add_spectator(&g, &String::from("x")), Some(1));
    assert_eq!(p.remove_spectator(&g, &String::from("x")), Some(0));
    p.remove_spectators(&g);
    assert_eq!(p.get_spectators("g1"), None);
    p.add_spectators(&vec![stored("g2"), stored("g3")]);
    assert_eq!(p.get_spectators("g2"), Some(vec![]));
    assert_eq!(p.get_spectators("g3"), Some(vec![]));
}

#[test]
fn chat_messages_of_the_shuuro_variant() {
    let m = ChatMsg::_new(String::from("u"), String::from("text"), String::from("home"));
    assert_eq!(m.variant, "shuuro");
    let mut rooms = ChatRooms::default();
    let home = String::from("home");
    let alice = user("alice", true);
    let stored = rooms.add_msg_at(&home, m.clone(), &alice, 12, 0).unwrap();
    assert_eq!(stored.user, "alice");
    assert_eq!(stored.time, "12:00");
    for _ in 0..4 {
        assert!(rooms.add_msg(&home, m.clone(), &alice).is_some());
    }
    assert!(rooms.add_msg(&home, m.clone(), &alice).is_none());
    assert!(rooms.add_msg(&home, m.clone(), &user("anon", false)).is_none());
    assert_eq!(rooms.get_chat(&home).unwrap().len(), 5);
    let g = String::from("g");
    assert!(rooms.add_msg(&g, m.clone(), &alice).is_none());
    rooms.add_chat(&g);
    assert!(rooms.add_msg(&g, m.clone(), &alice).is_some());
    rooms.remove_chat(&g);
    assert!(rooms.get_chat(&g).is_none());
    let mut empty = m.clone();
    empty.message = String::new();
    assert!(rooms.add_msg(&home, empty, &user("bob", true)).is_none());
    let mut cyrillic = m.clone();
    cyrillic.message = std::iter::repeat('ж').take(49).collect();
    assert!(rooms.add_msg(&home, cyrillic, &user("bob", true)).is_some());
    let mut long = m.clone();
    long.message = std::iter::repeat('x').take(50).collect();
    assert!(rooms.add_msg(&home, long, &user("carol", true)).is_none());
}

#[test]
fn signing_a_message() {
    let mut m = ChatMsg::_new(String::new(), String::from("t"), String::from("home"));
    m.update_at("x", 9, 5);
    assert_eq!((m.user.as_str(), m.time.as_str()), ("x", "09:05"));
    m.update("y");
    assert_eq!(m.user, "y");
    assert_eq!(m.time.len(), 5);
    assert_eq!(&m.time[2..3], ":");
}
