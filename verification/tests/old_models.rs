use bson::oid::ObjectId;
use lishuuro::models::game::{whole_seconds, ShuuroGame, TimeControl, NANOS};
use lishuuro::models::live_games::{HandSource, LiveGames, ShopMove, ShopPlan, ShuuroLive};
use lishuuro::models::model::{ActivePlayer, ChatItem, ChatRooms, LobbyGame, LobbyGames, TvGame};
use lishuuro::websockets::live_game::Outcome;

const S: i128 = 1_000_000_000;

fn item(text: &str) -> ChatItem {
    ChatItem { id: String::from("home"), user: String::new(), time: String::new(), message: String::from(text) }
}

fn lobby_game(user: &str, color: &str) -> LobbyGame {
    LobbyGame::new(String::from(user), String::from("shuuro12"), 10, 5, String::from(color))
}

fn stored_game() -> ShuuroGame {
    let mut g = ShuuroGame::default_at(0, ObjectId::new());
    g.white = String::from("alice");
    g.black = String::from("bob");
    g.white_clock = 60 * S;
    g.black_clock = 60 * S;
    g.incr = 2 * S;
    g
}

#[test]
fn chat_items_and_rooms() {
    let mut rooms = ChatRooms::new();
    let home = String::from("home");
    let reg = ActivePlayer::new(&true, &String::from("alice"));
    let anon = ActivePlayer::new(&false, &String::from("anon"));
    let mut m = item("hi");
    let stored = rooms.add_msg_at(&home, &mut m, &reg, 7, 30).unwrap();
    assert_eq!(stored.user, "alice");
    assert_eq!(stored.date(), "07:30");
    assert!(rooms.add_msg(&home, &mut item("hi"), &anon).is_none());
    assert!(rooms.add_msg(&home, &mut item(""), &reg).is_none());
    for _ in 0..4 {
        assert!(rooms.add_msg(&home, &mut item("more"), &reg).is_some());
    }
    assert!(!ChatRooms::can_add(rooms.chat(&home).unwrap(), &reg));
    assert!(rooms.add_msg(&home, &mut item("sixth"), &reg).is_none());
    assert_eq!(rooms.chat(&home).unwrap().len(), 5);
    assert!(rooms.chat(&String::from("g1")).is_none());
    rooms.add_room(String::from("g1"));
    assert_eq!(rooms.chat(&String::from("g1")).unwrap().len(), 0);
    assert!(ChatRooms::message_length(&item("x")));
    assert!(!ChatRooms::message_length(&item("")));
}

#[test]
fn active_players() {
    let a = ActivePlayer::new(&true, &String::from("a"));
    let b = ActivePlayer::new(&false, &String::from("a"));
    assert_eq!(a.username(), "a");
    assert!(a.reg());
    assert!(!b.reg());
    assert!(a == b);
    assert!(a != ActivePlayer::new(&true, &String::from("c")));
}

#[test]
fn lobby_games_validity_and_colors() {
    let mut g = lobby_game("owner", "white");
    assert!(g.is_valid());
    assert_eq!(g.time(), 10);
    assert_eq!(g.incr(), 5);
    assert_eq!(g.username(), "owner");
    assert_eq!(g.color(), "white");
    assert_eq!(g.colors(&String::from("x")), [String::from("owner"), String::from("x")]);
    let mut b = lobby_game("owner", "black");
    assert_eq!(b.colors(&String::from("x")), [String::from("x"), String::from("owner")]);
    let mut r = lobby_game("owner", "random");
    assert_eq!(r.colors_with(&String::from("x"), true), [String::from("owner"), String::from("x")]);
    assert_eq!(r.colors_with(&String::from("x"), false), [String::from("x"), String::from("owner")]);
    assert!(!LobbyGame::new(String::from("o"), String::from("shuuro"), 10, 5, String::from("white")).is_valid());
    assert!(!LobbyGame::new(String::from("o"), String::from("shuuro12"), 21, 5, String::from("white")).is_valid());
    assert!(LobbyGame::new(String::from("o"), String::from("shuuro12"), 90, 0, String::from("white")).is_valid());
}

#[test]
fn one_lobby_game_per_user() {
    let mut lobby = LobbyGames::default();
    let g = lobby_game("a", "white");
    assert!(lobby.can_add(&g));
    lobby.add(g.clone());
    assert!(!lobby.can_add(&lobby_game("a", "black")));
    lobby.add(lobby_game("b", "white"));
    assert_eq!(lobby.delete(lobby_game("b", "black")), 1);
    assert_eq!(lobby.delete(lobby_game("b", "black")), -10);
    assert!(lobby.delete_by_user(&ActivePlayer::new(&true, &String::from("a"))));
    assert!(!lobby.delete_by_user(&ActivePlayer::new(&true, &String::from("a"))));
    assert!(lobby.can_add(&g));
}

#[test]
fn tv_game_fields() {
    let t = TvGame::new("live_tv", "id", "w", "b", "fen");
    assert_eq!((t.t.as_str(), t.game_id.as_str(), t.w.as_str(), t.b.as_str(), t.sfen.as_str()), ("live_tv", "id", "w", "b", "fen"));
}

#[test]
fn old_clock_reads_and_clicks() {
    let mut tc = TimeControl::new_at(5, 60, 0);
    assert_eq!(tc.inc, 5 * S);
    assert_eq!(tc.white_player, 60 * S);
    assert!(tc.time_ok_at("w", 59_999_000_000));
    assert!(!tc.time_ok_at("w", 59_999_000_001));
    assert!(tc.time_ok_at("", 1));
    assert!(!tc.time_ok_at("x", 1));
    // In the shop the clock does not restart, so the reading after the click
    // takes the elapsed time off once more.
    assert!(tc.click_at("w", 10 * S));
    assert_eq!(tc.white_player, 55 * S);
    assert_eq!(tc.get_last_click(), 0);
    tc.update_stage_at(1, 10 * S);
    assert!(!tc.time_ok_at("", 10 * S));
    assert!(tc.click_at("b", 20 * S));
    assert_eq!(tc.black_player, 55 * S);
    assert_eq!(tc.get_last_click(), 20 * S);
    assert_eq!(tc.get_clock('b'), 55 * S);
    assert_eq!(tc.get_clock('z'), 55 * S);
}

#[test]
fn old_clock_from_a_stored_game() {
    let mut g = stored_game();
    g.incr = 2_500_000_000;
    g.last_clock = 42;
    let tc = TimeControl::from_game(&g);
    assert_eq!(tc.inc, 2 * S);
    assert_eq!(tc.white_player, 60 * S);
    assert_eq!(tc.last_click, 42);
    assert_eq!(tc.stage, 0);
    assert_eq!(whole_seconds(-1_500_000_000), -1);
    assert_eq!(whole_seconds(2_500_000_000), 2);
}

#[test]
fn old_game_from_lobby() {
    let g = ShuuroGame::from(&lobby_game("a", "white"), ObjectId::new());
    assert_eq!(g.min, 600 * NANOS);
    assert_eq!(g.incr, 5 * NANOS);
    assert_eq!(g.white_clock, 600 * NANOS);
    assert_eq!(g.status, -2);
    assert_eq!(g.white_credit, 800);
    assert_eq!(g.current_stage, 0);
    let s = stored_game();
    assert_eq!(s.user_color("alice"), 0);
    assert_eq!(s.user_color("bob"), 1);
    assert_eq!(s.user_color("carol"), 2);
    let c = s.clone();
    assert_eq!(c.white, "alice");
    assert_eq!(c._id, s._id);
}

#[test]
fn shop_plans() {
    let live = ShuuroLive::from(stored_game());
    assert!(live.buy_plan_at("Qw", "alice", ShopMove::Buy { piece_color: 0 }, S) == ShopPlan::Buy { color: 0, in_time: true });
    assert!(live.buy_plan_at("Qw", "alice", ShopMove::Buy { piece_color: 1 }, S) == ShopPlan::Ignore);
    assert!(live.buy_plan_at("Qw", "carol", ShopMove::Buy { piece_color: 0 }, S) == ShopPlan::Ignore);
    assert!(live.buy_plan_at("Qwx", "alice", ShopMove::Buy { piece_color: 0 }, S) == ShopPlan::Ignore);
    assert!(live.buy_plan_at("cf", "bob", ShopMove::Unparsed, S) == ShopPlan::Confirm { color: 1 });
    assert!(live.buy_plan_at("cf", "bob", ShopMove::Other, S) == ShopPlan::Ignore);
    assert!(live.buy_plan_at("cf", "bob", ShopMove::Unparsed, 61 * S) == ShopPlan::Ignore);
    assert!(live.buy_plan_at("Qw", "alice", ShopMove::Buy { piece_color: 0 }, 61 * S) == ShopPlan::Buy { color: 0, in_time: false });
}

#[test]
fn purchases_confirmations_and_hands() {
    let mut live = ShuuroLive::from(stored_game());
    live.draws = [true, true];
    live.record_buy(0, true, 800, 700, "Q");
    assert_eq!(live.game.white_credit, 700);
    assert_eq!(live.game.white_hand, "Q");
    assert_eq!(live.draws, [false, false]);
    live.record_buy(1, false, 800, 650, "q");
    assert_eq!(live.game.black_credit, 650);
    assert_eq!(live.game.black_hand, "");
    live.record_buy(1, true, 800, -1, "q");
    assert_eq!(live.game.black_credit, u16::MAX);
    live.confirm_at(0, S);
    assert_eq!(live.game.white_clock, 61 * S);
    assert_eq!(live.game.side_to_move, "b");
    assert!(live.hand_source("alice") == HandSource::Shop { color: 0 });
    assert!(live.hand_source("carol") == HandSource::Nothing);
    live.set_hand(1, "kq");
    assert_eq!(live.game.black_hand, "kq");
}

#[test]
fn deployment_fight_and_end() {
    let mut live = ShuuroLive::from(stored_game());
    live.set_deploy_at(String::from("deploy"), 5 * S);
    assert_eq!(live.game.current_stage, 1);
    assert_eq!(live.time_control.stage, 1);
    assert!(live.hand_source("carol") == HandSource::Deploy);
    live.game.side_to_move = String::from("w");
    assert_eq!(live.place_plan_at("alice", Some(0), 6 * S), Some(0));
    assert_eq!(live.place_plan_at("alice", Some(1), 6 * S), None);
    assert_eq!(live.place_plan_at("bob", Some(1), 6 * S), None);
    assert!(!live.record_place_at(0, (String::from("P@a1"), 1), String::from("b"), String::from("s2"), false, 6 * S));
    assert_eq!(live.game.white_clock, 61 * S);
    assert_eq!(live.game.deploy_history.len(), 1);
    assert_eq!(live.game.side_to_move, "b");
    assert!(live.start_fight_at(1, true, 7 * S));
    assert_eq!(live.game.status, 7);
    assert_eq!(live.game.current_stage, 2);
    assert_eq!(live.time_control.black_player, 64 * S);
    assert_eq!(live.play_plan_at("bob", Some(1), 8 * S), Some(1));
    assert_eq!(live.play_plan_at("bob", Some(0), 8 * S), None);
    let status = live.record_play_at(1, String::from("w"), String::from("s3"), Outcome::Checkmate { color: 1 }, (String::from("e2e4"), 2), 8 * S);
    assert_eq!(status, 1);
    assert_eq!(live.game.result, "b");
    assert_eq!(live.game.fight_history.len(), 1);
    assert_eq!(live.game.black_clock, 65 * S);
    live.update_status(&Outcome::DrawByRepetition);
    assert_eq!(live.game.status, 4);
}

#[test]
fn draws_resignations_and_time() {
    let mut live = ShuuroLive::from(stored_game());
    assert!(live.game_draw("alice"));
    assert!(!live.game_draw("alice"));
    assert!(!live.game_draw("carol"));
    assert_eq!(live.draws, [true, false]);
    assert!(!live.resign_at("carol", S));
    assert!(live.resign_at("bob", S));
    assert_eq!(live.game.status, 7);
    assert_eq!(live.game.result, "b");
    assert_eq!(live.lost_on_time("").status, 5);
    assert_eq!(live.lost_on_time("w").status, 8);
    assert_eq!(live.game.result, "w");
    assert!(!live.can_add("alice"));
    assert!(live.can_add("carol"));
    assert_eq!(live.players(), [String::from("alice"), String::from("bob")]);
    assert_eq!(live.add_spectator("x"), 1);
    assert_eq!(live.add_spectator("x"), 1);
    assert_eq!(live.remove_spectator("x"), 0);
}

#[test]
fn old_live_games() {
    let mut games = LiveGames::default();
    assert!(games.can_add("anyone"));
    games.add_game_at("g1", stored_game(), "w", 0);
    assert_eq!(games.len(), 1);
    let mut watchers = games.spectators("g1").unwrap();
    watchers.sort();
    assert_eq!(watchers, vec![String::from("alice"), String::from("bob")]);
    // A user may start a game only when it plays in every live game.
    assert!(games.can_add("alice"));
    assert!(!games.can_add("carol"));
    assert_eq!(games.draw_req("g1", "alice"), -2);
    assert_eq!(games.draw_req("g1", "alice"), -3);
    assert_eq!(games.draw_req("nope", "alice"), -3);
    assert_eq!(games.draw_req("g1", "bob"), 5);
    assert_eq!(games.get_game("g1").unwrap().1.status, 5);
    assert_eq!(games.add_spectator("g1", "carol"), 3);
    assert_eq!(games.remove_spectator("g1", "carol"), 2);
    assert_eq!(games.add_spectator("nope", "carol"), 0);
    assert_eq!(games.time_ok_at("g1", S), Some(true));
    assert!(games.get_tv().is_empty());
    let lost = games.lost_on_time("g1").unwrap();
    assert_eq!(lost.status, 5);
    assert!(games.resign_at("g1", "alice", S));
    assert_eq!(games.get_all().len(), 1);
    games.stop("g1");
    games.remove_game("g1");
    assert_eq!(games.len(), 0);
    assert!(games.get_game("g1").is_none());
}

#[test]
fn old_live_games_in_later_stages() {
    let mut games = LiveGames::default();
    let mut g = stored_game();
    g.current_stage = 1;
    g.sfen = String::from("pos");
    games.add_game_at("d", g, "b", 9);
    let (_, stored) = games.get_game("d").unwrap();
    assert_eq!(stored.side_to_move, "b");
    assert_eq!(stored.last_clock, 9);
    let tv = games.get_tv();
    assert_eq!(tv.len(), 1);
    assert_eq!(tv[0].sfen, "pos");
    assert_eq!(tv[0].t, "live_tv");
    assert_eq!(games.time_ok_at("d", 10), Some(true));
}

#[test]
fn clocks_start_at_the_present() {
    let tc = TimeControl::new(1, 2);
    // 2020-01-01 in nanoseconds since the Unix epoch.
    assert!(tc.last_click > 1_577_836_800 * S);
    assert_eq!(tc.inc, S);
    assert_eq!(tc.black_player, 2 * S);
    let g = ShuuroGame::default(ObjectId::new());
    assert!(g.last_clock > 1_577_836_800 * S);
}

#[test]
fn placements_until_the_fight() {
    let mut live = ShuuroLive::from(stored_game());
    live.set_deploy_at(String::from("deploy"), 5 * S);
    live.game.side_to_move = String::from("w");
    live.draws = [true, false];
    assert_eq!(live.place_at("alice", Some(1), true, (String::from("p@a1"), 1), String::from("b"), String::from("s"), false, false, 6 * S), None);
    assert_eq!(live.draws, [true, false]);
    assert_eq!(live.place_at("alice", Some(0), false, (String::from("P@a1"), 1), String::from("b"), String::from("s"), false, false, 6 * S), None);
    assert_eq!(live.draws, [false, false]);
    assert_eq!(live.game.deploy_history.len(), 0);
    assert_eq!(live.place_at("alice", Some(0), true, (String::from("P@a1"), 1), String::from("b"), String::from("s2"), false, false, 6 * S), Some((false, false)));
    assert_eq!(live.game.current_stage, 1);
    assert_eq!(live.game.side_to_move, "b");
    assert_eq!(live.place_at("bob", Some(1), true, (String::from("p@a8"), 2), String::from("w"), String::from("s3"), true, true, 7 * S), Some((true, true)));
    assert_eq!(live.game.current_stage, 2);
    assert_eq!(live.game.status, 7);
    assert_eq!(live.game.deploy_history.len(), 2);
}

#[test]
fn shop_moves_end_to_end() {
    let mut live = ShuuroLive::from(stored_game());
    live.draws = [true, true];
    assert!(live.buy_at("Qw", "carol", ShopMove::Buy { piece_color: 0 }, 800, 700, "Q", S) == ShopPlan::Ignore);
    assert_eq!(live.draws, [true, true]);
    assert!(live.buy_at("Qw", "alice", ShopMove::Buy { piece_color: 0 }, 800, 700, "Q", S) == ShopPlan::Buy { color: 0, in_time: true });
    assert_eq!(live.game.white_credit, 700);
    assert_eq!(live.game.white_hand, "Q");
    assert_eq!(live.draws, [false, false]);
    assert!(live.buy_at("cf", "bob", ShopMove::Unparsed, 0, 0, "", S) == ShopPlan::Confirm { color: 1 });
    assert_eq!(live.game.side_to_move, "w");
}
