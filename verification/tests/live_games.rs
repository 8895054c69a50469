use lishuuro::database::mongo::ShuuroGame;
use lishuuro::websockets::client_messages::{GameGet, LiveGameMove};
use lishuuro::websockets::game_requests::GameRequest;
use lishuuro::websockets::games::{is_board12, ShuuroGames, TvGame};
use lishuuro::websockets::live_game::{
    color_string, first_part, BuyTurn, FightStart, LiveGame, LiveGames, Outcome,
};
use lishuuro::websockets::time_control::{TimeCheck, TimeControl};

fn request(variant: &str) -> GameRequest {
    GameRequest {
        username: String::from("white"),
        variant: String::from(variant),
        time: 10,
        incr: 5,
        sub_variant: None,
        color: String::from("random"),
    }
}

fn game(id: &str, variant: &str) -> ShuuroGame {
    let players = [String::from("white"), String::from("black")];
    let mut g = ShuuroGame::from((&request(variant), &players, id));
    g.tc = TimeControl::new_at(10, 5, 0);
    g
}

#[test]
fn clock_starts_with_minutes_plus_increment() {
    let tc = TimeControl::new_at(10, 5, 1000);
    assert_eq!(tc.clocks, [605_000, 605_000]);
    assert_eq!(tc.stage, 0);
    assert_eq!(tc.incr, 5);
    assert_eq!(tc.last_click, 1000);
    assert_eq!(tc.incr_ms(), 5000);
    let d = TimeControl::default();
    assert_eq!(d.clocks, [605_000, 605_000]);
}

#[test]
fn remaining_time_and_running_out() {
    let tc = TimeControl::new_at(1, 0, 0);
    assert_eq!(tc.current_duration_at(0, 2000), Some(58_000));
    assert_eq!(tc.current_duration_at(0, 60_999), Some(-999));
    assert_eq!(tc.current_duration_at(0, 61_000), None);
}

#[test]
fn click_adds_the_increment_to_one_clock() {
    let mut tc = TimeControl::new_at(10, 5, 1000);
    assert_eq!(tc.click_at(0, 3000), Some([608_000, 605_000]));
    assert_eq!(tc.last_click, 3000);
    assert_eq!(tc.clocks[1], 605_000);
    tc.update_stage_at(1, 4000);
    assert_eq!(tc.stage, 1);
    assert_eq!(tc.click_at(1, 5000), Some([608_000, 609_000]));
}

#[test]
fn shop_clock_without_increment_stands_still() {
    let mut tc = TimeControl::new_at(10, 0, 1000);
    assert_eq!(tc.click_at(0, 3000), Some([600_000, 600_000]));
    assert_eq!(tc.last_click, 1000);
}

#[test]
fn click_after_time_ran_out() {
    let mut tc = TimeControl::new_at(1, 0, 0);
    assert_eq!(tc.click_at(1, 70_000), None);
    assert_eq!(tc.clocks, [60_000, 60_000]);
}

#[test]
fn new_game_from_request() {
    let g = game("id1", "shuuro");
    assert_eq!(g._id, "id1");
    assert_eq!(g.min, 600_000);
    assert_eq!(g.incr, 5000);
    assert_eq!(g.clocks, [605_000, 605_000]);
    assert_eq!(g.status, -2);
    assert_eq!(g.credits, [800, 800]);
    assert_eq!(g.current_stage, 0);
    assert_eq!(g.variant, "shuuro");
    assert!(g.history.0.is_empty() && g.history.1.is_empty() && g.history.2.is_empty());
}

#[test]
fn shop_clicks() {
    let mut live = LiveGame::new(game("g", "shuuro"));
    assert!(matches!(live.buy_turn_at(&String::from("white"), 1000), Some(BuyTurn::Buy(0))));
    assert_eq!(live.game.tc.clocks[0], 609_000);
    assert!(live.buy_turn_at(&String::from("nobody"), 1000).is_none());
    assert!(matches!(live.buy_turn_at(&String::from("black"), 10_000_000), Some(BuyTurn::LostOnTime(1))));
    assert!(live.buys_own_piece(1, 1));
    assert!(!live.buys_own_piece(0, 1));
    assert!(!live.buys_own_piece(2, 2));
}

#[test]
fn purchases_and_deployment() {
    let mut live = LiveGame::new(game("g", "shuuro"));
    live.game.draws = [true, false];
    assert!(live.new_piece(0, [false, false], String::from("KQ")).is_none());
    assert_eq!(live.game.hands[0], "KQ");
    assert_eq!(live.game.draws, [false, false]);
    assert!(matches!(live.new_piece(1, [false, true], String::from("kq")), Some(LiveGameMove::BuyMove([false, true]))));
    let info = live.set_deploy(&String::from("g"), String::from("KR"), String::from("kr"), String::from("sfen"));
    assert_eq!(info.path, "/shuuro/1/g");
    assert_eq!(info.hand, "KRkr");
    assert_eq!(live.game.current_stage, 1);
    assert_eq!(live.game.sfen, "sfen");
    assert_eq!(live.game.side_to_move, 0);
}

#[test]
fn placement_and_fight_moves() {
    let mut live = LiveGame::new(game("g", "shuuro"));
    live.game.current_stage = 1;
    assert!(live.place_move_at(&String::from("white"), 1, 1000, 77).is_none());
    let (index, clocks) = live.place_move_at(&String::from("white"), 0, 1000, 77).unwrap();
    assert_eq!(index, 0);
    assert_eq!(clocks, [609_000, 605_000]);
    assert_eq!(live.game.last_clock, 77);
    let fight = FightStart { outcome: None, in_check: false };
    let before = live.game.clone();
    let refused = live.place_piece_at(0, 1, [1, 2], String::from("k@a8_extra"), false, FightStart { outcome: None, in_check: false }, 0, String::from("s2"), [String::from("h1"), String::from("h2")], 2000, 88);
    assert!(refused.is_none());
    assert_eq!(live.game.history.1, before.history.1);
    assert_eq!(live.game.hands, before.hands);
    assert_eq!(live.game.side_to_move, before.side_to_move);
    let m = live.place_piece_at(0, 0, [1, 2], String::from("K@a1_extra"), false, fight, 0, String::from("s2"), [String::from("h1"), String::from("h2")], 2000, 88);
    match m {
        Some(LiveGameMove::PlaceMove(placed, c, fme, tf, p)) => {
            assert_eq!(placed, "K@a1");
            assert_eq!(c, [1, 2]);
            assert!(!fme && !tf);
            assert_eq!(p, [String::from("white"), String::from("black")]);
        }
        _ => panic!("a placement reports a placement"),
    }
    assert_eq!(live.game.side_to_move, 1);
    assert_eq!(live.game.history.1, vec![String::from("K@a1_extra")]);
    assert_eq!(live.game.hands, [String::from("h1"), String::from("h2")]);
    live.game.current_stage = 2;
    assert!(live.fight_move_at(&String::from("black"), 0, 3000, 99).is_none());
    assert!(live.fight_move_at(&String::from("black"), 1, 3000, 99).is_some());
    let status_before = live.game.status;
    let refused = live.make_move(1, Some(0), &String::from("e2e4"), [3, 4], Outcome::Checkmate { color: 1 }, String::from("mate"), 1, String::from("s3"), String::from("e2e4_rec"));
    assert!(refused.is_none());
    assert_eq!(live.game.history.2.len(), 0);
    assert_eq!(live.game.status, status_before);
    let no_piece = live.make_move(1, None, &String::from("e2e4"), [3, 4], Outcome::Checkmate { color: 1 }, String::from("mate"), 1, String::from("s3"), String::from("e2e4_rec"));
    assert!(no_piece.is_none());
    let r = live.make_move(1, Some(1), &String::from("e2e4"), [3, 4], Outcome::Checkmate { color: 1 }, String::from("mate"), 1, String::from("s3"), String::from("e2e4_rec"));
    match r {
        Some(LiveGameMove::FightMove(m, c, status, result, _p, o)) => {
            assert_eq!(m, "e2e4");
            assert_eq!(c, [3, 4]);
            assert_eq!(status, 1);
            assert_eq!(result, "b");
            assert_eq!(o, "mate");
        }
        _ => panic!("a fight move reports a fight move"),
    }
    assert_eq!(live.game.side_to_move, 0);
    assert_eq!(live.game.history.2.len(), 1);
}

#[test]
fn outcomes_and_statuses() {
    let mut live = LiveGame::new(game("g", "shuuro"));
    live.update_status(&Outcome::Stalemate);
    assert_eq!(live.game.status, 3);
    live.update_status(&Outcome::DrawByRepetition);
    assert_eq!(live.game.status, 4);
    live.update_status(&Outcome::DrawByMaterial);
    assert_eq!(live.game.status, 6);
    live.update_status(&Outcome::Draw);
    assert_eq!(live.game.status, 5);
    live.update_status(&Outcome::MoveNotOk);
    assert_eq!(live.game.status, -2);
    live.update_status(&Outcome::Check { color: 0 });
    assert_eq!(live.game.status, -1);
    live.update_status(&Outcome::Checkmate { color: 0 });
    assert_eq!(live.game.status, 1);
    assert_eq!(live.game.result, "w");
    assert_eq!(color_string(2), "");
    assert_eq!(first_part("abc"), "abc");
    assert_eq!(first_part("a_b_c"), "a");
}

#[test]
fn draw_needs_both_players() {
    let mut live = LiveGame::new(game("g", "shuuro"));
    assert!(live.draw_req(&String::from("nobody")).is_none());
    let (code, _) = live.draw_req(&String::from("white")).unwrap();
    assert_eq!(code, -2);
    assert_eq!(live.game.status, -2);
    let (code, _) = live.draw_req(&String::from("white")).unwrap();
    assert_eq!(code, -2);
    let (code, p) = live.draw_req(&String::from("black")).unwrap();
    assert_eq!(code, 5);
    assert_eq!(live.game.status, 5);
    assert_eq!(p, [String::from("white"), String::from("black")]);
}

#[test]
fn resign_and_lost_on_time() {
    let mut live = LiveGame::new(game("g", "shuuro"));
    assert!(live.resign_at(&String::from("nobody"), 1000, 5).is_none());
    assert!(live.resign_at(&String::from("black"), 1000, 5).is_some());
    assert_eq!(live.game.status, 7);
    assert_eq!(live.game.result, "b");
    assert_eq!(live.game.last_clock, 5);
    let mut t = TimeCheck::new("g");
    t.lost(0);
    let (status, result, _) = live.clock_status(&t).unwrap();
    assert_eq!((status, result.as_str()), (8, "w"));
    let mut both = TimeCheck::new("g");
    both.both_lost();
    let (status, _, _) = live.clock_status(&both).unwrap();
    assert_eq!(status, 5);
}

#[test]
fn clock_checks() {
    let live = LiveGame::new(game("g", "shuuro"));
    let mut t = TimeCheck::new("g");
    live.check_clocks_at(&mut t, [false, false], 1000);
    assert!(t.exist && !t.finished);
    let mut t = TimeCheck::new("g");
    live.check_clocks_at(&mut t, [false, false], 10_000_000);
    assert!(t.both_lost && t.finished);
    let mut t = TimeCheck::new("g");
    live.check_clocks_at(&mut t, [true, false], 10_000_000);
    assert!(t.finished && t.lost == 1);
}

#[test]
fn game_store_reads_back_what_was_written() {
    let mut games = LiveGames::default();
    assert_eq!(games.add_game(game("a", "shuuro")), 1);
    assert_eq!(games.add_game(game("b", "shuuro")), 2);
    let id = String::from("a");
    let g = games.get_game(&id).unwrap();
    assert_eq!(g._id, "a");
    assert_eq!(games.get_players(&id), Some([String::from("white"), String::from("black")]));
    assert_eq!(games.live_sfen(&id), Some((0, String::new())));
    assert_eq!(games.remove_game(&id).unwrap()._id, "a");
    assert!(games.get_game(&id).is_none());
    assert_eq!(games.game_count(), 1);
    assert_eq!(games.get_all().len(), 1);
}

#[test]
fn games_by_id_draw_and_resign() {
    let mut games = LiveGames::default();
    games.add_game(game("a", "shuuro"));
    let id = String::from("a");
    assert!(games.draw_req(&String::from("zz"), &String::from("white")).is_none());
    assert_eq!(games.draw_req(&id, &String::from("white")).unwrap().0, -2);
    assert_eq!(games.draw_req(&id, &String::from("black")).unwrap().0, 5);
    assert_eq!(games.get_game(&id).unwrap().status, 5);
    assert!(games.resign_at(&id, &String::from("white"), 10, 20).is_some());
    assert_eq!(games.get_game(&id).unwrap().status, 7);
}

#[test]
fn tv_shows_games_with_a_position() {
    let mut games = LiveGames::default();
    let mut g = game("a", "shuuro");
    g.sfen = String::from("pos");
    games.add_game(g);
    games.add_game(game("b", "shuuro"));
    let tv = games.get_tv();
    assert_eq!(tv.len(), 1);
    assert_eq!(tv[0].game_id, "a");
    assert_eq!(tv[0].sfen, "pos");
    assert_eq!(tv[0].w, "white");
    let t = TvGame::new("x", "w", "b", "f", String::from("v"));
    assert_eq!((t.game_id.as_str(), t.variant.as_str()), ("x", "v"));
}

#[test]
fn unfinished_games_are_loaded_by_stage() {
    let mut games = LiveGames::default();
    let mut done = game("done", "shuuro");
    done.current_stage = 3;
    let hm = vec![(String::from("live"), game("live", "shuuro")), (String::from("done"), done)];
    games.load_unfinished(hm);
    assert_eq!(games.game_count(), 1);
    assert_eq!(games.get_unfinished().len(), 2);
    games.del_unfinished();
    assert!(games.get_unfinished().is_empty());
}

#[test]
fn boards_by_variant() {
    assert!(is_board12("shuuro"));
    assert!(is_board12("shuuroFairy"));
    assert!(!is_board12("standard"));
    let mut all = ShuuroGames::default();
    all.add_game(game("s", "shuuro"));
    all.add_game(game("t", "standard"));
    assert_eq!(all.live_games12.game_count(), 1);
    assert_eq!(all.live_games8.game_count(), 1);
    let json = GameGet::new(&String::from("t"), &String::from("standard"));
    assert_eq!(all.get_game(&json).unwrap()._id, "t");
    assert_eq!(all.game_count(), 2);
    assert!(all.remove_game(&json).is_some());
    assert_eq!(all.game_count(), 1);
}

#[test]
fn game_get_values() {
    let g = GameGet::new(&String::from("id"), &String::from("standard"));
    assert_eq!(g.game_id, "id");
    assert_eq!(g.variant, "standard");
    assert_eq!(g.t, "");
    let r = request("shuuroFairy");
    let h = GameGet::from_request((&r, &String::from("x")));
    assert_eq!(h.game_id, "x");
    assert_eq!(h.variant, "shuuroFairy");
}

#[test]
fn clock_soundness_checks() {
    let tc = TimeControl::new_at(10, 5, 0);
    assert!(tc.is_well_formed());
    assert!(tc.is_click_safe());
    let mut huge = tc;
    huge.clocks = [i64::MAX, 0];
    assert!(huge.is_well_formed());
    assert!(!huge.is_click_safe());
    let mut far = TimeControl::new_at(10, 5, 0);
    far.last_click = i64::MAX;
    assert!(!far.is_well_formed());
}

#[test]
fn new_clock_starts_at_the_present() {
    let tc = TimeControl::new(3, 2);
    // 2020-01-01 in milliseconds since the Unix epoch.
    assert!(tc.last_click > 1_577_836_800_000);
    assert_eq!(tc.clocks, [182_000, 182_000]);
    let g = ShuuroGame::from((&request("shuuro"), &[String::from("a"), String::from("b")], "x"));
    assert!(g.last_clock > 1_577_836_800_000);
}

#[test]
fn clock_watch_keeps_running_while_the_game_lives() {
    let mut games = LiveGames::default();
    games.add_game(game("a", "shuuro"));
    let mut t = TimeCheck::new("a");
    games.check_clocks_at(&mut t, [false, false], 1000);
    assert!(t.exist && !t.finished);
    games.check_clocks_at(&mut t, [false, false], 10_000_000);
    assert!(t.exist && t.finished && t.both_lost);
    let mut gone = TimeCheck::new("zz");
    games.check_clocks_at(&mut gone, [false, false], 1000);
    assert!(!gone.exist && !gone.finished);
}
