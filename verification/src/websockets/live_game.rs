use vstd::prelude::*;
use vstd::string::*;

use crate::clock::{bson_now_millis, utc_now_millis, TIMESTAMP_BOUND};
use crate::database::mongo::{GameView, ShuuroGame};
use crate::names::{
    copy_names, find_key, has_key, key_map, key_pos, key_views, keys_distinct, lemma_key_map_len,
    lemma_key_map_update, lemma_key_pos, lemma_push_entry, put_key, remove_key, views,
};
use crate::text::str_eq;
use crate::websockets::client_messages::LiveGameMove;
use crate::websockets::games::TvGame;
use crate::websockets::time_control::TimeCheck;

verus! {

broadcast use vstd::array::group_array_axioms;

/// Outcome of the fight position after a move, as the move generator reports it.
/// Colours are indices: 0 is white, 1 is black.
pub enum Outcome {
    Check { color: usize },
    Nothing,
    Stalemate,
    Draw,
    DrawByRepetition,
    DrawByMaterial,
    Checkmate { color: usize },
    MoveOk,
    MoveNotOk,
}

/// Text of a colour: "w" for white, "b" for black, empty for no colour.
pub open spec fn color_text(i: int) -> Seq<char> {
    if i == 0 {
        "w"@
    } else if i == 1 {
        "b"@
    } else {
        Seq::<char>::empty()
    }
}

/// Text of a colour.
pub fn color_string(i: usize) -> (s: String)
    ensures
        s@ == color_text(i as int),
{
    if i == 0 {
        "w".to_owned()
    } else if i == 1 {
        "b".to_owned()
    } else {
        String::new()
    }
}

/// Status of a game after the fight reached `outcome`: -1 the game goes on,
/// -2 an illegal move, 1 checkmate, 3 stalemate, 4 draw by repetition, 5 draw,
/// 6 draw by material.
pub open spec fn outcome_status(outcome: Outcome) -> i32 {
    match outcome {
        Outcome::Check { .. } => -1i32,
        Outcome::Nothing => -1i32,
        Outcome::Stalemate => 3i32,
        Outcome::Draw => 5i32,
        Outcome::DrawByRepetition => 4i32,
        Outcome::DrawByMaterial => 6i32,
        Outcome::Checkmate { .. } => 1i32,
        Outcome::MoveOk => -1i32,
        Outcome::MoveNotOk => -2i32,
    }
}

/// The record after the fight reached `outcome`: the status, and for a
/// checkmate the colour in the result.
pub open spec fn after_outcome(g: GameView, outcome: Outcome) -> GameView {
    match outcome {
        Outcome::Checkmate { color } => GameView {
            status: 1,
            result: color_text(color as int),
            ..g
        },
        _ => GameView { status: outcome_status(outcome), ..g },
    }
}

/// Index of `u` among the two players, the first match.
pub open spec fn index_in(p: (Seq<char>, Seq<char>), u: Seq<char>) -> Option<usize> {
    if p.0 == u {
        Some(0usize)
    } else if p.1 == u {
        Some(1usize)
    } else {
        None
    }
}

/// The other side: 1 for white (0), 0 for any other colour.
pub open spec fn other_side(color: usize) -> usize {
    if color != 0 {
        0
    } else {
        1
    }
}

/// Everything up to the first `_` of a placement record.
pub open spec fn first_segment(s: Seq<char>) -> Seq<char> {
    if exists|i: int| 0 <= i < s.len() && s[i] == '_' {
        s.subrange(0, choose_first_underscore(s))
    } else {
        s
    }
}

/// Index of the first `_` in `s`.
pub open spec fn choose_first_underscore(s: Seq<char>) -> int {
    choose|i: int| 0 <= i < s.len() && s[i] == '_' && forall|j: int| 0 <= j < i ==> s[j] != '_'
}

/// Everything up to the first `_` of `s`.
pub fn first_part(s: &str) -> (r: String)
    ensures
        r@ == first_segment(s@),
{
    let n = s.unicode_len();
    let mut i: usize = 0;
    while i < n
        invariant
            n == s@.len(),
            i <= n,
            forall|j: int| 0 <= j < i ==> s@[j] != '_',
        decreases n - i,
    {
        if s.get_char(i) == '_' {
            proof {
                let k = choose_first_underscore(s@);
                assert(0 <= i < s@.len() && s@[i as int] == '_' && forall|j: int| 0 <= j < i ==> s@[j] != '_');
                if k < i {
                } else if k > i {
                }
                assert(k == i);
            }
            return s.substring_char(0, i).to_owned();
        }
        i = i + 1;
    }
    s.to_owned()
}

/// How the fight starts once the deployment is over: the outcome of the
/// initial fight position (when the deployment position could be loaded) and
/// whether the side not to move is in check.
pub struct FightStart {
    pub outcome: Option<Outcome>,
    pub in_check: bool,
}

/// Result of a click of a shop player.
pub enum BuyTurn {
    /// The player with this index may buy.
    Buy(usize),
    /// The player with this index ran out of time.
    LostOnTime(usize),
}

/// Where the players go when the deployment starts, and the pieces they bought.
pub struct DeployInfo {
    pub path: String,
    pub hand: String,
}

/// The record of one live game. The positions of its shop, deployment and
/// fight are kept by the move generator, which hands its answers to these
/// methods.
pub struct LiveGame {
    pub game: ShuuroGame,
}

impl LiveGame {
    pub fn new(game: ShuuroGame) -> (g: Self)
        ensures
            g.game == game,
    {
        LiveGame { game }
    }

    /// Index of `u` among the players `p`.
    pub fn player_index(&self, p: &[String; 2], u: &String) -> (r: Option<usize>)
        ensures
            r == index_in((p[0]@, p[1]@), u@),
    {
        if str_eq(p[0].as_str(), u.as_str()) {
            Some(0)
        } else if str_eq(p[1].as_str(), u.as_str()) {
            Some(1)
        } else {
            None
        }
    }

    /// Index of the side that does not have `color`.
    pub fn other_index(&self, color: usize) -> (r: usize)
        ensures
            r == other_side(color),
    {
        let b: bool = color != 0;
        if !b {
            1
        } else {
            0
        }
    }

    fn players_copy(&self) -> (p: [String; 2])
        ensures
            p[0]@ == self.game.players[0]@,
            p[1]@ == self.game.players[1]@,
    {
        [self.game.players[0].clone(), self.game.players[1].clone()]
    }

    // SHOP PART

    /// A player may only buy pieces of its own colour.
    pub fn buys_own_piece(&self, player: usize, piece_color: usize) -> (r: bool)
        ensures
            r == (player == piece_color && player < 2),
    {
        player < 2 && player == piece_color
    }

    /// What a click of `player` in the shop at `now` does: nothing for a
    /// stranger; a player with time left may buy and its clock is clicked; a
    /// player out of time lost.
    pub open spec fn buy_effect(
        before: GameView,
        player: Seq<char>,
        now: int,
        r: Option<BuyTurn>,
        after: GameView,
    ) -> bool {
        match index_in(before.players, player) {
            None => r is None && after == before,
            Some(p) => match before.tc.duration_at(p as int, now) {
                Some(d) => r == Some(BuyTurn::Buy(p)) && after == (GameView {
                    tc: before.tc.after_click(p as int, d, now),
                    ..before
                }),
                None => r == Some(BuyTurn::LostOnTime(p)) && after == before,
            },
        }
    }

    /// Click of `player` in the shop at `now`: it may buy while its time runs.
    pub fn buy_turn_at(&mut self, player: &String, now: i64) -> (r: Option<BuyTurn>)
        requires
            old(self).game.tc.click_safe(),
            -TIMESTAMP_BOUND < now < TIMESTAMP_BOUND,
        ensures
            final(self).game.tc.well_formed(),
            LiveGame::buy_effect(old(self).game@, player@, now as int, r, final(self).game@),
    {
        let players = self.players_copy();
        match self.player_index(&players, player) {
            Some(p) => {
                match self.game.tc.click_at(p, now) {
                    Some(_c) => Some(BuyTurn::Buy(p)),
                    None => Some(BuyTurn::LostOnTime(p)),
                }
            },
            None => None,
        }
    }

    /// Click of `player` in the shop now.
    pub fn buy_turn(&mut self, player: &String) -> (r: Option<BuyTurn>)
        requires
            old(self).game.tc.click_safe(),
        ensures
            final(self).game.tc.well_formed(),
            exists|now: int|
                -TIMESTAMP_BOUND < now < TIMESTAMP_BOUND && #[trigger] LiveGame::buy_effect(
                    old(self).game@,
                    player@,
                    now,
                    r,
                    final(self).game@,
                ),
    {
        let now = utc_now_millis();
        self.buy_turn_at(player, now)
    }

    pub open spec fn new_piece_effect(before: GameView, player: usize, confirmed: [bool; 2], hand: Seq<char>, r: Option<LiveGameMove>, after: GameView) -> bool {
        &&& (after == (GameView {
            draws: [false, false],
            hands: if player == 0 {
                (hand, before.hands.1)
            } else {
                (before.hands.0, hand)
            },
            ..before
        }))
        &&& (confirmed[player as int] ==> r == Some(LiveGameMove::BuyMove(confirmed)))
        &&& (!confirmed[player as int] ==> r is None)
    }

    /// Record a purchase of `player`: the shop answered with the confirmed
    /// players and the player's hand. Pending draw offers are dropped; the move
    /// is reported once the player is confirmed.
    pub fn new_piece(&mut self, player: usize, confirmed: [bool; 2], hand: String) -> (r: Option<
        LiveGameMove,
    >)
        requires
            player < 2,
        ensures
            LiveGame::new_piece_effect(old(self).game@, player, confirmed, hand@, r, final(self).game@),
    {
        self.game.draws = [false, false];
        if player == 0 {
            self.game.hands = [hand, self.game.hands[1].clone()];
        } else {
            self.game.hands = [self.game.hands[0].clone(), hand];
        }
        if confirmed[player] {
            return Some(LiveGameMove::BuyMove(confirmed));
        }
        None
    }

    // DEPLOY PART

    /// Move the bought pieces to the deployment: both hands are stored, and the
    /// whole hand (white's then black's) comes back.
    pub fn load_shop_hand(&mut self, white: String, black: String) -> (hand: String)
        ensures
            hand@ == white@ + black@,
            final(self).game@ == (GameView { hands: (white@, black@), ..old(self).game@ }),
    {
        let mut hand = white.clone();
        hand.append(black.as_str());
        self.game.hands = [white, black];
        hand
    }

    pub open spec fn deploy_effect(before: GameView, id: Seq<char>, white: Seq<char>, black: Seq<char>, sfen: Seq<char>, info: DeployInfo, after: GameView) -> bool {
        &&& (info.hand@ == white + black)
        &&& (info.path@ == "/shuuro/1/"@ + id)
        &&& (after == (GameView {
            current_stage: 1,
            hands: (white, black),
            sfen: sfen,
            side_to_move: 0,
            ..before
        }))
    }

    /// Start the deployment: stage 1, white to move, the position `sfen` with
    /// the plinths, the hands from the shop. Returns where players go and the
    /// whole hand.
    pub fn set_deploy(&mut self, id: &String, white: String, black: String, sfen: String) -> (info:
        DeployInfo)
        ensures
            LiveGame::deploy_effect(old(self).game@, id@, white@, black@, sfen@, info, final(self).game@),
    {
        self.game.current_stage = 1;
        let hand = self.load_shop_hand(white, black);
        self.game.sfen = sfen;
        self.game.side_to_move = 0;
        let mut path = "/shuuro/1/".to_owned();
        path.append(id.as_str());
        DeployInfo { path, hand }
    }

    pub open spec fn place_turn_effect(before: GameView, player: Seq<char>, placement_side: usize, now_clock: i64, now_record: i64, r: Option<(usize, [u64; 2])>, after: GameView) -> bool {
        &&& (match r {
            Some((index, clocks)) => {
                &&& before.current_stage == 1
                &&& index_in(before.players, player) == Some(index)
                &&& placement_side == index
                &&& before.tc.duration_at(index as int, now_clock as int) is Some
                &&& after.tc == before.tc.after_click(
                    index as int,
                    before.tc.duration_at(index as int, now_clock as int)->0,
                    now_clock as int,
                )
                &&& clocks == [after.tc.clocks[0] as u64, after.tc.clocks[1] as u64]
                &&& after == (GameView {
                    tc: after.tc,
                    clocks: after.tc.clocks,
                    last_clock: now_record,
                    ..before
                })
            },
            None => {
                &&& after == before
                &&& (before.current_stage != 1
                    || index_in(before.players, player) is None
                    || placement_side != index_in(before.players, player)->0
                    || before.tc.duration_at(
                        index_in(before.players, player)->0 as int,
                        now_clock as int,
                    ) is None)
            },
        })
    }

    /// Click of `player` in the deployment at `now_clock` (`now_record` is the
    /// time stored in the record): stage 1, a player, on the move in the
    /// placement position, with time left. Returns its index and both clocks.
    pub fn place_move_at(
        &mut self,
        player: &String,
        placement_side: usize,
        now_clock: i64,
        now_record: i64,
    ) -> (r: Option<(usize, [u64; 2])>)
        requires
            old(self).game.tc.click_safe(),
            -TIMESTAMP_BOUND < now_clock < TIMESTAMP_BOUND,
        ensures
            final(self).game.tc.well_formed(),
            LiveGame::place_turn_effect(old(self).game@, player@, placement_side, now_clock, now_record, r, final(self).game@),
    {
        if self.game.current_stage != 1 {
            return None;
        }
        let players = self.players_copy();
        if let Some(index) = self.player_index(&players, player) {
            if placement_side != index {
                return None;
            }
            if let Some(clocks) = self.game.tc.click_at(index, now_clock) {
                self.game.clocks = self.game.tc.clocks;
                self.game.last_clock = now_record;
                return Some((index, clocks));
            }
        }
        None
    }

    /// Click of `player` in the deployment now.
    pub fn place_move(&mut self, player: &String, placement_side: usize) -> (r: Option<
        (usize, [u64; 2]),
    >)
        requires
            old(self).game.tc.click_safe(),
        ensures
            final(self).game.tc.well_formed(),
            exists|now_clock: i64, now_record: i64|
                -TIMESTAMP_BOUND < now_clock < TIMESTAMP_BOUND && #[trigger] LiveGame::place_turn_effect(
                    old(self).game@,
                    player@,
                    placement_side,
                    now_clock,
                    now_record,
                    r,
                    final(self).game@,
                ),
            r is None ==> final(self).game@ == old(self).game@,
            r matches Some((index, clocks)) ==> {
                &&& old(self).game.current_stage == 1
                &&& index_in(old(self).game@.players, player@) == Some(index)
                &&& placement_side == index
                &&& clocks == [final(self).game.tc.clocks[0] as u64, final(self).game.tc.clocks[1] as u64]
                &&& final(self).game.clocks == final(self).game.tc.clocks
            },
    {
        let now_clock = utc_now_millis();
        let now_record = bson_now_millis();
        self.place_move_at(player, placement_side, now_clock, now_record)
    }

    pub open spec fn placement_effect(before: GameView, clocks: [u64; 2], placed: Seq<char>, deployment_over: bool, fight: FightStart, next_side: usize, sfen: Seq<char>, hands: (Seq<char>, Seq<char>), now_clock: i64, now_record: i64, r: LiveGameMove, after: GameView) -> bool {
        &&& (({
            let fought = if deployment_over {
                LiveGame::after_fight_start(before, fight, now_clock, now_record)
            } else {
                before
            };
            after == (GameView {
                draws: [false, false],
                side_to_move: other_side(next_side) as u8,
                sfen: sfen,
                hands: (hands.0, hands.1),
                history: (fought.history.0, fought.history.1.push(placed), fought.history.2),
                ..fought
            })
        }))
        &&& (r matches LiveGameMove::PlaceMove(m, c, fme, tf, p) && m@ == first_segment(placed)
            && c == clocks && fme == (deployment_over && fight.in_check) && tf == deployment_over
            && p[0]@ == before.players.0 && p[1]@ == before.players.1)
    }

    /// A placement of the player with `index` of a piece of `piece_color`: a
    /// piece of the other colour is refused and nothing changes; else the
    /// placement is recorded as `placement_effect` says.
    pub open spec fn placement_result(before: GameView, index: usize, piece_color: usize, clocks: [u64; 2], placed: Seq<char>, deployment_over: bool, fight: FightStart, next_side: usize, sfen: Seq<char>, hands: (Seq<char>, Seq<char>), now_clock: i64, now_record: i64, r: Option<LiveGameMove>, after: GameView) -> bool {
        if piece_color != index {
            r is None && after == before
        } else {
            r matches Some(mv) && LiveGame::placement_effect(before, clocks, placed, deployment_over, fight, next_side, sfen, hands, now_clock, now_record, mv, after)
        }
    }

    /// Record a placement of the player with `index` of a piece of
    /// `piece_color`: `placed` is the move record of the placement, the
    /// deployment position answered with whether the deployment is over, the
    /// side to move, the position and the hands; `fight` tells how the fight
    /// starts when the deployment is over. A piece of the other colour is refused.
    pub fn place_piece_at(
        &mut self,
        index: usize,
        piece_color: usize,
        clocks: [u64; 2],
        placed: String,
        deployment_over: bool,
        fight: FightStart,
        next_side: usize,
        sfen: String,
        hands: [String; 2],
        now_clock: i64,
        now_record: i64,
    ) -> (r: Option<LiveGameMove>)
        ensures
            LiveGame::placement_result(old(self).game@, index, piece_color, clocks, placed@, deployment_over, fight, next_side, sfen@, (hands[0]@, hands[1]@), now_clock, now_record, r, final(self).game@),
    {
        if piece_color != index {
            return None;
        }
        self.game.draws = [false, false];
        let m = first_part(placed.as_str());
        let mut fme = false;
        if deployment_over {
            fme = self.set_fight_at(fight, now_clock, now_record);
        }
        self.game.side_to_move = self.other_index(next_side) as u8;
        self.game.sfen = sfen;
        self.game.hands = hands;
        let ghost before = self.game.history.1@;
        self.game.history.1.push(placed);
        proof {
            assert(views(self.game.history.1@) =~= views(before).push(self.game.history.1@.last()@));
        }
        let players = self.players_copy();
        Some(LiveGameMove::PlaceMove(m, clocks, fme, deployment_over, players))
    }

    /// Record a placement, now.
    pub fn place_piece(
        &mut self,
        index: usize,
        piece_color: usize,
        clocks: [u64; 2],
        placed: String,
        deployment_over: bool,
        fight: FightStart,
        next_side: usize,
        sfen: String,
        hands: [String; 2],
    ) -> (r: Option<LiveGameMove>)
        ensures
            exists|now_clock: i64, now_record: i64|
                #[trigger] LiveGame::placement_result(old(self).game@, index, piece_color, clocks, placed@, deployment_over, fight, next_side, sfen@, (hands[0]@, hands[1]@), now_clock, now_record, r, final(self).game@),
    {
        let now_clock = utc_now_millis();
        let now_record = bson_now_millis();
        self.place_piece_at(index, piece_color, clocks, placed, deployment_over, fight, next_side, sfen, hands, now_clock, now_record)
    }

    // FIGHT PART

    /// The record once the fight starts at `now_clock` / `now_record`.
    pub open spec fn after_fight_start(g: GameView, fight: FightStart, now_clock: i64, now_record: i64) -> GameView {
        let started = GameView {
            current_stage: 2,
            tc: crate::websockets::time_control::TimeControl { stage: 2, last_click: now_clock, ..g.tc },
            last_clock: now_record,
            ..g
        };
        match fight.outcome {
            Some(o) => after_outcome(started, o),
            None => started,
        }
    }

    /// Move from the deployment to the fight: stage 2, the clock restarts, and
    /// the status follows the outcome of the initial position. Returns whether
    /// the side not to move is in check (an error of the first move).
    pub fn set_fight_at(&mut self, fight: FightStart, now_clock: i64, now_record: i64) -> (fme: bool)
        ensures
            final(self).game@ == LiveGame::after_fight_start(old(self).game@, fight, now_clock, now_record),
            fme == fight.in_check,
    {
        self.game.current_stage = 2;
        self.game.tc.update_stage_at(2, now_clock);
        self.game.last_clock = now_record;
        if let Some(o) = fight.outcome {
            self.update_status(&o);
        }
        fight.in_check
    }

    /// Move from the deployment to the fight, now.
    pub fn set_fight(&mut self, fight: FightStart) -> (fme: bool)
        ensures
            exists|now_clock: i64, now_record: i64|
                final(self).game@ == #[trigger] LiveGame::after_fight_start(old(self).game@, fight, now_clock, now_record),
            final(self).game.current_stage == 2,
            final(self).game.tc.stage == 2,
            fme == fight.in_check,
    {
        let now_clock = utc_now_millis();
        let now_record = bson_now_millis();
        self.set_fight_at(fight, now_clock, now_record)
    }

    pub open spec fn fight_turn_effect(before: GameView, player: Seq<char>, fight_side: usize, now_clock: i64, now_record: i64, r: Option<(usize, [u64; 2])>, after: GameView) -> bool {
        &&& (match r {
            Some((index, clocks)) => {
                &&& before.current_stage == 2
                &&& index_in(before.players, player) == Some(index)
                &&& fight_side == index
                &&& before.tc.duration_at(index as int, now_clock as int) is Some
                &&& after.tc == before.tc.after_click(
                    index as int,
                    before.tc.duration_at(index as int, now_clock as int)->0,
                    now_clock as int,
                )
                &&& clocks == [after.tc.clocks[0] as u64, after.tc.clocks[1] as u64]
                &&& after == (GameView {
                    draws: [false, false],
                    tc: after.tc,
                    clocks: after.tc.clocks,
                    last_clock: now_record,
                    ..before
                })
            },
            None => {
                &&& after == before
                &&& (before.current_stage != 2
                    || index_in(before.players, player) is None
                    || fight_side != index_in(before.players, player)->0
                    || before.tc.duration_at(
                        index_in(before.players, player)->0 as int,
                        now_clock as int,
                    ) is None)
            },
        })
    }

    /// Click of `player` in the fight at `now_clock`: stage 2, a player, on the
    /// move, with time left. Pending draw offers are dropped.
    pub fn fight_move_at(
        &mut self,
        player: &String,
        fight_side: usize,
        now_clock: i64,
        now_record: i64,
    ) -> (r: Option<(usize, [u64; 2])>)
        requires
            old(self).game.tc.click_safe(),
            -TIMESTAMP_BOUND < now_clock < TIMESTAMP_BOUND,
        ensures
            final(self).game.tc.well_formed(),
            LiveGame::fight_turn_effect(old(self).game@, player@, fight_side, now_clock, now_record, r, final(self).game@),
    {
        if self.game.current_stage != 2 {
            return None;
        }
        let players = self.players_copy();
        if let Some(index) = self.player_index(&players, player) {
            if fight_side != index {
                return None;
            }
            if let Some(clocks) = self.game.tc.click_at(index, now_clock) {
                self.game.draws = [false, false];
                self.game.clocks = self.game.tc.clocks;
                self.game.last_clock = now_record;
                return Some((index, clocks));
            }
        }
        None
    }

    /// Click of `player` in the fight, now.
    pub fn fight_move(&mut self, player: &String, fight_side: usize) -> (r: Option<(usize, [u64; 2])>)
        requires
            old(self).game.tc.click_safe(),
        ensures
            final(self).game.tc.well_formed(),
            exists|now_clock: i64, now_record: i64|
                -TIMESTAMP_BOUND < now_clock < TIMESTAMP_BOUND && #[trigger] LiveGame::fight_turn_effect(
                    old(self).game@,
                    player@,
                    fight_side,
                    now_clock,
                    now_record,
                    r,
                    final(self).game@,
                ),
            r is None ==> final(self).game@ == old(self).game@,
            r matches Some((index, clocks)) ==> {
                &&& old(self).game.current_stage == 2
                &&& index_in(old(self).game@.players, player@) == Some(index)
                &&& fight_side == index
                &&& final(self).game.draws == [false, false]
                &&& clocks == [final(self).game.tc.clocks[0] as u64, final(self).game.tc.clocks[1] as u64]
            },
    {
        let now_clock = utc_now_millis();
        let now_record = bson_now_millis();
        self.fight_move_at(player, fight_side, now_clock, now_record)
    }

    pub open spec fn fight_record_effect(before: GameView, game_move: Seq<char>, clocks: [u64; 2], outcome: Outcome, outcome_text: String, next_side: usize, sfen: Seq<char>, played: Seq<char>, r: LiveGameMove, after: GameView) -> bool {
        &&& (({
            let outcome_game = after_outcome(before, outcome);
            after == (GameView {
                side_to_move: other_side(next_side) as u8,
                sfen: sfen,
                history: (outcome_game.history.0, outcome_game.history.1, outcome_game.history.2.push(played)),
                ..outcome_game
            })
        }))
        &&& (r matches LiveGameMove::FightMove(m, c, status, result, p, o) && m@ == game_move
            && c == clocks && status == outcome_status(outcome)
            && result@ == after_outcome(before, outcome).result
            && p[0]@ == before.players.0 && p[1]@ == before.players.1
            && o == outcome_text)
    }

    /// A fight move of the player with `index`, whose starting square holds a
    /// piece of colour `piece_color` (`None` for an empty square): without a
    /// piece of the player's own colour nothing changes; else the move is
    /// recorded as `fight_record_effect` says.
    pub open spec fn move_result(before: GameView, index: usize, piece_color: Option<usize>, game_move: Seq<char>, clocks: [u64; 2], outcome: Outcome, outcome_text: String, next_side: usize, sfen: Seq<char>, played: Seq<char>, r: Option<LiveGameMove>, after: GameView) -> bool {
        if piece_color != Some(index) {
            r is None && after == before
        } else {
            r matches Some(mv) && LiveGame::fight_record_effect(before, game_move, clocks, outcome, outcome_text, next_side, sfen, played, mv, after)
        }
    }

    /// Record a fight move `game_move` of the player with `index` that the
    /// fight position accepted: it answered with the colour of the moved piece,
    /// the outcome (and its text), the side to move, the position and the move
    /// record `played`. A move of a piece that is not the player's is refused.
    pub fn make_move(
        &mut self,
        index: usize,
        piece_color: Option<usize>,
        game_move: &String,
        clocks: [u64; 2],
        outcome: Outcome,
        outcome_text: String,
        next_side: usize,
        sfen: String,
        played: String,
    ) -> (r: Option<LiveGameMove>)
        ensures
            LiveGame::move_result(old(self).game@, index, piece_color, game_move@, clocks, outcome, outcome_text, next_side, sfen@, played@, r, final(self).game@),
    {
        match piece_color {
            Some(c) => {
                if c != index {
                    return None;
                }
            },
            None => {
                return None;
            },
        }
        self.update_status(&outcome);
        self.game.side_to_move = self.other_index(next_side) as u8;
        self.game.sfen = sfen;
        let ghost before = self.game.history.2@;
        self.game.history.2.push(played);
        proof {
            assert(views(self.game.history.2@) =~= views(before).push(self.game.history.2@.last()@));
        }
        let players = self.players_copy();
        Some(LiveGameMove::FightMove(
            game_move.clone(),
            clocks,
            self.game.status,
            self.game.result.clone(),
            players,
            outcome_text,
        ))
    }

    pub open spec fn draw_effect(before: GameView, username: Seq<char>, r: Option<(i8, [String; 2])>, after: GameView) -> bool {
        &&& (match index_in(before.players, username) {
            None => r is None && after == before,
            Some(i) => {
                let draws = if i == 0 {
                    [true, before.draws[1]]
                } else {
                    [before.draws[0], true]
                };
                &&& r matches Some((code, p)) && p[0]@ == before.players.0
                    && p[1]@ == before.players.1 && (code == if draws[0] && draws[1] {
                    5i8
                } else {
                    -2i8
                })
                &&& after == (GameView {
                    draws,
                    status: if draws[0] && draws[1] {
                        5
                    } else {
                        before.status
                    },
                    ..before
                })
            },
        })
    }

    /// DRAW PART: `username` offers or accepts a draw. When both players did,
    /// the game ends in a draw (status 5) and 5 comes back; else -2.
    pub fn draw_req(&mut self, username: &String) -> (r: Option<(i8, [String; 2])>)
        ensures
            LiveGame::draw_effect(old(self).game@, username@, r, final(self).game@),
    {
        let players = self.players_copy();
        if let Some(index) = self.player_index(&players, username) {
            if index == 0 {
                self.game.draws = [true, self.game.draws[1]];
            } else {
                self.game.draws = [self.game.draws[0], true];
            }
            if self.game.draws[0] && self.game.draws[1] {
                self.game.status = 5;
                return Some((5, players));
            } else {
                return Some((-2, players));
            }
        }
        None
    }

    // CLOCK PART

    pub open spec fn clock_status_effect(before: GameView, time_check: TimeCheck, r: Option<(i32, String, [String; 2])>, after: GameView) -> bool {
        &&& (time_check.both_lost ==> after == (GameView { status: 5, ..before }))
        &&& (!time_check.both_lost ==> after == (GameView {
            status: 8,
            result: color_text(time_check.lost as int),
            ..before
        }))
        &&& (r matches Some((status, result, p)) && status == after.status
            && result@ == after.result && p[0]@ == before.players.0
            && p[1]@ == before.players.1)
    }

    /// End the game on time: a draw (status 5) when both lost, else status 8
    /// with the colour that lost as result. Returns status, result and players.
    pub fn clock_status(&mut self, time_check: &TimeCheck) -> (r: Option<(i32, String, [String; 2])>)
        ensures
            LiveGame::clock_status_effect(old(self).game@, *time_check, r, final(self).game@),
    {
        if time_check.both_lost {
            self.game.status = 5;
        } else {
            self.game.status = 8;
            self.game.result = color_string(time_check.lost);
        }
        let players = self.players_copy();
        Some((self.game.status, self.game.result.clone(), players))
    }

    /// What a check of the clocks at `now` finds, given the players who
    /// confirmed their purchases: in the shop both lose when both ran out and
    /// neither confirmed, else the first unconfirmed one loses; when only one
    /// ran out it loses. Later the side to move loses when it ran out.
    pub open spec fn clock_verdict(g: GameView, confirmed: [bool; 2], now: int) -> Option<Option<usize>> {
        let tc = g.tc;
        if g.current_stage == 0 {
            let d0 = tc.duration_at(0, now);
            let d1 = tc.duration_at(1, now);
            if d0 is None && d1 is None {
                if !confirmed[0] && !confirmed[1] {
                    Some(None)
                } else if !confirmed[0] {
                    Some(Some(0usize))
                } else if !confirmed[1] {
                    Some(Some(1usize))
                } else {
                    None
                }
            } else if d0 is None {
                Some(Some(0usize))
            } else if d1 is None {
                Some(Some(1usize))
            } else {
                None
            }
        } else {
            if tc.duration_at(g.side_to_move as int, now) is None {
                Some(Some(g.side_to_move as usize))
            } else {
                None
            }
        }
    }

    /// Check clocks for current stage at `now`, and record who lost on time.
    pub fn check_clocks_at(&self, time_check: &mut TimeCheck, confirmed: [bool; 2], now: i64)
        requires
            self.game.tc.well_formed(),
            self.game.current_stage != 0 ==> self.game.side_to_move < 2,
            -TIMESTAMP_BOUND < now < TIMESTAMP_BOUND,
        ensures
            match LiveGame::clock_verdict(self.game@, confirmed, now as int) {
                None => *final(time_check) == *old(time_check),
                Some(None) => *final(time_check) == (TimeCheck {
                    both_lost: true,
                    finished: true,
                    ..*old(time_check)
                }),
                Some(Some(i)) => *final(time_check) == (TimeCheck {
                    lost: i,
                    finished: true,
                    ..*old(time_check)
                }),
            },
    {
        if self.game.current_stage == 0 {
            let d0 = self.game.tc.current_duration_at(0, now);
            let d1 = self.game.tc.current_duration_at(1, now);
            if d0.is_none() && d1.is_none() {
                if !confirmed[0] && !confirmed[1] {
                    time_check.both_lost();
                } else if !confirmed[0] {
                    time_check.lost(0);
                } else if !confirmed[1] {
                    time_check.lost(1);
                }
            } else if d0.is_none() {
                time_check.lost(0);
            } else if d1.is_none() {
                time_check.lost(1);
            }
        } else {
            let stm = self.game.side_to_move as usize;
            if self.game.tc.current_duration_at(stm, now).is_none() {
                time_check.lost(stm);
            }
        }
    }

    /// Check clocks for current stage, now.
    pub fn check_clocks(&self, time_check: &mut TimeCheck, confirmed: [bool; 2])
        requires
            self.game.tc.well_formed(),
            self.game.current_stage != 0 ==> self.game.side_to_move < 2,
        ensures
            exists|now: int|
                -TIMESTAMP_BOUND < now < TIMESTAMP_BOUND && match #[trigger] LiveGame::clock_verdict(
                    self.game@,
                    confirmed,
                    now,
                ) {
                    None => *final(time_check) == *old(time_check),
                    Some(None) => *final(time_check) == (TimeCheck {
                        both_lost: true,
                        finished: true,
                        ..*old(time_check)
                    }),
                    Some(Some(i)) => *final(time_check) == (TimeCheck {
                        lost: i,
                        finished: true,
                        ..*old(time_check)
                    }),
                },
    {
        let now = utc_now_millis();
        self.check_clocks_at(time_check, confirmed, now)
    }

    /// After a fight move, update the status (and the result of a checkmate).
    pub fn update_status(&mut self, outcome: &Outcome)
        ensures
            final(self).game@ == after_outcome(old(self).game@, *outcome),
    {
        match outcome {
            Outcome::Check { color: _ } => {
                self.game.status = -1;
            },
            Outcome::Nothing => {
                self.game.status = -1;
            },
            Outcome::Stalemate => {
                self.game.status = 3;
            },
            Outcome::Draw => {
                self.game.status = 5;
            },
            Outcome::DrawByRepetition => {
                self.game.status = 4;
            },
            Outcome::DrawByMaterial => {
                self.game.status = 6;
            },
            Outcome::Checkmate { color } => {
                self.game.status = 1;
                self.game.result = color_string(*color);
            },
            Outcome::MoveOk => {
                self.game.status = -1;
            },
            Outcome::MoveNotOk => {
                self.game.status = -2;
            },
        }
    }

    pub fn get_game(&self) -> (g: ShuuroGame)
        ensures
            g@ == self.game@,
    {
        self.game.clone()
    }

    pub fn live_sfen(&self) -> (r: (u8, String))
        ensures
            r.0 == self.game.current_stage,
            r.1@ == self.game.sfen@,
    {
        (self.game.current_stage, self.game.sfen.clone())
    }

    pub open spec fn resign_effect(before: GameView, username: Seq<char>, now_clock: i64, now_record: i64, r: Option<[String; 2]>, after: GameView) -> bool {
        &&& (match index_in(before.players, username) {
            None => r is None && after == before,
            Some(i) => {
                &&& r matches Some(p) && p[0]@ == before.players.0 && p[1]@
                    == before.players.1
                &&& after == (GameView {
                    status: 7,
                    result: color_text(i as int),
                    tc: match before.tc.duration_at(i as int, now_clock as int) {
                        Some(d) => before.tc.after_click(i as int, d, now_clock as int),
                        None => before.tc,
                    },
                    last_clock: now_record,
                    ..before
                })
            },
        })
    }

    /// `username` resigns at `now_clock`: status 7, its colour as result, its
    /// clock clicked. Returns the players.
    pub fn resign_at(&mut self, username: &String, now_clock: i64, now_record: i64) -> (r: Option<
        [String; 2],
    >)
        requires
            old(self).game.tc.click_safe(),
            -TIMESTAMP_BOUND < now_clock < TIMESTAMP_BOUND,
        ensures
            LiveGame::resign_effect(old(self).game@, username@, now_clock, now_record, r, final(self).game@),
    {
        let players = self.players_copy();
        if let Some(index) = self.player_index(&players, username) {
            self.game.status = 7;
            self.game.result = color_string(index);
            let _ = self.game.tc.click_at(index, now_clock);
            self.game.last_clock = now_record;
            return Some(players);
        }
        None
    }

    /// Resign if this player exists in the game.
    pub fn resign(&mut self, username: &String) -> (r: Option<[String; 2]>)
        requires
            old(self).game.tc.click_safe(),
        ensures
            exists|now_clock: i64, now_record: i64|
                -TIMESTAMP_BOUND < now_clock < TIMESTAMP_BOUND && #[trigger] LiveGame::resign_effect(
                    old(self).game@,
                    username@,
                    now_clock,
                    now_record,
                    r,
                    final(self).game@,
                ),
            index_in(old(self).game@.players, username@) is None ==> r is None && final(self).game@
                == old(self).game@,
            index_in(old(self).game@.players, username@) matches Some(i) ==> {
                &&& r is Some
                &&& final(self).game.status == 7
                &&& final(self).game.result@ == color_text(i as int)
            },
    {
        let now_clock = utc_now_millis();
        let now_record = bson_now_millis();
        self.resign_at(username, now_clock, now_record)
    }
}

} // verus!

verus! {

/// The live games by id, and the ids of the games that were loaded unfinished
/// when the server started.
pub struct LiveGames {
    all: Vec<(String, LiveGame)>,
    unfinished: Vec<String>,
}

/// Most games shown on TV.
pub const TV_GAMES: usize = 20;

impl LiveGames {
    pub closed spec fn well_formed(&self) -> bool {
        keys_distinct(self.all@)
    }

    /// The live games by id.
    pub closed spec fn games(&self) -> Map<Seq<char>, GameView> {
        key_map(self.all@).map_values(|g: LiveGame| g.game@)
    }

    /// Ids of the games loaded unfinished.
    pub closed spec fn unfinished_ids(&self) -> Seq<Seq<char>> {
        views(self.unfinished@)
    }

    pub fn default() -> (g: Self)
        ensures
            g.well_formed(),
            g.games() == Map::<Seq<char>, GameView>::empty(),
            g.unfinished_ids() == Seq::<Seq<char>>::empty(),
    {
        let g = LiveGames { all: Vec::new(), unfinished: Vec::new() };
        assert(g.games() =~= Map::<Seq<char>, GameView>::empty());
        assert(g.unfinished_ids() =~= Seq::<Seq<char>>::empty());
        g
    }

    proof fn lemma_games_len(&self)
        requires
            self.well_formed(),
        ensures
            self.games().len() == self.all@.len(),
            forall|k: int| 0 <= k < self.all@.len() ==> self.games().contains_key(#[trigger] self.all@[k].0@)
                && self.games()[self.all@[k].0@] == self.all@[k].1.game@,
    {
        lemma_key_map_len(self.all@);
        assert(self.games().dom() =~= key_map(self.all@).dom());
        assert forall|k: int| 0 <= k < self.all@.len() implies self.games().contains_key(#[trigger] self.all@[k].0@)
            && self.games()[self.all@[k].0@] == self.all@[k].1.game@ by {
            lemma_key_pos(self.all@, k);
        }
    }

    proof fn lemma_games_update(before: Seq<(String, LiveGame)>, i: int, e: (String, LiveGame))
        requires
            keys_distinct(before),
            0 <= i < before.len(),
            e.0@ == before[i].0@,
        ensures
            keys_distinct(before.update(i, e)),
            key_map(before.update(i, e)).map_values(|g: LiveGame| g.game@) == key_map(before).map_values(
                |g: LiveGame| g.game@,
            ).insert(before[i].0@, e.1.game@),
    {
        lemma_key_map_update(before, i, e);
        assert(key_map(before.update(i, e)).map_values(|g: LiveGame| g.game@) =~= key_map(
            before,
        ).map_values(|g: LiveGame| g.game@).insert(before[i].0@, e.1.game@));
    }

    /// Add new game to live games; returns the number of live games.
    pub fn add_game(&mut self, game: ShuuroGame) -> (count: usize)
        requires
            old(self).well_formed(),
        ensures
            final(self).well_formed(),
            final(self).games() == old(self).games().insert(game._id@, game@),
            count == final(self).games().len(),
            final(self).unfinished_ids() == old(self).unfinished_ids(),
    {
        let ghost before = self.all@;
        let id = game._id.clone();
        put_key(&mut self.all, id.as_str(), LiveGame::new(game));
        proof {
            assert(key_map(self.all@) =~= key_map(before).insert(game._id@, LiveGame { game }));
            assert(self.games() =~= old(self).games().insert(game._id@, game@));
            self.lemma_games_len();
        }
        self.all.len()
    }

    /// Remove a finished game; returns it, to be saved.
    pub fn remove_game(&mut self, id: &String) -> (r: Option<ShuuroGame>)
        requires
            old(self).well_formed(),
        ensures
            final(self).well_formed(),
            final(self).games() == old(self).games().remove(id@),
            match r {
                Some(g) => old(self).games().contains_key(id@) && g@ == old(self).games()[id@],
                None => !old(self).games().contains_key(id@),
            },
            final(self).unfinished_ids() == old(self).unfinished_ids(),
    {
        let ghost before = self.all@;
        let removed = remove_key(&mut self.all, id.as_str());
        proof {
            assert(key_map(self.all@) =~= key_map(before).remove(id@));
            assert(self.games() =~= old(self).games().remove(id@));
        }
        match removed {
            Some(e) => Some(e.1.game),
            None => None,
        }
    }

    /// Count all games.
    pub fn game_count(&self) -> (count: usize)
        requires
            self.well_formed(),
        ensures
            count == self.games().len(),
    {
        proof {
            self.lemma_games_len();
        }
        self.all.len()
    }

    /// Load the unfinished games: those in the shop, the deployment or the fight
    /// become live; all their ids are remembered.
    pub fn load_unfinished(&mut self, hm: Vec<(String, ShuuroGame)>)
        requires
            keys_distinct(hm@),
        ensures
            final(self).well_formed(),
            final(self).games() == key_map(hm@).restrict(
                Set::new(|id: Seq<char>| has_key(hm@, id) && key_map(hm@)[id].current_stage <= 2),
            ).map_values(|g: ShuuroGame| g@),
            final(self).unfinished_ids() == key_views(hm@),
    {
        let mut temp: Vec<(String, LiveGame)> = Vec::new();
        let mut v: Vec<String> = Vec::new();
        let mut i: usize = 0;
        while i < hm.len()
            invariant
                keys_distinct(hm@),
                i <= hm@.len(),
                views(v@) == key_views(hm@.subrange(0, i as int)),
                keys_distinct(temp@),
                forall|id: Seq<char>| #[trigger] has_key(temp@, id) ==> exists|j: int|
                    0 <= j < i && #[trigger] hm@[j].0@ == id && hm@[j].1.current_stage <= 2,
                forall|j: int| 0 <= j < i && #[trigger] hm@[j].1.current_stage <= 2 ==> has_key(temp@, hm@[j].0@)
                    && temp@[key_pos(temp@, hm@[j].0@)].1.game@ == hm@[j].1@,
            decreases hm@.len() - i,
        {
            let id = hm[i].0.clone();
            let game = hm[i].1.clone();
            let ghost before_temp = temp@;
            let ghost before_v = v@;
            v.push(id.clone());
            proof {
                assert(views(v@) =~= views(before_v).push(hm@[i as int].0@));
                assert(key_views(hm@.subrange(0, i + 1)) =~= key_views(hm@.subrange(0, i as int)).push(hm@[i as int].0@));
            }
            if hm[i].1.current_stage <= 2 {
                let entry = (id, LiveGame::new(game));
                proof {
                    if has_key(before_temp, id@) {
                        let j = choose|j: int| 0 <= j < i && #[trigger] hm@[j].0@ == id@ && hm@[j].1.current_stage <= 2;
                        assert(key_views(hm@)[j] == key_views(hm@)[i as int]);
                    }
                    lemma_push_entry(before_temp, entry);
                }
                temp.push(entry);
                proof {
                    assert(temp@ == before_temp.push(entry));
                    assert forall|x: Seq<char>| #[trigger] has_key(temp@, x) implies exists|j: int|
                        0 <= j < i + 1 && #[trigger] hm@[j].0@ == x && hm@[j].1.current_stage <= 2 by {
                        if x != id@ {
                            assert(has_key(before_temp, x));
                        } else {
                            assert(hm@[i as int].0@ == x);
                        }
                    }
                    assert forall|j: int| 0 <= j < i + 1 && #[trigger] hm@[j].1.current_stage <= 2 implies has_key(temp@, hm@[j].0@)
                        && temp@[key_pos(temp@, hm@[j].0@)].1.game@ == hm@[j].1@ by {
                        if j < i {
                            assert(hm@[j].0@ != id@) by {
                                assert(key_views(hm@)[j] != key_views(hm@)[i as int]);
                            }
                        }
                    }
                }
            } else {
                proof {
                    assert forall|x: Seq<char>| #[trigger] has_key(temp@, x) implies exists|j: int|
                        0 <= j < i + 1 && #[trigger] hm@[j].0@ == x && hm@[j].1.current_stage <= 2 by {
                        let j = choose|j: int| 0 <= j < i && #[trigger] hm@[j].0@ == x && hm@[j].1.current_stage <= 2;
                        assert(hm@[j].0@ == x);
                    }
                }
            }
            i = i + 1;
        }
        self.all = temp;
        self.unfinished = v;
        proof {
            assert(hm@.subrange(0, hm@.len() as int) =~= hm@);
            let target = key_map(hm@).restrict(
                Set::new(|id: Seq<char>| has_key(hm@, id) && key_map(hm@)[id].current_stage <= 2),
            ).map_values(|g: ShuuroGame| g@);
            assert forall|id: Seq<char>| #[trigger] self.games().contains_key(id) == target.contains_key(id) by {
                if self.games().contains_key(id) {
                    assert(has_key(self.all@, id));
                    let j = choose|j: int| 0 <= j < hm@.len() && #[trigger] hm@[j].0@ == id && hm@[j].1.current_stage <= 2;
                    lemma_key_pos(hm@, j);
                }
                if target.contains_key(id) {
                    let j = key_pos(hm@, id);
                    assert(hm@[j].1.current_stage <= 2);
                }
            }
            assert forall|id: Seq<char>| #[trigger] self.games().contains_key(id) implies self.games()[id] == target[id] by {
                let j = choose|j: int| 0 <= j < hm@.len() && #[trigger] hm@[j].0@ == id && hm@[j].1.current_stage <= 2;
                lemma_key_pos(hm@, j);
            }
            assert(self.games() =~= target);
        }
    }

    /// Ids of the games loaded unfinished.
    pub fn get_unfinished(&self) -> (ids: Vec<String>)
        ensures
            views(ids@) == self.unfinished_ids(),
    {
        copy_names(&self.unfinished)
    }

    /// Forget the ids of the games loaded unfinished.
    pub fn del_unfinished(&mut self)
        ensures
            final(self).unfinished_ids() == Seq::<Seq<char>>::empty(),
            final(self).games() == old(self).games(),
            final(self).well_formed() == old(self).well_formed(),
    {
        self.unfinished = Vec::new();
        assert(views(self.unfinished@) =~= Seq::<Seq<char>>::empty());
    }

    /// Players of game `id`.
    pub fn get_players(&self, id: &String) -> (r: Option<[String; 2]>)
        requires
            self.well_formed(),
        ensures
            match self.games().get(id@) {
                Some(g) => r matches Some(p) && p[0]@ == g.players.0 && p[1]@ == g.players.1,
                None => r is None,
            },
    {
        match find_key(&self.all, id.as_str()) {
            Some(i) => Some([self.all[i].1.game.players[0].clone(), self.all[i].1.game.players[1].clone()]),
            None => None,
        }
    }

    /// The record of game `id`, when it is live.
    pub fn get_game(&self, id: &String) -> (r: Option<ShuuroGame>)
        requires
            self.well_formed(),
        ensures
            match self.games().get(id@) {
                Some(g) => r matches Some(x) && x@ == g,
                None => r is None,
            },
    {
        match find_key(&self.all, id.as_str()) {
            Some(i) => Some(self.all[i].1.get_game()),
            None => None,
        }
    }

    /// Stage and position of game `id`.
    pub fn live_sfen(&self, id: &String) -> (r: Option<(u8, String)>)
        requires
            self.well_formed(),
        ensures
            match self.games().get(id@) {
                Some(g) => r matches Some((stage, sfen)) && stage == g.current_stage && sfen@ == g.sfen,
                None => r is None,
            },
    {
        match find_key(&self.all, id.as_str()) {
            Some(i) => Some(self.all[i].1.live_sfen()),
            None => None,
        }
    }

    /// Records of all live games.
    pub fn get_all(&self) -> (r: Vec<ShuuroGame>)
        requires
            self.well_formed(),
        ensures
            r@.len() == self.games().len(),
            forall|k: int| 0 <= k < r@.len() ==> self.holds(#[trigger] r@[k]@),
    {
        let mut r: Vec<ShuuroGame> = Vec::new();
        let mut i: usize = 0;
        while i < self.all.len()
            invariant
                i <= self.all@.len(),
                r@.len() == i,
                self.well_formed(),
                forall|k: int| 0 <= k < i ==> #[trigger] r@[k]@ == self.all@[k].1.game@,
            decreases self.all@.len() - i,
        {
            r.push(self.all[i].1.get_game());
            i = i + 1;
        }
        proof {
            self.lemma_games_len();
            assert forall|k: int| 0 <= k < r@.len() implies self.holds(#[trigger] r@[k]@) by {
                assert(self.games().contains_key(self.all@[k].0@) && self.games()[self.all@[k].0@] == self.all@[k].1.game@);
            }
        }
        r
    }

    /// `t` shows a live game that has a position.
    pub open spec fn on_tv(&self, t: TvGame) -> bool {
        &&& self.games().contains_key(t.game_id@)
        &&& t.sfen@ == self.games()[t.game_id@].sfen
        &&& t.sfen@.len() > 0
        &&& t.w@ == self.games()[t.game_id@].players.0
        &&& t.b@ == self.games()[t.game_id@].players.1
        &&& t.variant@ == self.games()[t.game_id@].variant
    }

    /// `s` is what `get_tv` gives: at most twenty games, each live with a
    /// position, and, when fewer than twenty, every live game with a position.
    pub open spec fn tv_list(&self, s: Seq<TvGame>) -> bool {
        &&& s.len() <= TV_GAMES
        &&& forall|k: int| 0 <= k < s.len() ==> self.on_tv(#[trigger] s[k])
        &&& s.len() < TV_GAMES ==> forall|id: Seq<char>| #[trigger] self.games().contains_key(id) && self.games()[id].sfen.len() > 0 ==> exists|k: int| 0 <= k < s.len() && s[k].game_id@ == id
        &&& forall|a: int, b: int| 0 <= a < b < s.len() ==> #[trigger] s[a].game_id@ != #[trigger] s[b].game_id@
    }

    /// `g` is the record of a live game.
    pub open spec fn holds(&self, g: GameView) -> bool {
        exists|id: Seq<char>| self.games().contains_key(id) && self.games()[id] == g
    }

    /// Games to show on TV: up to twenty live games that have a position.
    pub fn get_tv(&self) -> (games: Vec<TvGame>)
        requires
            self.well_formed(),
        ensures
            games@.len() <= TV_GAMES,
            forall|k: int| 0 <= k < games@.len() ==> self.on_tv(#[trigger] games@[k]),
            games@.len() < TV_GAMES ==> forall|id: Seq<char>| #[trigger] self.games().contains_key(id) && self.games()[id].sfen.len() > 0 ==> exists|k: int| 0 <= k < games@.len() && games@[k].game_id@ == id,
            forall|a: int, b: int| 0 <= a < b < games@.len() ==> #[trigger] games@[a].game_id@ != #[trigger] games@[b].game_id@,
    {
        let mut games: Vec<TvGame> = Vec::new();
        let ghost mut src: Seq<int> = Seq::empty();
        let mut i: usize = 0;
        while i < self.all.len() && games.len() < TV_GAMES
            invariant
                self.well_formed(),
                i <= self.all@.len(),
                games@.len() <= TV_GAMES,
                forall|k: int| 0 <= k < games@.len() ==> self.on_tv(#[trigger] games@[k]),
                games@.len() < TV_GAMES ==> forall|j: int| 0 <= j < i && (#[trigger] self.all@[j]).1.game.sfen@.len() > 0 ==> exists|k: int| 0 <= k < games@.len() && games@[k].game_id@ == self.all@[j].0@,
                src.len() == games@.len(),
                forall|k: int| 0 <= k < games@.len() ==> 0 <= #[trigger] src[k] < i && games@[k].game_id@ == self.all@[src[k]].0@,
                forall|a: int, b: int| 0 <= a < b < src.len() ==> #[trigger] src[a] < #[trigger] src[b],
            decreases self.all@.len() - i,
        {
            let entry = &self.all[i];
            let ghost before_games = games@;
            if entry.1.game.sfen.as_str().unicode_len() != 0 {
                let tv = TvGame::new(
                    entry.0.as_str(),
                    entry.1.game.players[0].as_str(),
                    entry.1.game.players[1].as_str(),
                    entry.1.game.sfen.as_str(),
                    entry.1.game.variant.clone(),
                );
                proof {
                    lemma_key_pos(self.all@, i as int);
                    src = src.push(i as int);
                }
                games.push(tv);
                proof {
                    assert(games@[games@.len() - 1].game_id@ == self.all@[i as int].0@);
                    assert forall|k: int| 0 <= k < games@.len() implies 0 <= #[trigger] src[k] < i + 1 && games@[k].game_id@ == self.all@[src[k]].0@ by {
                        if k < before_games.len() {
                            assert(games@[k] == before_games[k]);
                        }
                    }
                    assert forall|j: int| 0 <= j < i + 1 && (#[trigger] self.all@[j]).1.game.sfen@.len() > 0 implies exists|k: int| 0 <= k < games@.len() && games@[k].game_id@ == self.all@[j].0@ by {
                        if j == i {
                            assert(games@[games@.len() - 1].game_id@ == self.all@[j].0@);
                        } else {
                            assert(before_games.len() < TV_GAMES);
                            let k = choose|k: int| 0 <= k < before_games.len() && before_games[k].game_id@ == self.all@[j].0@;
                            assert(games@[k] == before_games[k]);
                        }
                    }
                }
            }
            i = i + 1;
        }
        proof {
            if games@.len() < TV_GAMES {
                assert forall|id: Seq<char>| #[trigger] self.games().contains_key(id) && self.games()[id].sfen.len() > 0 implies exists|k: int| 0 <= k < games@.len() && games@[k].game_id@ == id by {
                    let j = key_pos(self.all@, id);
                    self.lemma_games_len();
                    assert(self.all@[j].0@ == id);
                    assert(self.all@[j].1.game.sfen@.len() > 0);
                }
            }
            assert forall|a: int, b: int| 0 <= a < b < games@.len() implies #[trigger] games@[a].game_id@ != #[trigger] games@[b].game_id@ by {
                assert(src[a] < src[b]);
                assert(key_views(self.all@)[src[a]] != key_views(self.all@)[src[b]]);
            }
        }
        games
    }

    /// `username` offers or accepts a draw in game `id`.
    pub fn draw_req(&mut self, id: &String, username: &String) -> (r: Option<(i8, [String; 2])>)
        requires
            old(self).well_formed(),
        ensures
            final(self).well_formed(),
            final(self).unfinished_ids() == old(self).unfinished_ids(),
            match old(self).games().get(id@) {
                None => r is None && final(self).games() == old(self).games(),
                Some(g) => {
                    &&& final(self).games() == old(self).games().insert(id@, final(self).games()[id@])
                    &&& LiveGame::draw_effect(g, username@, r, final(self).games()[id@])
                },
            },
    {
        match find_key(&self.all, id.as_str()) {
            Some(i) => {
                let ghost before = self.all@;
                let entry = &mut self.all[i];
                let r = entry.1.draw_req(username);
                proof {
                    assert(self.all@ == before.update(i as int, self.all@[i as int]));
                    Self::lemma_games_update(before, i as int, self.all@[i as int]);
                    lemma_key_pos(before, i as int);
                    assert(old(self).games()[id@] == before[i as int].1.game@);
                    assert(self.games()[id@] == self.all@[i as int].1.game@);
                }
                r
            },
            None => None,
        }
    }

    /// `username` resigns game `id`.
    pub fn resign_at(&mut self, id: &String, username: &String, now_clock: i64, now_record: i64) -> (r: Option<[String; 2]>)
        requires
            old(self).well_formed(),
            -TIMESTAMP_BOUND < now_clock < TIMESTAMP_BOUND,
            old(self).games().contains_key(id@) ==> old(self).games()[id@].tc.click_safe(),
        ensures
            final(self).well_formed(),
            final(self).unfinished_ids() == old(self).unfinished_ids(),
            match old(self).games().get(id@) {
                None => r is None && final(self).games() == old(self).games(),
                Some(g) => {
                    &&& final(self).games() == old(self).games().insert(id@, final(self).games()[id@])
                    &&& LiveGame::resign_effect(g, username@, now_clock, now_record, r, final(self).games()[id@])
                },
            },
    {
        match find_key(&self.all, id.as_str()) {
            Some(i) => {
                let ghost before = self.all@;
                let ghost old_game = self.all@[i as int].1.game@;
                let entry = &mut self.all[i];
                let r = entry.1.resign_at(username, now_clock, now_record);
                proof {
                    assert(LiveGame::resign_effect(old_game, username@, now_clock, now_record, r, self.all@[i as int].1.game@));
                    assert(self.all@ == before.update(i as int, self.all@[i as int]));
                    Self::lemma_games_update(before, i as int, self.all@[i as int]);
                    lemma_key_pos(before, i as int);
                    assert(old(self).games()[id@] == before[i as int].1.game@);
                    assert(self.games()[id@] == self.all@[i as int].1.game@);
                    assert(LiveGame::resign_effect(old(self).games()[id@], username@, now_clock, now_record, r, self.games()[id@]));
                }
                r
            },
            None => None,
        }
    }

    /// `username` resigns game `id`.
    pub fn resign(&mut self, id: &String, username: &String) -> (r: Option<[String; 2]>)
        requires
            old(self).well_formed(),
            old(self).games().contains_key(id@) ==> old(self).games()[id@].tc.click_safe(),
        ensures
            final(self).well_formed(),
            final(self).unfinished_ids() == old(self).unfinished_ids(),
            match old(self).games().get(id@) {
                None => r is None && final(self).games() == old(self).games(),
                Some(g) => {
                    &&& final(self).games() == old(self).games().insert(id@, final(self).games()[id@])
                    &&& exists|now_clock: i64, now_record: i64| -TIMESTAMP_BOUND < now_clock < TIMESTAMP_BOUND && #[trigger] LiveGame::resign_effect(g, username@, now_clock, now_record, r, final(self).games()[id@])
                },
            },
    {
        let now_clock = utc_now_millis();
        let now_record = bson_now_millis();
        self.resign_at(id, username, now_clock, now_record)
    }

    /// Click of `player` in the shop of game `id`.
    pub fn buy_at(&mut self, id: &String, player: &String, now: i64) -> (r: Option<BuyTurn>)
        requires
            old(self).well_formed(),
            -TIMESTAMP_BOUND < now < TIMESTAMP_BOUND,
            old(self).games().contains_key(id@) ==> old(self).games()[id@].tc.click_safe(),
        ensures
            final(self).well_formed(),
            final(self).unfinished_ids() == old(self).unfinished_ids(),
            match old(self).games().get(id@) {
                None => r is None && final(self).games() == old(self).games(),
                Some(g) => {
                    &&& final(self).games() == old(self).games().insert(id@, final(self).games()[id@])
                    &&& LiveGame::buy_effect(g, player@, now as int, r, final(self).games()[id@])
                },
            },
    {
        match find_key(&self.all, id.as_str()) {
            Some(i) => {
                let ghost before = self.all@;
                let ghost old_game = self.all@[i as int].1.game@;
                let entry = &mut self.all[i];
                let r = entry.1.buy_turn_at(player, now);
                proof {
                    assert(LiveGame::buy_effect(old_game, player@, now as int, r, self.all@[i as int].1.game@));
                    assert(self.all@ == before.update(i as int, self.all@[i as int]));
                    Self::lemma_games_update(before, i as int, self.all@[i as int]);
                    lemma_key_pos(before, i as int);
                    assert(old(self).games()[id@] == before[i as int].1.game@);
                    assert(self.games()[id@] == self.all@[i as int].1.game@);
                    assert(LiveGame::buy_effect(old(self).games()[id@], player@, now as int, r, self.games()[id@]));
                }
                r
            },
            None => None,
        }
    }

    /// Click of `player` in the shop of game `id`.
    pub fn buy(&mut self, id: &String, player: &String) -> (r: Option<BuyTurn>)
        requires
            old(self).well_formed(),
            old(self).games().contains_key(id@) ==> old(self).games()[id@].tc.click_safe(),
        ensures
            final(self).well_formed(),
            final(self).unfinished_ids() == old(self).unfinished_ids(),
            match old(self).games().get(id@) {
                None => r is None && final(self).games() == old(self).games(),
                Some(g) => {
                    &&& final(self).games() == old(self).games().insert(id@, final(self).games()[id@])
                    &&& exists|now: int| -TIMESTAMP_BOUND < now < TIMESTAMP_BOUND && #[trigger] LiveGame::buy_effect(g, player@, now, r, final(self).games()[id@])
                },
            },
    {
        let now = utc_now_millis();
        self.buy_at(id, player, now)
    }

    /// Record a purchase in game `id`.
    pub fn new_piece(&mut self, id: &String, player: usize, confirmed: [bool; 2], hand: String) -> (r: Option<LiveGameMove>)
        requires
            old(self).well_formed(),
            player < 2,
        ensures
            final(self).well_formed(),
            final(self).unfinished_ids() == old(self).unfinished_ids(),
            match old(self).games().get(id@) {
                None => r is None && final(self).games() == old(self).games(),
                Some(g) => {
                    &&& final(self).games() == old(self).games().insert(id@, final(self).games()[id@])
                    &&& LiveGame::new_piece_effect(g, player, confirmed, hand@, r, final(self).games()[id@])
                },
            },
    {
        match find_key(&self.all, id.as_str()) {
            Some(i) => {
                let ghost before = self.all@;
                let entry = &mut self.all[i];
                let r = entry.1.new_piece(player, confirmed, hand);
                proof {
                    assert(self.all@ == before.update(i as int, self.all@[i as int]));
                    Self::lemma_games_update(before, i as int, self.all@[i as int]);
                    lemma_key_pos(before, i as int);
                    assert(old(self).games()[id@] == before[i as int].1.game@);
                    assert(self.games()[id@] == self.all@[i as int].1.game@);
                }
                r
            },
            None => None,
        }
    }

    /// Click of `player` in the deployment of game `id`.
    pub fn place_move_at(&mut self, id: &String, player: &String, placement_side: usize, now_clock: i64, now_record: i64) -> (r: Option<(usize, [u64; 2])>)
        requires
            old(self).well_formed(),
            -TIMESTAMP_BOUND < now_clock < TIMESTAMP_BOUND,
            old(self).games().contains_key(id@) ==> old(self).games()[id@].tc.click_safe(),
        ensures
            final(self).well_formed(),
            final(self).unfinished_ids() == old(self).unfinished_ids(),
            match old(self).games().get(id@) {
                None => r is None && final(self).games() == old(self).games(),
                Some(g) => {
                    &&& final(self).games() == old(self).games().insert(id@, final(self).games()[id@])
                    &&& LiveGame::place_turn_effect(g, player@, placement_side, now_clock, now_record, r, final(self).games()[id@])
                },
            },
    {
        match find_key(&self.all, id.as_str()) {
            Some(i) => {
                let ghost before = self.all@;
                let ghost old_game = self.all@[i as int].1.game@;
                let entry = &mut self.all[i];
                let r = entry.1.place_move_at(player, placement_side, now_clock, now_record);
                proof {
                    assert(LiveGame::place_turn_effect(old_game, player@, placement_side, now_clock, now_record, r, self.all@[i as int].1.game@));
                    assert(self.all@ == before.update(i as int, self.all@[i as int]));
                    Self::lemma_games_update(before, i as int, self.all@[i as int]);
                    lemma_key_pos(before, i as int);
                    assert(old(self).games()[id@] == before[i as int].1.game@);
                    assert(self.games()[id@] == self.all@[i as int].1.game@);
                    assert(LiveGame::place_turn_effect(old(self).games()[id@], player@, placement_side, now_clock, now_record, r, self.games()[id@]));
                }
                r
            },
            None => None,
        }
    }

    /// Click of `player` in the deployment of game `id`.
    pub fn place_move(&mut self, id: &String, player: &String, placement_side: usize) -> (r: Option<(usize, [u64; 2])>)
        requires
            old(self).well_formed(),
            old(self).games().contains_key(id@) ==> old(self).games()[id@].tc.click_safe(),
        ensures
            final(self).well_formed(),
            final(self).unfinished_ids() == old(self).unfinished_ids(),
            match old(self).games().get(id@) {
                None => r is None && final(self).games() == old(self).games(),
                Some(g) => {
                    &&& final(self).games() == old(self).games().insert(id@, final(self).games()[id@])
                    &&& exists|now_clock: i64, now_record: i64| -TIMESTAMP_BOUND < now_clock < TIMESTAMP_BOUND && #[trigger] LiveGame::place_turn_effect(g, player@, placement_side, now_clock, now_record, r, final(self).games()[id@])
                },
            },
    {
        let now_clock = utc_now_millis();
        let now_record = bson_now_millis();
        self.place_move_at(id, player, placement_side, now_clock, now_record)
    }

    /// Click of `player` in the fight of game `id`.
    pub fn fight_move_at(&mut self, id: &String, player: &String, fight_side: usize, now_clock: i64, now_record: i64) -> (r: Option<(usize, [u64; 2])>)
        requires
            old(self).well_formed(),
            -TIMESTAMP_BOUND < now_clock < TIMESTAMP_BOUND,
            old(self).games().contains_key(id@) ==> old(self).games()[id@].tc.click_safe(),
        ensures
            final(self).well_formed(),
            final(self).unfinished_ids() == old(self).unfinished_ids(),
            match old(self).games().get(id@) {
                None => r is None && final(self).games() == old(self).games(),
                Some(g) => {
                    &&& final(self).games() == old(self).games().insert(id@, final(self).games()[id@])
                    &&& LiveGame::fight_turn_effect(g, player@, fight_side, now_clock, now_record, r, final(self).games()[id@])
                },
            },
    {
        match find_key(&self.all, id.as_str()) {
            Some(i) => {
                let ghost before = self.all@;
                let ghost old_game = self.all@[i as int].1.game@;
                let entry = &mut self.all[i];
                let r = entry.1.fight_move_at(player, fight_side, now_clock, now_record);
                proof {
                    assert(LiveGame::fight_turn_effect(old_game, player@, fight_side, now_clock, now_record, r, self.all@[i as int].1.game@));
                    assert(self.all@ == before.update(i as int, self.all@[i as int]));
                    Self::lemma_games_update(before, i as int, self.all@[i as int]);
                    lemma_key_pos(before, i as int);
                    assert(old(self).games()[id@] == before[i as int].1.game@);
                    assert(self.games()[id@] == self.all@[i as int].1.game@);
                    assert(LiveGame::fight_turn_effect(old(self).games()[id@], player@, fight_side, now_clock, now_record, r, self.games()[id@]));
                }
                r
            },
            None => None,
        }
    }

    /// Click of `player` in the fight of game `id`.
    pub fn fight_move(&mut self, id: &String, player: &String, fight_side: usize) -> (r: Option<(usize, [u64; 2])>)
        requires
            old(self).well_formed(),
            old(self).games().contains_key(id@) ==> old(self).games()[id@].tc.click_safe(),
        ensures
            final(self).well_formed(),
            final(self).unfinished_ids() == old(self).unfinished_ids(),
            match old(self).games().get(id@) {
                None => r is None && final(self).games() == old(self).games(),
                Some(g) => {
                    &&& final(self).games() == old(self).games().insert(id@, final(self).games()[id@])
                    &&& exists|now_clock: i64, now_record: i64| -TIMESTAMP_BOUND < now_clock < TIMESTAMP_BOUND && #[trigger] LiveGame::fight_turn_effect(g, player@, fight_side, now_clock, now_record, r, final(self).games()[id@])
                },
            },
    {
        let now_clock = utc_now_millis();
        let now_record = bson_now_millis();
        self.fight_move_at(id, player, fight_side, now_clock, now_record)
    }

    /// Record a placement in game `id`.
    pub fn place_piece_at(&mut self, id: &String, index: usize, piece_color: usize, clocks: [u64; 2], placed: String, deployment_over: bool, fight: FightStart, next_side: usize, sfen: String, hands: [String; 2], now_clock: i64, now_record: i64) -> (r: Option<LiveGameMove>)
        requires
            old(self).well_formed(),
        ensures
            final(self).well_formed(),
            final(self).unfinished_ids() == old(self).unfinished_ids(),
            match old(self).games().get(id@) {
                None => r is None && final(self).games() == old(self).games(),
                Some(g) => {
                    &&& final(self).games() == old(self).games().insert(id@, final(self).games()[id@])
                    &&& LiveGame::placement_result(g, index, piece_color, clocks, placed@, deployment_over, fight, next_side, sfen@, (hands[0]@, hands[1]@), now_clock, now_record, r, final(self).games()[id@])
                },
            },
    {
        match find_key(&self.all, id.as_str()) {
            Some(i) => {
                let ghost before = self.all@;
                let ghost old_game = self.all@[i as int].1.game@;
                let ghost placed_view = placed@;
                let ghost sfen_view = sfen@;
                let ghost hands_view = (hands[0]@, hands[1]@);
                let entry = &mut self.all[i];
                let r = entry.1.place_piece_at(index, piece_color, clocks, placed, deployment_over, fight, next_side, sfen, hands, now_clock, now_record);
                proof {
                    assert(LiveGame::placement_result(old_game, index, piece_color, clocks, placed_view, deployment_over, fight, next_side, sfen_view, hands_view, now_clock, now_record, r, self.all@[i as int].1.game@));
                    assert(self.all@ == before.update(i as int, self.all@[i as int]));
                    Self::lemma_games_update(before, i as int, self.all@[i as int]);
                    lemma_key_pos(before, i as int);
                    assert(old(self).games()[id@] == before[i as int].1.game@);
                    assert(self.games()[id@] == self.all@[i as int].1.game@);
                    assert(LiveGame::placement_result(old(self).games()[id@], index, piece_color, clocks, placed_view, deployment_over, fight, next_side, sfen_view, hands_view, now_clock, now_record, r, self.games()[id@]));
                }
                r
            },
            None => None,
        }
    }

    /// Record a placement in game `id`.
    pub fn place_piece(&mut self, id: &String, index: usize, piece_color: usize, clocks: [u64; 2], placed: String, deployment_over: bool, fight: FightStart, next_side: usize, sfen: String, hands: [String; 2]) -> (r: Option<LiveGameMove>)
        requires
            old(self).well_formed(),
        ensures
            final(self).well_formed(),
            final(self).unfinished_ids() == old(self).unfinished_ids(),
            match old(self).games().get(id@) {
                None => r is None && final(self).games() == old(self).games(),
                Some(g) => {
                    &&& final(self).games() == old(self).games().insert(id@, final(self).games()[id@])
                    &&& exists|now_clock: i64, now_record: i64| #[trigger] LiveGame::placement_result(g, index, piece_color, clocks, placed@, deployment_over, fight, next_side, sfen@, (hands[0]@, hands[1]@), now_clock, now_record, r, final(self).games()[id@])
                },
            },
    {
        let now_clock = utc_now_millis();
        let now_record = bson_now_millis();
        self.place_piece_at(id, index, piece_color, clocks, placed, deployment_over, fight, next_side, sfen, hands, now_clock, now_record)
    }

    /// Record a fight move in game `id`.
    pub fn make_move(&mut self, id: &String, index: usize, piece_color: Option<usize>, game_move: &String, clocks: [u64; 2], outcome: Outcome, outcome_text: String, next_side: usize, sfen: String, played: String) -> (r: Option<LiveGameMove>)
        requires
            old(self).well_formed(),
        ensures
            final(self).well_formed(),
            final(self).unfinished_ids() == old(self).unfinished_ids(),
            match old(self).games().get(id@) {
                None => r is None && final(self).games() == old(self).games(),
                Some(g) => {
                    &&& final(self).games() == old(self).games().insert(id@, final(self).games()[id@])
                    &&& LiveGame::move_result(g, index, piece_color, game_move@, clocks, outcome, outcome_text, next_side, sfen@, played@, r, final(self).games()[id@])
                },
            },
    {
        match find_key(&self.all, id.as_str()) {
            Some(i) => {
                let ghost before = self.all@;
                let entry = &mut self.all[i];
                let r = entry.1.make_move(index, piece_color, game_move, clocks, outcome, outcome_text, next_side, sfen, played);
                proof {
                    assert(self.all@ == before.update(i as int, self.all@[i as int]));
                    Self::lemma_games_update(before, i as int, self.all@[i as int]);
                    lemma_key_pos(before, i as int);
                    assert(old(self).games()[id@] == before[i as int].1.game@);
                    assert(self.games()[id@] == self.all@[i as int].1.game@);
                }
                r
            },
            None => None,
        }
    }

    /// Start the deployment of game `id`.
    pub fn set_deploy(&mut self, id: &String, white: String, black: String, sfen: String) -> (r: Option<DeployInfo>)
        requires
            old(self).well_formed(),
        ensures
            final(self).well_formed(),
            final(self).unfinished_ids() == old(self).unfinished_ids(),
            match old(self).games().get(id@) {
                None => r is None && final(self).games() == old(self).games(),
                Some(g) => {
                    &&& final(self).games() == old(self).games().insert(id@, final(self).games()[id@])
                    &&& r matches Some(info) && LiveGame::deploy_effect(g, id@, white@, black@, sfen@, info, final(self).games()[id@])
                },
            },
    {
        match find_key(&self.all, id.as_str()) {
            Some(i) => {
                let ghost before = self.all@;
                let entry = &mut self.all[i];
                let r = Some(entry.1.set_deploy(id, white, black, sfen));
                proof {
                    assert(self.all@ == before.update(i as int, self.all@[i as int]));
                    Self::lemma_games_update(before, i as int, self.all@[i as int]);
                    lemma_key_pos(before, i as int);
                    assert(old(self).games()[id@] == before[i as int].1.game@);
                    assert(self.games()[id@] == self.all@[i as int].1.game@);
                }
                r
            },
            None => None,
        }
    }

    /// End game `time_check.id` on time.
    pub fn clock_status(&mut self, time_check: &TimeCheck) -> (r: Option<(i32, String, [String; 2])>)
        requires
            old(self).well_formed(),
        ensures
            final(self).well_formed(),
            final(self).unfinished_ids() == old(self).unfinished_ids(),
            match old(self).games().get(time_check.id@) {
                None => r is None && final(self).games() == old(self).games(),
                Some(g) => {
                    &&& final(self).games() == old(self).games().insert(time_check.id@, final(self).games()[time_check.id@])
                    &&& LiveGame::clock_status_effect(g, *time_check, r, final(self).games()[time_check.id@])
                },
            },
    {
        match find_key(&self.all, time_check.id.as_str()) {
            Some(i) => {
                let ghost before = self.all@;
                let entry = &mut self.all[i];
                let r = entry.1.clock_status(time_check);
                proof {
                    assert(self.all@ == before.update(i as int, self.all@[i as int]));
                    Self::lemma_games_update(before, i as int, self.all@[i as int]);
                    lemma_key_pos(before, i as int);
                    assert(old(self).games()[time_check.id@] == before[i as int].1.game@);
                    assert(self.games()[time_check.id@] == self.all@[i as int].1.game@);
                }
                r
            },
            None => None,
        }
    }

    /// Check the clocks of game `time_check.id` at `now`, given the players who
    /// confirmed their purchases. A game that is not live is marked gone.
    pub fn check_clocks_at(&self, time_check: &mut TimeCheck, confirmed: [bool; 2], now: i64)
        requires
            self.well_formed(),
            -TIMESTAMP_BOUND < now < TIMESTAMP_BOUND,
            self.games().contains_key(old(time_check).id@) ==> {
                &&& self.games()[old(time_check).id@].tc.well_formed()
                &&& self.games()[old(time_check).id@].current_stage != 0
                    ==> self.games()[old(time_check).id@].side_to_move < 2
            },
        ensures
            !self.games().contains_key(old(time_check).id@) ==> *final(time_check) == (TimeCheck { exist: false, ..*old(time_check) }),
            self.games().contains_key(old(time_check).id@) ==> match LiveGame::clock_verdict(self.games()[old(time_check).id@], confirmed, now as int) {
                    None => *final(time_check) == *old(time_check),
                    Some(None) => *final(time_check) == (TimeCheck {
                        both_lost: true,
                        finished: true,
                        ..*old(time_check)
                    }),
                    Some(Some(i)) => *final(time_check) == (TimeCheck {
                        lost: i,
                        finished: true,
                        ..*old(time_check)
                    }),
                },
    {
        match find_key(&self.all, time_check.id.as_str()) {
            Some(i) => {
                proof {
                    lemma_key_pos(self.all@, i as int);
                    assert(self.games()[time_check.id@] == self.all@[i as int].1.game@);
                }
                self.all[i].1.check_clocks_at(time_check, confirmed, now);
            },
            None => time_check.dont_exist(),
        }
    }

    /// Check the clocks of game `time_check.id` now.
    pub fn check_clocks(&self, time_check: &mut TimeCheck, confirmed: [bool; 2])
        requires
            self.well_formed(),
            self.games().contains_key(old(time_check).id@) ==> {
                &&& self.games()[old(time_check).id@].tc.well_formed()
                &&& self.games()[old(time_check).id@].current_stage != 0
                    ==> self.games()[old(time_check).id@].side_to_move < 2
            },
        ensures
            !self.games().contains_key(old(time_check).id@) ==> *final(time_check) == (TimeCheck { exist: false, ..*old(time_check) }),
            self.games().contains_key(old(time_check).id@) ==> exists|now: int|
                -TIMESTAMP_BOUND < now < TIMESTAMP_BOUND && match #[trigger] LiveGame::clock_verdict(
                    self.games()[old(time_check).id@],
                    confirmed,
                    now,
                ) {
                    None => *final(time_check) == *old(time_check),
                    Some(None) => *final(time_check) == (TimeCheck {
                        both_lost: true,
                        finished: true,
                        ..*old(time_check)
                    }),
                    Some(Some(i)) => *final(time_check) == (TimeCheck {
                        lost: i,
                        finished: true,
                        ..*old(time_check)
                    }),
                },
    {
        let now = utc_now_millis();
        self.check_clocks_at(time_check, confirmed, now);
    }
}

/// Only a side whose clock has run out is ever declared lost on time. After the
/// shop, a check that finds the clock of the side to move run out declares that
/// side lost, and a check that finds it running declares nobody. In the shop a
/// side that alone ran out loses.
pub proof fn loser_on_time_ran_out(g: GameView, confirmed: [bool; 2], now: int)
    ensures
        match LiveGame::clock_verdict(g, confirmed, now) {
            Some(Some(i)) => g.tc.duration_at(i as int, now) is None,
            _ => true,
        },
        g.current_stage != 0 && g.tc.duration_at(g.side_to_move as int, now) is None
            ==> LiveGame::clock_verdict(g, confirmed, now) == Some(Some(g.side_to_move as usize)),
        g.current_stage != 0 && g.tc.duration_at(g.side_to_move as int, now) is Some
            ==> LiveGame::clock_verdict(g, confirmed, now) is None,
        g.current_stage == 0 && g.tc.duration_at(0, now) is None && g.tc.duration_at(1, now) is Some
            ==> LiveGame::clock_verdict(g, confirmed, now) == Some(Some(0usize)),
        g.current_stage == 0 && g.tc.duration_at(1, now) is None && g.tc.duration_at(0, now) is Some
            ==> LiveGame::clock_verdict(g, confirmed, now) == Some(Some(1usize)),
{
}

/// The statuses of the fight's outcomes: only checkmate (1), stalemate (3), draw
/// by repetition (4), a draw (5) and draw by material (6) end the game with a
/// positive status; a move that leaves the game going (nothing, check, a legal
/// move) keeps -1 and an illegal move gives -2.
pub proof fn outcome_statuses(o: Outcome)
    ensures
        (o is Nothing || o is Check || o is MoveOk) ==> outcome_status(o) == -1,
        o is MoveNotOk ==> outcome_status(o) == -2,
        o is Checkmate ==> outcome_status(o) == 1,
        o is Stalemate ==> outcome_status(o) == 3,
        o is DrawByRepetition ==> outcome_status(o) == 4,
        o is Draw ==> outcome_status(o) == 5,
        o is DrawByMaterial ==> outcome_status(o) == 6,
        outcome_status(o) > 0 <==> (o is Checkmate || o is Stalemate || o is DrawByRepetition || o is Draw
            || o is DrawByMaterial),
{
}

/// A game lost on time by one side ends with status 8 and the colour of that
/// side as result ("w" for white, "b" for black); when both sides lost it ends
/// drawn (status 5) with the result unchanged. The reply carries the new status
/// and result.
pub proof fn lost_on_time_ends_the_game(before: GameView, time_check: TimeCheck, r: Option<(i32, String, [String; 2])>, after: GameView)
    requires
        LiveGame::clock_status_effect(before, time_check, r, after),
    ensures
        time_check.both_lost ==> after.status == 5 && after.result == before.result,
        !time_check.both_lost && time_check.lost == 0 ==> after.status == 8 && after.result == "w"@,
        !time_check.both_lost && time_check.lost == 1 ==> after.status == 8 && after.result == "b"@,
        after.players == before.players && after.history == before.history,
        r matches Some(x) && x.0 == after.status && x.1@ == after.result,
{
}

/// A checkmate ends the game with status 1 and the colour given by the outcome
/// as result; every other outcome leaves the result as it was.
pub proof fn checkmate_names_the_colour(g: GameView, o: Outcome)
    ensures
        match o {
            Outcome::Checkmate { color } => {
                &&& after_outcome(g, o).status == 1
                &&& color == 0 ==> after_outcome(g, o).result == "w"@
                &&& color == 1 ==> after_outcome(g, o).result == "b"@
            },
            _ => after_outcome(g, o).result == g.result && after_outcome(g, o).status == outcome_status(o),
        },
        after_outcome(g, o).players == g.players,
{
}

/// A game ends in a draw by agreement only when both players asked for one.
pub proof fn draw_needs_both(
    before: GameView,
    username: Seq<char>,
    r: Option<(i8, [String; 2])>,
    after: GameView,
)
    requires
        LiveGame::draw_effect(before, username, r, after),
        r matches Some((code, _)) && code == 5,
    ensures
        after.draws[0] && after.draws[1],
        after.status == 5,
{
}

/// A game read back right after it was added is the game that was added; once
/// removed it is gone, and every other game stays as it was throughout.
pub proof fn game_store_read_after_write(
    before: Map<Seq<char>, GameView>,
    added: Map<Seq<char>, GameView>,
    removed: Map<Seq<char>, GameView>,
    id: Seq<char>,
    game: GameView,
    other: Seq<char>,
)
    requires
        added == before.insert(id, game),
        removed == added.remove(id),
    ensures
        added.get(id) == Some(game),
        removed.get(id) is None,
        other != id ==> added.get(other) == before.get(other) && removed.get(other) == before.get(
            other,
        ),
{
}

} // verus!
