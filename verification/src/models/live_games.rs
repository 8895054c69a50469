use vstd::prelude::*;
use vstd::string::*;

use crate::clock::{time_now_nanos, INSTANT_BOUND_NS};
use crate::models::game::{color_of, ShuuroGame, TimeControl};
use crate::models::model::TvGame;
use crate::names::{
    copy_names, distinct, find_key, has_key, insert_name, key_map, key_pos, keys_distinct,
    lemma_distinct_len, lemma_key_map_len, lemma_key_map_update, lemma_key_pos, name_set, put_key,
    remove_key, remove_name,
};
use crate::text::str_eq;
use crate::websockets::live_game::{color_string, color_text, outcome_status, Outcome};

verus! {

broadcast use vstd::array::group_array_axioms;

/// What the move generator made of a move sent in the shop.
pub enum ShopMove {
    /// A purchase of a piece of this colour (0 white, 1 black).
    Buy { piece_color: usize },
    /// A move of another kind.
    Other,
    /// Text that is no move: the player confirms its purchases.
    Unparsed,
}

/// What a shop move leads to.
#[derive(PartialEq, Eq, Structural)]
pub enum ShopPlan {
    /// Nothing happens.
    Ignore,
    /// The side `color` buys; `in_time` says whether its clock still runs, else
    /// only its credit is read again.
    Buy { color: usize, in_time: bool },
    /// The side `color` confirms its purchases, with time left.
    Confirm { color: usize },
}

/// Where the hand of a user comes from.
#[derive(PartialEq, Eq, Structural)]
pub enum HandSource {
    /// Both hands of the deployment.
    Deploy,
    /// The shop's hand of this side.
    Shop { color: usize },
    /// No hand.
    Nothing,
}

/// A live game: the record, the clock, the draw offers and the spectators.
pub struct ShuuroLive {
    pub game: ShuuroGame,
    pub running: bool,
    pub time_control: TimeControl,
    pub draws: [bool; 2],
    pub spectators: Vec<String>,
}

/// The side text of colour `color`: "w", "b", or empty.
pub open spec fn side(color: usize) -> Seq<char> {
    color_text(color as int)
}

impl ShuuroLive {
    pub open spec fn well_formed(&self) -> bool {
        distinct(self.spectators@)
    }

    /// Names of the spectators.
    pub open spec fn watchers(&self) -> Set<Seq<char>> {
        name_set(self.spectators@)
    }

    /// A running game with the clocks of its record, no draw offer and no spectator.
    pub fn from(game: ShuuroGame) -> (l: Self)
        requires
            game.clocks_well_formed(),
        ensures
            l.well_formed(),
            l.game == game,
            l.running,
            l.time_control == TimeControl::from_game_spec(game),
            l.draws == [false, false],
            l.watchers() == Set::<Seq<char>>::empty(),
    {
        let time_control = TimeControl::from_game(&game);
        let l = ShuuroLive { game, running: true, time_control, draws: [false, false], spectators: Vec::new() };
        assert(name_set(l.spectators@) =~= Set::<Seq<char>>::empty());
        l
    }

    /// A user who plays in this game cannot start another.
    pub fn can_add(&self, username: &str) -> (r: bool)
        ensures
            r == !(self.game.white@ == username@ || self.game.black@ == username@),
    {
        if str_eq(self.game.white.as_str(), username) || str_eq(self.game.black.as_str(), username) {
            return false;
        }
        true
    }

    /// White and black.
    pub fn players(&self) -> (p: [String; 2])
        ensures
            p[0] == self.game.white,
            p[1] == self.game.black,
    {
        [self.game.white.clone(), self.game.black.clone()]
    }

    /// Whether the side to move has time left at `now`.
    pub fn time_ok_at(&self, now: i128) -> (r: bool)
        requires
            self.time_control.readable(),
            -INSTANT_BOUND_NS < now < INSTANT_BOUND_NS,
        ensures
            r == self.time_control.time_ok_spec(self.game.side_to_move@, now as int),
    {
        self.time_control.time_ok_at(self.game.side_to_move.as_str(), now)
    }

    /// Whether the side to move has time left now.
    pub fn time_ok(&self) -> (r: bool)
        requires
            self.time_control.readable(),
        ensures
            exists|now: int|
                -INSTANT_BOUND_NS < now < INSTANT_BOUND_NS && r == #[trigger] self.time_control.time_ok_spec(
                    self.game.side_to_move@,
                    now,
                ),
    {
        let now = time_now_nanos();
        self.time_ok_at(now)
    }

    /// The spectators.
    pub fn spectators(&self) -> (s: &Vec<String>)
        requires
            self.well_formed(),
        ensures
            name_set(s@) == self.watchers(),
            distinct(s@),
    {
        &self.spectators
    }

    /// Add a spectator; returns the number of spectators.
    pub fn add_spectator(&mut self, username: &str) -> (count: usize)
        requires
            old(self).well_formed(),
        ensures
            final(self).well_formed(),
            final(self).watchers() == old(self).watchers().insert(username@),
            count == final(self).watchers().len(),
            final(self).game == old(self).game,
            final(self).time_control == old(self).time_control,
            final(self).draws == old(self).draws,
            final(self).running == old(self).running,
    {
        insert_name(&mut self.spectators, username);
        proof {
            lemma_distinct_len(self.spectators@);
        }
        self.spectators.len()
    }

    /// Remove a spectator; returns the number of spectators.
    pub fn remove_spectator(&mut self, username: &str) -> (count: usize)
        requires
            old(self).well_formed(),
        ensures
            final(self).well_formed(),
            final(self).watchers() == old(self).watchers().remove(username@),
            count == final(self).watchers().len(),
            final(self).game == old(self).game,
            final(self).time_control == old(self).time_control,
            final(self).draws == old(self).draws,
            final(self).running == old(self).running,
    {
        remove_name(&mut self.spectators, username);
        proof {
            lemma_distinct_len(self.spectators@);
        }
        self.spectators.len()
    }

    /// Where the hand shown to `username` comes from: both hands in the
    /// deployment; the user's own shop hand in the shop; else nothing.
    pub fn hand_source(&self, username: &str) -> (h: HandSource)
        ensures
            self.game.current_stage == 1 ==> h == HandSource::Deploy,
            self.game.current_stage == 0 ==> match color_of(self.game.white@, self.game.black@, username@) {
                2 => h == HandSource::Nothing,
                c => h == (HandSource::Shop { color: c }),
            },
            self.game.current_stage > 1 ==> h == HandSource::Nothing,
    {
        let color = self.game.user_color(username);
        if self.game.current_stage == 1 {
            return HandSource::Deploy;
        }
        if color == 2 && self.game.current_stage == 0 {
            return HandSource::Nothing;
        }
        if self.game.current_stage == 0 || self.game.current_stage == 1 {
            return HandSource::Shop { color };
        }
        HandSource::Nothing
    }

    /// Store the hand of side `color`.
    pub fn set_hand(&mut self, color: usize, hand: &str)
        ensures
            color == 0 ==> final(self).game.white_hand@ == hand@,
            color == 1 ==> final(self).game.black_hand@ == hand@,
            color == 0 ==> final(self).game == (ShuuroGame { white_hand: final(self).game.white_hand, ..old(self).game }),
            color == 1 ==> final(self).game == (ShuuroGame { black_hand: final(self).game.black_hand, ..old(self).game }),
            color > 1 ==> final(self).game == old(self).game,
            final(self).time_control == old(self).time_control,
            final(self).draws == old(self).draws,
            final(self).running == old(self).running,
            final(self).watchers() == old(self).watchers(),
            final(self).well_formed() == old(self).well_formed(),
    {
        if color == 0 {
            self.game.white_hand = hand.to_owned();
        } else if color == 1 {
            self.game.black_hand = hand.to_owned();
        }
    }

    /// `username` offers a draw: false for a stranger or a repeated offer.
    pub fn game_draw(&mut self, username: &str) -> (r: bool)
        ensures
            ({
                let c = color_of(old(self).game.white@, old(self).game.black@, username@);
                if c == 2 || old(self).draws[c as int] {
                    !r && final(self).draws == old(self).draws
                } else {
                    r && final(self).draws@ == old(self).draws@.update(c as int, true)
                }
            }),
            final(self).game == old(self).game,
            final(self).time_control == old(self).time_control,
            final(self).running == old(self).running,
            final(self).watchers() == old(self).watchers(),
            final(self).well_formed() == old(self).well_formed(),
    {
        let c = self.player_color(username);
        if c == 2 {
            return false;
        } else if self.draws[c] {
            return false;
        }
        self.draws[c] = true;
        true
    }

    /// Colour of `username`: 0 white, 1 black, 2 no colour.
    fn player_color(&self, username: &str) -> (c: usize)
        ensures
            c == color_of(self.game.white@, self.game.black@, username@),
    {
        self.game.user_color(username)
    }

    /// What a shop move of `username` at `now` leads to.
    pub open spec fn shop_plan(&self, game_move: Seq<char>, username: Seq<char>, parsed: ShopMove, now: int) -> ShopPlan {
        let c = color_of(self.game.white@, self.game.black@, username);
        if self.game.current_stage != 0 || (vstd::utf8::encode_utf8(game_move).len() as usize) != 2 || c == 2 {
            ShopPlan::Ignore
        } else {
            match parsed {
                ShopMove::Buy { piece_color } => if piece_color != c {
                    ShopPlan::Ignore
                } else {
                    ShopPlan::Buy { color: c, in_time: self.time_control.time_ok_spec(side(c), now) }
                },
                ShopMove::Other => ShopPlan::Ignore,
                ShopMove::Unparsed => if self.time_control.time_ok_spec(side(c), now) {
                    ShopPlan::Confirm { color: c }
                } else {
                    ShopPlan::Ignore
                },
            }
        }
    }

    /// A shop move of `username` at `now`, with the move generator's answers:
    /// `parsed` is what it made of the move, `credit_before` and `credit_after`
    /// the buyer's credit around the purchase and `hand` the buyer's hand after
    /// it. A purchase in time lets the draw offers lapse and, when the credit
    /// changed, stores the hand; any purchase stores the credit. A confirmation
    /// clicks the clock and passes the move. Returns the plan that was followed.
    pub fn buy_at(
        &mut self,
        game_move: &str,
        username: &str,
        parsed: ShopMove,
        credit_before: i32,
        credit_after: i32,
        hand: &str,
        now: i128,
    ) -> (p: ShopPlan)
        requires
            old(self).time_control.click_safe(),
            -INSTANT_BOUND_NS < now < INSTANT_BOUND_NS,
        ensures
            p == old(self).shop_plan(game_move@, username@, parsed, now as int),
            match p {
                ShopPlan::Ignore => *final(self) == *old(self),
                ShopPlan::Buy { color, in_time } => {
                    let changed = in_time && credit_before != credit_after;
                    &&& final(self).draws == (if in_time { [false, false] } else { old(self).draws })
                    &&& final(self).time_control == old(self).time_control
                    &&& color == 0 ==> final(self).game == (ShuuroGame {
                        white_credit: credit_after as u16,
                        white_hand: final(self).game.white_hand,
                        ..old(self).game
                    }) && final(self).game.white_hand@ == (if changed { hand@ } else { old(self).game.white_hand@ })
                    &&& color == 1 ==> final(self).game == (ShuuroGame {
                        black_credit: credit_after as u16,
                        black_hand: final(self).game.black_hand,
                        ..old(self).game
                    }) && final(self).game.black_hand@ == (if changed { hand@ } else { old(self).game.black_hand@ })
                },
                ShopPlan::Confirm { color } => {
                    &&& final(self).draws == old(self).draws
                    &&& final(self).time_control == old(self).time_control.after_click(side(color), now as int)
                    &&& color == 0 ==> final(self).game == (ShuuroGame {
                        white_clock: final(self).time_control.white_player,
                        side_to_move: final(self).game.side_to_move,
                        ..old(self).game
                    }) && final(self).game.side_to_move@ == "b"@
                    &&& color == 1 ==> final(self).game == (ShuuroGame {
                        black_clock: final(self).time_control.black_player,
                        side_to_move: final(self).game.side_to_move,
                        ..old(self).game
                    }) && final(self).game.side_to_move@ == "w"@
                },
            },
            final(self).running == old(self).running,
            final(self).watchers() == old(self).watchers(),
            final(self).well_formed() == old(self).well_formed(),
    {
        let plan = self.buy_plan_at(game_move, username, parsed, now);
        match plan {
            ShopPlan::Ignore => {},
            ShopPlan::Buy { color, in_time } => {
                self.record_buy(color, in_time, credit_before, credit_after, hand);
            },
            ShopPlan::Confirm { color } => {
                self.confirm_at(color, now);
            },
        }
        plan
    }

    /// The plan for `game_move` of `username` in the shop at `now`, given what
    /// the move generator made of the move. Only two-byte moves in the shop
    /// count, and only from a player: a purchase of a piece of its own colour,
    /// or a confirmation while its clock runs.
    pub fn buy_plan_at(&self, game_move: &str, username: &str, parsed: ShopMove, now: i128) -> (p: ShopPlan)
        requires
            self.time_control.readable(),
            -INSTANT_BOUND_NS < now < INSTANT_BOUND_NS,
        ensures
            p == self.shop_plan(game_move@, username@, parsed, now as int),
    {
        if self.game.current_stage != 0 {
            return ShopPlan::Ignore;
        }
        if game_move.len() != 2 {
            return ShopPlan::Ignore;
        }
        let color = self.game.user_color(username);
        if color == 2 {
            return ShopPlan::Ignore;
        }
        let c = color_string(color);
        match parsed {
            ShopMove::Buy { piece_color } => {
                if piece_color != color {
                    return ShopPlan::Ignore;
                }
                let in_time = self.time_control.time_ok_at(c.as_str(), now);
                ShopPlan::Buy { color, in_time }
            },
            ShopMove::Other => ShopPlan::Ignore,
            ShopMove::Unparsed => {
                if self.time_control.time_ok_at(c.as_str(), now) {
                    ShopPlan::Confirm { color }
                } else {
                    ShopPlan::Ignore
                }
            },
        }
    }

    /// Record a purchase of side `color`. When it was in time, the draw offers
    /// lapse and, if the credit changed, the new hand is stored; in any case the
    /// credit of the side becomes what the shop holds.
    pub fn record_buy(&mut self, color: usize, in_time: bool, credit_before: i32, credit_after: i32, hand: &str)
        requires
            color < 2,
        ensures
            final(self).draws == (if in_time {
                [false, false]
            } else {
                old(self).draws
            }),
            color == 0 ==> final(self).game.white_credit == credit_after as u16,
            color == 1 ==> final(self).game.black_credit == credit_after as u16,
            color == 0 ==> final(self).game.white_hand@ == (if in_time && credit_before != credit_after {
                hand@
            } else {
                old(self).game.white_hand@
            }),
            color == 1 ==> final(self).game.black_hand@ == (if in_time && credit_before != credit_after {
                hand@
            } else {
                old(self).game.black_hand@
            }),
            color == 0 ==> final(self).game == (ShuuroGame {
                white_credit: final(self).game.white_credit,
                white_hand: final(self).game.white_hand,
                ..old(self).game
            }),
            color == 1 ==> final(self).game == (ShuuroGame {
                black_credit: final(self).game.black_credit,
                black_hand: final(self).game.black_hand,
                ..old(self).game
            }),
            final(self).time_control == old(self).time_control,
            final(self).running == old(self).running,
            final(self).watchers() == old(self).watchers(),
            final(self).well_formed() == old(self).well_formed(),
    {
        if in_time {
            self.draws = [false, false];
            if credit_before != credit_after {
                self.set_hand(color, hand);
            }
        }
        #[verifier::truncate]
        let credit = credit_after as u16;
        if color == 0 {
            self.game.white_credit = credit;
        } else {
            self.game.black_credit = credit;
        }
    }

    /// Side `color` confirms its purchases at `now`: its clock is clicked, its
    /// stored clock updated, and the other side is to move.
    pub fn confirm_at(&mut self, color: usize, now: i128)
        requires
            color < 2,
            old(self).time_control.click_safe(),
            -INSTANT_BOUND_NS < now < INSTANT_BOUND_NS,
        ensures
            final(self).time_control == old(self).time_control.after_click(side(color), now as int),
            color == 0 ==> final(self).game == (ShuuroGame {
                white_clock: final(self).time_control.white_player,
                side_to_move: final(self).game.side_to_move,
                ..old(self).game
            }) && final(self).game.side_to_move@ == "b"@,
            color == 1 ==> final(self).game == (ShuuroGame {
                black_clock: final(self).time_control.black_player,
                side_to_move: final(self).game.side_to_move,
                ..old(self).game
            }) && final(self).game.side_to_move@ == "w"@,
            final(self).draws == old(self).draws,
            final(self).running == old(self).running,
            final(self).watchers() == old(self).watchers(),
            final(self).well_formed() == old(self).well_formed(),
    {
        let c = color_string(color);
        let _ = self.time_control.click_at(c.as_str(), now);
        if color == 0 {
            self.game.white_clock = self.time_control.get_clock('w');
            self.game.side_to_move = "b".to_owned();
        } else {
            self.game.black_clock = self.time_control.get_clock('b');
            self.game.side_to_move = "w".to_owned();
        }
    }

    /// Enter the deployment at `now`, with the position `sfen` that the move
    /// generator made of the shop.
    pub fn set_deploy_at(&mut self, sfen: String, now: i128)
        ensures
            final(self).game == (ShuuroGame { current_stage: 1, sfen, ..old(self).game }),
            final(self).time_control == (TimeControl { stage: 1, last_click: now, ..old(self).time_control }),
            final(self).draws == old(self).draws,
            final(self).running == old(self).running,
            final(self).watchers() == old(self).watchers(),
            final(self).well_formed() == old(self).well_formed(),
    {
        self.game.current_stage = 1;
        self.time_control.update_stage_at(1, now);
        self.game.sfen = sfen;
    }

    /// Enter the fight at `now`: the clock of side `color` is clicked and the
    /// record takes the time of the click.
    pub fn set_fight_at(&mut self, color: usize, now: i128)
        requires
            old(self).time_control.click_safe(),
            -INSTANT_BOUND_NS < now < INSTANT_BOUND_NS,
        ensures
            final(self).time_control == (TimeControl { stage: 2, last_click: now, ..old(self).time_control }).after_click(
                side(color),
                now as int,
            ),
            final(self).game == (ShuuroGame {
                current_stage: 2,
                last_clock: final(self).time_control.last_click,
                ..old(self).game
            }),
            final(self).draws == old(self).draws,
            final(self).running == old(self).running,
            final(self).watchers() == old(self).watchers(),
            final(self).well_formed() == old(self).well_formed(),
            forall|n: int| #[trigger] old(self).time_control.clicks_safe(n) && n >= 1
                ==> final(self).time_control.clicks_safe(n - 1),
    {
        let ghost before = self.time_control;
        self.game.current_stage = 2;
        self.time_control.update_stage_at(2, now);
        let ghost mid = self.time_control;
        let c = color_string(color);
        let _ = self.time_control.click_at(c.as_str(), now);
        self.game.last_clock = self.time_control.get_last_click();
        proof {
            assert forall|n: int| #[trigger] before.clicks_safe(n) && n >= 1 implies self.time_control.clicks_safe(
                n - 1,
            ) by {
                assert(mid.clicks_safe(n));
            }
        }
    }

    /// The plan for a placement of `username` at `now`: in the deployment, a
    /// player placing a piece of its own colour, on the move and in time.
    /// `piece` is the colour of the piece that the placement puts, when the
    /// move generator read a placement.
    pub fn place_plan_at(&self, username: &str, piece: Option<usize>, now: i128) -> (r: Option<usize>)
        requires
            self.time_control.readable(),
            -INSTANT_BOUND_NS < now < INSTANT_BOUND_NS,
        ensures
            ({
                let c = color_of(self.game.white@, self.game.black@, username@);
                r == if self.game.current_stage == 1 && piece == Some(c) && c != 2
                    && self.time_control.time_ok_spec(side(c), now as int) && self.game.side_to_move@ == side(c) {
                    Some(c)
                } else {
                    None
                }
            }),
    {
        if self.game.current_stage != 1 {
            return None;
        }
        match piece {
            Some(piece_color) => {
                let color = self.game.user_color(username);
                if color == 2 {
                    return None;
                } else if piece_color != color {
                    return None;
                }
                let c = color_string(color);
                if self.time_control.time_ok_at(c.as_str(), now) {
                    if str_eq(self.game.side_to_move.as_str(), c.as_str()) {
                        return Some(color);
                    }
                }
                None
            },
            None => None,
        }
    }

    /// Record a placement of side `color` at `now`: the draw offers lapse, the
    /// clock is clicked, the record takes the side to move, the position, both
    /// clocks and the placement. Returns whether the deployment is over.
    pub fn record_place_at(
        &mut self,
        color: usize,
        placed: (String, u16),
        next_side: String,
        sfen: String,
        deployment_over: bool,
        now: i128,
    ) -> (to_fight: bool)
        requires
            old(self).time_control.click_safe(),
            -INSTANT_BOUND_NS < now < INSTANT_BOUND_NS,
        ensures
            to_fight == deployment_over,
            final(self).draws == [false, false],
            final(self).time_control == old(self).time_control.after_click(side(color), now as int),
            final(self).game.deploy_history@ == old(self).game.deploy_history@.push(placed),
            final(self).game == (ShuuroGame {
                side_to_move: next_side,
                sfen,
                last_clock: final(self).time_control.last_click,
                black_clock: final(self).time_control.black_player,
                white_clock: final(self).time_control.white_player,
                deploy_history: final(self).game.deploy_history,
                ..old(self).game
            }),
            final(self).running == old(self).running,
            final(self).watchers() == old(self).watchers(),
            final(self).well_formed() == old(self).well_formed(),
            forall|n: int| #[trigger] old(self).time_control.clicks_safe(n) && n >= 1
                ==> final(self).time_control.clicks_safe(n - 1),
    {
        self.draws = [false, false];
        let c = color_string(color);
        let _ = self.time_control.click_at(c.as_str(), now);
        self.game.side_to_move = next_side;
        self.game.sfen = sfen;
        self.game.last_clock = self.time_control.get_last_click();
        self.game.black_clock = self.time_control.get_clock('b');
        self.game.white_clock = self.time_control.get_clock('w');
        self.game.deploy_history.push(placed);
        deployment_over
    }

    /// The fight starts after the last placement of side `color` at `now`: the
    /// fight is entered twice over, and when the side to move starts in check
    /// the game ends with status 7. Returns that first-move error.
    pub fn start_fight_at(&mut self, color: usize, in_check: bool, now: i128) -> (first_move_error: bool)
        requires
            old(self).time_control.clicks_safe(2),
            -INSTANT_BOUND_NS < now < INSTANT_BOUND_NS,
        ensures
            first_move_error == in_check,
            ({
                let once = (TimeControl { stage: 2, last_click: now, ..old(self).time_control }).after_click(
                    side(color),
                    now as int,
                );
                final(self).time_control == (TimeControl { stage: 2, last_click: now, ..once }).after_click(
                    side(color),
                    now as int,
                )
            }),
            final(self).game == (ShuuroGame {
                current_stage: 2,
                last_clock: final(self).time_control.last_click,
                status: if in_check {
                    7
                } else {
                    old(self).game.status
                },
                ..old(self).game
            }),
            final(self).draws == old(self).draws,
            final(self).running == old(self).running,
            final(self).watchers() == old(self).watchers(),
            final(self).well_formed() == old(self).well_formed(),
    {
        self.set_fight_at(color, now);
        self.set_fight_at(color, now);
        if in_check {
            self.game.status = 7;
        }
        in_check
    }

    /// A placement of `username` at `now`, with the move generator's answers:
    /// `piece` is the colour of the piece placed (when the move reads as a
    /// placement), `advanced` whether the deployment took it, `placed` its record,
    /// `next_side` and `sfen` the position after it, `deployment_over` whether
    /// both sides have placed everything, and `in_check` whether the side to move
    /// starts the fight in check. When the plan refuses, nothing changes. When
    /// the deployment did not take the move, only the draw offers lapse. Else the
    /// placement is recorded; after the last one the fight starts (stage 2), and
    /// a first move in check ends the game with status 7. Returns `to_fight` and
    /// `first_move_error`.
    pub fn place_at(
        &mut self,
        username: &str,
        piece: Option<usize>,
        advanced: bool,
        placed: (String, u16),
        next_side: String,
        sfen: String,
        deployment_over: bool,
        in_check: bool,
        now: i128,
    ) -> (r: Option<(bool, bool)>)
        requires
            old(self).time_control.clicks_safe(3),
            -INSTANT_BOUND_NS < now < INSTANT_BOUND_NS,
        ensures
            ({
                let g = old(self).game;
                let c = color_of(g.white@, g.black@, username@);
                let planned = g.current_stage == 1 && piece == Some(c) && c != 2
                    && old(self).time_control.time_ok_spec(side(c), now as int) && g.side_to_move@ == side(c);
                let clicked = old(self).time_control.after_click(side(c), now as int);
                &&& !planned ==> r is None && *final(self) == *old(self)
                &&& planned && !advanced ==> {
                    &&& r is None
                    &&& final(self).game == g
                    &&& final(self).time_control == old(self).time_control
                    &&& final(self).draws == [false, false]
                }
                &&& planned && advanced ==> {
                    &&& r == Some((deployment_over, deployment_over && in_check))
                    &&& final(self).draws == [false, false]
                    &&& final(self).game == (ShuuroGame {
                        side_to_move: next_side,
                        sfen,
                        last_clock: final(self).time_control.last_click,
                        black_clock: clicked.black_player,
                        white_clock: clicked.white_player,
                        deploy_history: final(self).game.deploy_history,
                        current_stage: if deployment_over { 2 } else { g.current_stage },
                        status: if deployment_over && in_check { 7 } else { g.status },
                        ..g
                    })
                    &&& final(self).game.deploy_history@ == g.deploy_history@.push(placed)
                    &&& !deployment_over ==> final(self).time_control == clicked
                    &&& deployment_over ==> {
                        let once = (TimeControl { stage: 2, last_click: now, ..clicked }).after_click(side(c), now as int);
                        final(self).time_control == (TimeControl { stage: 2, last_click: now, ..once }).after_click(
                            side(c),
                            now as int,
                        )
                    }
                }
                &&& final(self).running == old(self).running
                &&& final(self).watchers() == old(self).watchers()
                &&& final(self).well_formed() == old(self).well_formed()
            }),
    {
        let plan = self.place_plan_at(username, piece, now);
        match plan {
            None => None,
            Some(c) => {
                if !advanced {
                    self.draws = [false, false];
                    return None;
                }
                let to_fight = self.record_place_at(c, placed, next_side, sfen, deployment_over, now);
                let mut first_move_error = false;
                if to_fight {
                    first_move_error = self.start_fight_at(c, in_check, now);
                }
                Some((to_fight, first_move_error))
            },
        }
    }

    /// The plan for a fight move of `username` at `now`: in the fight, a player
    /// in time moving a piece of its own colour. `piece` is the colour of the
    /// piece on the square the move starts from, when the move generator read a
    /// move and found a piece there.
    pub fn play_plan_at(&self, username: &str, piece: Option<usize>, now: i128) -> (r: Option<usize>)
        requires
            self.time_control.readable(),
            -INSTANT_BOUND_NS < now < INSTANT_BOUND_NS,
        ensures
            ({
                let c = color_of(self.game.white@, self.game.black@, username@);
                r == if self.game.current_stage == 2 && c != 2 && self.time_control.time_ok_spec(side(c), now as int)
                    && piece == Some(c) {
                    Some(c)
                } else {
                    None
                }
            }),
    {
        if self.game.current_stage != 2 {
            return None;
        }
        match piece {
            Some(piece_color) => {
                let color = self.game.user_color(username);
                if color == 2 {
                    return None;
                }
                let c = color_string(color);
                if self.time_control.time_ok_at(c.as_str(), now) {
                    if piece_color == color {
                        return Some(color);
                    }
                }
                None
            },
            None => None,
        }
    }

    /// Record a fight move of side `color` at `now`, after which the move
    /// generator reports `outcome`: the draw offers lapse, the record takes the
    /// side to move, the position and the status, the move joins the history,
    /// the clock is clicked and both clocks stored. Returns the status.
    pub fn record_play_at(
        &mut self,
        color: usize,
        next_side: String,
        sfen: String,
        outcome: Outcome,
        played: (String, u16),
        now: i128,
    ) -> (status: i32)
        requires
            old(self).time_control.click_safe(),
            -INSTANT_BOUND_NS < now < INSTANT_BOUND_NS,
        ensures
            status == final(self).game.status,
            status == outcome_status(outcome),
            final(self).draws == [false, false],
            final(self).time_control == old(self).time_control.after_click(side(color), now as int),
            final(self).game.fight_history@ == old(self).game.fight_history@.push(played),
            (match outcome {
                Outcome::Checkmate { color: winner } => final(self).game.result@ == color_text(winner as int),
                _ => final(self).game.result == old(self).game.result,
            }),
            final(self).game == (ShuuroGame {
                side_to_move: next_side,
                sfen,
                status: final(self).game.status,
                result: final(self).game.result,
                fight_history: final(self).game.fight_history,
                last_clock: final(self).time_control.last_click,
                black_clock: final(self).time_control.black_player,
                white_clock: final(self).time_control.white_player,
                ..old(self).game
            }),
            final(self).running == old(self).running,
            final(self).watchers() == old(self).watchers(),
            final(self).well_formed() == old(self).well_formed(),
            forall|n: int| #[trigger] old(self).time_control.clicks_safe(n) && n >= 1
                ==> final(self).time_control.clicks_safe(n - 1),
    {
        self.draws = [false, false];
        self.game.side_to_move = next_side;
        self.game.sfen = sfen;
        self.update_status(&outcome);
        self.game.fight_history.push(played);
        let c = color_string(color);
        let _ = self.time_control.click_at(c.as_str(), now);
        self.game.last_clock = self.time_control.get_last_click();
        self.game.black_clock = self.time_control.get_clock('b');
        self.game.white_clock = self.time_control.get_clock('w');
        self.game.status
    }

    /// The status after the fight reached `outcome`, and the winner's colour for
    /// a checkmate.
    pub fn update_status(&mut self, outcome: &Outcome)
        ensures
            final(self).game.status == outcome_status(*outcome),
            (match *outcome {
                Outcome::Checkmate { color } => final(self).game == (ShuuroGame {
                    status: 1,
                    result: final(self).game.result,
                    ..old(self).game
                }) && final(self).game.result@ == color_text(color as int),
                _ => final(self).game == (ShuuroGame { status: outcome_status(*outcome), ..old(self).game }),
            }),
            final(self).time_control == old(self).time_control,
            final(self).draws == old(self).draws,
            final(self).running == old(self).running,
            final(self).watchers() == old(self).watchers(),
            final(self).well_formed() == old(self).well_formed(),
    {
        match outcome {
            Outcome::Check { color: _ } => {
                self.game.status = -1;
            },
            Outcome::Nothing => {
                self.game.status = -1;
            },
            Outcome::Stalemate => {
                self.game.status = 3;
            },
            Outcome::Draw => {
                self.game.status = 5;
            },
            Outcome::DrawByRepetition => {
                self.game.status = 4;
            },
            Outcome::DrawByMaterial => {
                self.game.status = 6;
            },
            Outcome::Checkmate { color } => {
                self.game.status = 1;
                self.game.result = color_string(*color);
            },
            Outcome::MoveOk => {
                self.game.status = -1;
            },
            Outcome::MoveNotOk => {
                self.game.status = -2;
            },
        }
    }

    /// `username` resigns at `now`: only a player can. The game ends with
    /// status 7, the result holds the colour of the player who resigned, and its
    /// clock is clicked.
    pub fn resign_at(&mut self, username: &str, now: i128) -> (r: bool)
        requires
            old(self).time_control.click_safe(),
            -INSTANT_BOUND_NS < now < INSTANT_BOUND_NS,
        ensures
            ({
                let c = color_of(old(self).game.white@, old(self).game.black@, username@);
                if c == 2 {
                    !r && *final(self) == *old(self)
                } else {
                    &&& r
                    &&& final(self).time_control == old(self).time_control.after_click(side(c), now as int)
                    &&& final(self).game == (ShuuroGame {
                        status: 7,
                        result: final(self).game.result,
                        last_clock: final(self).time_control.last_click,
                        ..old(self).game
                    })
                    &&& final(self).game.result@ == side(c)
                    &&& final(self).draws == old(self).draws
                    &&& final(self).running == old(self).running
                    &&& final(self).watchers() == old(self).watchers()
                    &&& final(self).well_formed() == old(self).well_formed()
                }
            }),
    {
        let color = self.player_color(username);
        if color == 2 {
            return false;
        }
        self.game.status = 7;
        self.game.result = color_string(color);
        let c = color_string(color);
        let _ = self.time_control.click_at(c.as_str(), now);
        self.game.last_clock = self.time_control.get_last_click();
        true
    }

    /// The side `stm` lost on time: the result holds it and the status is 8, or
    /// 5 when no side is named.
    pub fn lost_on_time(&mut self, stm: &str) -> (g: &ShuuroGame)
        ensures
            final(self).game.result@ == stm@,
            final(self).game == (ShuuroGame {
                result: final(self).game.result,
                status: if stm@ == Seq::<char>::empty() {
                    5
                } else {
                    8
                },
                ..old(self).game
            }),
            *g == final(self).game,
            final(self).time_control == old(self).time_control,
            final(self).draws == old(self).draws,
            final(self).running == old(self).running,
            final(self).watchers() == old(self).watchers(),
            final(self).well_formed() == old(self).well_formed(),
    {
        self.game.result = stm.to_owned();
        proof {
            if stm@.len() == 0 {
                assert(stm@ =~= Seq::<char>::empty());
            }
        }
        if stm.unicode_len() == 0 {
            self.game.status = 5;
        } else {
            self.game.status = 8;
        }
        &self.game
    }
}

/// The live games by id.
pub struct LiveGames {
    all: Vec<(String, ShuuroLive)>,
}

/// The live game that a stored game becomes when it is loaded at `now`: both
/// players watch it; in the deployment the clock enters stage 1 and
/// `deploy_side` is to move, in the fight the clock enters stage 2.
pub open spec fn loaded(l: ShuuroLive, game: ShuuroGame, deploy_side: Seq<char>, now: int) -> bool {
    let tc0 = TimeControl::from_game_spec(game);
    &&& l.well_formed()
    &&& l.running
    &&& l.draws == [false, false]
    &&& l.watchers() == Set::<Seq<char>>::empty().insert(game.white@).insert(game.black@)
    &&& if game.current_stage == 1 {
        &&& l.time_control == (TimeControl { stage: 1, last_click: now as i128, ..tc0 })
        &&& l.game == (ShuuroGame { side_to_move: l.game.side_to_move, last_clock: now as i128, ..game })
        &&& l.game.side_to_move@ == deploy_side
    } else if game.current_stage == 2 {
        &&& l.time_control == (TimeControl { stage: 2, last_click: now as i128, ..tc0 })
        &&& l.game == (ShuuroGame { last_clock: now as i128, ..game })
    } else {
        &&& l.time_control == tc0
        &&& l.game == game
    }
}

impl LiveGames {
    pub closed spec fn well_formed(&self) -> bool {
        &&& keys_distinct(self.all@)
        &&& forall|i: int| 0 <= i < self.all@.len() ==> (#[trigger] self.all@[i]).1.well_formed()
    }

    /// The live games by id.
    pub closed spec fn games(&self) -> Map<Seq<char>, ShuuroLive> {
        key_map(self.all@)
    }

    pub fn default() -> (g: Self)
        ensures
            g.well_formed(),
            g.games() == Map::<Seq<char>, ShuuroLive>::empty(),
    {
        let g = LiveGames { all: Vec::new() };
        assert(g.games() =~= Map::<Seq<char>, ShuuroLive>::empty());
        g
    }

    /// The entry at `i` becomes `e`, with the same key and a well-formed game.
    proof fn lemma_entry_update(before: Seq<(String, ShuuroLive)>, i: int, e: (String, ShuuroLive))
        requires
            keys_distinct(before),
            forall|j: int| 0 <= j < before.len() ==> (#[trigger] before[j]).1.well_formed(),
            0 <= i < before.len(),
            e.0@ == before[i].0@,
            e.1.well_formed(),
        ensures
            keys_distinct(before.update(i, e)),
            forall|j: int| 0 <= j < before.update(i, e).len() ==> (#[trigger] before.update(i, e)[j]).1.well_formed(),
            key_map(before.update(i, e)) == key_map(before).insert(before[i].0@, e.1),
            has_key(before, before[i].0@),
            key_pos(before, before[i].0@) == i,
    {
        lemma_key_map_update(before, i, e);
        lemma_key_pos(before, i);
        assert forall|j: int| 0 <= j < before.update(i, e).len() implies (#[trigger] before.update(i, e)[j]).1.well_formed() by {
            if j != i {
                assert(before.update(i, e)[j] == before[j]);
            }
        }
    }

    /// Number of live games.
    pub fn len(&self) -> (n: usize)
        requires
            self.well_formed(),
        ensures
            n == self.games().len(),
    {
        proof {
            lemma_key_map_len(self.all@);
        }
        self.all.len()
    }

    /// True when `username` plays in every live game, so also when there is none.
    pub fn can_add(&self, username: &str) -> (r: bool)
        requires
            self.well_formed(),
        ensures
            r == forall|id: Seq<char>| #[trigger] self.games().contains_key(id) ==> (self.games()[id].game.white@
                == username@ || self.games()[id].game.black@ == username@),
    {
        let mut i: usize = 0;
        while i < self.all.len()
            invariant
                self.well_formed(),
                i <= self.all@.len(),
                forall|j: int| 0 <= j < i ==> ((#[trigger] self.all@[j]).1.game.white@ == username@ || self.all@[j].1.game.black@ == username@),
            decreases self.all@.len() - i,
        {
            if self.all[i].1.can_add(username) {
                proof {
                    lemma_key_pos(self.all@, i as int);
                    let id = self.all@[i as int].0@;
                    assert(self.games().contains_key(id));
                }
                return false;
            }
            i = i + 1;
        }
        proof {
            assert forall|id: Seq<char>| #[trigger] self.games().contains_key(id) implies (self.games()[id].game.white@
                == username@ || self.games()[id].game.black@ == username@) by {
                let k = key_pos(self.all@, id);
                assert(self.all@[k].1.game.white@ == username@ || self.all@[k].1.game.black@ == username@);
            }
        }
        true
    }

    /// Load the stored `game` as live game `id` at `now`; in the deployment
    /// `deploy_side` is the side to move of its position.
    pub fn add_game_at(&mut self, id: &str, game: ShuuroGame, deploy_side: &str, now: i128)
        requires
            old(self).well_formed(),
            game.clocks_well_formed(),
            -INSTANT_BOUND_NS < now < INSTANT_BOUND_NS,
        ensures
            final(self).well_formed(),
            final(self).games().dom() == old(self).games().dom().insert(id@),
            loaded(final(self).games()[id@], game, deploy_side@, now as int),
            forall|x: Seq<char>| x != id@ && #[trigger] old(self).games().contains_key(x) ==> final(self).games()[x] == old(self).games()[x],
    {
        let ghost g0 = game;
        let white = game.white.clone();
        let black = game.black.clone();
        let stage = game.current_stage;
        let mut live = ShuuroLive::from(game);
        live.add_spectator(white.as_str());
        live.add_spectator(black.as_str());
        if stage == 1 {
            live.time_control.update_stage_at(1, now);
            live.game.side_to_move = deploy_side.to_owned();
            live.game.last_clock = live.time_control.get_last_click();
        } else if stage == 2 {
            live.time_control.update_stage_at(2, now);
            live.game.last_clock = live.time_control.get_last_click();
        }
        let ghost before = self.all@;
        let ghost l = live;
        put_key(&mut self.all, id, live);
        proof {
            assert(loaded(l, g0, deploy_side@, now as int));
            assert forall|j: int| 0 <= j < self.all@.len() implies (#[trigger] self.all@[j]).1.well_formed() by {
                lemma_key_pos(self.all@, j);
                let x = self.all@[j].0@;
                if x != id@ {
                    assert(has_key(before, x));
                    let k = key_pos(before, x);
                    assert(before[k].1.well_formed());
                } else {
                    assert(key_pos(self.all@, id@) == j);
                }
            }
            assert(self.games().dom() =~= old(self).games().dom().insert(id@));
        }
    }

    /// Load the stored `game` as live game `id` now.
    pub fn add_game(&mut self, id: &str, game: ShuuroGame, deploy_side: &str)
        requires
            old(self).well_formed(),
            game.clocks_well_formed(),
        ensures
            final(self).well_formed(),
            final(self).games().dom() == old(self).games().dom().insert(id@),
            exists|now: int| -INSTANT_BOUND_NS < now < INSTANT_BOUND_NS && #[trigger] loaded(final(self).games()[id@], game, deploy_side@, now),
            forall|x: Seq<char>| x != id@ && #[trigger] old(self).games().contains_key(x) ==> final(self).games()[x] == old(self).games()[x],
    {
        let now = time_now_nanos();
        self.add_game_at(id, game, deploy_side, now)
    }

    /// Remove game `id`.
    pub fn remove_game(&mut self, id: &str)
        requires
            old(self).well_formed(),
        ensures
            final(self).well_formed(),
            final(self).games() == old(self).games().remove(id@),
    {
        let ghost before = self.all@;
        let _ = remove_key(&mut self.all, id);
        proof {
            assert forall|j: int| 0 <= j < self.all@.len() implies (#[trigger] self.all@[j]).1.well_formed() by {
                lemma_key_pos(self.all@, j);
                let x = self.all@[j].0@;
                let k = key_pos(before, x);
                assert(before[k].1.well_formed());
            }
            assert(self.games() =~= old(self).games().remove(id@));
        }
    }

    /// `username` offers a draw in game `id`: 5 when both players now agree (the
    /// game is drawn, status 5), -2 for a new offer, -3 otherwise.
    pub fn draw_req(&mut self, id: &str, username: &str) -> (r: i8)
        requires
            old(self).well_formed(),
        ensures
            final(self).well_formed(),
            match old(self).games().get(id@) {
                None => r == -3 && final(self).games() == old(self).games(),
                Some(g) => {
                    let c = color_of(g.game.white@, g.game.black@, username@);
                    let offered = c != 2 && !g.draws[c as int];
                    let d0 = (offered && c == 0) || g.draws[0];
                    let d1 = (offered && c == 1) || g.draws[1];
                    &&& final(self).games() == old(self).games().insert(id@, final(self).games()[id@])
                    &&& final(self).games()[id@].draws == [d0, d1]
                    &&& final(self).games()[id@].game == if d0 && d1 {
                        ShuuroGame { status: 5, ..g.game }
                    } else {
                        g.game
                    }
                    &&& final(self).games()[id@].time_control == g.time_control
                    &&& final(self).games()[id@].running == g.running
                    &&& final(self).games()[id@].watchers() == g.watchers()
                    &&& r == if d0 && d1 {
                        5i8
                    } else if offered {
                        -2i8
                    } else {
                        -3i8
                    }
                },
            },
    {
        match find_key(&self.all, id) {
            Some(i) => {
                let ghost before = self.all@;
                proof {
                    lemma_key_pos(before, i as int);
                }
                let entry = &mut self.all[i];
                let draw = entry.1.game_draw(username);
                let r: i8 = if entry.1.draws[0] && entry.1.draws[1] {
                    entry.1.game.status = 5;
                    5
                } else if draw {
                    -2
                } else {
                    -3
                };
                proof {
                    assert(self.all@ == before.update(i as int, self.all@[i as int]));
                    Self::lemma_entry_update(before, i as int, self.all@[i as int]);
                }
                r
            },
            None => -3,
        }
    }

    /// `username` resigns game `id` at `now`.
    pub fn resign_at(&mut self, id: &str, username: &str, now: i128) -> (r: bool)
        requires
            old(self).well_formed(),
            -INSTANT_BOUND_NS < now < INSTANT_BOUND_NS,
            old(self).games().contains_key(id@) ==> old(self).games()[id@].time_control.click_safe(),
        ensures
            final(self).well_formed(),
            match old(self).games().get(id@) {
                None => !r && final(self).games() == old(self).games(),
                Some(g) => {
                    let c = color_of(g.game.white@, g.game.black@, username@);
                    &&& final(self).games() == old(self).games().insert(id@, final(self).games()[id@])
                    &&& r == (c != 2)
                    &&& c == 2 ==> final(self).games()[id@] == g
                    &&& c != 2 ==> {
                        let after = final(self).games()[id@];
                        &&& after.time_control == g.time_control.after_click(side(c), now as int)
                        &&& after.game == (ShuuroGame {
                            status: 7,
                            result: after.game.result,
                            last_clock: after.time_control.last_click,
                            ..g.game
                        })
                        &&& after.game.result@ == side(c)
                        &&& after.draws == g.draws
                        &&& after.watchers() == g.watchers()
                    }
                },
            },
    {
        match find_key(&self.all, id) {
            Some(i) => {
                let ghost before = self.all@;
                proof {
                    lemma_key_pos(before, i as int);
                }
                let entry = &mut self.all[i];
                let r = entry.1.resign_at(username, now);
                proof {
                    assert(self.all@ == before.update(i as int, self.all@[i as int]));
                    Self::lemma_entry_update(before, i as int, self.all@[i as int]);
                }
                r
            },
            None => false,
        }
    }

    /// `username` resigns game `id` now.
    pub fn resign(&mut self, id: &str, username: &str) -> (r: bool)
        requires
            old(self).well_formed(),
            old(self).games().contains_key(id@) ==> old(self).games()[id@].time_control.click_safe(),
        ensures
            final(self).well_formed(),
            match old(self).games().get(id@) {
                None => !r && final(self).games() == old(self).games(),
                Some(g) => {
                    &&& final(self).games() == old(self).games().insert(id@, final(self).games()[id@])
                    &&& r == (color_of(g.game.white@, g.game.black@, username@) != 2)
                    &&& r ==> final(self).games()[id@].game.status == 7
                },
            },
    {
        let now = time_now_nanos();
        self.resign_at(id, username, now)
    }

    /// The id and a copy of the record of game `id`.
    pub fn get_game(&self, id: &str) -> (r: Option<(String, ShuuroGame)>)
        requires
            self.well_formed(),
        ensures
            match self.games().get(id@) {
                Some(g) => r matches Some(p) && p.0@ == id@ && p.1.same(g.game),
                None => r is None,
            },
    {
        match find_key(&self.all, id) {
            Some(i) => {
                proof {
                    lemma_key_pos(self.all@, i as int);
                }
                Some((id.to_owned(), self.all[i].1.game.clone()))
            },
            None => None,
        }
    }

    /// The spectators of game `id`.
    pub fn spectators(&self, id: &str) -> (r: Option<Vec<String>>)
        requires
            self.well_formed(),
        ensures
            match self.games().get(id@) {
                Some(g) => r matches Some(s) && name_set(s@) == g.watchers() && distinct(s@),
                None => r is None,
            },
    {
        match find_key(&self.all, id) {
            Some(i) => {
                proof {
                    lemma_key_pos(self.all@, i as int);
                    assert(self.all@[i as int].1.well_formed());
                }
                Some(copy_names(&self.all[i].1.spectators))
            },
            None => None,
        }
    }

    /// Stop game `id`.
    pub fn stop(&mut self, id: &str)
        requires
            old(self).well_formed(),
        ensures
            final(self).well_formed(),
            match old(self).games().get(id@) {
                None => final(self).games() == old(self).games(),
                Some(g) => {
                    &&& final(self).games() == old(self).games().insert(id@, final(self).games()[id@])
                    &&& !final(self).games()[id@].running
                    &&& final(self).games()[id@].game == g.game
                    &&& final(self).games()[id@].time_control == g.time_control
                    &&& final(self).games()[id@].draws == g.draws
                    &&& final(self).games()[id@].watchers() == g.watchers()
                },
            },
    {
        match find_key(&self.all, id) {
            Some(i) => {
                let ghost before = self.all@;
                proof {
                    lemma_key_pos(before, i as int);
                }
                let entry = &mut self.all[i];
                entry.1.running = false;
                proof {
                    assert(self.all@ == before.update(i as int, self.all@[i as int]));
                    Self::lemma_entry_update(before, i as int, self.all@[i as int]);
                }
            },
            None => {},
        }
    }

    /// Add a spectator to game `id`; returns its number of spectators, 0 when
    /// there is no such game.
    pub fn add_spectator(&mut self, id: &str, username: &str) -> (count: usize)
        requires
            old(self).well_formed(),
        ensures
            final(self).well_formed(),
            match old(self).games().get(id@) {
                None => count == 0 && final(self).games() == old(self).games(),
                Some(g) => {
                    &&& final(self).games() == old(self).games().insert(id@, final(self).games()[id@])
                    &&& final(self).games()[id@].watchers() == g.watchers().insert(username@)
                    &&& count == final(self).games()[id@].watchers().len()
                    &&& final(self).games()[id@].game == g.game
                    &&& final(self).games()[id@].time_control == g.time_control
                    &&& final(self).games()[id@].draws == g.draws
                    &&& final(self).games()[id@].running == g.running
                },
            },
    {
        match find_key(&self.all, id) {
            Some(i) => {
                let ghost before = self.all@;
                proof {
                    lemma_key_pos(before, i as int);
                    assert(before[i as int].1.well_formed());
                }
                let entry = &mut self.all[i];
                let count = entry.1.add_spectator(username);
                proof {
                    assert(self.all@ == before.update(i as int, self.all@[i as int]));
                    Self::lemma_entry_update(before, i as int, self.all@[i as int]);
                }
                count
            },
            None => 0,
        }
    }

    /// Remove a spectator from game `id`; returns its number of spectators, 0
    /// when there is no such game.
    pub fn remove_spectator(&mut self, id: &str, username: &str) -> (count: usize)
        requires
            old(self).well_formed(),
        ensures
            final(self).well_formed(),
            match old(self).games().get(id@) {
                None => count == 0 && final(self).games() == old(self).games(),
                Some(g) => {
                    &&& final(self).games() == old(self).games().insert(id@, final(self).games()[id@])
                    &&& final(self).games()[id@].watchers() == g.watchers().remove(username@)
                    &&& count == final(self).games()[id@].watchers().len()
                    &&& final(self).games()[id@].game == g.game
                    &&& final(self).games()[id@].time_control == g.time_control
                    &&& final(self).games()[id@].draws == g.draws
                    &&& final(self).games()[id@].running == g.running
                },
            },
    {
        match find_key(&self.all, id) {
            Some(i) => {
                let ghost before = self.all@;
                proof {
                    lemma_key_pos(before, i as int);
                    assert(before[i as int].1.well_formed());
                }
                let entry = &mut self.all[i];
                let count = entry.1.remove_spectator(username);
                proof {
                    assert(self.all@ == before.update(i as int, self.all@[i as int]));
                    Self::lemma_entry_update(before, i as int, self.all@[i as int]);
                }
                count
            },
            None => 0,
        }
    }

    /// Whether the side to move of game `id` has time left at `now`.
    pub fn time_ok_at(&self, id: &str, now: i128) -> (r: Option<bool>)
        requires
            self.well_formed(),
            -INSTANT_BOUND_NS < now < INSTANT_BOUND_NS,
            self.games().contains_key(id@) ==> self.games()[id@].time_control.readable(),
        ensures
            match self.games().get(id@) {
                Some(g) => r == Some(g.time_control.time_ok_spec(g.game.side_to_move@, now as int)),
                None => r is None,
            },
    {
        match find_key(&self.all, id) {
            Some(i) => {
                proof {
                    lemma_key_pos(self.all@, i as int);
                }
                Some(self.all[i].1.time_ok_at(now))
            },
            None => None,
        }
    }

    /// Game `id` is lost on time by its side to move; returns the record.
    pub fn lost_on_time(&mut self, id: &str) -> (r: Option<ShuuroGame>)
        requires
            old(self).well_formed(),
        ensures
            final(self).well_formed(),
            match old(self).games().get(id@) {
                None => r is None && final(self).games() == old(self).games(),
                Some(g) => {
                    let after = final(self).games()[id@];
                    &&& final(self).games() == old(self).games().insert(id@, after)
                    &&& after.game == (ShuuroGame {
                        result: after.game.result,
                        status: if g.game.side_to_move@ == Seq::<char>::empty() {
                            5
                        } else {
                            8
                        },
                        ..g.game
                    })
                    &&& after.game.result@ == g.game.side_to_move@
                    &&& r matches Some(x) && x.same(after.game)
                    &&& after.time_control == g.time_control
                    &&& after.draws == g.draws
                    &&& after.watchers() == g.watchers()
                },
            },
    {
        match find_key(&self.all, id) {
            Some(i) => {
                let ghost before = self.all@;
                proof {
                    lemma_key_pos(before, i as int);
                }
                let entry = &mut self.all[i];
                let stm = entry.1.game.side_to_move.clone();
                let g = entry.1.lost_on_time(stm.as_str()).clone();
                proof {
                    assert(self.all@ == before.update(i as int, self.all@[i as int]));
                    Self::lemma_entry_update(before, i as int, self.all@[i as int]);
                }
                Some(g)
            },
            None => None,
        }
    }

    /// Every live game: its id and a copy of its record.
    pub fn get_all(&self) -> (all: Vec<(String, ShuuroGame)>)
        requires
            self.well_formed(),
        ensures
            all@.len() == self.games().len(),
            forall|k: int| 0 <= k < all@.len() ==> #[trigger] self.games().contains_key(all@[k].0@)
                && all@[k].1.same(self.games()[all@[k].0@].game),
    {
        let mut all: Vec<(String, ShuuroGame)> = Vec::new();
        let mut i: usize = 0;
        while i < self.all.len()
            invariant
                self.well_formed(),
                i <= self.all@.len(),
                all@.len() == i,
                forall|k: int| 0 <= k < i ==> (#[trigger] all@[k]).0@ == self.all@[k].0@ && all@[k].1.same(self.all@[k].1.game),
            decreases self.all@.len() - i,
        {
            let e = (self.all[i].0.clone(), self.all[i].1.game.clone());
            all.push(e);
            i = i + 1;
        }
        proof {
            lemma_key_map_len(self.all@);
            assert forall|k: int| 0 <= k < all@.len() implies #[trigger] self.games().contains_key(all@[k].0@)
                && all@[k].1.same(self.games()[all@[k].0@].game) by {
                lemma_key_pos(self.all@, k);
                assert(all@[k].0@ == self.all@[k].0@);
            }
        }
        all
    }

    /// `t` shows one of the live games.
    pub open spec fn on_tv(&self, t: TvGame) -> bool {
        exists|id: Seq<char>| #[trigger] self.games().contains_key(id) && shows(t, self.games()[id].game)
    }

    /// The games to show on TV: every live game that has a position.
    pub fn get_tv(&self) -> (games: Vec<TvGame>)
        requires
            self.well_formed(),
        ensures
            forall|k: int| 0 <= k < games@.len() ==> self.on_tv(#[trigger] games@[k]),
            forall|id: Seq<char>| #[trigger] self.games().contains_key(id) && self.games()[id].game.sfen@.len() > 0
                ==> exists|k: int| 0 <= k < games@.len() && #[trigger] shows(games@[k], self.games()[id].game),
    {
        let mut games: Vec<TvGame> = Vec::new();
        let ghost mut src: Seq<int> = Seq::empty();
        let ghost mut dst: Seq<int> = Seq::empty();
        let mut i: usize = 0;
        while i < self.all.len()
            invariant
                self.well_formed(),
                i <= self.all@.len(),
                src.len() == games@.len(),
                dst.len() == i,
                forall|k: int| 0 <= k < games@.len() ==> 0 <= #[trigger] src[k] < i && shows(games@[k], self.all@[src[k]].1.game),
                forall|j: int| 0 <= j < i && self.all@[j].1.game.sfen@.len() > 0 ==> 0 <= #[trigger] dst[j] < games@.len()
                    && shows(games@[dst[j]], self.all@[j].1.game),
            decreases self.all@.len() - i,
        {
            let g = &self.all[i].1.game;
            if g.sfen.unicode_len() != 0 {
                let tv = TvGame::new("live_tv", g.game_id.as_str(), g.white.as_str(), g.black.as_str(), g.sfen.as_str());
                proof {
                    reveal(shows);
                    dst = dst.push(games@.len() as int);
                    src = src.push(i as int);
                }
                games.push(tv);
            } else {
                proof {
                    dst = dst.push(0);
                }
            }
            i = i + 1;
        }
        proof {
            assert forall|k: int| 0 <= k < games@.len() implies self.on_tv(#[trigger] games@[k]) by {
                let j = src[k];
                lemma_key_pos(self.all@, j);
                let id = self.all@[j].0@;
                assert(self.games().contains_key(id));
                assert(self.games()[id] == self.all@[j].1);
                assert(shows(games@[k], self.games()[id].game));
            }
            assert forall|id: Seq<char>| #[trigger] self.games().contains_key(id) && self.games()[id].game.sfen@.len() > 0
                implies exists|k: int| 0 <= k < games@.len() && #[trigger] shows(games@[k], self.games()[id].game) by {
                let j = key_pos(self.all@, id);
                assert(self.all@[j].1.game.sfen@.len() > 0);
                let k = dst[j];
                assert(shows(games@[k], self.games()[id].game));
            }
        }
        games
    }
}

/// `t` shows game `g` on TV: its id, players and position, which is not empty.
#[verifier::opaque]
pub open spec fn shows(t: TvGame, g: ShuuroGame) -> bool {
    &&& t.t@ == "live_tv"@
    &&& t.game_id@ == g.game_id@
    &&& t.w@ == g.white@
    &&& t.b@ == g.black@
    &&& t.sfen@ == g.sfen@
    &&& g.sfen@.len() > 0
}

} // verus!
