use vstd::prelude::*;

use crate::clock::{time_now_nanos, INSTANT_BOUND_NS};
use crate::models::model::LobbyGame;
use crate::text::str_eq;

verus! {

/// Nanoseconds in a second.
pub const NANOS: i128 = 1_000_000_000i128;

/// Nanoseconds in a millisecond.
pub const MILLI_NANOS: i128 = 1_000_000i128;

/// Largest magnitude of a `time::Duration` in nanoseconds: `i64::MAX` whole
/// seconds and less than one more second.
pub const MAX_DURATION_NS: i128 = 9_223_372_036_854_775_807_999_999_999i128;

/// Smallest `time::Duration` in nanoseconds: `i64::MIN` whole seconds and less
/// than one more second.
pub const MIN_DURATION_NS: i128 = -9_223_372_036_854_775_808_999_999_999i128;

/// A `time::Duration`, held as nanoseconds.
pub open spec fn is_duration(ns: int) -> bool {
    MIN_DURATION_NS <= ns <= MAX_DURATION_NS
}

/// `Duration::whole_seconds`: the seconds, rounded toward zero.
pub open spec fn whole_secs(ns: int) -> int {
    if ns >= 0 {
        ns / (NANOS as int)
    } else {
        -((-ns) / (NANOS as int))
    }
}

/// `whole_milliseconds() > 0`: at least one whole millisecond is left.
pub open spec fn has_millis(ns: int) -> bool {
    ns >= MILLI_NANOS
}

/// Chess clock of a game. Instants are nanoseconds since the Unix epoch,
/// durations are nanoseconds.
pub struct TimeControl {
    pub last_click: i128,
    pub inc: i128,
    pub black_player: i128,
    pub white_player: i128,
    pub stage: u8,
}

impl TimeControl {
    /// Values that the `time` crate holds: an instant and three durations.
    pub open spec fn well_formed(&self) -> bool {
        &&& -INSTANT_BOUND_NS < self.last_click < INSTANT_BOUND_NS
        &&& is_duration(self.inc as int)
        &&& is_duration(self.black_player as int)
        &&& is_duration(self.white_player as int)
    }

    /// Reading a clock cannot overflow a `Duration`, whatever the time now.
    pub open spec fn readable(&self) -> bool {
        &&& self.well_formed()
        &&& abs(self.white_player as int) + 2 * INSTANT_BOUND_NS <= MAX_DURATION_NS
        &&& abs(self.black_player as int) + 2 * INSTANT_BOUND_NS <= MAX_DURATION_NS
    }

    /// `n` clicks in a row, and a reading after each, cannot overflow a `Duration`.
    pub open spec fn clicks_safe(&self, n: int) -> bool {
        &&& self.well_formed()
        &&& n >= 0
        &&& abs(self.white_player as int) + n * (2 * INSTANT_BOUND_NS + abs(self.inc as int)) + 2
            * INSTANT_BOUND_NS <= MAX_DURATION_NS
        &&& abs(self.black_player as int) + n * (2 * INSTANT_BOUND_NS + abs(self.inc as int)) + 2
            * INSTANT_BOUND_NS <= MAX_DURATION_NS
    }

    /// One click, and the reading after it, cannot overflow a `Duration`.
    pub open spec fn click_safe(&self) -> bool {
        self.clicks_safe(1)
    }

    /// Whether the side `c` ("w" or "b") has time left at `now`. In the shop
    /// (stage 0) the empty colour reads the white clock.
    pub open spec fn time_ok_spec(&self, c: Seq<char>, now: int) -> bool {
        let elapsed = now - self.last_click;
        if self.stage == 0 && c == ""@ {
            has_millis(self.white_player - elapsed)
        } else if c == "w"@ {
            has_millis(self.white_player - elapsed)
        } else if c == "b"@ {
            has_millis(self.black_player - elapsed)
        } else {
            false
        }
    }

    /// The clocks after side `c` clicked at `now`: its clock loses the elapsed
    /// time and gains the increment; outside the shop the clock restarts.
    pub open spec fn after_click(&self, c: Seq<char>, now: int) -> TimeControl {
        let elapsed = now - self.last_click;
        let white = if c == "w"@ {
            (self.white_player - elapsed + self.inc) as i128
        } else {
            self.white_player
        };
        let black = if c != "w"@ && c == "b"@ {
            (self.black_player - elapsed + self.inc) as i128
        } else {
            self.black_player
        };
        TimeControl {
            white_player: white,
            black_player: black,
            last_click: if self.stage != 0 {
                now as i128
            } else {
                self.last_click
            },
            ..*self
        }
    }

    /// `inc` seconds of increment and `duration` seconds on each clock, started at `now`.
    pub fn new_at(inc: i64, duration: i64, now: i128) -> (tc: Self)
        requires
            -INSTANT_BOUND_NS < now < INSTANT_BOUND_NS,
        ensures
            tc.last_click == now,
            tc.inc == inc * NANOS,
            tc.black_player == duration * NANOS,
            tc.white_player == duration * NANOS,
            tc.stage == 0,
            tc.well_formed(),
    {
        proof {
            lemma_seconds_duration(inc as int);
            lemma_seconds_duration(duration as int);
        }
        TimeControl {
            last_click: now,
            inc: inc as i128 * NANOS,
            black_player: duration as i128 * NANOS,
            white_player: duration as i128 * NANOS,
            stage: 0,
        }
    }

    /// `inc` seconds of increment and `duration` seconds on each clock, started now.
    pub fn new(inc: i64, duration: i64) -> (tc: Self)
        ensures
            tc.inc == inc * NANOS,
            tc.black_player == duration * NANOS,
            tc.white_player == duration * NANOS,
            tc.stage == 0,
            tc.well_formed(),
    {
        let now = time_now_nanos();
        Self::new_at(inc, duration, now)
    }

    /// Enter `stage` at `now`: the clock restarts.
    pub fn update_stage_at(&mut self, stage: u8, now: i128)
        ensures
            *final(self) == (TimeControl { stage, last_click: now, ..*old(self) }),
    {
        self.stage = stage;
        self.last_click = now;
    }

    /// Enter `stage` now.
    pub fn update_stage(&mut self, stage: u8)
        requires
            old(self).well_formed(),
        ensures
            final(self).well_formed(),
            final(self).stage == stage,
            final(self).inc == old(self).inc,
            final(self).white_player == old(self).white_player,
            final(self).black_player == old(self).black_player,
            forall|n: int| #[trigger] old(self).clicks_safe(n) ==> final(self).clicks_safe(n),
    {
        let now = time_now_nanos();
        self.update_stage_at(stage, now)
    }

    /// Whether side `c` has time left at `now`.
    pub fn time_ok_at(&self, c: &str, now: i128) -> (r: bool)
        requires
            self.readable(),
            -INSTANT_BOUND_NS < now < INSTANT_BOUND_NS,
        ensures
            r == self.time_ok_spec(c@, now as int),
    {
        proof {
            reveal_strlit("w");
            reveal_strlit("b");
            reveal_strlit("");
        }
        let elapsed = now - self.last_click;
        if self.stage == 0 {
            if str_eq(c, "") {
                return self.white_player - elapsed >= MILLI_NANOS;
            }
        }
        if str_eq(c, "w") {
            return self.white_player - elapsed >= MILLI_NANOS;
        } else if str_eq(c, "b") {
            return self.black_player - elapsed >= MILLI_NANOS;
        }
        false
    }

    /// Whether side `c` has time left now.
    pub fn time_ok(&self, c: &str) -> (r: bool)
        requires
            self.readable(),
        ensures
            exists|now: int| -INSTANT_BOUND_NS < now < INSTANT_BOUND_NS && r == #[trigger] self.time_ok_spec(c@, now),
    {
        let now = time_now_nanos();
        self.time_ok_at(c, now)
    }

    /// Side `c` clicks at `now`; returns whether it still has time left.
    pub fn click_at(&mut self, c: &str, now: i128) -> (r: bool)
        requires
            old(self).click_safe(),
            -INSTANT_BOUND_NS < now < INSTANT_BOUND_NS,
        ensures
            *final(self) == old(self).after_click(c@, now as int),
            final(self).readable(),
            r == final(self).time_ok_spec(c@, now as int),
            forall|n: int| #[trigger] old(self).clicks_safe(n) && n >= 1 ==> final(self).clicks_safe(n - 1),
    {
        proof {
            lemma_click_keeps_safe(*self, c@, now as int);
        }
        let elapsed = now - self.last_click;
        if str_eq(c, "w") {
            self.white_player = self.white_player - elapsed + self.inc;
        } else if str_eq(c, "b") {
            self.black_player = self.black_player - elapsed + self.inc;
        }
        if self.stage != 0 {
            self.last_click = now;
        }
        self.time_ok_at(c, now)
    }

    /// Side `c` clicks now; returns whether it still has time left.
    pub fn click(&mut self, c: &str) -> (r: bool)
        requires
            old(self).click_safe(),
        ensures
            exists|now: int|
                -INSTANT_BOUND_NS < now < INSTANT_BOUND_NS && *final(self) == #[trigger] old(self).after_click(c@, now)
                    && r == final(self).time_ok_spec(c@, now),
            final(self).readable(),
            forall|n: int| #[trigger] old(self).clicks_safe(n) && n >= 1 ==> final(self).clicks_safe(n - 1),
    {
        let now = time_now_nanos();
        self.click_at(c, now)
    }

    /// The clock of `c`: black for 'b', white for any other.
    pub fn get_clock(&self, c: char) -> (d: i128)
        ensures
            c == 'b' ==> d == self.black_player,
            c != 'b' ==> d == self.white_player,
    {
        if c == 'w' {
            self.white_player
        } else if c == 'b' {
            self.black_player
        } else {
            self.white_player
        }
    }

    pub fn get_last_click(&self) -> (t: i128)
        ensures
            t == self.last_click,
    {
        self.last_click
    }

    /// The clocks of a stored game: its clocks, last click and whole seconds of
    /// increment, in the shop stage.
    pub open spec fn from_game_spec(game: ShuuroGame) -> TimeControl {
        TimeControl {
            last_click: game.last_clock,
            inc: (whole_secs(game.incr as int) * NANOS) as i128,
            black_player: game.black_clock,
            white_player: game.white_clock,
            stage: 0,
        }
    }

    /// The clocks of a stored game: its clocks, last click and whole seconds of
    /// increment, in the shop stage.
    pub fn from_game(game: &ShuuroGame) -> (tc: Self)
        requires
            game.clocks_well_formed(),
        ensures
            tc == TimeControl::from_game_spec(*game),
            tc.inc == whole_secs(game.incr as int) * NANOS,
            tc.white_player == game.white_clock,
            tc.black_player == game.black_clock,
            tc.last_click == game.last_clock,
            tc.stage == 0,
            tc.well_formed(),
    {
        let inc = whole_seconds(game.incr);
        TimeControl {
            last_click: game.last_clock,
            inc: inc * NANOS,
            black_player: game.black_clock,
            white_player: game.white_clock,
            stage: 0,
        }
    }
}

/// `Duration::whole_seconds` of a duration held as nanoseconds.
pub fn whole_seconds(ns: i128) -> (s: i128)
    requires
        is_duration(ns as int),
    ensures
        s == whole_secs(ns as int),
        -9_223_372_036_854_775_808 <= s <= 9_223_372_036_854_775_807,
{
    if ns >= 0 {
        ns / NANOS
    } else {
        let pos: i128 = -ns;
        -(pos / NANOS)
    }
}

/// After a click, one click fewer stays safe.
proof fn lemma_click_keeps_safe(tc: TimeControl, c: Seq<char>, now: int)
    requires
        tc.click_safe(),
        -INSTANT_BOUND_NS < now < INSTANT_BOUND_NS,
    ensures
        tc.after_click(c, now).well_formed(),
        tc.after_click(c, now).readable(),
        forall|n: int| #[trigger] tc.clicks_safe(n) && n >= 1 ==> tc.after_click(c, now).clicks_safe(n - 1),
{
    let a = tc.after_click(c, now);
    let step = 2 * INSTANT_BOUND_NS + abs(tc.inc as int);
    assert(abs(a.white_player as int) <= abs(tc.white_player as int) + step);
    assert(abs(a.black_player as int) <= abs(tc.black_player as int) + step);
    assert forall|n: int| #[trigger] tc.clicks_safe(n) && n >= 1 implies a.clicks_safe(n - 1) by {
        assert(n * step == (n - 1) * step + step) by (nonlinear_arith);
    }
}

/// Whole seconds that fit in `i64` make a `Duration`.
proof fn lemma_seconds_duration(secs: int)
    requires
        -9_223_372_036_854_775_808 <= secs <= 9_223_372_036_854_775_807,
    ensures
        is_duration(secs * NANOS),
{
    assert(secs * 1_000_000_000 <= 9_223_372_036_854_775_807 * 1_000_000_000) by (nonlinear_arith)
        requires
            secs <= 9_223_372_036_854_775_807;
    assert(secs * 1_000_000_000 >= -9_223_372_036_854_775_808 * 1_000_000_000) by (nonlinear_arith)
        requires
            secs >= -9_223_372_036_854_775_808;
}

/// Absolute value.
pub open spec fn abs(x: int) -> int {
    if x < 0 {
        -x
    } else {
        x
    }
}

#[verifier::external_type_specification]
#[verifier::external_body]
pub struct ExObjectId(::bson::oid::ObjectId);

/// A game as it is stored. Durations are nanoseconds; `last_clock` is
/// nanoseconds since the Unix epoch.
pub struct ShuuroGame {
    pub _id: ::bson::oid::ObjectId,
    pub game_id: String,
    pub min: i128,
    pub incr: i128,
    pub white: String,
    pub black: String,
    pub side_to_move: String,
    pub white_clock: i128,
    pub black_clock: i128,
    pub last_clock: i128,
    pub current_stage: u8,
    pub result: String,
    pub status: i32,
    pub shop_history: Vec<(String, u8)>,
    pub deploy_history: Vec<(String, u16)>,
    pub fight_history: Vec<(String, u16)>,
    pub white_credit: u16,
    pub black_credit: u16,
    pub white_hand: String,
    pub black_hand: String,
    pub sfen: String,
}

/// Colour of a user in a game: 0 white, 1 black, 2 no colour.
pub open spec fn color_of(white: Seq<char>, black: Seq<char>, user: Seq<char>) -> usize {
    if user == white {
        0
    } else if user == black {
        1
    } else {
        2
    }
}

impl ShuuroGame {
    /// The stored clocks and increment are durations, and the last click an instant.
    pub open spec fn clocks_well_formed(&self) -> bool {
        &&& is_duration(self.incr as int)
        &&& is_duration(self.white_clock as int)
        &&& is_duration(self.black_clock as int)
        &&& -INSTANT_BOUND_NS < self.last_clock < INSTANT_BOUND_NS
    }

    /// A fresh game stored under `id`: no players, 800 credits each, status -2,
    /// the clock at `now`.
    pub fn default_at(now: i128, id: ::bson::oid::ObjectId) -> (g: Self)
        requires
            -INSTANT_BOUND_NS < now < INSTANT_BOUND_NS,
        ensures
            g._id == id,
            g.game_id@ == Seq::<char>::empty(),
            g.min == 0 && g.incr == 0,
            g.white@ == Seq::<char>::empty() && g.black@ == Seq::<char>::empty(),
            g.side_to_move@ == Seq::<char>::empty(),
            g.white_clock == 0 && g.black_clock == 0,
            g.last_clock == now,
            g.current_stage == 0,
            g.result@ == Seq::<char>::empty(),
            g.status == -2,
            g.shop_history@.len() == 0 && g.deploy_history@.len() == 0 && g.fight_history@.len() == 0,
            g.white_credit == 800 && g.black_credit == 800,
            g.white_hand@ == Seq::<char>::empty() && g.black_hand@ == Seq::<char>::empty(),
            g.sfen@ == Seq::<char>::empty(),
            g.clocks_well_formed(),
    {
        ShuuroGame {
            _id: id,
            game_id: String::new(),
            min: 0,
            incr: 0,
            white: String::new(),
            black: String::new(),
            side_to_move: String::new(),
            white_clock: 0,
            black_clock: 0,
            last_clock: now,
            current_stage: 0,
            result: String::new(),
            status: -2,
            shop_history: Vec::new(),
            deploy_history: Vec::new(),
            fight_history: Vec::new(),
            white_credit: 800,
            black_credit: 800,
            white_hand: String::new(),
            black_hand: String::new(),
            sfen: String::new(),
        }
    }

    /// A fresh game started now, stored under `id`.
    pub fn default(id: ::bson::oid::ObjectId) -> (g: Self)
        ensures
            g._id == id,
            g.game_id@ == Seq::<char>::empty(),
            g.min == 0 && g.incr == 0,
            g.white@ == Seq::<char>::empty() && g.black@ == Seq::<char>::empty(),
            g.side_to_move@ == Seq::<char>::empty(),
            g.white_clock == 0 && g.black_clock == 0,
            g.current_stage == 0,
            g.result@ == Seq::<char>::empty(),
            g.status == -2,
            g.shop_history@.len() == 0 && g.deploy_history@.len() == 0 && g.fight_history@.len() == 0,
            g.white_credit == 800 && g.black_credit == 800,
            g.white_hand@ == Seq::<char>::empty() && g.black_hand@ == Seq::<char>::empty(),
            g.sfen@ == Seq::<char>::empty(),
            g.clocks_well_formed(),
    {
        let now = time_now_nanos();
        Self::default_at(now, id)
    }

    /// A fresh game of `time` minutes with `incr` seconds of increment.
    fn new(time: i64, incr: i64, id: ::bson::oid::ObjectId) -> (g: Self)
        requires
            -9_223_372_036_854_775_808 <= time * 60 <= 9_223_372_036_854_775_807,
        ensures
            g._id == id,
            g.min == time * 60 * NANOS,
            g.incr == incr * NANOS,
            g.white_clock == time * 60 * NANOS,
            g.black_clock == time * 60 * NANOS,
            g.status == -2,
            g.current_stage == 0,
            g.white_credit == 800 && g.black_credit == 800,
            g.white@ == Seq::<char>::empty() && g.black@ == Seq::<char>::empty(),
            g.clocks_well_formed(),
    {
        let mut game = ShuuroGame::default(id);
        let min_seconds = time * 60;
        proof {
            lemma_seconds_duration(min_seconds as int);
            lemma_seconds_duration(incr as int);
        }
        game.min = min_seconds as i128 * NANOS;
        game.incr = incr as i128 * NANOS;
        game.white_clock = min_seconds as i128 * NANOS;
        game.black_clock = min_seconds as i128 * NANOS;
        game
    }

    /// The game that a lobby offer becomes, stored under `id`: its minutes and
    /// increment.
    pub fn from(game: &LobbyGame, id: ::bson::oid::ObjectId) -> (g: Self)
        requires
            -9_223_372_036_854_775_808 <= game.minutes() * 60 <= 9_223_372_036_854_775_807,
        ensures
            g._id == id,
            g.min == game.minutes() * 60 * NANOS,
            g.incr == game.increment() * NANOS,
            g.white_clock == g.min && g.black_clock == g.min,
            g.status == -2,
            g.current_stage == 0,
            g.white_credit == 800 && g.black_credit == 800,
            g.white@ == Seq::<char>::empty() && g.black@ == Seq::<char>::empty(),
            g.clocks_well_formed(),
    {
        ShuuroGame::new(game.time(), game.incr(), id)
    }

    /// Colour of `username`: 0 white, 1 black, 2 no colour.
    pub fn user_color(&self, username: &str) -> (c: usize)
        ensures
            c == color_of(self.white@, self.black@, username@),
    {
        if str_eq(username, self.white.as_str()) {
            0
        } else if str_eq(username, self.black.as_str()) {
            1
        } else {
            2
        }
    }
}

/// A copy of a history: the same entries in the same order.
pub fn copy_history<T: Copy>(v: &Vec<(String, T)>) -> (c: Vec<(String, T)>)
    ensures
        c@ == v@,
{
    let mut c: Vec<(String, T)> = Vec::new();
    let mut i: usize = 0;
    while i < v.len()
        invariant
            i <= v@.len(),
            c@ == v@.subrange(0, i as int),
        decreases v@.len() - i,
    {
        let e = (v[i].0.clone(), v[i].1);
        c.push(e);
        assert(c@ =~= v@.subrange(0, i + 1));
        i = i + 1;
    }
    assert(v@.subrange(0, i as int) =~= v@);
    c
}

impl ShuuroGame {
    /// Two records hold the same game: every field equal, histories entry by entry.
    pub open spec fn same(&self, other: ShuuroGame) -> bool {
        &&& self._id == other._id
        &&& self.game_id == other.game_id
        &&& self.min == other.min
        &&& self.incr == other.incr
        &&& self.white == other.white
        &&& self.black == other.black
        &&& self.side_to_move == other.side_to_move
        &&& self.white_clock == other.white_clock
        &&& self.black_clock == other.black_clock
        &&& self.last_clock == other.last_clock
        &&& self.current_stage == other.current_stage
        &&& self.result == other.result
        &&& self.status == other.status
        &&& self.shop_history@ == other.shop_history@
        &&& self.deploy_history@ == other.deploy_history@
        &&& self.fight_history@ == other.fight_history@
        &&& self.white_credit == other.white_credit
        &&& self.black_credit == other.black_credit
        &&& self.white_hand == other.white_hand
        &&& self.black_hand == other.black_hand
        &&& self.sfen == other.sfen
    }
}

impl Clone for ShuuroGame {
    fn clone(&self) -> (c: Self)
        ensures
            c.same(*self),
    {
        ShuuroGame {
            _id: self._id,
            game_id: self.game_id.clone(),
            min: self.min,
            incr: self.incr,
            white: self.white.clone(),
            black: self.black.clone(),
            side_to_move: self.side_to_move.clone(),
            white_clock: self.white_clock,
            black_clock: self.black_clock,
            last_clock: self.last_clock,
            current_stage: self.current_stage,
            result: self.result.clone(),
            status: self.status,
            shop_history: copy_history(&self.shop_history),
            deploy_history: copy_history(&self.deploy_history),
            fight_history: copy_history(&self.fight_history),
            white_credit: self.white_credit,
            black_credit: self.black_credit,
            white_hand: self.white_hand.clone(),
            black_hand: self.black_hand.clone(),
            sfen: self.sfen.clone(),
        }
    }
}

/// A click of white leaves the black clock as it was, and the other way round;
/// only the increment and the elapsed time change the clock that clicked.
pub proof fn click_touches_one_clock(tc: TimeControl, now: int)
    ensures
        tc.after_click("w"@, now).black_player == tc.black_player,
        tc.after_click("w"@, now).white_player == (tc.white_player - (now - tc.last_click) + tc.inc) as i128,
        tc.after_click("b"@, now).white_player == tc.white_player,
        tc.after_click("b"@, now).black_player == (tc.black_player - (now - tc.last_click) + tc.inc) as i128,
        tc.after_click("w"@, now).inc == tc.inc && tc.after_click("w"@, now).stage == tc.stage,
{
    reveal_strlit("w");
    reveal_strlit("b");
    assert("b"@ != "w"@) by {
        assert("b"@[0] != "w"@[0]);
    }
}

} // verus!
