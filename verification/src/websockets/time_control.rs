use vstd::prelude::*;

use crate::clock::{utc_now_millis, TIMESTAMP_BOUND};

verus! {

/// Largest magnitude of a chrono `TimeDelta`, in milliseconds (`i64::MAX`).
pub const MAX_DELTA_MS: i64 = 9_223_372_036_854_775_807i64;

/// Largest magnitude of a whole number of seconds that chrono turns into a `TimeDelta`.
pub const MAX_DELTA_SECS: i64 = 9_223_372_036_854_775i64;

/// A chrono `TimeDelta` held as whole milliseconds lies in `[-i64::MAX, i64::MAX]`.
pub open spec fn is_delta(ms: int) -> bool {
    -MAX_DELTA_MS <= ms <= MAX_DELTA_MS
}

/// `TimeDelta::checked_sub`: the difference when it is still a `TimeDelta`.
pub open spec fn delta_checked_sub(a: int, b: int) -> Option<int> {
    if is_delta(a - b) {
        Some(a - b)
    } else {
        None
    }
}

/// `TimeDelta::num_seconds` rounds toward zero, so a remaining time is negative
/// in whole seconds exactly when it is at most -1000 ms.
pub open spec fn negative_in_seconds(ms: int) -> bool {
    ms <= -1000
}

/// Chess clock of a game. Times are milliseconds; `last_click` is a Unix
/// timestamp in milliseconds and `incr` is the increment in seconds.
pub struct TimeControl {
    pub last_click: i64,
    pub clocks: [i64; 2],
    pub stage: u8,
    pub incr: i64,
}

impl TimeControl {
    /// The values that chrono can hold: a representable instant, two
    /// `TimeDelta` clocks and an increment that converts to a `TimeDelta`.
    pub open spec fn well_formed(&self) -> bool {
        &&& -TIMESTAMP_BOUND < self.last_click < TIMESTAMP_BOUND
        &&& is_delta(self.clocks[0] as int)
        &&& is_delta(self.clocks[1] as int)
        &&& -MAX_DELTA_SECS <= self.incr <= MAX_DELTA_SECS
    }

    /// No click can overflow the clock it updates, whatever the current time:
    /// the elapsed time is below 2^54 ms in magnitude.
    pub open spec fn click_safe(&self) -> bool {
        &&& self.well_formed()
        &&& -MAX_DELTA_MS + 1000 <= self.incr * 1000
        &&& self.clocks[0] + 2 * TIMESTAMP_BOUND + self.incr * 1000 <= MAX_DELTA_MS
        &&& self.clocks[1] + 2 * TIMESTAMP_BOUND + self.incr * 1000 <= MAX_DELTA_MS
    }

    /// Time left to `color` at instant `now`, when it is a `TimeDelta` that is not
    /// negative in whole seconds.
    pub open spec fn duration_at(&self, color: int, now: int) -> Option<int> {
        match delta_checked_sub(self.clocks[color] as int, now - self.last_click) {
            Some(d) => if negative_in_seconds(d) {
                None
            } else {
                Some(d)
            },
            None => None,
        }
    }

    /// The clocks after `color` clicked at `now`, its remaining time being `d`.
    /// Nothing changes in the first stage of a game without increment.
    pub open spec fn after_click(&self, color: int, d: int, now: int) -> TimeControl {
        if self.incr == 0 && self.stage == 0 {
            *self
        } else {
            TimeControl {
                last_click: now as i64,
                clocks: if color == 0 {
                    [(d + self.incr * 1000) as i64, self.clocks[1]]
                } else {
                    [self.clocks[0], (d + self.incr * 1000) as i64]
                },
                ..*self
            }
        }
    }

    /// Create a new time control: `time` minutes plus one increment on each clock.
    pub fn new_at(time: i64, incr: i64, now: i64) -> (tc: Self)
        requires
            -MAX_DELTA_SECS <= time * 60 + incr <= MAX_DELTA_SECS,
            -MAX_DELTA_SECS <= incr <= MAX_DELTA_SECS,
            -TIMESTAMP_BOUND < now < TIMESTAMP_BOUND,
        ensures
            tc.clocks[0] == (time * 60 + incr) * 1000,
            tc.clocks[1] == (time * 60 + incr) * 1000,
            tc.stage == 0,
            tc.incr == incr,
            tc.last_click == now,
            tc.well_formed(),
    {
        let duration = (time * 60 + incr) * 1000;
        TimeControl { clocks: [duration, duration], stage: 0, incr, last_click: now }
    }

    /// Create a new time control, started now.
    pub fn new(time: i64, incr: i64) -> (tc: Self)
        requires
            -MAX_DELTA_SECS <= time * 60 + incr <= MAX_DELTA_SECS,
            -MAX_DELTA_SECS <= incr <= MAX_DELTA_SECS,
        ensures
            tc.clocks[0] == (time * 60 + incr) * 1000,
            tc.clocks[1] == (time * 60 + incr) * 1000,
            tc.stage == 0,
            tc.incr == incr,
            tc.well_formed(),
    {
        let now = utc_now_millis();
        Self::new_at(time, incr, now)
    }

    /// Ten minutes with five seconds of increment.
    pub fn default() -> (tc: Self)
        ensures
            tc.clocks[0] == 605_000,
            tc.clocks[1] == 605_000,
            tc.stage == 0,
            tc.incr == 5,
            tc.well_formed(),
    {
        Self::new(10, 5)
    }

    /// Update to current stage, restarting the clock at `now`.
    pub fn update_stage_at(&mut self, stage: u8, now: i64)
        ensures
            *final(self) == (TimeControl { stage, last_click: now, ..*old(self) }),
    {
        self.stage = stage;
        self.last_click = now;
    }

    /// Update to current stage.
    pub fn update_stage(&mut self, stage: u8)
        ensures
            final(self).stage == stage,
            final(self).clocks == old(self).clocks,
            final(self).incr == old(self).incr,
            -TIMESTAMP_BOUND < final(self).last_click < TIMESTAMP_BOUND,
    {
        let now = utc_now_millis();
        self.update_stage_at(stage, now);
    }

    /// Time left to `color` at instant `now` (`None` when it ran out).
    pub fn current_duration_at(&self, color: usize, now: i64) -> (d: Option<i64>)
        requires
            color < 2,
            self.well_formed(),
            -TIMESTAMP_BOUND < now < TIMESTAMP_BOUND,
        ensures
            d == (match self.duration_at(color as int, now as int) {
                Some(v) => Some(v as i64),
                None => None::<i64>,
            }),
    {
        let elapsed = now - self.last_click;
        let clock = self.clocks[color];
        if clock >= 0 && elapsed < 0 && clock > MAX_DELTA_MS + elapsed {
            return None;
        }
        if clock < 0 && elapsed > 0 && clock < -MAX_DELTA_MS + elapsed {
            return None;
        }
        let duration = clock - elapsed;
        if duration <= -1000 {
            return None;
        }
        Some(duration)
    }

    /// Time left to `color` now.
    pub fn current_duration(&self, color: usize) -> (d: Option<i64>)
        requires
            color < 2,
            self.well_formed(),
        ensures
            exists|now: int|
                -TIMESTAMP_BOUND < now < TIMESTAMP_BOUND && d == (match #[trigger] self.duration_at(
                    color as int,
                    now,
                ) {
                    Some(v) => Some(v as i64),
                    None => None::<i64>,
                }),
    {
        let now = utc_now_millis();
        self.current_duration_at(color, now)
    }

    /// Click on the clock of `color` at instant `now`. When its time has not run out,
    /// the increment is added, the clock restarts and both clocks come back in
    /// milliseconds (cast as `u64`). For the shop both can click.
    pub fn click_at(&mut self, color: usize, now: i64) -> (ms: Option<[u64; 2]>)
        requires
            color < 2,
            old(self).click_safe(),
            -TIMESTAMP_BOUND < now < TIMESTAMP_BOUND,
        ensures
            match old(self).duration_at(color as int, now as int) {
                Some(d) => {
                    &&& *final(self) == old(self).after_click(color as int, d, now as int)
                    &&& ms == Some([final(self).clocks[0] as u64, final(self).clocks[1] as u64])
                },
                None => *final(self) == *old(self) && ms == None::<[u64; 2]>,
            },
            final(self).well_formed(),
    {
        match self.current_duration_at(color, now) {
            Some(duration) => {
                self.update_last_click_at(color, duration, now);
                Some([self.clocks[0] as u64, self.clocks[1] as u64])
            },
            None => None,
        }
    }

    /// Click on the clock of `color` now.
    pub fn click(&mut self, color: usize) -> (ms: Option<[u64; 2]>)
        requires
            color < 2,
            old(self).click_safe(),
        ensures
            exists|now: int|
                -TIMESTAMP_BOUND < now < TIMESTAMP_BOUND && match #[trigger] old(self).duration_at(
                    color as int,
                    now,
                ) {
                    Some(d) => {
                        &&& *final(self) == old(self).after_click(color as int, d, now)
                        &&& ms == Some(
                            [final(self).clocks[0] as u64, final(self).clocks[1] as u64],
                        )
                    },
                    None => *final(self) == *old(self) && ms == None::<[u64; 2]>,
                },
            final(self).well_formed(),
    {
        let now = utc_now_millis();
        self.click_at(color, now)
    }

    /// Add the increment to the clock of `color`, whose remaining time is `current`.
    fn update_last_click_at(&mut self, color: usize, current: i64, now: i64)
        requires
            color < 2,
            old(self).click_safe(),
            -1000 < current <= old(self).clocks[color as int] + 2 * TIMESTAMP_BOUND,
            -TIMESTAMP_BOUND < now < TIMESTAMP_BOUND,
        ensures
            *final(self) == old(self).after_click(color as int, current as int, now as int),
            final(self).well_formed(),
    {
        if self.incr == 0 && self.stage == 0 {
            return ;
        }
        let duration = current + self.incr * 1000;
        if color == 0 {
            self.clocks = [duration, self.clocks[1]];
        } else {
            self.clocks = [self.clocks[0], duration];
        }
        self.last_click = now;
    }

    /// Whether the clock holds values that chrono can hold.
    pub fn is_well_formed(&self) -> (r: bool)
        ensures
            r == self.well_formed(),
    {
        let t = self.last_click as i128;
        let c0 = self.clocks[0] as i128;
        let c1 = self.clocks[1] as i128;
        let bound = TIMESTAMP_BOUND as i128;
        let max = MAX_DELTA_MS as i128;
        -bound < t && t < bound && -max <= c0 && c0 <= max && -max <= c1 && c1 <= max
            && -MAX_DELTA_SECS <= self.incr && self.incr <= MAX_DELTA_SECS
    }

    /// Whether a click cannot overflow a clock, whatever the time.
    pub fn is_click_safe(&self) -> (r: bool)
        ensures
            r == self.click_safe(),
    {
        if !self.is_well_formed() {
            return false;
        }
        let incr_ms = self.incr as i128 * 1000;
        let margin = 2 * TIMESTAMP_BOUND as i128 + incr_ms;
        let max = MAX_DELTA_MS as i128;
        -max + 1000 <= incr_ms && self.clocks[0] as i128 + margin <= max && self.clocks[1] as i128 + margin <= max
    }

    /// The increment as milliseconds.
    pub fn incr_ms(&self) -> (ms: i64)
        requires
            -MAX_DELTA_SECS <= self.incr <= MAX_DELTA_SECS,
        ensures
            ms == self.incr * 1000,
    {
        self.incr * 1000
    }
}

/// Result of a check of the clocks of one game: whether it is over, who lost
/// on time, whether both lost, the game and whether the game is still live.
pub struct TimeCheck {
    pub finished: bool,
    pub lost: usize,
    pub both_lost: bool,
    pub id: String,
    pub exist: bool,
}

impl TimeCheck {
    pub fn new(id: &str) -> (t: Self)
        ensures
            !t.finished,
            t.lost == 0,
            !t.both_lost,
            t.id@ == id@,
            t.exist,
    {
        TimeCheck { finished: false, lost: 0, both_lost: false, id: id.to_owned(), exist: true }
    }

    pub fn finished(&mut self)
        ensures
            *final(self) == (TimeCheck { finished: true, ..*old(self) }),
    {
        self.finished = true;
    }

    pub fn both_lost(&mut self)
        ensures
            *final(self) == (TimeCheck { both_lost: true, finished: true, ..*old(self) }),
    {
        self.both_lost = true;
        self.finished();
    }

    pub fn lost(&mut self, index: usize)
        ensures
            *final(self) == (TimeCheck { lost: index, finished: true, ..*old(self) }),
    {
        self.lost = index;
        self.finished();
    }

    pub fn dont_exist(&mut self)
        ensures
            *final(self) == (TimeCheck { exist: false, ..*old(self) }),
    {
        self.exist = false;
    }
}

/// A click changes only the clock of the side that clicked, which gets what it
/// had left plus the increment; the other clock keeps its time.
pub proof fn click_touches_one_clock(tc: TimeControl, color: int, d: int, now: int)
    requires
        0 <= color < 2,
        !(tc.incr == 0 && tc.stage == 0),
    ensures
        tc.after_click(color, d, now).clocks[1 - color] == tc.clocks[1 - color],
        tc.after_click(color, d, now).clocks[color] == (d + tc.incr * 1000) as i64,
        tc.after_click(color, d, now).last_click == now as i64,
        tc.after_click(color, d, now).stage == tc.stage,
        tc.after_click(color, d, now).incr == tc.incr,
{
}

/// The time left to a side is its clock less the time since the last click; the
/// side still has time while that is overdrawn by less than a whole second, and
/// once it has run out it stays out at every later instant.
pub proof fn time_left_is_clock_minus_elapsed(tc: TimeControl, color: int, now: int, later: int)
    requires
        0 <= color < 2,
        is_delta(tc.clocks[color] - (now - tc.last_click)),
        is_delta(tc.clocks[color] - (later - tc.last_click)),
    ensures
        tc.clocks[color] - (now - tc.last_click) > -1000 ==> tc.duration_at(color, now) == Some(
            tc.clocks[color] - (now - tc.last_click),
        ),
        tc.clocks[color] - (now - tc.last_click) <= -1000 ==> tc.duration_at(color, now) is None,
        now <= later && tc.duration_at(color, now) is None ==> tc.duration_at(color, later) is None,
{
}

} // verus!
