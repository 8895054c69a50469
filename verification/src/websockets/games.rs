use vstd::prelude::*;

use crate::database::mongo::{GameView, ShuuroGame};
use crate::names::{key_views, keys_distinct, views};
use crate::text::{contains_str, has_substring};
use crate::websockets::client_messages::GameGet;
use crate::websockets::live_game::{LiveGames, TV_GAMES};

verus! {

/// The id and players of a game on TV, with its position and variant.
pub struct TvGame {
    pub game_id: String,
    pub w: String,
    pub b: String,
    pub sfen: String,
    pub variant: String,
}

impl TvGame {
    pub fn new(game_id: &str, w: &str, b: &str, fen: &str, variant: String) -> (t: Self)
        ensures
            t.game_id@ == game_id@,
            t.w@ == w@,
            t.b@ == b@,
            t.sfen@ == fen@,
            t.variant == variant,
    {
        TvGame {
            game_id: game_id.to_owned(),
            w: w.to_owned(),
            b: b.to_owned(),
            sfen: fen.to_owned(),
            variant,
        }
    }
}

/// Games of a variant named with "shuuro" are played on the 12x12 board, the
/// others on the 8x8 board.
pub open spec fn on_board12(variant: Seq<char>) -> bool {
    has_substring(variant, "shuuro"@)
}

/// Whether `variant` is played on the 12x12 board.
pub fn is_board12(variant: &str) -> (r: bool)
    ensures
        r == on_board12(variant@),
{
    contains_str(variant, "shuuro")
}

/// The live games of both boards.
pub struct ShuuroGames {
    pub live_games8: LiveGames,
    pub live_games12: LiveGames,
}

impl ShuuroGames {
    pub open spec fn well_formed(&self) -> bool {
        self.live_games8.well_formed() && self.live_games12.well_formed()
    }

    /// The live games of the board that plays `variant`.
    pub open spec fn board_of(&self, variant: Seq<char>) -> LiveGames {
        if on_board12(variant) {
            self.live_games12
        } else {
            self.live_games8
        }
    }

    pub fn default() -> (g: Self)
        ensures
            g.well_formed(),
            g.live_games8.games() == Map::<Seq<char>, GameView>::empty(),
            g.live_games12.games() == Map::<Seq<char>, GameView>::empty(),
    {
        ShuuroGames { live_games8: LiveGames::default(), live_games12: LiveGames::default() }
    }

    /// The live games of the board that plays `variant`.
    pub fn board(&self, variant: &str) -> (b: &LiveGames)
        ensures
            *b == self.board_of(variant@),
    {
        if is_board12(variant) {
            &self.live_games12
        } else {
            &self.live_games8
        }
    }

    /// The live games of the board that plays `variant`, to change them.
    pub fn board_mut(&mut self, variant: &str) -> (b: &mut LiveGames)
        ensures
            *b == old(self).board_of(variant@),
            on_board12(variant@) ==> final(self).live_games12 == *final(b) && final(self).live_games8
                == old(self).live_games8,
            !on_board12(variant@) ==> final(self).live_games8 == *final(b) && final(self).live_games12
                == old(self).live_games12,
    {
        if is_board12(variant) {
            &mut self.live_games12
        } else {
            &mut self.live_games8
        }
    }

    /// Add a new game to the board of its variant; returns the number of games
    /// there.
    pub fn add_game(&mut self, game: ShuuroGame) -> (count: usize)
        requires
            old(self).well_formed(),
        ensures
            final(self).well_formed(),
            final(self).board_of(game.variant@).games() == old(self).board_of(game.variant@).games().insert(
                game._id@,
                game@,
            ),
            count == final(self).board_of(game.variant@).games().len(),
            on_board12(game.variant@) ==> final(self).live_games8 == old(self).live_games8,
            !on_board12(game.variant@) ==> final(self).live_games12 == old(self).live_games12,
    {
        if is_board12(game.variant.as_str()) {
            self.live_games12.add_game(game)
        } else {
            self.live_games8.add_game(game)
        }
    }

    /// Remove a finished game; returns it, to be saved.
    pub fn remove_game(&mut self, json: &GameGet) -> (r: Option<ShuuroGame>)
        requires
            old(self).well_formed(),
        ensures
            final(self).well_formed(),
            final(self).board_of(json.variant@).games() == old(self).board_of(json.variant@).games().remove(json.game_id@),
            match r {
                Some(g) => old(self).board_of(json.variant@).games().contains_key(json.game_id@)
                    && g@ == old(self).board_of(json.variant@).games()[json.game_id@],
                None => !old(self).board_of(json.variant@).games().contains_key(json.game_id@),
            },
            on_board12(json.variant@) ==> final(self).live_games8 == old(self).live_games8,
            !on_board12(json.variant@) ==> final(self).live_games12 == old(self).live_games12,
    {
        if is_board12(json.variant.as_str()) {
            self.live_games12.remove_game(&json.game_id)
        } else {
            self.live_games8.remove_game(&json.game_id)
        }
    }

    /// Count all games.
    pub fn game_count(&self) -> (count: usize)
        requires
            self.well_formed(),
            self.live_games8.games().len() + self.live_games12.games().len() <= usize::MAX,
        ensures
            count == self.live_games8.games().len() + self.live_games12.games().len(),
    {
        let first = self.live_games8.game_count();
        let second = self.live_games12.game_count();
        first + second
    }

    /// Load games from the database: the first list goes to the 8x8 board,
    /// every later one replaces the games of the 12x12 board.
    pub fn load_unfinished(&mut self, games: Vec<Vec<(String, ShuuroGame)>>)
        requires
            forall|i: int| 0 <= i < games@.len() ==> keys_distinct(#[trigger] games@[i]@),
        ensures
            games@.len() == 0 ==> *final(self) == *old(self),
            games@.len() >= 1 ==> final(self).live_games8.well_formed() && final(self).live_games8.unfinished_ids() == key_views(games@[0]@),
            games@.len() == 1 ==> final(self).live_games12 == old(self).live_games12,
            games@.len() >= 2 ==> final(self).live_games12.well_formed() && final(self).live_games12.unfinished_ids() == key_views(games@.last()@),
    {
        let mut i: usize = 0;
        let ghost first_games = self.live_games8;
        while i < games.len()
            invariant
                forall|k: int| 0 <= k < games@.len() ==> keys_distinct(#[trigger] games@[k]@),
                i <= games@.len(),
                i == 0 ==> *self == *old(self),
                i >= 1 ==> self.live_games8.well_formed() && self.live_games8.unfinished_ids() == key_views(games@[0]@),
                i == 1 ==> self.live_games12 == old(self).live_games12,
                i >= 2 ==> self.live_games12.well_formed() && self.live_games12.unfinished_ids() == key_views(games@[i - 1]@),
            decreases games@.len() - i,
        {
            let g = copy_games(&games[i]);
            if i == 0 {
                self.live_games8.load_unfinished(g);
            } else {
                self.live_games12.load_unfinished(g);
            }
            i = i + 1;
        }
    }

    /// Ids of the games loaded unfinished, per board.
    pub fn get_unfinished(&self) -> (ids: [Vec<String>; 2])
        ensures
            views(ids[0]@) == self.live_games8.unfinished_ids(),
            views(ids[1]@) == self.live_games12.unfinished_ids(),
    {
        [self.live_games8.get_unfinished(), self.live_games12.get_unfinished()]
    }

    pub fn delete_unfinished(&mut self)
        ensures
            final(self).live_games8.unfinished_ids() == Seq::<Seq<char>>::empty(),
            final(self).live_games12.unfinished_ids() == Seq::<Seq<char>>::empty(),
            final(self).live_games8.games() == old(self).live_games8.games(),
            final(self).live_games12.games() == old(self).live_games12.games(),
            final(self).well_formed() == old(self).well_formed(),
    {
        self.live_games8.del_unfinished();
        self.live_games12.del_unfinished();
    }

    /// The record of a game: looked up on the board of the variant, then on the
    /// 8x8 board.
    pub fn get_game(&self, json: &GameGet) -> (r: Option<ShuuroGame>)
        requires
            self.well_formed(),
        ensures
            self.board_of(json.variant@).games().contains_key(json.game_id@) ==> (r matches Some(g)
                && g@ == self.board_of(json.variant@).games()[json.game_id@]),
            !self.board_of(json.variant@).games().contains_key(json.game_id@) ==> match self.live_games8.games().get(json.game_id@) {
                Some(g) => r matches Some(x) && x@ == g,
                None => r is None,
            },
    {
        if let Some(game) = self.board(json.variant.as_str()).get_game(&json.game_id) {
            return Some(game);
        }
        self.live_games8.get_game(&json.game_id)
    }

    /// Players of a game.
    pub fn get_players(&self, json: &GameGet) -> (r: Option<[String; 2]>)
        requires
            self.well_formed(),
        ensures
            match self.board_of(json.variant@).games().get(json.game_id@) {
                Some(g) => r matches Some(p) && p[0]@ == g.players.0 && p[1]@ == g.players.1,
                None => r is None,
            },
    {
        self.board(json.variant.as_str()).get_players(&json.game_id)
    }

    /// Stage and position of a game.
    pub fn live_sfen(&self, json: &GameGet) -> (r: Option<(u8, String)>)
        requires
            self.well_formed(),
        ensures
            match self.board_of(json.variant@).games().get(json.game_id@) {
                Some(g) => r matches Some((stage, sfen)) && stage == g.current_stage && sfen@ == g.sfen,
                None => r is None,
            },
    {
        self.board(json.variant.as_str()).live_sfen(&json.game_id)
    }

    /// Games for TV: those of the 8x8 board, then those of the 12x12 board.
    pub fn get_tv(&self) -> (all: Vec<TvGame>)
        requires
            self.well_formed(),
        ensures
            all@.len() <= 2 * TV_GAMES,
            forall|k: int| 0 <= k < all@.len() ==> self.live_games8.on_tv(#[trigger] all@[k]) || self.live_games12.on_tv(all@[k]),
            exists|n: int|
                0 <= n <= all@.len() && #[trigger] self.live_games8.tv_list(all@.subrange(0, n))
                    && self.live_games12.tv_list(all@.subrange(n, all@.len() as int)),
    {
        let mut all8 = self.live_games8.get_tv();
        let mut all12 = self.live_games12.get_tv();
        let ghost a8 = all8@;
        let ghost a12 = all12@;
        all8.append(&mut all12);
        proof {
            assert forall|k: int| 0 <= k < all8@.len() implies self.live_games8.on_tv(#[trigger] all8@[k]) || self.live_games12.on_tv(all8@[k]) by {
                if k < a8.len() {
                    assert(all8@[k] == a8[k]);
                } else {
                    assert(all8@[k] == a12[k - a8.len()]);
                }
            }
            assert(all8@.subrange(0, a8.len() as int) =~= a8);
            assert(all8@.subrange(a8.len() as int, all8@.len() as int) =~= a12);
            assert(self.live_games8.tv_list(all8@.subrange(0, a8.len() as int)));
            assert(self.live_games12.tv_list(all8@.subrange(a8.len() as int, all8@.len() as int)));
        }
        all8
    }
}

/// Copy of a list of games with their ids.
pub fn copy_games(v: &Vec<(String, ShuuroGame)>) -> (c: Vec<(String, ShuuroGame)>)
    ensures
        key_views(c@) == key_views(v@),
        forall|k: int| 0 <= k < c@.len() ==> (#[trigger] c@[k]).1@ == v@[k].1@,
{
    let mut c: Vec<(String, ShuuroGame)> = Vec::new();
    let mut i: usize = 0;
    while i < v.len()
        invariant
            i <= v.len(),
            c@.len() == i,
            forall|k: int| 0 <= k < i ==> (#[trigger] c@[k]).0@ == v@[k].0@ && c@[k].1@ == v@[k].1@,
        decreases v.len() - i,
    {
        c.push((v[i].0.clone(), v[i].1.clone()));
        i = i + 1;
    }
    assert(key_views(c@) =~= key_views(v@));
    c
}

} // verus!
