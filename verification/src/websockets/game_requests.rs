use vstd::prelude::*;
use vstd::string::*;

use crate::chance::random_bool;
use crate::names::{find_key, has_key, key_map, key_pos, keys_distinct, put_key, remove_key};
use crate::text::str_eq;

verus! {

/// The variants that can be played.
pub open spec fn known_variant(v: Seq<char>) -> bool {
    v == "shuuro"@ || v == "shuuroFairy"@ || v == "standard"@ || v == "standardFairy"@
}

/// The times (in minutes) and increments (in seconds) that can be chosen.
pub open spec fn in_duration_range(t: int) -> bool {
    (1 <= t <= 20) || t == 25 || t == 30 || t == 35 || t == 40 || t == 45 || t == 60 || t == 75
        || t == 90
}

/// The lobby offers games of 1 to 20 minutes and of 25, 30, 35, 40, 45, 60, 75
/// and 90 minutes: exactly these 28 durations.
pub proof fn offered_durations()
    ensures
        Set::new(|t: int| in_duration_range(t)) == set![
            1int, 2, 3, 4, 5, 6, 7, 8, 9, 10, 11, 12, 13, 14, 15, 16, 17, 18, 19, 20,
            25, 30, 35, 40, 45, 60, 75, 90,
        ],
{
    assert(Set::new(|t: int| in_duration_range(t)) =~= set![
        1int, 2, 3, 4, 5, 6, 7, 8, 9, 10, 11, 12, 13, 14, 15, 16, 17, 18, 19, 20,
        25, 30, 35, 40, 45, 60, 75, 90,
    ]);
}

/// Requests are made for four variants only: "shuuro", "shuuroFairy",
/// "standard" and "standardFairy".
pub proof fn known_variants()
    ensures
        Set::new(|v: Seq<char>| known_variant(v)) == set!["shuuro"@, "shuuroFairy"@, "standard"@, "standardFairy"@],
{
    assert(Set::new(|v: Seq<char>| known_variant(v)) =~= set!["shuuro"@, "shuuroFairy"@, "standard"@, "standardFairy"@]);
}

/// Whether `variant` names a known variant.
pub fn is_known_variant(variant: &str) -> (r: bool)
    ensures
        r == known_variant(variant@),
{
    str_eq(variant, "shuuro") || str_eq(variant, "shuuroFairy") || str_eq(variant, "standard")
        || str_eq(variant, "standardFairy")
}

/// Whether `t` is one of the durations offered.
pub fn duration_allowed(t: i64) -> (r: bool)
    ensures
        r == in_duration_range(t as int),
{
    (1 <= t && t <= 20) || t == 25 || t == 30 || t == 35 || t == 40 || t == 45 || t == 60 || t == 75
        || t == 90
}

/// A game offered in the lobby by `username`. `sub_variant` is the index of the
/// sub-variant, when one was chosen.
pub struct GameRequest {
    pub username: String,
    pub variant: String,
    pub time: i64,
    pub incr: i64,
    pub sub_variant: Option<u8>,
    pub color: String,
}

impl Clone for GameRequest {
    fn clone(&self) -> (c: Self)
        ensures
            c == *self,
    {
        GameRequest {
            username: self.username.clone(),
            variant: self.variant.clone(),
            time: self.time,
            incr: self.incr,
            sub_variant: self.sub_variant,
            color: self.color.clone(),
        }
    }
}

impl GameRequest {
    /// Known variant, a time from the range and an increment from the range or zero.
    pub open spec fn valid(&self) -> bool {
        &&& known_variant(self.variant@)
        &&& in_duration_range(self.time as int)
        &&& (in_duration_range(self.incr as int) || self.incr == 0)
    }

    /// The players (white first) when `other` accepts and the coin came up `coin`.
    /// Only a random colour that comes up white puts the requester first.
    pub open spec fn colors_for(&self, other: Seq<char>, coin: bool) -> (Seq<char>, Seq<char>) {
        if self.color@ == "random"@ && coin {
            (self.username@, other)
        } else {
            (other, self.username@)
        }
    }

    /// Return true if game has valid time.
    pub fn is_valid(&self) -> (r: bool)
        ensures
            r == self.valid(),
    {
        if is_known_variant(self.variant.as_str()) && duration_allowed(self.time) && (
        duration_allowed(self.incr) || self.incr == 0) {
            return true;
        }
        false
    }

    /// Return id for game
    pub fn username(&self) -> (u: String)
        ensures
            u@ == self.username@,
    {
        self.username.clone()
    }

    /// Players as [white, black] given the outcome of the coin.
    pub fn colors_with(&self, other: &String, coin: bool) -> (players: [String; 2])
        ensures
            players[0]@ == self.colors_for(other@, coin).0,
            players[1]@ == self.colors_for(other@, coin).1,
    {
        let random = str_eq(self.color.as_str(), "random");
        if random && coin {
            [self.username.clone(), other.clone()]
        } else {
            [other.clone(), self.username.clone()]
        }
    }

    /// Returns player colors, tossing a coin for a random colour.
    pub fn colors(&self, other: &String) -> (players: [String; 2])
        ensures
            exists|coin: bool|
                players[0]@ == (#[trigger] self.colors_for(other@, coin)).0 && players[1]@
                    == self.colors_for(other@, coin).1,
    {
        let random = str_eq(self.color.as_str(), "random");
        let coin = if random {
            self.random_color()
        } else {
            false
        };
        self.colors_with(other, coin)
    }

    /// Toss a coin for a random colour: `true` is white.
    fn random_color(&self) -> (white: bool) {
        random_bool()
    }
}

/// Game requests of the lobby, at most one per user.
pub struct GameReqs {
    all: Vec<(String, GameRequest)>,
}

impl GameReqs {
    pub closed spec fn well_formed(&self) -> bool {
        &&& keys_distinct(self.all@)
        &&& forall|i: int| 0 <= i < self.all@.len() ==> #[trigger] self.all@[i].0@ == self.all@[i].1.username@
    }

    /// The requests, by the name of the user who made them.
    pub closed spec fn requests(&self) -> Map<Seq<char>, GameRequest> {
        key_map(self.all@)
    }

    /// The requests are finitely many, and each is stored under its user's name.
    pub proof fn lemma_requests_finite(&self)
        requires
            self.well_formed(),
        ensures
            self.requests().dom().finite(),
            forall|u: Seq<char>| #[trigger] self.requests().contains_key(u) ==> self.requests()[u].username@ == u,
    {
        crate::names::lemma_key_map_len(self.all@);
        vstd::seq_lib::seq_to_set_is_finite(crate::names::key_views(self.all@));
        assert forall|u: Seq<char>| #[trigger] self.requests().contains_key(u) implies self.requests()[u].username@ == u by {
            let k = key_pos(self.all@, u);
            assert(self.all@[k].0@ == self.all@[k].1.username@);
        }
    }

    pub fn default() -> (g: Self)
        ensures
            g.well_formed(),
            g.requests() == Map::<Seq<char>, GameRequest>::empty(),
    {
        let g = GameReqs { all: Vec::new() };
        assert(key_map(g.all@) =~= Map::<Seq<char>, GameRequest>::empty());
        g
    }

    /// Add a valid request of a user who has none yet; returns the stored request.
    pub fn add(&mut self, game: GameRequest) -> (r: Option<GameRequest>)
        requires
            old(self).well_formed(),
        ensures
            final(self).well_formed(),
            (!old(self).requests().contains_key(game.username@) && game.valid()) ==> {
                &&& final(self).requests() == old(self).requests().insert(game.username@, game)
                &&& r == Some(game)
            },
            !(!old(self).requests().contains_key(game.username@) && game.valid()) ==> {
                &&& final(self).requests() == old(self).requests()
                &&& r is None
            },
    {
        if find_key(&self.all, game.username.as_str()).is_none() && game.is_valid() {
            let stored = game.clone();
            let ghost before = self.all@;
            put_key(&mut self.all, game.username.as_str(), stored);
            proof {
                assert forall|i: int| 0 <= i < self.all@.len() implies #[trigger] self.all@[i].0@
                    == self.all@[i].1.username@ by {
                    let id = self.all@[i].0@;
                    crate::names::lemma_key_pos(self.all@, i);
                    if id != game.username@ {
                        assert(has_key(before, id));
                        let k = key_pos(before, id);
                        assert(before[k].0@ == before[k].1.username@);
                    }
                }
                assert(key_map(self.all@) =~= key_map(before).insert(game.username@, game));
            }
            return Some(game);
        }
        None
    }

    /// Remove the request of `username`; returns it.
    pub fn remove(&mut self, username: &String) -> (r: Option<GameRequest>)
        requires
            old(self).well_formed(),
        ensures
            final(self).well_formed(),
            final(self).requests() == old(self).requests().remove(username@),
            match r {
                Some(g) => old(self).requests().contains_key(username@) && g == old(self).requests()[username@],
                None => !old(self).requests().contains_key(username@),
            },
    {
        let ghost before = self.all@;
        let removed = remove_key(&mut self.all, username.as_str());
        proof {
            assert forall|i: int| 0 <= i < self.all@.len() implies #[trigger] self.all@[i].0@
                == self.all@[i].1.username@ by {
                let id = self.all@[i].0@;
                crate::names::lemma_key_pos(self.all@, i);
                assert(has_key(before, id));
                let k = key_pos(before, id);
                assert(before[k].0@ == before[k].1.username@);
            }
            assert(key_map(self.all@) =~= key_map(before).remove(username@));
        }
        match removed {
            Some(e) => Some(e.1),
            None => None,
        }
    }

    /// All game requests.
    pub fn get_all(&self) -> (g: Vec<GameRequest>)
        requires
            self.well_formed(),
        ensures
            g@.len() == self.requests().len(),
            forall|i: int| 0 <= i < g@.len() ==> self.requests().contains_key(#[trigger] g@[i].username@)
                && self.requests()[g@[i].username@] == g@[i],
            forall|u: Seq<char>| self.requests().contains_key(u) ==> exists|i: int| 0 <= i < g@.len() && #[trigger] g@[i].username@ == u,
            forall|i: int, j: int| 0 <= i < j < g@.len() ==> #[trigger] g@[i].username@ != #[trigger] g@[j].username@,
            self.requests().dom().finite(),
    {
        let mut g: Vec<GameRequest> = Vec::new();
        let mut i: usize = 0;
        while i < self.all.len()
            invariant
                self.well_formed(),
                i <= self.all@.len(),
                g@ == self.all@.subrange(0, i as int).map_values(|e: (String, GameRequest)| e.1),
            decreases self.all@.len() - i,
        {
            g.push(self.all[i].1.clone());
            assert(g@ =~= self.all@.subrange(0, i + 1).map_values(|e: (String, GameRequest)| e.1));
            i = i + 1;
        }
        proof {
            assert(self.all@.subrange(0, i as int) =~= self.all@);
            assert forall|k: int| 0 <= k < g@.len() implies self.requests().contains_key(#[trigger] g@[k].username@)
                && self.requests()[g@[k].username@] == g@[k] by {
                crate::names::lemma_key_pos(self.all@, k);
                assert(self.all@[k].0@ == self.all@[k].1.username@);
            }
            assert forall|u: Seq<char>| self.requests().contains_key(u) implies exists|k: int| 0 <= k < g@.len() && #[trigger] g@[k].username@ == u by {
                let k = key_pos(self.all@, u);
                assert(self.all@[k].0@ == self.all@[k].1.username@);
                assert(g@[k].username@ == u);
            }
            crate::names::lemma_key_map_len(self.all@);
            self.lemma_requests_finite();
            assert forall|a: int, b: int| 0 <= a < b < g@.len() implies #[trigger] g@[a].username@ != #[trigger] g@[b].username@ by {
                assert(self.all@[a].0@ == self.all@[a].1.username@);
                assert(self.all@[b].0@ == self.all@[b].1.username@);
                assert(crate::names::key_views(self.all@)[a] == self.all@[a].0@);
                assert(crate::names::key_views(self.all@)[b] == self.all@[b].0@);
            }
        }
        g
    }
}

/// Every stored request is filed under the name of the user who made it, so
/// no user has two.
pub proof fn one_request_per_user(reqs: &GameReqs, user: Seq<char>)
    requires
        reqs.well_formed(),
        reqs.requests().contains_key(user),
    ensures
        reqs.requests()[user].username@ == user,
{
    let k = key_pos(reqs.all@, user);
    crate::names::lemma_key_pos(reqs.all@, k);
    assert(reqs.all@[k].0@ == reqs.all@[k].1.username@);
}

/// Adding a request of a user who had none and then removing that user's
/// request gives back the request and leaves the lobby as it was.
pub proof fn request_round_trip(
    before: Map<Seq<char>, GameRequest>,
    added: Map<Seq<char>, GameRequest>,
    removed: Map<Seq<char>, GameRequest>,
    game: GameRequest,
)
    requires
        !before.contains_key(game.username@),
        added == before.insert(game.username@, game),
        removed == added.remove(game.username@),
    ensures
        removed == before,
        added.contains_key(game.username@),
        added[game.username@] == game,
{
    assert(before.insert(game.username@, game).remove(game.username@) =~= before);
}

/// The two players of a new game are the requester and the user who accepts,
/// one on each side; a request without a random colour gives white to the
/// user who accepts.
pub proof fn colors_are_the_two_users(req: GameRequest, other: Seq<char>, coin: bool)
    ensures
        req.colors_for(other, coin) == (req.username@, other) || req.colors_for(other, coin) == (
        other, req.username@),
        req.color@ != "random"@ ==> req.colors_for(other, coin) == (other, req.username@),
{
}

} // verus!
