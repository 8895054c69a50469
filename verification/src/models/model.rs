use vstd::prelude::*;
use vstd::string::*;

use crate::chance::random_bool;
use crate::clock::utc_hour_minute;
use crate::names::{find_key, has_key, key_pos, keys_distinct, lemma_key_pos, lemma_update_value_keys, put_key};
use crate::text::{push_two_digits, str_eq};
use crate::websockets::game_requests::in_duration_range;
use crate::websockets::rooms::clock_text;

verus! {

/// One chat line: room, author, time and text.
pub struct ChatItem {
    pub id: String,
    pub user: String,
    pub time: String,
    pub message: String,
}

impl Clone for ChatItem {
    fn clone(&self) -> (c: Self)
        ensures
            c == *self,
    {
        ChatItem {
            id: self.id.clone(),
            user: self.user.clone(),
            time: self.time.clone(),
            message: self.message.clone(),
        }
    }
}

impl ChatItem {
    pub fn date(&self) -> (d: String)
        ensures
            d@ == self.time@,
    {
        self.time.clone()
    }

    /// Sign the item with `user` and the time `hour:minute`.
    pub fn update_at(&mut self, user: &String, hour: u32, minute: u32)
        ensures
            final(self).user@ == user@,
            final(self).time@ == clock_text(hour as nat, minute as nat),
            final(self).id == old(self).id,
            final(self).message == old(self).message,
    {
        self.user = user.clone();
        let mut time = String::new();
        push_two_digits(&mut time, hour);
        time.append(":");
        push_two_digits(&mut time, minute);
        self.time = time;
    }

    /// Sign the item with `user` and the current time, in format HH:MM.
    pub fn update(&mut self, user: &String)
        ensures
            final(self).user@ == user@,
            exists|hour: nat, minute: nat|
                hour < 24 && minute < 60 && final(self).time@ == #[trigger] clock_text(hour, minute),
            final(self).id == old(self).id,
            final(self).message == old(self).message,
    {
        let (hour, minute) = utc_hour_minute();
        self.update_at(user, hour, minute);
    }
}

/// A connected player: whether registered, and its name.
pub struct ActivePlayer {
    reg: bool,
    username: String,
}

impl ActivePlayer {
    pub closed spec fn name(&self) -> Seq<char> {
        self.username@
    }

    pub closed spec fn registered(&self) -> bool {
        self.reg
    }

    pub fn new(reg: &bool, username: &String) -> (p: Self)
        ensures
            p.registered() == *reg,
            p.name() == username@,
    {
        ActivePlayer { reg: *reg, username: username.clone() }
    }

    pub fn username(&self) -> (u: String)
        ensures
            u@ == self.name(),
    {
        self.username.clone()
    }

    pub fn reg(&self) -> (r: bool)
        ensures
            r == self.registered(),
    {
        self.reg
    }
}

impl Clone for ActivePlayer {
    fn clone(&self) -> (c: Self)
        ensures
            c == *self,
    {
        ActivePlayer { reg: self.reg, username: self.username.clone() }
    }
}

/// Two active players are the same player when they have the same name.
impl PartialEq for ActivePlayer {
    fn eq(&self, other: &Self) -> (r: bool) {
        self.username == other.username
    }
}

impl vstd::std_specs::cmp::PartialEqSpecImpl for ActivePlayer {
    open spec fn obeys_eq_spec() -> bool {
        true
    }

    open spec fn eq_spec(&self, other: &ActivePlayer) -> bool {
        self.name() == other.name()
    }
}

/// Messages of a user in a chat.
pub open spec fn items_by(chat: Seq<ChatItem>, user: Seq<char>) -> nat
    decreases chat.len(),
{
    if chat.len() == 0 {
        0
    } else {
        items_by(chat.drop_last(), user) + if chat.last().user@ == user {
            1nat
        } else {
            0nat
        }
    }
}

/// A chat where nobody has more than five messages.
pub open spec fn items_within_limit(chat: Seq<ChatItem>) -> bool {
    forall|u: Seq<char>| #[trigger] items_by(chat, u) <= 5
}

/// Between 1 and 49 bytes, as `str::len` counts them.
pub open spec fn item_length_ok(m: ChatItem) -> bool {
    0 < (vstd::utf8::encode_utf8(m.message@).len() as usize) < 50
}

/// Chat rooms by id.
pub struct ChatRooms {
    rooms: Vec<(String, Vec<ChatItem>)>,
}

impl ChatRooms {
    pub closed spec fn well_formed(&self) -> bool {
        &&& keys_distinct(self.rooms@)
        &&& forall|i: int| 0 <= i < self.rooms@.len() ==> items_within_limit(#[trigger] self.rooms@[i].1@)
    }

    /// Messages of room `id`, when it exists.
    pub closed spec fn room(&self, id: Seq<char>) -> Option<Seq<ChatItem>> {
        if has_key(self.rooms@, id) {
            Some(self.rooms@[key_pos(self.rooms@, id)].1@)
        } else {
            None
        }
    }

    /// Creates ChatRooms, with "home" already inserted.
    pub fn new() -> (c: Self)
        ensures
            c.well_formed(),
            c.room("home"@) == Some(Seq::<ChatItem>::empty()),
            forall|id: Seq<char>| id != "home"@ ==> c.room(id) is None,
    {
        let mut rooms: Vec<(String, Vec<ChatItem>)> = Vec::new();
        rooms.push(("home".to_owned(), Vec::new()));
        let c = ChatRooms { rooms };
        proof {
            assert(c.rooms@[0].0@ == "home"@);
            lemma_key_pos(c.rooms@, 0);
            assert forall|u: Seq<char>| #[trigger] items_by(c.rooms@[0].1@, u) <= 5 by {}
            assert forall|id: Seq<char>| id != "home"@ implies c.room(id) is None by {
                if has_key(c.rooms@, id) {
                    let k = choose|k: int| 0 <= k < c.rooms@.len() && #[trigger] c.rooms@[k].0@ == id;
                    assert(k == 0);
                }
            }
        }
        c
    }

    /// Check if user can add new message: it is registered and has not yet
    /// written five messages.
    pub fn can_add(chat: &Vec<ChatItem>, player: &ActivePlayer) -> (r: bool)
        requires
            items_within_limit(chat@),
        ensures
            r == (player.registered() && items_by(chat@, player.name()) != 5),
    {
        let name = player.username();
        let mut count: usize = 0;
        let mut i: usize = 0;
        while i < chat.len()
            invariant
                i <= chat.len(),
                items_within_limit(chat@),
                name@ == player.name(),
                count == items_by(chat@.subrange(0, i as int), name@),
                count <= items_by(chat@, name@),
            decreases chat.len() - i,
        {
            proof {
                lemma_items_prefix(chat@, i + 1, name@);
            }
            if chat[i].user == name {
                count = count + 1;
            }
            i = i + 1;
        }
        assert(chat@.subrange(0, i as int) =~= chat@);
        if !player.reg() {
            return false;
        } else if count == 5 {
            return false;
        }
        true
    }

    /// Check if message length is in valid range.
    pub fn message_length(m: &ChatItem) -> (r: bool)
        ensures
            r == item_length_ok(*m),
    {
        let len = m.message.as_str().len();
        len > 0 && len < 50
    }

    /// Whether `m` from `player` goes into room `id`.
    pub open spec fn accepts(&self, id: Seq<char>, m: ChatItem, player: ActivePlayer) -> bool {
        &&& self.room(id) is Some
        &&& item_length_ok(m)
        &&& player.registered()
        &&& items_by(self.room(id)->0, player.name()) != 5
    }

    /// Add new message, signed at `hour:minute`, after checking it.
    pub fn add_msg_at(
        &mut self,
        id: &String,
        m: &mut ChatItem,
        player: &ActivePlayer,
        hour: u32,
        minute: u32,
    ) -> (r: Option<ChatItem>)
        requires
            old(self).well_formed(),
        ensures
            final(self).well_formed(),
            old(self).accepts(id@, *old(m), *player) ==> {
                &&& final(m).user@ == player.name()
                &&& final(m).time@ == clock_text(hour as nat, minute as nat)
                &&& final(m).id == old(m).id
                &&& final(m).message == old(m).message
                &&& final(self).room(id@) == Some(old(self).room(id@)->0.push(*final(m)))
                &&& forall|x: Seq<char>| x != id@ ==> final(self).room(x) == old(self).room(x)
                &&& r == Some(*final(m))
            },
            !old(self).accepts(id@, *old(m), *player) ==> {
                &&& *final(self) == *old(self)
                &&& *final(m) == *old(m)
                &&& r is None
            },
    {
        match find_key(&self.rooms, id.as_str()) {
            Some(i) => {
                if !ChatRooms::message_length(m) {
                    return None;
                }
                if !ChatRooms::can_add(&self.rooms[i].1, player) {
                    return None;
                }
                m.update_at(&player.username(), hour, minute);
                let stored = m.clone();
                let ghost before = self.rooms@;
                let entry = &mut self.rooms[i];
                entry.1.push(stored);
                proof {
                    let e = self.rooms@[i as int];
                    assert(self.rooms@ == before.update(i as int, e));
                    lemma_update_value_keys(before, i as int, e);
                    lemma_key_pos(before, i as int);
                    assert(e.1@.drop_last() =~= before[i as int].1@);
                    assert forall|u: Seq<char>| #[trigger] items_by(e.1@, u) <= 5 by {
                        assert(items_by(before[i as int].1@, u) <= 5);
                    }
                    assert forall|j: int| 0 <= j < self.rooms@.len() implies items_within_limit(
                        #[trigger] self.rooms@[j].1@,
                    ) by {
                        if j != i {
                            assert(self.rooms@[j] == before[j]);
                        }
                    }
                    assert forall|x: Seq<char>| x != id@ implies self.room(x) == old(self).room(x) by {
                        if has_key(before, x) {
                            let k = key_pos(before, x);
                            assert(k != i);
                            assert(self.rooms@[k] == before[k]);
                        }
                    }
                }
                Some(m.clone())
            },
            None => None,
        }
    }

    /// Add new message, signed now.
    pub fn add_msg(&mut self, id: &String, m: &mut ChatItem, player: &ActivePlayer) -> (r: Option<ChatItem>)
        requires
            old(self).well_formed(),
        ensures
            final(self).well_formed(),
            old(self).accepts(id@, *old(m), *player) ==> {
                &&& final(m).user@ == player.name()
                &&& final(m).id == old(m).id
                &&& final(m).message == old(m).message
                &&& final(self).room(id@) == Some(old(self).room(id@)->0.push(*final(m)))
                &&& forall|x: Seq<char>| x != id@ ==> final(self).room(x) == old(self).room(x)
                &&& r == Some(*final(m))
            },
            !old(self).accepts(id@, *old(m), *player) ==> {
                &&& *final(self) == *old(self)
                &&& *final(m) == *old(m)
                &&& r is None
            },
    {
        let (hour, minute) = utc_hour_minute();
        self.add_msg_at(id, m, player, hour, minute)
    }

    /// Returns entire chat room.
    pub fn chat(&self, id: &String) -> (r: Option<&Vec<ChatItem>>)
        requires
            self.well_formed(),
        ensures
            match self.room(id@) {
                Some(c) => r is Some && r->0@ == c,
                None => r is None,
            },
    {
        match find_key(&self.rooms, id.as_str()) {
            Some(i) => Some(&self.rooms[i].1),
            None => None,
        }
    }

    /// Insert new room (emptying it when it exists).
    pub fn add_room(&mut self, id: String)
        requires
            old(self).well_formed(),
        ensures
            final(self).well_formed(),
            final(self).room(id@) == Some(Seq::<ChatItem>::empty()),
            forall|x: Seq<char>| x != id@ ==> final(self).room(x) == old(self).room(x),
    {
        let ghost before = self.rooms@;
        put_key(&mut self.rooms, id.as_str(), Vec::new());
        proof {
            assert forall|i: int| 0 <= i < self.rooms@.len() implies items_within_limit(#[trigger] self.rooms@[i].1@) by {
                lemma_key_pos(self.rooms@, i);
                let x = self.rooms@[i].0@;
                if x != id@ {
                    assert(has_key(before, x));
                } else {
                    assert forall|u: Seq<char>| #[trigger] items_by(self.rooms@[i].1@, u) <= 5 by {}
                }
            }
        }
    }
}

/// Counting over a prefix grows one message at a time.
proof fn lemma_items_prefix(chat: Seq<ChatItem>, k: int, user: Seq<char>)
    requires
        0 < k <= chat.len(),
    ensures
        items_by(chat.subrange(0, k), user) == items_by(chat.subrange(0, k - 1), user) + if chat[k - 1].user@ == user {
            1nat
        } else {
            0nat
        },
        items_by(chat.subrange(0, k), user) <= items_by(chat, user),
    decreases chat.len() - k,
{
    assert(chat.subrange(0, k).drop_last() =~= chat.subrange(0, k - 1));
    if k < chat.len() {
        lemma_items_prefix(chat, k + 1, user);
    } else {
        assert(chat.subrange(0, k) =~= chat);
    }
}

/// The one variant of the lobby.
pub open spec fn lobby_variant(v: Seq<char>) -> bool {
    v == "shuuro12"@
}

/// A game offered in the lobby.
pub struct LobbyGame {
    username: String,
    variant: String,
    time: i64,
    incr: i64,
    color: String,
}

impl Clone for LobbyGame {
    fn clone(&self) -> (c: Self)
        ensures
            c == *self,
    {
        LobbyGame {
            username: self.username.clone(),
            variant: self.variant.clone(),
            time: self.time,
            incr: self.incr,
            color: self.color.clone(),
        }
    }
}

impl LobbyGame {
    pub closed spec fn owner(&self) -> Seq<char> {
        self.username@
    }

    pub closed spec fn color_choice(&self) -> Seq<char> {
        self.color@
    }

    pub closed spec fn valid(&self) -> bool {
        &&& lobby_variant(self.variant@)
        &&& in_duration_range(self.time as int)
        &&& (in_duration_range(self.incr as int) || self.incr == 0)
    }

    /// A lobby game with these fields.
    pub fn new(username: String, variant: String, time: i64, incr: i64, color: String) -> (g: Self)
        ensures
            g.owner() == username@,
            g.color_choice() == color@,
            g.valid() == (lobby_variant(variant@) && in_duration_range(time as int) && (
            in_duration_range(incr as int) || incr == 0)),
    {
        LobbyGame { username, variant, time, incr, color }
    }

    pub closed spec fn minutes(&self) -> i64 {
        self.time
    }

    pub closed spec fn variant_name(&self) -> Seq<char> {
        self.variant@
    }

    pub closed spec fn increment(&self) -> i64 {
        self.incr
    }

    /// Minutes of the game.
    pub fn time(&self) -> (t: i64)
        ensures
            t == self.minutes(),
    {
        self.time
    }

    /// Increment in seconds.
    pub fn incr(&self) -> (i: i64)
        ensures
            i == self.increment(),
    {
        self.incr
    }

    /// Return true if game has valid time.
    pub fn is_valid(&self) -> (r: bool)
        ensures
            r == self.valid(),
    {
        if str_eq(self.variant.as_str(), "shuuro12") {
            if crate::websockets::game_requests::duration_allowed(self.time) {
                if crate::websockets::game_requests::duration_allowed(self.incr) {
                    return true;
                } else if self.incr == 0 {
                    return true;
                }
            }
        }
        false
    }

    /// Return id for game
    pub fn username(&self) -> (u: String)
        ensures
            u@ == self.owner(),
    {
        self.username.clone()
    }

    /// The players (white first) when `other` accepts and the coin came up `coin`.
    pub open spec fn colors_for(&self, other: Seq<char>, coin: bool) -> (Seq<char>, Seq<char>) {
        if self.color_choice() == "white"@ || (self.color_choice() == "random"@ && coin) {
            (self.owner(), other)
        } else {
            (other, self.owner())
        }
    }

    /// Players as [white, black] given the outcome of the coin.
    pub fn colors_with(&mut self, other: &String, coin: bool) -> (players: [String; 2])
        ensures
            *final(self) == *old(self),
            players[0]@ == old(self).colors_for(other@, coin).0,
            players[1]@ == old(self).colors_for(other@, coin).1,
    {
        let random = str_eq(self.color.as_str(), "random");
        let white = str_eq(self.color.as_str(), "white");
        let me = self.username();
        let other = other.clone();
        if white || (random && coin) {
            [me, other]
        } else {
            [other, me]
        }
    }

    /// Returns player colors, tossing a coin for a random colour.
    pub fn colors(&mut self, other: &String) -> (players: [String; 2])
        ensures
            *final(self) == *old(self),
            exists|coin: bool|
                players[0]@ == (#[trigger] old(self).colors_for(other@, coin)).0 && players[1]@
                    == old(self).colors_for(other@, coin).1,
    {
        let random = str_eq(self.color.as_str(), "random");
        let coin = if random {
            self.random_color()
        } else {
            false
        };
        self.colors_with(other, coin)
    }

    pub fn color(&self) -> (c: &String)
        ensures
            c@ == self.color_choice(),
    {
        &self.color
    }

    /// Toss a coin: `true` is white.
    fn random_color(&self) -> (white: bool) {
        random_bool()
    }
}

/// Two lobby games are the same when the same user offers them.
impl PartialEq for LobbyGame {
    fn eq(&self, other: &LobbyGame) -> (r: bool) {
        self.username == other.username
    }
}

impl vstd::std_specs::cmp::PartialEqSpecImpl for LobbyGame {
    open spec fn obeys_eq_spec() -> bool {
        true
    }

    open spec fn eq_spec(&self, other: &LobbyGame) -> bool {
        self.owner() == other.owner()
    }
}

/// A game shown on TV.
pub struct TvGame {
    pub t: String,
    pub game_id: String,
    pub w: String,
    pub b: String,
    pub sfen: String,
}

impl TvGame {
    pub fn new(t: &str, game_id: &str, w: &str, b: &str, fen: &str) -> (g: Self)
        ensures
            g.t@ == t@,
            g.game_id@ == game_id@,
            g.w@ == w@,
            g.b@ == b@,
            g.sfen@ == fen@,
    {
        TvGame {
            t: t.to_owned(),
            game_id: game_id.to_owned(),
            w: w.to_owned(),
            b: b.to_owned(),
            sfen: fen.to_owned(),
        }
    }
}

/// Owners of the lobby games, in order.
pub open spec fn owners(s: Seq<LobbyGame>) -> Seq<Seq<char>> {
    s.map_values(|g: LobbyGame| g.owner())
}

/// Position of the first offer of `user` in `s`, if any.
pub open spec fn first_offer_index(s: Seq<LobbyGame>, user: Seq<char>) -> Option<int> {
    if owners(s).contains(user) {
        Some(choose|i: int| 0 <= i < s.len() && s[i].owner() == user && forall|j: int| 0 <= j < i ==> s[j].owner() != user)
    } else {
        None
    }
}

/// `s` without the first offer of `user` (unchanged when there is none).
pub open spec fn without_offer_of(s: Seq<LobbyGame>, user: Seq<char>) -> Seq<LobbyGame> {
    match first_offer_index(s, user) {
        Some(i) => s.remove(i),
        None => s,
    }
}

/// Games offered in the lobby, in order.
pub struct LobbyGames {
    all: Vec<LobbyGame>,
}

impl LobbyGames {
    pub closed spec fn games(&self) -> Seq<LobbyGame> {
        self.all@
    }

    pub fn default() -> (l: Self)
        ensures
            l.games() == Seq::<LobbyGame>::empty(),
    {
        LobbyGames { all: Vec::new() }
    }

    /// Position of the first game offered by `user`.
    fn position_of(&self, user: &String) -> (r: Option<usize>)
        ensures
            match r {
                Some(i) => i < self.games().len() && self.games()[i as int].owner() == user@
                    && forall|j: int| 0 <= j < i ==> self.games()[j].owner() != user@,
                None => !owners(self.games()).contains(user@),
            },
    {
        let mut i: usize = 0;
        while i < self.all.len()
            invariant
                i <= self.all@.len(),
                forall|j: int| 0 <= j < i ==> self.all@[j].owner() != user@,
            decreases self.all@.len() - i,
        {
            if self.all[i].username == *user {
                return Some(i);
            }
            i = i + 1;
        }
        proof {
            if owners(self.all@).contains(user@) {
                let j = choose|j: int| 0 <= j < owners(self.all@).len() && owners(self.all@)[j] == user@;
                assert(self.all@[j].owner() == user@);
            }
        }
        None
    }

    /// A game can be added when its user offers no other.
    pub fn can_add(&self, game: &LobbyGame) -> (r: bool)
        ensures
            r == !owners(self.games()).contains(game.owner()),
    {
        match self.position_of(&game.username) {
            Some(i) => {
                assert(owners(self.all@)[i as int] == game.owner());
                false
            },
            None => true,
        }
    }

    pub fn add(&mut self, game: LobbyGame)
        ensures
            final(self).games() == old(self).games().push(game),
    {
        self.all.push(game);
    }

    /// Delete the game of the same user; returns its position, or -10.
    pub fn delete(&mut self, game: LobbyGame) -> (r: i32)
        ensures
            match old(self).position_first(game.owner()) {
                Some(i) => r == i as i32 && final(self).games() == old(self).games().remove(i),
                None => r == -10 && final(self).games() == old(self).games(),
            },
            final(self).games() == without_offer_of(old(self).games(), game.owner()),
    {
        match self.position_of(&game.username) {
            Some(i) => {
                proof {
                    self.lemma_position_first(game.owner(), i as int);
                }
                self.all.remove(i);
                #[verifier::truncate]
                (i as i32)
            },
            None => {
                proof {
                    self.lemma_position_first_none(game.owner());
                }
                -10
            },
        }
    }

    /// Delete the game of `user`; returns whether there was one.
    pub fn delete_by_user(&mut self, user: &ActivePlayer) -> (r: bool)
        ensures
            match old(self).position_first(user.name()) {
                Some(i) => r && final(self).games() == old(self).games().remove(i),
                None => !r && final(self).games() == old(self).games(),
            },
            final(self).games() == without_offer_of(old(self).games(), user.name()),
    {
        let name = user.username();
        match self.position_of(&name) {
            Some(i) => {
                proof {
                    self.lemma_position_first(user.name(), i as int);
                }
                self.all.remove(i);
                true
            },
            None => {
                proof {
                    self.lemma_position_first_none(user.name());
                }
                false
            },
        }
    }

    /// Position of the first game of `user`.
    pub open spec fn position_first(&self, user: Seq<char>) -> Option<int> {
        first_offer_index(self.games(), user)
    }

    proof fn lemma_position_first(&self, user: Seq<char>, i: int)
        requires
            0 <= i < self.all@.len(),
            self.all@[i].owner() == user,
            forall|j: int| 0 <= j < i ==> self.all@[j].owner() != user,
        ensures
            self.position_first(user) == Some(i),
    {
        assert(owners(self.all@)[i] == user);
        let k = choose|k: int| 0 <= k < self.all@.len() && self.all@[k].owner() == user && forall|j: int| 0 <= j < k ==> self.all@[j].owner() != user;
        if k < i {
        } else if k > i {
        }
    }

    proof fn lemma_position_first_none(&self, user: Seq<char>)
        requires
            !owners(self.all@).contains(user),
        ensures
            self.position_first(user) is None,
    {
    }

    /// What `position_first` is: the position of the first offer of `user`, or
    /// nothing when `user` offers no game.
    pub proof fn lemma_position_first_meaning(&self, user: Seq<char>)
        ensures
            match self.position_first(user) {
                Some(i) => {
                    &&& 0 <= i < self.games().len()
                    &&& self.games()[i].owner() == user
                    &&& forall|j: int| 0 <= j < i ==> self.games()[j].owner() != user
                },
                None => !owners(self.games()).contains(user),
            },
    {
        if owners(self.all@).contains(user) {
            let k = choose|k: int| 0 <= k < owners(self.all@).len() && owners(self.all@)[k] == user;
            let i = first_offer_of(self.all@, user, k);
            self.lemma_position_first(user, i);
        }
    }
}

/// The first position, up to `k`, of an offer by `user`.
proof fn first_offer_of(s: Seq<LobbyGame>, user: Seq<char>, k: int) -> (i: int)
    requires
        0 <= k < s.len(),
        s[k].owner() == user,
    ensures
        0 <= i <= k,
        s[i].owner() == user,
        forall|j: int| 0 <= j < i ==> s[j].owner() != user,
    decreases k,
{
    if exists|j: int| 0 <= j < k && s[j].owner() == user {
        let j = choose|j: int| 0 <= j < k && s[j].owner() == user;
        first_offer_of(s, user, j)
    } else {
        k
    }
}

/// No user ever has more than five messages in a chat room.
pub proof fn chat_limit(rooms: &ChatRooms, id: Seq<char>, user: Seq<char>)
    requires
        rooms.well_formed(),
        rooms.room(id) is Some,
    ensures
        items_by(rooms.room(id)->0, user) <= 5,
{
    let k = key_pos(rooms.rooms@, id);
    assert(items_within_limit(rooms.rooms@[k].1@));
    assert(items_by(rooms.rooms@[k].1@, user) <= 5);
}

/// Adding only the games that `can_add` lets in keeps one game per user in the
/// lobby, and the user who just added a game cannot add another.
pub proof fn lobby_one_game_per_user(before: Seq<LobbyGame>, game: LobbyGame)
    requires
        owners(before).no_duplicates(),
        !owners(before).contains(game.owner()),
    ensures
        owners(before.push(game)).no_duplicates(),
        owners(before.push(game)).contains(game.owner()),
{
    let after = before.push(game);
    assert(owners(after) =~= owners(before).push(game.owner()));
    assert(owners(after)[before.len() as int] == game.owner());
    assert forall|i: int, j: int| 0 <= i < j < owners(after).len() implies owners(after)[i] != owners(after)[j] by {
        if j == before.len() {
            assert(owners(before)[i] == owners(after)[i]);
        }
    }
}

/// An offer is valid when its variant is one the lobby plays, its minutes lie in
/// the allowed range, and its increment lies there too or is zero.
pub proof fn lemma_valid_offer(game: LobbyGame)
    ensures
        game.valid() == (lobby_variant(game.variant_name()) && in_duration_range(game.minutes() as int)
            && (in_duration_range(game.increment() as int) || game.increment() == 0)),
{
}

/// A valid lobby offer lasts between 1 and 90 minutes.
pub proof fn lemma_valid_minutes(game: LobbyGame)
    requires
        game.valid(),
    ensures
        1 <= game.minutes() <= 90,
{
}

/// An offer that enters the lobby and is then deleted leaves the lobby as it
/// was: the first offer of its user is the one just added, at the end.
pub proof fn offer_round_trip(before: &LobbyGames, after: &LobbyGames, game: LobbyGame)
    requires
        !owners(before.games()).contains(game.owner()),
        after.games() == before.games().push(game),
    ensures
        after.position_first(game.owner()) == Some(before.games().len() as int),
        after.games().remove(before.games().len() as int) == before.games(),
{
    let n = before.games().len() as int;
    assert forall|j: int| 0 <= j < n implies after.all@[j].owner() != game.owner() by {
        assert(owners(before.games())[j] == before.all@[j].owner());
    }
    after.lemma_position_first(game.owner(), n);
    assert(after.games().remove(n) =~= before.games());
}

/// An offer just added is found again: its user's first offer sits at or before
/// the end, so `delete` on a game of that user removes one and, while the lobby
/// held fewer than `i32::MAX` offers, reports a position that is not negative.
pub proof fn added_offer_is_found(before: &LobbyGames, after: &LobbyGames, game: LobbyGame)
    requires
        after.games() == before.games().push(game),
    ensures
        after.position_first(game.owner()) is Some,
        after.position_first(game.owner())->0 <= before.games().len(),
        before.games().len() < 0x7fff_ffff ==> (after.position_first(game.owner())->0 as i32) >= 0,
{
    let n = before.games().len() as int;
    assert(owners(after.games())[n] == game.owner());
    after.lemma_position_first_meaning(game.owner());
}

} // verus!
