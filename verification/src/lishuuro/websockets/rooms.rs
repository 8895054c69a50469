use vstd::prelude::*;
use vstd::string::*;

use crate::clock::{bson_now_text, local_hour_minute};
use crate::database::mongo::ShuuroGame;
use crate::database::redis::UserSession;
use crate::names::{
    copy_names, distinct, edit_room, find_key, has_key, insert_name, key_pos, keys_distinct,
    lemma_distinct_len, lemma_key_pos, lemma_update_value_keys, name_set, put_key, remove_key,
    remove_name, room_of, rooms_wf,
};
use crate::text::push_two_digits;
use crate::websockets::rooms::{clock_text, MAX_MESSAGES_PER_USER};

verus! {

/// Players online, players in a game, and the spectators of each room.
pub struct Players {
    online: Vec<String>,
    in_game: Vec<String>,
    spectators: Vec<(String, Vec<String>)>,
}

impl Players {
    pub closed spec fn well_formed(&self) -> bool {
        &&& distinct(self.online@)
        &&& distinct(self.in_game@)
        &&& rooms_wf(self.spectators@)
    }

    /// Names of the players online.
    pub closed spec fn online_set(&self) -> Set<Seq<char>> {
        name_set(self.online@)
    }

    /// Names of the players in a game.
    pub closed spec fn in_game_set(&self) -> Set<Seq<char>> {
        name_set(self.in_game@)
    }

    /// The players online and the players in a game are finitely many.
    pub proof fn lemma_sets_finite(&self)
        requires
            self.well_formed(),
        ensures
            self.online_set().finite(),
            self.in_game_set().finite(),
    {
        lemma_distinct_len(self.online@);
        lemma_distinct_len(self.in_game@);
    }

    /// Spectators of room `id`, when the room exists.
    pub closed spec fn room(&self, id: Seq<char>) -> Option<Set<Seq<char>>> {
        room_of(self.spectators@, id)
    }

    /// Nobody online or playing; two empty rooms, "home" and "tv".
    pub fn default() -> (p: Self)
        ensures
            p.well_formed(),
            p.online_set() == Set::<Seq<char>>::empty(),
            p.in_game_set() == Set::<Seq<char>>::empty(),
            p.room("home"@) == Some(Set::<Seq<char>>::empty()),
            p.room("tv"@) == Some(Set::<Seq<char>>::empty()),
            forall|id: Seq<char>| id != "home"@ && id != "tv"@ ==> p.room(id) is None,
    {
        let mut spectators: Vec<(String, Vec<String>)> = Vec::new();
        let home = ("home".to_owned(), Vec::new());
        let tv = ("tv".to_owned(), Vec::new());
        proof {
            reveal_strlit("home");
            reveal_strlit("tv");
            assert("home"@.len() != "tv"@.len());
            crate::names::lemma_push_entry(spectators@, home);
            assert(!has_key(spectators@.push(home), tv.0@)) by {
                if has_key(spectators@.push(home), tv.0@) {
                    let k = choose|k: int| 0 <= k < spectators@.push(home).len() && #[trigger] spectators@.push(home)[k].0@ == tv.0@;
                    assert(k == 0);
                }
            }
            crate::names::lemma_push_entry(spectators@.push(home), tv);
        }
        spectators.push(home);
        spectators.push(tv);
        let p = Players { online: Vec::new(), in_game: Vec::new(), spectators };
        proof {
            assert(name_set(p.online@) =~= Set::<Seq<char>>::empty());
            assert(name_set(p.in_game@) =~= Set::<Seq<char>>::empty());
            assert forall|i: int| 0 <= i < p.spectators@.len() implies distinct(#[trigger] p.spectators@[i].1@) by {}
            let h = key_pos(p.spectators@, "home"@);
            let t = key_pos(p.spectators@, "tv"@);
            assert(name_set(p.spectators@[h].1@) =~= Set::<Seq<char>>::empty());
            assert(name_set(p.spectators@[t].1@) =~= Set::<Seq<char>>::empty());
            assert forall|id: Seq<char>| id != "home"@ && id != "tv"@ implies p.room(id) is None by {
                if has_key(p.spectators@, id) {
                    let k = choose|k: int| 0 <= k < p.spectators@.len() && #[trigger] p.spectators@[k].0@ == id;
                    lemma_key_pos(p.spectators@, k);
                }
            }
        }
        p
    }

    /// Adding one online player; returns how many are online.
    pub fn add_online_player(&mut self, username: &str) -> (count: usize)
        requires
            old(self).well_formed(),
        ensures
            final(self).well_formed(),
            old(self).online_set().finite(),
            final(self).online_set() == old(self).online_set().insert(username@),
            final(self).in_game_set() == old(self).in_game_set(),
            forall|id: Seq<char>| final(self).room(id) == old(self).room(id),
            count == final(self).online_set().len(),
    {
        proof {
            lemma_distinct_len(self.online@);
        }
        insert_name(&mut self.online, username);
        proof {
            lemma_distinct_len(self.online@);
        }
        self.online.len()
    }

    /// Adding the two players of a game; returns how many are in a game.
    pub fn add_players(&mut self, players: &[String; 2]) -> (count: usize)
        requires
            old(self).well_formed(),
        ensures
            final(self).well_formed(),
            old(self).in_game_set().finite(),
            final(self).in_game_set() == old(self).in_game_set().insert(players[0]@).insert(players[1]@),
            final(self).online_set() == old(self).online_set(),
            forall|id: Seq<char>| final(self).room(id) == old(self).room(id),
            count == final(self).in_game_set().len(),
    {
        proof {
            lemma_distinct_len(self.in_game@);
        }
        insert_name(&mut self.in_game, players[0].as_str());
        insert_name(&mut self.in_game, players[1].as_str());
        proof {
            lemma_distinct_len(self.in_game@);
        }
        self.in_game.len()
    }

    /// Removing the two players of a game; returns how many are in a game.
    pub fn remove_players(&mut self, players: &[String; 2]) -> (count: usize)
        requires
            old(self).well_formed(),
        ensures
            final(self).well_formed(),
            final(self).in_game_set() == old(self).in_game_set().remove(players[0]@).remove(players[1]@),
            final(self).online_set() == old(self).online_set(),
            forall|id: Seq<char>| final(self).room(id) == old(self).room(id),
            count == final(self).in_game_set().len(),
    {
        remove_name(&mut self.in_game, players[0].as_str());
        remove_name(&mut self.in_game, players[1].as_str());
        proof {
            lemma_distinct_len(self.in_game@);
        }
        self.in_game.len()
    }

    /// True when `username` is not in a game.
    pub fn check_in_game(&self, username: &str) -> (r: bool)
        requires
            self.well_formed(),
        ensures
            r == !self.in_game_set().contains(username@),
    {
        !crate::names::has_name(&self.in_game, username)
    }

    /// Removing an online player; returns how many are online.
    pub fn remove_online_player(&mut self, username: &String) -> (count: usize)
        requires
            old(self).well_formed(),
        ensures
            final(self).well_formed(),
            final(self).online_set() == old(self).online_set().remove(username@),
            final(self).in_game_set() == old(self).in_game_set(),
            forall|id: Seq<char>| final(self).room(id) == old(self).room(id),
            count == final(self).online_set().len(),
    {
        remove_name(&mut self.online, username.as_str());
        proof {
            lemma_distinct_len(self.online@);
        }
        self.online.len()
    }

    /// Add a spectator to room `id`; returns how many watch it, or `None` when
    /// there is no such room.
    pub fn add_spectator(&mut self, id: &String, username: &String) -> (count: Option<usize>)
        requires
            old(self).well_formed(),
        ensures
            final(self).well_formed(),
            final(self).online_set() == old(self).online_set(),
            final(self).in_game_set() == old(self).in_game_set(),
            match old(self).room(id@) {
                Some(s) => final(self).room(id@) == Some(s.insert(username@)) && count == Some(
                    s.insert(username@).len() as usize,
                ),
                None => count is None,
            },
            forall|x: Seq<char>| x != id@ ==> final(self).room(x) == old(self).room(x),
            old(self).room(id@) is None ==> final(self).room(id@) is None,
    {
        match find_key(&self.spectators, id.as_str()) {
            Some(i) => Some(edit_room(&mut self.spectators, i, username.as_str(), true)),
            None => None,
        }
    }

    /// Remove a spectator from room `id`; returns how many watch it, or `None`
    /// when there is no such room.
    pub fn remove_spectator(&mut self, id: &String, username: &String) -> (count: Option<usize>)
        requires
            old(self).well_formed(),
        ensures
            final(self).well_formed(),
            final(self).online_set() == old(self).online_set(),
            final(self).in_game_set() == old(self).in_game_set(),
            match old(self).room(id@) {
                Some(s) => final(self).room(id@) == Some(s.remove(username@)) && count == Some(
                    s.remove(username@).len() as usize,
                ),
                None => count is None,
            },
            forall|x: Seq<char>| x != id@ ==> final(self).room(x) == old(self).room(x),
            old(self).room(id@) is None ==> final(self).room(id@) is None,
    {
        match find_key(&self.spectators, id.as_str()) {
            Some(i) => Some(edit_room(&mut self.spectators, i, username.as_str(), false)),
            None => None,
        }
    }

    /// Get spectators.
    pub fn get_spectators(&self, id: &str) -> (s: Option<Vec<String>>)
        requires
            self.well_formed(),
        ensures
            match self.room(id@) {
                Some(names) => s is Some && name_set(s->0@) == names && distinct(s->0@),
                None => s is None,
            },
    {
        match find_key(&self.spectators, id) {
            Some(i) => Some(copy_names(&self.spectators[i].1)),
            None => None,
        }
    }

    /// Players online.
    pub fn get_online(&self) -> (p: Vec<String>)
        requires
            self.well_formed(),
        ensures
            name_set(p@) == self.online_set(),
            distinct(p@),
    {
        copy_names(&self.online)
    }

    /// Open room `id` with no spectators (emptying it when it exists).
    pub fn new_spectators(&mut self, id: &String)
        requires
            old(self).well_formed(),
        ensures
            final(self).well_formed(),
            final(self).room(id@) == Some(Set::<Seq<char>>::empty()),
            forall|x: Seq<char>| x != id@ ==> final(self).room(x) == old(self).room(x),
            final(self).online_set() == old(self).online_set(),
            final(self).in_game_set() == old(self).in_game_set(),
    {
        let ghost before = self.spectators@;
        put_key(&mut self.spectators, id.as_str(), Vec::new());
        proof {
            let k = key_pos(self.spectators@, id@);
            assert(name_set(self.spectators@[k].1@) =~= Set::<Seq<char>>::empty());
            assert forall|i: int| 0 <= i < self.spectators@.len() implies distinct(#[trigger] self.spectators@[i].1@) by {
                lemma_key_pos(self.spectators@, i);
                let x = self.spectators@[i].0@;
                if x != id@ {
                    assert(has_key(before, x));
                }
            }
        }
    }

    /// Open a room for each of `games`.
    pub fn add_spectators(&mut self, games: &Vec<ShuuroGame>)
        requires
            old(self).well_formed(),
        ensures
            final(self).well_formed(),
            forall|k: int| 0 <= k < games@.len() ==> final(self).room(#[trigger] games@[k]._id@) == Some(Set::<Seq<char>>::empty()),
            forall|x: Seq<char>| (forall|k: int| 0 <= k < games@.len() ==> #[trigger] games@[k]._id@ != x)
                ==> final(self).room(x) == old(self).room(x),
            final(self).online_set() == old(self).online_set(),
            final(self).in_game_set() == old(self).in_game_set(),
    {
        let mut i: usize = 0;
        while i < games.len()
            invariant
                self.well_formed(),
                i <= games@.len(),
                forall|k: int| 0 <= k < i ==> self.room(#[trigger] games@[k]._id@) == Some(Set::<Seq<char>>::empty()),
                forall|x: Seq<char>| (forall|k: int| 0 <= k < i ==> #[trigger] games@[k]._id@ != x)
                    ==> self.room(x) == old(self).room(x),
                self.online_set() == old(self).online_set(),
                self.in_game_set() == old(self).in_game_set(),
            decreases games@.len() - i,
        {
            self.new_spectators(&games[i]._id);
            proof {
                assert forall|x: Seq<char>| (forall|k: int| 0 <= k < i + 1 ==> #[trigger] games@[k]._id@ != x)
                    implies self.room(x) == old(self).room(x) by {
                    assert(games@[i as int]._id@ != x);
                }
            }
            i = i + 1;
        }
    }

    /// Close room `id`.
    pub fn remove_spectators(&mut self, id: &String)
        requires
            old(self).well_formed(),
        ensures
            final(self).well_formed(),
            final(self).room(id@) is None,
            forall|x: Seq<char>| x != id@ ==> final(self).room(x) == old(self).room(x),
            final(self).online_set() == old(self).online_set(),
            final(self).in_game_set() == old(self).in_game_set(),
    {
        let ghost before = self.spectators@;
        let _ = remove_key(&mut self.spectators, id.as_str());
        proof {
            assert forall|i: int| 0 <= i < self.spectators@.len() implies distinct(#[trigger] self.spectators@[i].1@) by {
                lemma_key_pos(self.spectators@, i);
                let x = self.spectators@[i].0@;
                assert(has_key(before, x));
                lemma_key_pos(before, key_pos(before, x));
            }
        }
    }
}

/// One chat line: room, author, time, text and the variant of the game.
pub struct ChatMsg {
    pub id: String,
    pub user: String,
    pub time: String,
    pub message: String,
    pub variant: String,
}

impl Clone for ChatMsg {
    fn clone(&self) -> (c: Self)
        ensures
            c == *self,
    {
        ChatMsg {
            id: self.id.clone(),
            user: self.user.clone(),
            time: self.time.clone(),
            message: self.message.clone(),
            variant: self.variant.clone(),
        }
    }
}

impl ChatMsg {
    /// A new message of the shuuro variant, stamped now.
    pub fn _new(user: String, message: String, id: String) -> (m: Self)
        ensures
            m.user == user,
            m.message == message,
            m.id == id,
            m.variant@ == "shuuro"@,
    {
        ChatMsg { user, time: bson_now_text(), message, id, variant: "shuuro".to_owned() }
    }

    /// Sign the message with `user` and the time `hour:minute`, as `HH:MM`.
    pub fn update_at(&mut self, user: &str, hour: u32, minute: u32)
        ensures
            *final(self) == (ChatMsg { user: final(self).user, time: final(self).time, ..*old(self) }),
            final(self).user@ == user@,
            final(self).time@ == clock_text(hour as nat, minute as nat),
    {
        self.user = user.to_owned();
        let mut time = String::new();
        push_two_digits(&mut time, hour);
        time.append(":");
        push_two_digits(&mut time, minute);
        self.time = time;
    }

    /// Sign the message with `user` and the local time of day, in format HH:MM.
    pub fn update(&mut self, user: &str)
        ensures
            final(self).user@ == user@,
            exists|hour: nat, minute: nat|
                hour < 24 && minute < 60 && final(self).time@ == #[trigger] clock_text(hour, minute),
            final(self).id == old(self).id,
            final(self).message == old(self).message,
            final(self).variant == old(self).variant,
    {
        let (hour, minute) = local_hour_minute();
        self.update_at(user, hour, minute);
    }
}

/// A text with between 1 and 49 characters.
pub open spec fn nonempty_short(text: Seq<char>) -> bool {
    0 < text.len() < 50
}

/// Messages of a user in a chat.
pub open spec fn messages_by(chat: Seq<ChatMsg>, user: Seq<char>) -> nat
    decreases chat.len(),
{
    if chat.len() == 0 {
        0
    } else {
        messages_by(chat.drop_last(), user) + if chat.last().user@ == user {
            1nat
        } else {
            0nat
        }
    }
}

/// A chat where no user has more than the allowed number of messages.
pub open spec fn within_limit(chat: Seq<ChatMsg>) -> bool {
    forall|u: Seq<char>| #[trigger] messages_by(chat, u) <= MAX_MESSAGES_PER_USER
}

/// Chat rooms by id.
pub struct ChatRooms {
    messages: Vec<(String, Vec<ChatMsg>)>,
}

impl ChatRooms {
    pub closed spec fn well_formed(&self) -> bool {
        &&& keys_distinct(self.messages@)
        &&& forall|i: int| 0 <= i < self.messages@.len() ==> within_limit(#[trigger] self.messages@[i].1@)
    }

    /// Messages of room `id`, when it exists.
    pub closed spec fn chat(&self, id: Seq<char>) -> Option<Seq<ChatMsg>> {
        if has_key(self.messages@, id) {
            Some(self.messages@[key_pos(self.messages@, id)].1@)
        } else {
            None
        }
    }

    /// One empty room: "home".
    pub fn default() -> (c: Self)
        ensures
            c.well_formed(),
            c.chat("home"@) == Some(Seq::<ChatMsg>::empty()),
            forall|id: Seq<char>| id != "home"@ ==> c.chat(id) is None,
    {
        let mut messages: Vec<(String, Vec<ChatMsg>)> = Vec::new();
        messages.push(("home".to_owned(), Vec::new()));
        let c = ChatRooms { messages };
        proof {
            assert(c.messages@[0].0@ == "home"@);
            lemma_key_pos(c.messages@, 0);
            assert forall|u: Seq<char>| #[trigger] messages_by(c.messages@[0].1@, u) <= MAX_MESSAGES_PER_USER by {}
            assert forall|id: Seq<char>| id != "home"@ implies c.chat(id) is None by {
                if has_key(c.messages@, id) {
                    let k = choose|k: int| 0 <= k < c.messages@.len() && #[trigger] c.messages@[k].0@ == id;
                    assert(k == 0);
                }
            }
        }
        c
    }

    /// Count messages of `user` in `chat`.
    fn count_messages(chat: &Vec<ChatMsg>, user: &String) -> (n: usize)
        requires
            within_limit(chat@),
        ensures
            n == messages_by(chat@, user@),
    {
        let mut n: usize = 0;
        let mut i: usize = 0;
        while i < chat.len()
            invariant
                i <= chat.len(),
                within_limit(chat@),
                n == messages_by(chat@.subrange(0, i as int), user@),
                n <= messages_by(chat@, user@),
            decreases chat.len() - i,
        {
            proof {
                lemma_messages_prefix(chat@, i + 1, user@);
            }
            if chat[i].user == *user {
                n = n + 1;
            }
            i = i + 1;
        }
        assert(chat@.subrange(0, i as int) =~= chat@);
        n
    }

    /// Can message be added to room: only a registered player with fewer than
    /// five messages there.
    fn can_add(&self, chat: &Vec<ChatMsg>, player: &UserSession) -> (r: bool)
        requires
            within_limit(chat@),
        ensures
            r == (player.reg && messages_by(chat@, player.username@) < MAX_MESSAGES_PER_USER),
    {
        if !player.reg {
            return false;
        }
        let count = Self::count_messages(chat, &player.username);
        if count < 5 {
            return true;
        }
        false
    }

    /// Check that the message has between 1 and 49 characters.
    fn message_length(&self, m: &ChatMsg) -> (r: bool)
        ensures
            r == nonempty_short(m.message@),
    {
        let len = m.message.as_str().unicode_len();
        len > 0 && len < 50
    }

    /// Whether `m` from `player` goes into room `id`.
    pub open spec fn accepts(&self, id: Seq<char>, m: ChatMsg, player: UserSession) -> bool {
        &&& self.chat(id) is Some
        &&& nonempty_short(m.message@)
        &&& player.reg
        &&& messages_by(self.chat(id)->0, player.username@) < MAX_MESSAGES_PER_USER
    }

    /// Add a message signed at `hour:minute`; returns the stored message.
    pub fn add_msg_at(&mut self, id: &String, m: ChatMsg, player: &UserSession, hour: u32, minute: u32) -> (r: Option<ChatMsg>)
        requires
            old(self).well_formed(),
        ensures
            final(self).well_formed(),
            old(self).accepts(id@, m, *player) ==> {
                let stored = ChatMsg { user: r->0.user, time: r->0.time, ..m };
                &&& r is Some
                &&& r->0.user@ == player.username@
                &&& r->0.time@ == clock_text(hour as nat, minute as nat)
                &&& r->0 == stored
                &&& final(self).chat(id@) == Some(old(self).chat(id@)->0.push(stored))
                &&& forall|x: Seq<char>| x != id@ ==> final(self).chat(x) == old(self).chat(x)
            },
            !old(self).accepts(id@, m, *player) ==> *final(self) == *old(self) && r is None,
    {
        let mut m = m;
        match find_key(&self.messages, id.as_str()) {
            Some(i) => {
                if self.message_length(&m) && self.can_add(&self.messages[i].1, player) {
                    m.update_at(player.username.as_str(), hour, minute);
                    let stored = m.clone();
                    let ghost before = self.messages@;
                    let entry = &mut self.messages[i];
                    entry.1.push(stored);
                    proof {
                        let e = self.messages@[i as int];
                        assert(self.messages@ == before.update(i as int, e));
                        lemma_update_value_keys(before, i as int, e);
                        lemma_key_pos(before, i as int);
                        assert(e.1@.drop_last() =~= before[i as int].1@);
                        assert forall|u: Seq<char>| #[trigger] messages_by(e.1@, u) <= MAX_MESSAGES_PER_USER by {
                            assert(messages_by(before[i as int].1@, u) <= MAX_MESSAGES_PER_USER);
                        }
                        assert forall|j: int| 0 <= j < self.messages@.len() implies within_limit(
                            #[trigger] self.messages@[j].1@,
                        ) by {
                            if j != i {
                                assert(self.messages@[j] == before[j]);
                            }
                        }
                        assert forall|x: Seq<char>| x != id@ implies self.chat(x) == old(self).chat(x) by {
                            if has_key(before, x) {
                                let k = key_pos(before, x);
                                assert(k != i);
                                assert(self.messages@[k] == before[k]);
                            }
                        }
                    }
                    return Some(m);
                }
                None
            },
            None => None,
        }
    }

    /// Add new message, signed with the local time of day.
    pub fn add_msg(&mut self, id: &String, m: ChatMsg, player: &UserSession) -> (r: Option<ChatMsg>)
        requires
            old(self).well_formed(),
        ensures
            final(self).well_formed(),
            old(self).accepts(id@, m, *player) ==> {
                &&& r is Some
                &&& r->0.user@ == player.username@
                &&& exists|hour: nat, minute: nat|
                    hour < 24 && minute < 60 && r->0.time@ == #[trigger] clock_text(hour, minute)
                &&& r->0.id == m.id && r->0.message == m.message && r->0.variant == m.variant
                &&& final(self).chat(id@) == Some(old(self).chat(id@)->0.push(r->0))
                &&& forall|x: Seq<char>| x != id@ ==> final(self).chat(x) == old(self).chat(x)
            },
            !old(self).accepts(id@, m, *player) ==> *final(self) == *old(self) && r is None,
    {
        let (hour, minute) = local_hour_minute();
        self.add_msg_at(id, m, player, hour, minute)
    }

    pub fn get_chat(&self, id: &String) -> (r: Option<Vec<ChatMsg>>)
        requires
            self.well_formed(),
        ensures
            match self.chat(id@) {
                Some(c) => r is Some && r->0@ == c,
                None => r is None,
            },
    {
        match find_key(&self.messages, id.as_str()) {
            Some(i) => Some(copy_chat(&self.messages[i].1)),
            None => None,
        }
    }

    /// Open room `id` with an empty chat (emptying it when it exists).
    pub fn add_chat(&mut self, id: &String)
        requires
            old(self).well_formed(),
        ensures
            final(self).well_formed(),
            final(self).chat(id@) == Some(Seq::<ChatMsg>::empty()),
            forall|x: Seq<char>| x != id@ ==> final(self).chat(x) == old(self).chat(x),
    {
        let ghost before = self.messages@;
        put_key(&mut self.messages, id.as_str(), Vec::new());
        proof {
            assert forall|i: int| 0 <= i < self.messages@.len() implies within_limit(#[trigger] self.messages@[i].1@) by {
                lemma_key_pos(self.messages@, i);
                let x = self.messages@[i].0@;
                if x != id@ {
                    assert(has_key(before, x));
                } else {
                    assert forall|u: Seq<char>| #[trigger] messages_by(self.messages@[i].1@, u) <= MAX_MESSAGES_PER_USER by {}
                }
            }
        }
    }

    /// Close room `id`.
    pub fn remove_chat(&mut self, id: &String)
        requires
            old(self).well_formed(),
        ensures
            final(self).well_formed(),
            final(self).chat(id@) is None,
            forall|x: Seq<char>| x != id@ ==> final(self).chat(x) == old(self).chat(x),
    {
        let ghost before = self.messages@;
        let _ = remove_key(&mut self.messages, id.as_str());
        proof {
            assert forall|i: int| 0 <= i < self.messages@.len() implies within_limit(#[trigger] self.messages@[i].1@) by {
                lemma_key_pos(self.messages@, i);
                let x = self.messages@[i].0@;
                assert(has_key(before, x));
                lemma_key_pos(before, key_pos(before, x));
            }
        }
    }
}

/// Counting over a prefix grows one message at a time.
proof fn lemma_messages_prefix(chat: Seq<ChatMsg>, k: int, user: Seq<char>)
    requires
        0 < k <= chat.len(),
    ensures
        messages_by(chat.subrange(0, k), user) == messages_by(chat.subrange(0, k - 1), user) + if chat[k - 1].user@ == user {
            1nat
        } else {
            0nat
        },
        messages_by(chat.subrange(0, k), user) <= messages_by(chat, user),
    decreases chat.len() - k,
{
    assert(chat.subrange(0, k).drop_last() =~= chat.subrange(0, k - 1));
    if k < chat.len() {
        lemma_messages_prefix(chat, k + 1, user);
    } else {
        assert(chat.subrange(0, k) =~= chat);
    }
}

/// Copy of a chat.
pub fn copy_chat(v: &Vec<ChatMsg>) -> (c: Vec<ChatMsg>)
    ensures
        c@ == v@,
{
    let mut c: Vec<ChatMsg> = Vec::new();
    let mut i: usize = 0;
    while i < v.len()
        invariant
            i <= v.len(),
            c@ == v@.subrange(0, i as int),
        decreases v.len() - i,
    {
        c.push(v[i].clone());
        assert(c@ =~= v@.subrange(0, i + 1));
        i = i + 1;
    }
    assert(c@ =~= v@);
    c
}

/// No user ever has more than five messages in a chat room.
pub proof fn chat_limit(rooms: &ChatRooms, id: Seq<char>, user: Seq<char>)
    requires
        rooms.well_formed(),
        rooms.chat(id) is Some,
    ensures
        messages_by(rooms.chat(id)->0, user) <= MAX_MESSAGES_PER_USER,
{
    let k = key_pos(rooms.messages@, id);
    assert(within_limit(rooms.messages@[k].1@));
    assert(messages_by(rooms.messages@[k].1@, user) <= MAX_MESSAGES_PER_USER);
}

/// A chat message of the shuuro rooms is accepted only with 1 to 49 characters.
pub proof fn chat_message_lengths(text: Seq<char>)
    ensures
        nonempty_short(text) <==> 1 <= text.len() <= 49,
{
}

} // verus!
