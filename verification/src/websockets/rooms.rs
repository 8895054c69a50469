use vstd::prelude::*;
use vstd::string::*;

use crate::clock::utc_hour_minute;
use crate::database::redis::UserSession;
use crate::names::{
    copy_names, distinct, has_key, insert_name, key_pos, keys_distinct, lemma_distinct_len,
    lemma_key_pos, lemma_update_value_keys, name_set, remove_name, find_key, rooms_wf, room_of,
    edit_room, put_key, remove_key,
};
use crate::text::{decimal, digit_char, push_two_digits, str_eq, two_digits};

verus! {

/// Active players and the spectators of each room.
pub struct Players {
    players: Vec<String>,
    spectators: Vec<(String, Vec<String>)>,
}

impl Players {
    pub closed spec fn well_formed(&self) -> bool {
        &&& distinct(self.players@)
        &&& rooms_wf(self.spectators@)
    }

    /// Names of the active players.
    pub closed spec fn online(&self) -> Set<Seq<char>> {
        name_set(self.players@)
    }

    /// The active players are finitely many.
    pub proof fn lemma_online_finite(&self)
        requires
            self.well_formed(),
        ensures
            self.online().finite(),
    {
        lemma_distinct_len(self.players@);
    }

    /// Spectators of room `id`, when the room exists.
    pub closed spec fn room(&self, id: Seq<char>) -> Option<Set<Seq<char>>> {
        room_of(self.spectators@, id)
    }

    /// No players, and one empty room: "home".
    pub fn default() -> (p: Self)
        ensures
            p.well_formed(),
            p.online() == Set::<Seq<char>>::empty(),
            p.room("home"@) == Some(Set::<Seq<char>>::empty()),
            forall|id: Seq<char>| id != "home"@ ==> p.room(id) is None,
    {
        let home: Vec<String> = Vec::new();
        let mut spectators: Vec<(String, Vec<String>)> = Vec::new();
        spectators.push(("home".to_owned(), home));
        let p = Players { players: Vec::new(), spectators };
        proof {
            assert(name_set(p.players@) =~= Set::<Seq<char>>::empty());
            assert(name_set(p.spectators@[0].1@) =~= Set::<Seq<char>>::empty());
            assert(p.spectators@[0].0@ == "home"@);
            lemma_key_pos(p.spectators@, 0);
            assert forall|id: Seq<char>| id != "home"@ implies p.room(id) is None by {
                if has_key(p.spectators@, id) {
                    let k = choose|k: int| 0 <= k < p.spectators@.len() && #[trigger] p.spectators@[k].0@ == id;
                    assert(k == 0);
                }
            }
        }
        p
    }

    /// Add one active player; returns the number of active players.
    pub fn add_player(&mut self, username: &str) -> (count: usize)
        requires
            old(self).well_formed(),
        ensures
            final(self).well_formed(),
            old(self).online().finite(),
            final(self).online() == old(self).online().insert(username@),
            count == final(self).online().len(),
            forall|id: Seq<char>| final(self).room(id) == old(self).room(id),
    {
        proof {
            lemma_distinct_len(self.players@);
        }
        insert_name(&mut self.players, username);
        proof {
            lemma_distinct_len(self.players@);
        }
        self.players.len()
    }

    /// Remove an active player; returns the number of active players.
    pub fn remove_player(&mut self, username: &String) -> (count: usize)
        requires
            old(self).well_formed(),
        ensures
            final(self).well_formed(),
            final(self).online() == old(self).online().remove(username@),
            count == final(self).online().len(),
            forall|id: Seq<char>| final(self).room(id) == old(self).room(id),
    {
        remove_name(&mut self.players, username.as_str());
        proof {
            lemma_distinct_len(self.players@);
        }
        self.players.len()
    }

    /// Add a spectator to room `id`; returns the number of its spectators, or
    /// `None` when there is no such room.
    pub fn add_spectator(&mut self, id: &String, username: &String) -> (count: Option<usize>)
        requires
            old(self).well_formed(),
        ensures
            final(self).well_formed(),
            final(self).online() == old(self).online(),
            match old(self).room(id@) {
                Some(s) => {
                    &&& final(self).room(id@) == Some(s.insert(username@))
                    &&& count == Some(s.insert(username@).len() as usize)
                },
                None => count is None,
            },
            forall|x: Seq<char>| x != id@ ==> final(self).room(x) == old(self).room(x),
            old(self).room(id@) is None ==> *final(self) == *old(self),
    {
        match find_key(&self.spectators, id.as_str()) {
            Some(i) => Some(edit_room(&mut self.spectators, i, username.as_str(), true)),
            None => None,
        }
    }

    /// Remove a spectator from room `id`; returns the number of its spectators,
    /// or `None` when there is no such room.
    pub fn remove_spectator(&mut self, id: &String, username: &String) -> (count: Option<usize>)
        requires
            old(self).well_formed(),
        ensures
            final(self).well_formed(),
            final(self).online() == old(self).online(),
            match old(self).room(id@) {
                Some(s) => {
                    &&& final(self).room(id@) == Some(s.remove(username@))
                    &&& count == Some(s.remove(username@).len() as usize)
                },
                None => count is None,
            },
            forall|x: Seq<char>| x != id@ ==> final(self).room(x) == old(self).room(x),
            old(self).room(id@) is None ==> *final(self) == *old(self),
    {
        match find_key(&self.spectators, id.as_str()) {
            Some(i) => Some(edit_room(&mut self.spectators, i, username.as_str(), false)),
            None => None,
        }
    }

    /// Spectators of room `id`.
    pub fn get_spectators(&self, id: &str) -> (s: Option<Vec<String>>)
        requires
            self.well_formed(),
        ensures
            match self.room(id@) {
                Some(names) => s is Some && name_set(s->0@) == names && distinct(s->0@),
                None => s is None,
            },
    {
        match find_key(&self.spectators, id) {
            Some(i) => Some(copy_names(&self.spectators[i].1)),
            None => None,
        }
    }

    /// Open room `id` with no spectators (emptying it when it exists).
    pub fn new_spectators(&mut self, id: &String)
        requires
            old(self).well_formed(),
        ensures
            final(self).well_formed(),
            final(self).room(id@) == Some(Set::<Seq<char>>::empty()),
            forall|x: Seq<char>| x != id@ ==> final(self).room(x) == old(self).room(x),
            final(self).online() == old(self).online(),
    {
        let ghost before = self.spectators@;
        put_key(&mut self.spectators, id.as_str(), Vec::new());
        proof {
            let k = key_pos(self.spectators@, id@);
            assert(name_set(self.spectators@[k].1@) =~= Set::<Seq<char>>::empty());
            assert forall|i: int| 0 <= i < self.spectators@.len() implies distinct(#[trigger] self.spectators@[i].1@) by {
                lemma_key_pos(self.spectators@, i);
                let x = self.spectators@[i].0@;
                if x != id@ {
                    assert(has_key(before, x));
                }
            }
        }
    }

    /// Close room `id`.
    pub fn remove_spectators(&mut self, id: &String)
        requires
            old(self).well_formed(),
        ensures
            final(self).well_formed(),
            final(self).room(id@) is None,
            forall|x: Seq<char>| x != id@ ==> final(self).room(x) == old(self).room(x),
            final(self).online() == old(self).online(),
    {
        let ghost before = self.spectators@;
        let _ = remove_key(&mut self.spectators, id.as_str());
        proof {
            assert forall|i: int| 0 <= i < self.spectators@.len() implies distinct(#[trigger] self.spectators@[i].1@) by {
                lemma_key_pos(self.spectators@, i);
                let x = self.spectators@[i].0@;
                assert(has_key(before, x));
                lemma_key_pos(before, key_pos(before, x));
            }
        }
    }

    /// Active players.
    pub fn get_players(&self) -> (p: Vec<String>)
        requires
            self.well_formed(),
        ensures
            name_set(p@) == self.online(),
            distinct(p@),
    {
        copy_names(&self.players)
    }
}

/// One chat line: room, author, time and text.
pub struct ChatMsg {
    pub id: String,
    pub user: String,
    pub time: String,
    pub message: String,
}

impl Clone for ChatMsg {
    fn clone(&self) -> (c: Self)
        ensures
            c == *self,
    {
        ChatMsg {
            id: self.id.clone(),
            user: self.user.clone(),
            time: self.time.clone(),
            message: self.message.clone(),
        }
    }
}

/// Time of day as `HH:MM`: hour and minute with two digits each.
pub open spec fn clock_text(hour: nat, minute: nat) -> Seq<char> {
    two_digits(hour) + ":"@ + two_digits(minute)
}

impl ChatMsg {
    /// Creating new message
    pub fn _new(user: String, time: String, message: String, id: String) -> (m: Self)
        ensures
            m == (ChatMsg { user, time, message, id }),
    {
        ChatMsg { user, time, message, id }
    }

    /// Sign the message with `user` and the time `hour:minute`.
    pub fn update_at(&mut self, user: &str, hour: u32, minute: u32)
        ensures
            final(self).user@ == user@,
            final(self).time@ == clock_text(hour as nat, minute as nat),
            final(self).id == old(self).id,
            final(self).message == old(self).message,
    {
        self.user = user.to_owned();
        let mut time = String::new();
        push_two_digits(&mut time, hour);
        time.append(":");
        push_two_digits(&mut time, minute);
        self.time = time;
    }

    /// Sign the message with `user` and the current time of day, in format HH:MM.
    pub fn update(&mut self, user: &str)
        ensures
            final(self).user@ == user@,
            exists|hour: nat, minute: nat|
                hour < 24 && minute < 60 && final(self).time@ == #[trigger] clock_text(hour, minute),
            final(self).id == old(self).id,
            final(self).message == old(self).message,
    {
        let (hour, minute) = utc_hour_minute();
        self.update_at(user, hour, minute);
    }
}

/// Messages of a user in a chat.
pub open spec fn count_by(chat: Seq<ChatMsg>, user: Seq<char>) -> nat
    decreases chat.len(),
{
    if chat.len() == 0 {
        0
    } else {
        count_by(chat.drop_last(), user) + if chat.last().user@ == user {
            1nat
        } else {
            0nat
        }
    }
}

/// Most messages that one user may post in one room.
pub const MAX_MESSAGES_PER_USER: usize = 5;

/// A message is accepted when it has between 1 and 49 characters.
pub open spec fn valid_length(m: ChatMsg) -> bool {
    valid_length_text(m.message@)
}

/// A text with between 1 and 49 characters.
pub open spec fn valid_length_text(text: Seq<char>) -> bool {
    0 < text.len() < 50
}

/// A chat room where no user has more than the allowed number of messages.
pub open spec fn chat_within_limit(chat: Seq<ChatMsg>) -> bool {
    forall|u: Seq<char>| #[trigger] count_by(chat, u) <= MAX_MESSAGES_PER_USER
}

/// Chat rooms by id.
pub struct ChatRooms {
    messages: Vec<(String, Vec<ChatMsg>)>,
}

impl ChatRooms {
    pub closed spec fn well_formed(&self) -> bool {
        &&& keys_distinct(self.messages@)
        &&& forall|i: int|
            0 <= i < self.messages@.len() ==> chat_within_limit(#[trigger] self.messages@[i].1@)
    }

    /// Messages of room `id`, when it exists.
    pub closed spec fn chat(&self, id: Seq<char>) -> Option<Seq<ChatMsg>> {
        if has_key(self.messages@, id) {
            Some(self.messages@[key_pos(self.messages@, id)].1@)
        } else {
            None
        }
    }

    /// One empty room: "home".
    pub fn default() -> (c: Self)
        ensures
            c.well_formed(),
            c.chat("home"@) == Some(Seq::<ChatMsg>::empty()),
            forall|id: Seq<char>| id != "home"@ ==> c.chat(id) is None,
    {
        let mut messages: Vec<(String, Vec<ChatMsg>)> = Vec::new();
        messages.push(("home".to_owned(), Vec::new()));
        let c = ChatRooms { messages };
        proof {
            assert(c.messages@[0].0@ == "home"@);
            lemma_key_pos(c.messages@, 0);
            assert forall|u: Seq<char>| #[trigger] count_by(c.messages@[0].1@, u) <= MAX_MESSAGES_PER_USER by {}
            assert forall|id: Seq<char>| id != "home"@ implies c.chat(id) is None by {
                if has_key(c.messages@, id) {
                    let k = choose|k: int| 0 <= k < c.messages@.len() && #[trigger] c.messages@[k].0@ == id;
                    assert(k == 0);
                }
            }
        }
        c
    }

    /// Count messages of `user` in `chat`.
    fn count_messages(chat: &Vec<ChatMsg>, user: &String) -> (n: usize)
        requires
            chat_within_limit(chat@),
        ensures
            n == count_by(chat@, user@),
    {
        let mut n: usize = 0;
        let mut i: usize = 0;
        while i < chat.len()
            invariant
                i <= chat.len(),
                chat_within_limit(chat@),
                n == count_by(chat@.subrange(0, i as int), user@),
                n <= count_by(chat@, user@),
            decreases chat.len() - i,
        {
            proof {
                assert(chat@.subrange(0, i + 1).drop_last() =~= chat@.subrange(0, i as int));
                lemma_count_prefix(chat@, i + 1, user@);
            }
            if chat[i].user == *user {
                n = n + 1;
            }
            i = i + 1;
        }
        assert(chat@.subrange(0, i as int) =~= chat@);
        n
    }

    /// Can message be added to room: only a registered player with fewer than
    /// five messages there.
    fn can_add(&self, chat: &Vec<ChatMsg>, player: &UserSession) -> (r: bool)
        requires
            chat_within_limit(chat@),
        ensures
            r == (player.reg && count_by(chat@, player.username@) < MAX_MESSAGES_PER_USER),
    {
        if !player.reg {
            return false;
        }
        let count = Self::count_messages(chat, &player.username);
        if count < 5 {
            return true;
        }
        false
    }

    /// Check if message length is between 1 and 49 characters.
    fn message_length(&self, m: &ChatMsg) -> (r: bool)
        ensures
            r == valid_length(*m),
    {
        let len = m.message.as_str().unicode_len();
        if len > 0 && len < 50 {
            return true;
        }
        false
    }

    /// Whether `m` from `player` goes into room `id`.
    pub open spec fn accepts(&self, id: Seq<char>, m: ChatMsg, player: UserSession) -> bool {
        &&& self.chat(id) is Some
        &&& valid_length(m)
        &&& player.reg
        &&& count_by(self.chat(id)->0, player.username@) < MAX_MESSAGES_PER_USER
    }

    /// Add a message signed at `hour:minute`; returns the stored message.
    pub fn add_msg_at(
        &mut self,
        id: &String,
        m: &mut ChatMsg,
        player: &UserSession,
        hour: u32,
        minute: u32,
    ) -> (r: Option<ChatMsg>)
        requires
            old(self).well_formed(),
        ensures
            final(self).well_formed(),
            old(self).accepts(id@, *old(m), *player) ==> {
                &&& final(m).user@ == player.username@
                &&& final(m).time@ == clock_text(hour as nat, minute as nat)
                &&& final(m).id == old(m).id
                &&& final(m).message == old(m).message
                &&& final(self).chat(id@) == Some(old(self).chat(id@)->0.push(*final(m)))
                &&& forall|x: Seq<char>| x != id@ ==> final(self).chat(x) == old(self).chat(x)
                &&& r == Some(*final(m))
            },
            !old(self).accepts(id@, *old(m), *player) ==> {
                &&& *final(self) == *old(self)
                &&& *final(m) == *old(m)
                &&& r is None
            },
    {
        match find_key(&self.messages, id.as_str()) {
            Some(i) => {
                if !self.message_length(m) {
                    return None;
                }
                if !self.can_add(&self.messages[i].1, player) {
                    return None;
                }
                m.update_at(player.username.as_str(), hour, minute);
                let stored = m.clone();
                let ghost before = self.messages@;
                let entry = &mut self.messages[i];
                entry.1.push(stored);
                proof {
                    let e = self.messages@[i as int];
                    assert(self.messages@ == before.update(i as int, e));
                    lemma_update_value_keys(before, i as int, e);
                    lemma_key_pos(before, i as int);
                    assert(e.1@.drop_last() =~= before[i as int].1@);
                    assert forall|u: Seq<char>| #[trigger] count_by(e.1@, u) <= MAX_MESSAGES_PER_USER by {
                        assert(count_by(before[i as int].1@, u) <= MAX_MESSAGES_PER_USER);
                    }
                    assert forall|j: int| 0 <= j < self.messages@.len() implies chat_within_limit(
                        #[trigger] self.messages@[j].1@,
                    ) by {
                        if j != i {
                            assert(self.messages@[j] == before[j]);
                        }
                    }
                    assert forall|x: Seq<char>| x != id@ implies self.chat(x) == old(self).chat(x) by {
                        if has_key(before, x) {
                            let k = key_pos(before, x);
                            assert(k != i);
                            assert(self.messages@[k] == before[k]);
                        }
                    }
                }
                Some(m.clone())
            },
            None => None,
        }
    }

    /// Add new message, signed now.
    pub fn add_msg(&mut self, id: &String, m: &mut ChatMsg, player: &UserSession) -> (r: Option<
        ChatMsg,
    >)
        requires
            old(self).well_formed(),
        ensures
            final(self).well_formed(),
            old(self).accepts(id@, *old(m), *player) ==> {
                &&& final(m).user@ == player.username@
                &&& exists|hour: nat, minute: nat|
                    hour < 24 && minute < 60 && final(m).time@ == #[trigger] clock_text(hour, minute)
                &&& final(m).id == old(m).id
                &&& final(m).message == old(m).message
                &&& final(self).chat(id@) == Some(old(self).chat(id@)->0.push(*final(m)))
                &&& forall|x: Seq<char>| x != id@ ==> final(self).chat(x) == old(self).chat(x)
                &&& r == Some(*final(m))
            },
            !old(self).accepts(id@, *old(m), *player) ==> {
                &&& *final(self) == *old(self)
                &&& *final(m) == *old(m)
                &&& r is None
            },
    {
        let (hour, minute) = utc_hour_minute();
        self.add_msg_at(id, m, player, hour, minute)
    }

    /// Messages of room `id`.
    pub fn get_chat(&self, id: &String) -> (r: Option<Vec<ChatMsg>>)
        requires
            self.well_formed(),
        ensures
            match self.chat(id@) {
                Some(c) => r is Some && r->0@ == c,
                None => r is None,
            },
    {
        match find_key(&self.messages, id.as_str()) {
            Some(i) => Some(copy_chat(&self.messages[i].1)),
            None => None,
        }
    }
}

/// Counting over a prefix grows one message at a time.
proof fn lemma_count_prefix(chat: Seq<ChatMsg>, k: int, user: Seq<char>)
    requires
        0 < k <= chat.len(),
    ensures
        count_by(chat.subrange(0, k), user) == count_by(chat.subrange(0, k - 1), user) + if chat[k
            - 1].user@ == user {
            1nat
        } else {
            0nat
        },
        count_by(chat.subrange(0, k), user) <= count_by(chat, user),
    decreases chat.len() - k,
{
    assert(chat.subrange(0, k).drop_last() =~= chat.subrange(0, k - 1));
    if k < chat.len() {
        lemma_count_prefix(chat, k + 1, user);
    } else {
        assert(chat.subrange(0, k) =~= chat);
    }
}

/// Copy of a chat.
pub fn copy_chat(v: &Vec<ChatMsg>) -> (c: Vec<ChatMsg>)
    ensures
        c@ == v@,
{
    let mut c: Vec<ChatMsg> = Vec::new();
    let mut i: usize = 0;
    while i < v.len()
        invariant
            i <= v.len(),
            c@ == v@.subrange(0, i as int),
        decreases v.len() - i,
    {
        c.push(v[i].clone());
        assert(c@ =~= v@.subrange(0, i + 1));
        i = i + 1;
    }
    assert(c@ =~= v@);
    c
}

/// A time of day is written with two digits for the hour, a colon and two
/// digits for the minute: "09:05" for five past nine.
pub proof fn clock_text_is_hh_mm(hour: nat, minute: nat)
    requires
        hour < 24,
        minute < 60,
    ensures
        clock_text(hour, minute) == seq![
            digit_char(hour / 10),
            digit_char(hour % 10),
            ':',
            digit_char(minute / 10),
            digit_char(minute % 10),
        ],
{
    reveal_strlit(":");
    lemma_two_digits(hour);
    lemma_two_digits(minute);
    assert(clock_text(hour, minute) =~= seq![
        digit_char(hour / 10),
        digit_char(hour % 10),
        ':',
        digit_char(minute / 10),
        digit_char(minute % 10),
    ]);
}

proof fn lemma_two_digits(n: nat)
    requires
        n < 100,
    ensures
        two_digits(n) == seq![digit_char(n / 10), digit_char(n % 10)],
{
    if n < 10 {
        assert(two_digits(n) =~= seq![digit_char(n / 10), digit_char(n % 10)]);
    } else {
        assert(decimal(n / 10) == seq![digit_char(n / 10)]);
        assert(two_digits(n) =~= seq![digit_char(n / 10), digit_char(n % 10)]);
    }
}

/// A chat message is accepted only with 1 to 49 characters.
pub proof fn chat_message_lengths(text: Seq<char>)
    ensures
        valid_length_text(text) <==> 1 <= text.len() <= 49,
{
}


/// No user ever has more than five messages in a chat room.
pub proof fn chat_limit(rooms: &ChatRooms, id: Seq<char>, user: Seq<char>)
    requires
        rooms.well_formed(),
        rooms.chat(id) is Some,
    ensures
        count_by(rooms.chat(id)->0, user) <= MAX_MESSAGES_PER_USER,
{
    let k = key_pos(rooms.messages@, id);
    assert(chat_within_limit(rooms.messages@[k].1@));
    assert(count_by(rooms.messages@[k].1@, user) <= MAX_MESSAGES_PER_USER);
}

/// A spectator who joins a room and leaves it again leaves the room as it was.
pub proof fn spectator_round_trip(
    before: &Players,
    joined: &Players,
    left: &Players,
    id: Seq<char>,
    user: Seq<char>,
)
    requires
        before.room(id) is Some,
        !before.room(id)->0.contains(user),
        joined.room(id) == Some(before.room(id)->0.insert(user)),
        left.room(id) == Some(joined.room(id)->0.remove(user)),
    ensures
        left.room(id) == before.room(id),
{
    assert(before.room(id)->0.insert(user).remove(user) =~= before.room(id)->0);
}

/// Joining is idempotent: a second join of the same spectator changes nothing.
pub proof fn spectator_join_twice(joined: &Players, again: &Players, id: Seq<char>, user: Seq<char>)
    requires
        joined.room(id) is Some,
        joined.room(id)->0.contains(user),
        again.room(id) == Some(joined.room(id)->0.insert(user)),
    ensures
        again.room(id) == joined.room(id),
{
    assert(joined.room(id)->0.insert(user) =~= joined.room(id)->0);
}

} // verus!
