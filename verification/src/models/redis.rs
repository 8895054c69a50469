use vstd::prelude::*;

verus! {

/// The session of a user: name, whether registered, and the PKCE verifier of
/// a pending login.
pub struct UserSession {
    pub username: String,
    pub reg: bool,
    pub code_verifier: String,
}

impl UserSession {
    pub fn new(username: &str, reg: bool, code_verifier: &str) -> (s: Self)
        ensures
            s.username@ == username@,
            s.reg == reg,
            s.code_verifier@ == code_verifier@,
    {
        UserSession { username: username.to_owned(), reg, code_verifier: code_verifier.to_owned() }
    }
}

#[verifier::external_type_specification]
#[verifier::external_body]
pub struct ExMemoryStore(::async_session::MemoryStore);

#[verifier::external_type_specification]
#[verifier::external_body]
pub struct ExRedisClient(::redis::Client);

/// Sessions kept in memory, with the Redis client they are mirrored to.
pub struct RedisSessions {
    pub store: ::async_session::MemoryStore,
    pub client: ::redis::Client,
}

/// Seconds in a day.
pub const DAY: u64 = 86400;

impl RedisSessions {
    /// Session lifetime in seconds: a year for a registered user, two days for
    /// one who has not logged in (after that a new session is made).
    pub fn ttl(&self, reg: bool) -> (secs: u64)
        ensures
            reg ==> secs == 365 * DAY,
            !reg ==> secs == 2 * DAY,
    {
        let day: u64 = 60 * 60 * 24;
        if reg {
            return day * 365;
        }
        day * 2
    }
}

} // verus!
