use vstd::prelude::*;
use vstd::string::*;

use crate::text::str_eq;
use crate::shared::{arc2, load_text, share, store_text};

verus! {

pub const AXUM_SESSION_COOKIE_NAME: &'static str = "axum_session";

/// One year in seconds, the lifetime of the session cookie.
pub const COOKIE_MAX_AGE_TEXT: &'static str = "31536000";

/// Attributes of the session cookie.
pub struct CookieValue {
    pub same_site: String,
    pub secure: String,
    pub http_only: String,
}

impl Clone for CookieValue {
    fn clone(&self) -> (c: Self)
        ensures
            c == *self,
    {
        CookieValue {
            same_site: self.same_site.clone(),
            secure: self.secure.clone(),
            http_only: self.http_only.clone(),
        }
    }
}

impl CookieValue {
    /// The attribute text of the cookie: only `SameSite` for `Lax`, else all three.
    pub open spec fn response_text(&self) -> Seq<char> {
        if self.same_site@ == "Lax"@ {
            "SameSite="@ + self.same_site@ + ";"@
        } else {
            "SameSite="@ + self.same_site@ + "; Secure="@ + self.secure@ + "; HttpOnly="@
                + self.http_only@ + ";"@
        }
    }

    pub fn new(same_site: &str, secure: &str, http_only: &str) -> (c: Self)
        ensures
            c.same_site@ == same_site@,
            c.secure@ == secure@,
            c.http_only@ == http_only@,
    {
        CookieValue {
            same_site: same_site.to_owned(),
            secure: secure.to_owned(),
            http_only: http_only.to_owned(),
        }
    }

    /// Empty attributes.
    pub fn default() -> (c: Self)
        ensures
            c.same_site@ == Seq::<char>::empty(),
            c.secure@ == Seq::<char>::empty(),
            c.http_only@ == Seq::<char>::empty(),
    {
        CookieValue { same_site: String::new(), secure: String::new(), http_only: String::new() }
    }

    /// Cookie attributes as they go into a `Set-Cookie` header.
    pub fn response(&self) -> (r: String)
        ensures
            r@ == self.response_text(),
    {
        let lax = str_eq(self.same_site.as_str(), "Lax");
        let mut r = "SameSite=".to_owned();
        r.append(self.same_site.as_str());
        if lax {
            r.append(";");
            return r;
        }
        r.append("; Secure=");
        r.append(self.secure.as_str());
        r.append("; HttpOnly=");
        r.append(self.http_only.as_str());
        r.append(";");
        r
    }
}

/// The current user: name, whether it logged in with lichess, the PKCE code
/// verifier, the session key, whether the session cookie is still to be sent,
/// the game the user watches and the cookie attributes.
///
/// The watched game sits in a locked cell that every clone of a session shares:
/// `watch` on any clone is seen by all of them. The contracts say that clones
/// share the cell; what the cell holds is not modelled.
pub struct UserSession {
    pub username: String,
    pub reg: bool,
    pub code_verifier: String,
    pub session: String,
    pub is_new: bool,
    pub watches: std::sync::Arc<std::sync::Mutex<String>>,
    pub cookie_value: CookieValue,
}

impl Clone for UserSession {
    fn clone(&self) -> (c: Self)
        ensures
            c == *self,
    {
        UserSession {
            username: self.username.clone(),
            reg: self.reg,
            code_verifier: self.code_verifier.clone(),
            session: self.session.clone(),
            is_new: self.is_new,
            watches: share(&self.watches),
            cookie_value: self.cookie_value.clone(),
        }
    }
}

impl UserSession {
    /// The `Set-Cookie` value that a new session sends.
    pub open spec fn cookie_text(&self) -> Seq<char> {
        AXUM_SESSION_COOKIE_NAME@ + "="@ + self.session@ + "; "@ + self.cookie_value.response_text()
            + " max-age="@ + COOKIE_MAX_AGE_TEXT@ + "; Path=/"@
    }

    pub fn new(
        username: &str,
        session: &str,
        reg: bool,
        code_verifier: &str,
        cookie_value: CookieValue,
    ) -> (u: Self)
        ensures
            u.username@ == username@,
            u.session@ == session@,
            u.reg == reg,
            u.code_verifier@ == code_verifier@,
            u.is_new,
            u.cookie_value == cookie_value,
    {
        UserSession {
            username: username.to_owned(),
            reg,
            code_verifier: code_verifier.to_owned(),
            session: session.to_owned(),
            is_new: true,
            watches: arc2(String::new()),
            cookie_value,
        }
    }

    pub fn new_cv(&mut self, code_verifier: &str)
        ensures
            final(self).code_verifier@ == code_verifier@,
            *final(self) == (UserSession { code_verifier: final(self).code_verifier, ..*old(self) }),
    {
        self.code_verifier = code_verifier.to_owned();
    }

    pub fn new_username(&mut self, username: &str)
        ensures
            final(self).username@ == username@,
            *final(self) == (UserSession { username: final(self).username, ..*old(self) }),
    {
        self.username = username.to_owned();
    }

    pub fn new_register(&mut self)
        ensures
            *final(self) == (UserSession { reg: true, ..*old(self) }),
    {
        self.reg = true;
    }

    pub fn not_new(&mut self)
        ensures
            *final(self) == (UserSession { is_new: false, ..*old(self) }),
    {
        self.is_new = false;
    }

    /// The `Set-Cookie` header value to send: only for a new session.
    pub fn headers(&self) -> (h: Option<String>)
        ensures
            self.is_new ==> h is Some && h->0@ == self.cookie_text(),
            !self.is_new ==> h is None,
    {
        if self.is_new {
            let mut cookie = AXUM_SESSION_COOKIE_NAME.to_owned();
            cookie.append("=");
            cookie.append(self.session.as_str());
            cookie.append("; ");
            let attributes = self.cookie_value.response();
            cookie.append(attributes.as_str());
            cookie.append(" max-age=");
            cookie.append(COOKIE_MAX_AGE_TEXT);
            cookie.append("; Path=/");
            Some(cookie)
        } else {
            None
        }
    }

    /// Remember the game that this user watches, in the cell that every clone
    /// of this session shares.
    pub fn watch(&self, watching: &str) {
        store_text(&self.watches, watching);
    }

    /// The game that this user watches, as the shared cell holds it now.
    pub fn watching(&self) -> (w: String) {
        load_text(&self.watches)
    }
}

#[verifier::external_type_specification]
#[verifier::external_body]
pub struct ExConnectionManager(::redis::aio::ConnectionManager);

/// Redis connection. Used only for saving sessions.
pub struct RedisCli {
    pub con: ::redis::aio::ConnectionManager,
}

/// Seconds in a day.
pub const DAY_SECS: usize = 86400;

impl RedisCli {
    /// Session lifetime in seconds: one year for a registered user, two days else.
    pub fn ttl_days(&self, reg: bool) -> (ttl: usize)
        ensures
            reg ==> ttl == 365 * DAY_SECS,
            !reg ==> ttl == 2 * DAY_SECS,
    {
        let day: usize = 60 * 60 * 24;
        if reg {
            return day * 365;
        }
        day * 2
    }
}

/// After login this is returned, to update the username on the frontend.
pub struct VueUser {
    pub username: String,
    pub logged: bool,
}

impl From<&UserSession> for VueUser {
    fn from(user: &UserSession) -> (v: Self) {
        VueUser { username: user.username.clone(), logged: user.reg }
    }
}

impl vstd::std_specs::convert::FromSpecImpl<&UserSession> for VueUser {
    open spec fn obeys_from_spec() -> bool {
        true
    }

    open spec fn from_spec(user: &UserSession) -> VueUser {
        VueUser { username: user.username, logged: user.reg }
    }
}

} // verus!
