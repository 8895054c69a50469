use vstd::prelude::*;

verus! {

/// The code and PKCE verifier posted to obtain a lichess token.
pub struct PostLoginToken<'a> {
    pub code: &'a str,
    pub code_verifier: String,
}

impl<'a> PostLoginToken<'a> {
    pub fn new(code_verifier: String, code: &'a str) -> (t: Self)
        ensures
            t.code == code,
            t.code_verifier == code_verifier,
    {
        PostLoginToken { code, code_verifier }
    }
}

/// The lichess access token.
pub struct Token {
    pub access_token: String,
    pub expires_in: i32,
}

impl Token {
    /// An empty token: the login failed.
    pub fn default() -> (t: Self)
        ensures
            t.access_token@ == Seq::<char>::empty(),
            t.expires_in == 0,
    {
        Token { access_token: String::new(), expires_in: 0 }
    }
}

/// The lichess account of a logged user.
pub struct LoginData {
    pub id: String,
    pub username: String,
}

/// Address of the websocket server and of the frontend.
pub open spec fn urls(prod: bool) -> (Seq<char>, Seq<char>) {
    if prod {
        ("https://lishuuro.org/w"@, "https://lishuuro.org"@)
    } else {
        ("http://localhost:8080"@, "http://localhost:3000"@)
    }
}

/// Address of the server and of the frontend, in production or locally.
pub fn curr_url(prod: bool) -> (r: (&'static str, &'static str))
    ensures
        (r.0@, r.1@) == urls(prod),
{
    if prod {
        ("https://lishuuro.org/w", "https://lishuuro.org")
    } else {
        ("http://localhost:8080", "http://localhost:3000")
    }
}

/// The address that lichess sends a user back to after login.
pub fn callback_uri(prod: bool) -> (uri: String)
    ensures
        uri@ == urls(prod).0 + "/callback"@,
{
    let mut uri = curr_url(prod).0.to_owned();
    uri.append("/callback");
    uri
}

} // verus!
