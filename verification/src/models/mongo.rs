use vstd::prelude::*;

verus! {

/// A user record: a new user is not registered.
pub struct User {
    pub _id: String,
    pub username: String,
    pub reg: bool,
}

impl User {
    pub fn new(username: String) -> (u: Self)
        ensures
            u._id@ == username@,
            u.username@ == username@,
            !u.reg,
    {
        User { username: username.clone(), _id: username, reg: false }
    }
}

/// A news article.
pub struct NewsArticle {
    pub _id: String,
    pub title: String,
    pub user: String,
    pub date: String,
    pub category: String,
    pub text: String,
    pub headline: String,
}

} // verus!
