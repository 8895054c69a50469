use lishuuro::database::mongo::Player;
use lishuuro::database::redis::{CookieValue, UserSession, VueUser};
use lishuuro::database::serde_helpers::{
    array_i32_duration, duration_i32, duration_i32_array, i32_duration, serialize_subvariant,
};
use lishuuro::models::mongo::User;
use lishuuro::models::redis::{RedisSessions, UserSession as OldSession, DAY};

fn session(name: &str, reg: bool) -> UserSession {
    UserSession::new(name, "s3ss10n", reg, "cv", CookieValue::new("Lax", "true", "true"))
}

#[test]
fn cookie_attributes_for_lax_and_others() {
    let lax = CookieValue::new("Lax", "true", "true");
    assert_eq!(lax.response(), "SameSite=Lax;");
    let none = CookieValue::new("None", "true", "false");
    assert_eq!(none.response(), "SameSite=None; Secure=true; HttpOnly=false;");
    let empty = CookieValue::default();
    assert_eq!(empty.response(), "SameSite=; Secure=; HttpOnly=;");
}

#[test]
fn new_session_sends_its_cookie_once() {
    let mut s = session("Anon-abc", false);
    assert!(s.is_new);
    assert_eq!(
        s.headers(),
        Some(String::from("axum_session=s3ss10n; SameSite=Lax; max-age=31536000; Path=/"))
    );
    s.not_new();
    assert_eq!(s.headers(), None);
    assert_eq!(s.username, "Anon-abc");
}

#[test]
fn session_updates_touch_one_field() {
    let mut s = session("Anon-abc", false);
    s.new_cv("other");
    assert_eq!(s.code_verifier, "other");
    s.new_username("lichessUser");
    assert_eq!(s.username, "lichessUser");
    assert!(!s.reg);
    s.new_register();
    assert!(s.reg);
    assert_eq!(s.watching(), "");
    let earlier = s.clone();
    s.watch("game42");
    assert_eq!(s.watching(), "game42");
    assert_eq!(earlier.watching(), "game42");
    earlier.watch("game43");
    assert_eq!(s.watching(), "game43");
    assert_eq!(s.session, "s3ss10n");
}

#[test]
fn vue_user_takes_name_and_login() {
    let s = session("someone", true);
    let v = VueUser::from(&s);
    assert_eq!(v.username, "someone");
    assert!(v.logged);
}

#[test]
fn player_from_session() {
    let s = session("p1", true);
    let p = Player::from_session_at(&s, 1234);
    assert_eq!(p._id, "p1");
    assert!(p.reg);
    assert_eq!(p.created_at, 1234);
    let q = Player::from(&session("p2", false));
    assert_eq!(q._id, "p2");
    assert!(!q.reg);
}

#[test]
fn new_user_is_not_registered() {
    let u = User::new(String::from("Anon-x"));
    assert_eq!(u._id, "Anon-x");
    assert_eq!(u.username, "Anon-x");
    assert!(!u.reg);
}

#[test]
fn old_session_fields() {
    let s = OldSession::new("u", true, "v");
    assert_eq!(s.username, "u");
    assert!(s.reg);
    assert_eq!(s.code_verifier, "v");
}

#[test]
fn old_sessions_last_a_year_or_three_days() {
    let sessions = RedisSessions {
        store: async_session::MemoryStore::new(),
        client: redis::Client::open("redis://127.0.0.1/").unwrap(),
    };
    assert_eq!(sessions.ttl(true), 365 * DAY);
    assert_eq!(sessions.ttl(false), 2 * 86400);
}

#[test]
fn stored_durations() {
    assert_eq!(duration_i32(90_000), 90_000);
    assert_eq!(duration_i32(-1), u64::MAX);
    assert_eq!(i32_duration(5), 5);
    assert_eq!(i32_duration(u64::MAX), 60_000);
    assert_eq!(duration_i32_array([1, 2]), [1, 2]);
    assert_eq!(array_i32_duration([7, u64::MAX]), [7, 1000]);
    assert_eq!(serialize_subvariant(Some(2)), 2);
    assert_eq!(serialize_subvariant(None), 4);
}
