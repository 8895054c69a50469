use lishuuro::lichess::login::{anon_name, game_id_from, random_game_id, random_username, username_from};
use lishuuro::lichess::model::{callback_uri, curr_url, PostLoginToken, Token};
use lishuuro::names::{copy_names, find_key, has_name, index_of, insert_name, put_key, remove_key, remove_name};
use lishuuro::text::{contains_str, push_decimal, str_eq, strip_symbols};

#[test]
fn str_eq_compares_characters() {
    assert!(str_eq("shuuro", "shuuro"));
    assert!(!str_eq("shuuro", "shuuro12"));
    assert!(!str_eq("ab", "ba"));
    assert!(str_eq("", ""));
}

#[test]
fn contains_str_finds_runs() {
    assert!(contains_str("shuuro12", "12"));
    assert!(contains_str("shuuroFairy", "uro"));
    assert!(!contains_str("standard", "shuuro"));
    assert!(contains_str("abc", ""));
    assert!(!contains_str("ab", "abc"));
}

#[test]
fn strip_symbols_drops_base64_signs() {
    assert_eq!(strip_symbols("a+b/c=d=="), "abcd");
    assert_eq!(strip_symbols("+/="), "");
    assert_eq!(strip_symbols("xyz"), "xyz");
}

#[test]
fn push_decimal_writes_without_leading_zeros() {
    let mut s = String::from("t=");
    push_decimal(&mut s, 0);
    assert_eq!(s, "t=0");
    let mut s = String::new();
    push_decimal(&mut s, 4071);
    assert_eq!(s, "4071");
    let mut s = String::new();
    push_decimal(&mut s, u32::MAX);
    assert_eq!(s, "4294967295");
}

#[test]
fn username_from_known_bytes() {
    // base64 of [0xfb, 0xff] is "+/8=", which loses its symbols.
    assert_eq!(username_from(&[0xfb, 0xff]), "Anon-8");
    assert_eq!(username_from(&[0, 0, 0]), "Anon-AAAA");
    assert_eq!(username_from(&[104, 105]), "Anon-aGk");
}

#[test]
fn game_id_from_known_bytes() {
    assert_eq!(game_id_from(&[0xff, 0xff, 0xff]), "");
    assert_eq!(game_id_from(&[104, 105]), "aGk");
    assert_eq!(game_id_from(&[1, 2, 3, 4, 5, 6, 7, 8, 9, 10]), "AQIDBAUGBwgJCg");
}

#[test]
fn random_names_have_their_shape() {
    for _ in 0..50 {
        let name = random_username();
        assert!(name.starts_with("Anon-"));
        assert!(!name.contains('+') && !name.contains('/') && !name.contains('='));
        assert!(name.len() <= 5 + 8);
        let id = random_game_id();
        assert!(!id.contains('+') && !id.contains('/') && !id.contains('='));
        assert!(id.len() <= 16);
    }
}

#[test]
fn lichess_model_values() {
    let t = PostLoginToken::new(String::from("verifier"), "code1");
    assert_eq!(t.code, "code1");
    assert_eq!(t.code_verifier, "verifier");
    let token = Token::default();
    assert_eq!(token.access_token, "");
    assert_eq!(token.expires_in, 0);
    assert_eq!(curr_url(true), ("https://lishuuro.org/w", "https://lishuuro.org"));
    assert_eq!(curr_url(false), ("http://localhost:8080", "http://localhost:3000"));
}

#[test]
fn name_sets_hold_each_name_once() {
    let mut v: Vec<String> = Vec::new();
    insert_name(&mut v, "a");
    insert_name(&mut v, "b");
    insert_name(&mut v, "a");
    assert_eq!(v.len(), 2);
    assert!(has_name(&v, "b"));
    assert_eq!(index_of(&v, "b"), Some(1));
    assert_eq!(index_of(&v, "c"), None);
    remove_name(&mut v, "a");
    assert_eq!(v, vec![String::from("b")]);
    remove_name(&mut v, "zzz");
    assert_eq!(copy_names(&v), vec![String::from("b")]);
}

#[test]
fn keyed_entries_replace_and_remove() {
    let mut v: Vec<(String, u32)> = Vec::new();
    put_key(&mut v, "x", 1);
    put_key(&mut v, "y", 2);
    put_key(&mut v, "x", 3);
    assert_eq!(v.len(), 2);
    let i = find_key(&v, "x").unwrap();
    assert_eq!(v[i].1, 3);
    assert_eq!(remove_key(&mut v, "y"), Some((String::from("y"), 2)));
    assert_eq!(remove_key(&mut v, "y"), None);
    assert_eq!(find_key(&v, "y"), None);
}

#[test]
fn callback_address() {
    assert_eq!(callback_uri(true), "https://lishuuro.org/w/callback");
    assert_eq!(callback_uri(false), "http://localhost:8080/callback");
}

#[test]
fn anonymous_names_from_base64_text() {
    assert_eq!(anon_name("ab+c/d="), "Anon-abcd");
    assert_eq!(anon_name(""), "Anon-");
}

#[test]
fn base64_names_from_bytes() {
    assert_eq!(username_from(&[77, 97, 110]), "Anon-TWFu");
    assert_eq!(username_from(&[77]), "Anon-TQ");
    assert_eq!(game_id_from(&[251, 255]), "8");
    assert_eq!(game_id_from(&[0, 0, 0, 1]), "AAAAAQ");
}
