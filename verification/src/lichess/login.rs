use vstd::prelude::*;
use vstd::string::*;

use crate::chance::{random_bytes10, random_bytes6};
use crate::text::{strip_base64_symbols, strip_symbols};

verus! {

/// The digit of the standard base64 alphabet for the six-bit value `v`:
/// `A`-`Z`, `a`-`z`, `0`-`9`, `+` and `/`.
pub open spec fn base64_digit(v: int) -> char {
    if v < 26 {
        (65 + v) as char
    } else if v < 52 {
        (97 + (v - 26)) as char
    } else if v < 62 {
        (48 + (v - 52)) as char
    } else if v == 62 {
        '+'
    } else {
        '/'
    }
}

/// The standard, padded base64 text of `bytes`: every three bytes give four
/// digits of six bits each; a last group of one or two bytes is filled with
/// zero bits and `=` signs up to four characters.
pub open spec fn base64_text(bytes: Seq<u8>) -> Seq<char>
    decreases bytes.len(),
{
    if bytes.len() == 0 {
        Seq::empty()
    } else if bytes.len() == 1 {
        let a = bytes[0] as int;
        seq![base64_digit(a / 4), base64_digit((a % 4) * 16), '=', '=']
    } else if bytes.len() == 2 {
        let a = bytes[0] as int;
        let b = bytes[1] as int;
        seq![base64_digit(a / 4), base64_digit((a % 4) * 16 + b / 16), base64_digit((b % 16) * 4), '=']
    } else {
        let a = bytes[0] as int;
        let b = bytes[1] as int;
        let c = bytes[2] as int;
        seq![
            base64_digit(a / 4),
            base64_digit((a % 4) * 16 + b / 16),
            base64_digit((b % 16) * 4 + c / 64),
            base64_digit(c % 64),
        ] + base64_text(bytes.subrange(3, bytes.len() as int))
    }
}

/// Calls `base64::encode`, which writes the standard alphabet with padding:
/// the text is `base64_text` of the bytes.
#[verifier::external_body]
fn encode(input: &[u8]) -> (s: String)
    ensures
        s@ == base64_text(input@),
{
    base64::encode(input)
}

/// Name of an anonymous player from a base64 text: "Anon-" and the text
/// without `+`, `/` and `=`.
pub fn anon_name(encoded: &str) -> (name: String)
    ensures
        name@ == "Anon-"@ + strip_base64_symbols(encoded@),
{
    let mut name = "Anon-".to_owned();
    let stripped = strip_symbols(encoded);
    name.append(stripped.as_str());
    name
}

/// Name of an anonymous player made from random bytes: "Anon-" and their
/// base64 text without `+`, `/` and `=`.
pub fn username_from(bytes: &[u8]) -> (name: String)
    ensures
        name@ == "Anon-"@ + strip_base64_symbols(base64_text(bytes@)),
{
    let text = encode(bytes);
    anon_name(text.as_str())
}

/// Game id made from random bytes: their base64 text without `+`, `/` and `=`.
pub fn game_id_from(bytes: &[u8]) -> (id: String)
    ensures
        id@ == strip_base64_symbols(base64_text(bytes@)),
{
    let text = encode(bytes);
    strip_symbols(text.as_str())
}

/// If anon then generate random username from six random bytes.
pub fn random_username() -> (name: String)
    ensures
        exists|bytes: Seq<u8>|
            bytes.len() == 6 && name@ == "Anon-"@ + strip_base64_symbols(#[trigger] base64_text(bytes)),
{
    let bytes = random_bytes6();
    let name = username_from(bytes.as_slice());
    name
}

/// Generate a random game id from ten random bytes.
pub fn random_game_id() -> (id: String)
    ensures
        exists|bytes: Seq<u8>|
            bytes.len() == 10 && id@ == strip_base64_symbols(#[trigger] base64_text(bytes)),
{
    let bytes = random_bytes10();
    game_id_from(bytes.as_slice())
}

} // verus!
