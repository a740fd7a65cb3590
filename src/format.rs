//! Text formats: each predicate tells whether a string has a fixed shape.
use vstd::prelude::*;
use crate::pattern::{accepts, regex_accepts};

verus! {

/// Word, dot or hyphen characters, `@`, more of them, a dot, word characters.
pub const EMAIL_PATTERN: &'static str = r"^[\w\.-]+@[\w\.-]+\.\w+$";

/// `http` or `https`, `://`, then one or more non-space characters.
pub const URL_PATTERN: &'static str = r"^(http|https)://[^\s]+$";

/// An optional `+`, a digit, then at least 7 digits, spaces or hyphens.
pub const PHONE_PATTERN: &'static str = r"^\+?\d[\d\s\-]{7,}$";

/// Four dot-separated decimal groups, each from 0 to 255.
pub const IPV4_PATTERN: &'static str = r"^((25[0-5]|2[0-4]\d|[01]?\d\d?)\.){3}(25[0-5]|2[0-4]\d|[01]?\d\d?)$";

/// Eight colon-separated groups of 1 to 4 hexadecimal digits; `::` is not read.
pub const IPV6_PATTERN: &'static str = r"^([0-9a-fA-F]{1,4}:){7}[0-9a-fA-F]{1,4}$";

/// Six colon-separated pairs of hexadecimal digits.
pub const MAC_PATTERN: &'static str = r"^([0-9A-Fa-f]{2}:){5}[0-9A-Fa-f]{2}$";

/// A digit anywhere in the text.
pub const DIGIT_PATTERN: &'static str = r"\d";

/// A character that is not a word character, or an underscore, anywhere in the text.
pub const SYMBOL_PATTERN: &'static str = r"[\W_]";

/// Fewest characters a strong password may have.
pub const MIN_PASSWORD_CHARS: usize = 8;

pub open spec fn email_accepts(s: Seq<char>) -> bool {
    regex_accepts(EMAIL_PATTERN@, s)
}

pub open spec fn url_accepts(s: Seq<char>) -> bool {
    regex_accepts(URL_PATTERN@, s)
}

pub open spec fn phone_accepts(s: Seq<char>) -> bool {
    regex_accepts(PHONE_PATTERN@, s)
}

pub open spec fn ipv4_accepts(s: Seq<char>) -> bool {
    regex_accepts(IPV4_PATTERN@, s)
}

pub open spec fn ipv6_accepts(s: Seq<char>) -> bool {
    regex_accepts(IPV6_PATTERN@, s)
}

pub open spec fn ip_address_accepts(s: Seq<char>) -> bool {
    ipv4_accepts(s) || ipv6_accepts(s)
}

pub open spec fn mac_accepts(s: Seq<char>) -> bool {
    regex_accepts(MAC_PATTERN@, s)
}

pub open spec fn is_lower_letter(c: char) -> bool {
    'a' <= c && c <= 'z'
}

pub open spec fn is_upper_letter(c: char) -> bool {
    'A' <= c && c <= 'Z'
}

/// At least 8 characters on one line, with a lowercase and an uppercase letter.
pub open spec fn password_shape(s: Seq<char>) -> bool {
    &&& s.len() >= MIN_PASSWORD_CHARS
    &&& forall|i: int| 0 <= i < s.len() ==> s[i] != '\n'
    &&& exists|i: int| 0 <= i < s.len() && is_lower_letter(#[trigger] s[i])
    &&& exists|i: int| 0 <= i < s.len() && is_upper_letter(#[trigger] s[i])
}

/// The password shape, with a digit and a symbol (a non-word character or `_`).
pub open spec fn password_accepts(s: Seq<char>) -> bool {
    &&& password_shape(s)
    &&& regex_accepts(DIGIT_PATTERN@, s)
    &&& regex_accepts(SYMBOL_PATTERN@, s)
}

/// Whether `input` is a whole email address of the basic shape.
pub fn is_email(input: &str) -> (r: bool)
    ensures
        r == email_accepts(input@),
{
    accepts(EMAIL_PATTERN, input)
}

/// Whether `input` is a whole `http` or `https` URL.
pub fn is_url(input: &str) -> (r: bool)
    ensures
        r == url_accepts(input@),
{
    accepts(URL_PATTERN, input)
}

/// Whether `input` is a whole phone number.
pub fn is_phone_number(input: &str) -> (r: bool)
    ensures
        r == phone_accepts(input@),
{
    accepts(PHONE_PATTERN, input)
}

/// Whether `input` is a strong password, given whether it holds a digit and
/// whether it holds a symbol.
pub fn passes_password_rule(input: &str, has_digit: bool, has_symbol: bool) -> (r: bool)
    ensures
        r == (password_shape(input@) && has_digit && has_symbol),
{
    let mut count: usize = 0;
    let mut one_line = true;
    let mut has_lower = false;
    let mut has_upper = false;
    for ch in it: input.chars()
        invariant
            it.seq() == input@,
            count == if it.index() < MIN_PASSWORD_CHARS { it.index() as int } else { MIN_PASSWORD_CHARS as int },
            one_line == forall|i: int| 0 <= i < it.index() ==> input@[i] != '\n',
            has_lower == exists|i: int| 0 <= i < it.index() && is_lower_letter(#[trigger] input@[i]),
            has_upper == exists|i: int| 0 <= i < it.index() && is_upper_letter(#[trigger] input@[i]),
    {
        let ghost k = it.index();
        assert(input@[k] == ch);
        if count < MIN_PASSWORD_CHARS {
            count = count + 1;
        }
        if ch == '\n' {
            one_line = false;
        }
        if 'a' <= ch && ch <= 'z' {
            has_lower = true;
        }
        if 'A' <= ch && ch <= 'Z' {
            has_upper = true;
        }
    }
    count >= MIN_PASSWORD_CHARS && one_line && has_lower && has_upper && has_digit && has_symbol
}

/// Whether `input` is a strong password: see `password_accepts`.
pub fn is_strong_password(input: &str) -> (r: bool)
    ensures
        r == password_accepts(input@),
{
    let has_digit = accepts(DIGIT_PATTERN, input);
    let has_symbol = accepts(SYMBOL_PATTERN, input);
    passes_password_rule(input, has_digit, has_symbol)
}

/// Whether `text` reads as one JSON value.
pub uninterp spec fn json_parses(text: Seq<char>) -> bool;

/// Relies on `serde_json::from_str` into `serde_json::Value`: it returns `Ok`
/// exactly when the text is one well-formed JSON value.
#[verifier::external_body]
fn parses_as_json(text: &str) -> (r: bool)
    ensures
        r == json_parses(text@),
{
    serde_json::from_str::<serde_json::Value>(text).is_ok()
}

/// Whether `input` is well-formed JSON; malformed text is a `false`, not an error.
pub fn is_json(input: &str) -> (r: bool)
    ensures
        r == json_parses(input@),
{
    parses_as_json(input)
}

/// Whether `input` is a dotted IPv4 address.
pub fn is_ipv4(input: &str) -> (r: bool)
    ensures
        r == ipv4_accepts(input@),
{
    accepts(IPV4_PATTERN, input)
}

/// Whether `input` is a full eight-group IPv6 address.
pub fn is_ipv6(input: &str) -> (r: bool)
    ensures
        r == ipv6_accepts(input@),
{
    accepts(IPV6_PATTERN, input)
}

/// Whether `input` is an IPv4 or an IPv6 address.
pub fn is_ip_address(input: &str) -> (r: bool)
    ensures
        r == ip_address_accepts(input@),
{
    is_ipv4(input) || is_ipv6(input)
}

/// Whether `input` is a colon-separated MAC address.
pub fn is_mac_address(input: &str) -> (r: bool)
    ensures
        r == mac_accepts(input@),
{
    accepts(MAC_PATTERN, input)
}

/// A string is an IP address exactly when it is an IPv4 or an IPv6 address.
pub proof fn lemma_ip_address_is_either_version(s: Seq<char>)
    ensures
        ip_address_accepts(s) == (ipv4_accepts(s) || ipv6_accepts(s)),
{
}

} // verus!
