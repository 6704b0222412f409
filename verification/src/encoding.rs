//! Trusted boundary to the encoding crates: URL percent-encoding and URL
//! parsing. Each wrapper names exactly one outside call and states what that
//! call returns; everything built on top is verified against these
//! contracts.

use vstd::prelude::*;

verus! {

/// Whether every character of a string is ASCII.
pub open spec fn all_ascii(s: Seq<char>) -> bool {
    forall|i: int| 0 <= i < s.len() ==> ((#[trigger] s[i]) as int) < 128
}

/// Uppercase hexadecimal digit for a value below sixteen.
pub open spec fn hex_upper(d: int) -> char {
    if d == 0 {
        '0'
    } else if d == 1 {
        '1'
    } else if d == 2 {
        '2'
    } else if d == 3 {
        '3'
    } else if d == 4 {
        '4'
    } else if d == 5 {
        '5'
    } else if d == 6 {
        '6'
    } else if d == 7 {
        '7'
    } else if d == 8 {
        '8'
    } else if d == 9 {
        '9'
    } else if d == 10 {
        'A'
    } else if d == 11 {
        'B'
    } else if d == 12 {
        'C'
    } else if d == 13 {
        'D'
    } else if d == 14 {
        'E'
    } else {
        'F'
    }
}

/// The three-character percent escape of a byte value.
pub open spec fn percent_escape(b: int) -> Seq<char> {
    seq!['%', hex_upper(b / 16), hex_upper(b % 16)]
}

/// Whether an ASCII character passes URL encoding unescaped: alphanumerics
/// and `-`, `_`, `.`, `~`.
pub open spec fn is_url_safe(c: char) -> bool {
    ('0' <= c && c <= '9') || ('A' <= c && c <= 'Z') || ('a' <= c && c <= 'z') || c == '-' || c
        == '_' || c == '.' || c == '~'
}

/// URL encoding of an ASCII string: safe characters pass, every other one
/// becomes its percent escape.
pub open spec fn urlencode_ascii(s: Seq<char>) -> Seq<char>
    decreases s.len(),
{
    if s.len() == 0 {
        Seq::empty()
    } else {
        (if is_url_safe(s[0]) {
            seq![s[0]]
        } else {
            percent_escape(s[0] as int)
        }) + urlencode_ascii(s.drop_first())
    }
}

/// Whether an ASCII character is alphanumeric.
pub open spec fn is_ascii_alphanumeric(c: char) -> bool {
    ('0' <= c && c <= '9') || ('A' <= c && c <= 'Z') || ('a' <= c && c <= 'z')
}

/// Percent-encoding of an ASCII string under the non-alphanumeric set:
/// alphanumerics pass, every other character becomes its percent escape.
pub open spec fn pct_encode_non_alnum_ascii(s: Seq<char>) -> Seq<char>
    decreases s.len(),
{
    if s.len() == 0 {
        Seq::empty()
    } else {
        (if is_ascii_alphanumeric(s[0]) {
            seq![s[0]]
        } else {
            percent_escape(s[0] as int)
        }) + pct_encode_non_alnum_ascii(s.drop_first())
    }
}

/// What `urlencoding::encode` returns on a string; a function of the
/// characters alone.
pub uninterp spec fn url_encoded(s: Seq<char>) -> Seq<char>;

/// Relies on urlencoding::encode: it percent-encodes every byte except
/// ASCII alphanumerics and `-`, `_`, `.`, `~`, with uppercase hex digits; on
/// ASCII input that is exactly `urlencode_ascii` of the characters.
#[verifier::external_body]
pub fn url_encode(s: &str) -> (r: String)
    ensures
        r@ == url_encoded(s@),
        all_ascii(s@) ==> r@ == urlencode_ascii(s@),
        s@.len() == 0 ==> r@.len() == 0,
{
    urlencoding::encode(s).into_owned()
}

/// What `percent_encoding::utf8_percent_encode` with the non-alphanumeric
/// set returns on a string; a function of the characters alone.
pub uninterp spec fn pct_encoded_non_alnum(s: Seq<char>) -> Seq<char>;

/// Relies on percent_encoding::utf8_percent_encode with NON_ALPHANUMERIC:
/// it percent-encodes every byte that is not an ASCII alphanumeric, with
/// uppercase hex digits; on ASCII input that is exactly
/// `pct_encode_non_alnum_ascii` of the characters.
#[verifier::external_body]
pub fn percent_encode_non_alnum(s: &str) -> (r: String)
    ensures
        r@ == pct_encoded_non_alnum(s@),
        all_ascii(s@) ==> r@ == pct_encode_non_alnum_ascii(s@),
        s@.len() == 0 ==> r@.len() == 0,
{
    percent_encoding::utf8_percent_encode(s, percent_encoding::NON_ALPHANUMERIC).to_string()
}

#[verifier::external_type_specification]
#[verifier::external_body]
pub struct ExUrlParseError(url::ParseError);

/// What `url::Url::parse` makes of a string: the parsed URL's serialization
/// when the string is an absolute URL, nothing otherwise; a function of the
/// characters alone.
pub uninterp spec fn url_normalized(s: Seq<char>) -> Option<Seq<char>>;

/// Relies on url::Url::parse and url::Url::as_str: parse accepts exactly
/// the absolute URLs, and the returned URL's serialization is its identity —
/// URLs compare equal exactly when their serializations do.
#[verifier::external_body]
pub fn parse_url(s: &str) -> (r: Result<String, url::ParseError>)
    ensures
        match r {
            Ok(u) => url_normalized(s@) == Option::Some(u@),
            Err(_) => url_normalized(s@) is None,
        },
{
    match url::Url::parse(s) {
        Ok(u) => Ok(u.as_str().to_owned()),
        Err(e) => Err(e),
    }
}

} // verus!
