//! The rate-limit headers a response carries, parsed from plain name/value
//! pairs. A response yields one of three shapes: no rate-limit headers at
//! all, the full per-route set, or a global-limit notice on a 429.

use vstd::prelude::*;
use crate::text::{
    all_dec_digits, dec_val, eq_ignore_ascii_case, eq_ignore_ascii_case_spec, find_char,
    find_char_at, lemma_find_char_range, parse_u64_dec,
};

verus! {

/// Rate-limit information carried by one response.
#[derive(Clone, Debug, Eq, PartialEq, Structural)]
pub enum RatelimitHeaders {
    /// The response carried no rate-limit headers: the route is not limited.
    NotPresent,
    /// The full per-route set was present.
    Present {
        /// Whether the response was flagged as globally limited.
        global: bool,
        /// Window capacity.
        limit: u64,
        /// Tokens left in the window.
        remaining: u64,
        /// Milliseconds until the window resets.
        reset_after: u64,
    },
    /// A 429 flagged as global: all routes must pause.
    GlobalLimited {
        /// Milliseconds until the global cooldown ends.
        reset_after: u64,
    },
}

/// Why a response's rate-limit headers could not be understood.
#[derive(Clone, Copy, Debug, Eq, PartialEq, Structural)]
pub enum HeaderParseError {
    /// The capacity header was present but not a decimal number.
    LimitInvalid,
    /// The remaining-count header was present but not a decimal number.
    RemainingInvalid,
    /// The reset-after header was absent where needed, or not a decimal
    /// number of seconds.
    ResetAfterInvalid,
    /// Only part of the per-route header set was present.
    Incomplete,
}

/// Milliseconds contributed by a fraction-of-a-second digit string: the first
/// three digits, right-padded with zeros.
pub open spec fn frac_ms(f: Seq<char>) -> int {
    if f.len() >= 3 {
        dec_val(f.subrange(0, 3)) as int
    } else if f.len() == 2 {
        dec_val(f) * 10 as int
    } else {
        dec_val(f) * 100 as int
    }
}

/// The value, in milliseconds, of a decimal seconds string such as `64.57`,
/// or nothing if the string is not `digits` or `digits.digits`.
pub open spec fn reset_after_ms_spec(s: Seq<char>) -> Option<int> {
    let d = find_char(s, '.', 0);
    let ip = s.subrange(0, d);
    if ip.len() == 0 || !all_dec_digits(ip) {
        Option::None
    } else if d == s.len() {
        Option::Some(dec_val(ip) * 1000 as int)
    } else {
        let fp = s.subrange(d + 1, s.len() as int);
        if fp.len() == 0 || !all_dec_digits(fp) {
            Option::None
        } else {
            Option::Some(dec_val(ip) * 1000 as int + frac_ms(fp))
        }
    }
}

/// Parse a decimal seconds string to whole milliseconds.
pub fn parse_reset_after_ms(s: &str) -> (r: Option<u64>)
    ensures
        match r {
            Some(v) => reset_after_ms_spec(s@) == Option::Some(v as int),
            None => reset_after_ms_spec(s@) is None || reset_after_ms_spec(s@)->0 > u64::MAX,
        },
{
    let len = s.unicode_len();
    let dot = find_char_at(s, '.');
    proof {
        lemma_find_char_range(s@, '.', 0);
    }
    let int_part = s.substring_char(0, dot);
    let secs = match parse_u64_dec(int_part) {
        Some(v) => v,
        None => {
            proof {
                let ip = s@.subrange(0, dot as int);
                if ip.len() > 0 && all_dec_digits(ip) {
                    // the integer part alone overflows a u64, so the
                    // millisecond value does too
                    assert(dec_val(ip) * 1000 >= dec_val(ip)) by (nonlinear_arith);
                    if dot < len {
                        let fp = s@.subrange(dot as int + 1, len as int);
                        if fp.len() > 0 && all_dec_digits(fp) {
                            assert(reset_after_ms_spec(s@)->0 >= dec_val(ip) * 1000);
                        }
                    }
                }
            }
            return None;
        },
    };
    let frac: u64 = if dot < len {
        let frac_part = s.substring_char(dot + 1, len);
        let frac_len = len - dot - 1;
        if frac_len == 0 {
            return None;
        }
        let frac_take = if frac_len >= 3 {
            s.substring_char(dot + 1, dot + 4)
        } else {
            frac_part
        };
        proof {
            let fp = s@.subrange(dot as int + 1, len as int);
            if frac_len >= 3 {
                assert(fp.subrange(0, 3) =~= s@.subrange(dot as int + 1, dot as int + 4));
            }
        }
        // the up-to-three-digit prefix must itself be digits; check the whole
        // fraction for stray characters as well
        let mut j: usize = dot + 1;
        let mut ok = true;
        while j < len && ok
            invariant
                dot + 1 <= j <= len,
                len == s@.len(),
                dot < len,
                ok ==> forall|k: int|
                    dot + 1 <= k < j ==> crate::text::is_dec_digit(#[trigger] s@[k]),
                !ok ==> !all_dec_digits(s@.subrange(dot as int + 1, len as int)),
            decreases len - j + (if ok { 1int } else { 0int }),
        {
            let c = s.get_char(j);
            if c < '0' || c > '9' {
                proof {
                    let fp = s@.subrange(dot as int + 1, len as int);
                    assert(fp[j - dot - 1] == s@[j as int]);
                    assert(!crate::text::is_dec_digit(fp[j - dot - 1]));
                }
                ok = false;
            } else {
                j = j + 1;
            }
        }
        if !ok {
            return None;
        }
        proof {
            let fp = s@.subrange(dot as int + 1, len as int);
            assert forall|k: int| 0 <= k < fp.len() implies crate::text::is_dec_digit(
                #[trigger] fp[k],
            ) by {
                assert(fp[k] == s@[k + dot + 1]);
            }
        }
        let sub = match parse_u64_dec(frac_take) {
            Some(v) => v,
            None => {
                // unreachable: one to three digits always parse
                proof {
                    let fp = s@.subrange(dot as int + 1, len as int);
                    if frac_len >= 3 {
                        assert(all_dec_digits(frac_take@)) by {
                            assert(forall|k: int|
                                0 <= k < 3 ==> #[trigger] fp.subrange(0, 3)[k] == fp[k]);
                        }
                        crate::text::lemma_dec_val_small(frac_take@);
                    } else {
                        crate::text::lemma_dec_val_small(fp);
                    }
                    assert(false);
                }
                return None;
            },
        };
        proof {
            let fp = s@.subrange(dot as int + 1, len as int);
            if frac_len >= 3 {
                assert(all_dec_digits(frac_take@)) by {
                    assert(forall|k: int| 0 <= k < 3 ==> #[trigger] fp.subrange(0, 3)[k] == fp[k]);
                }
                crate::text::lemma_dec_val_small(frac_take@);
            } else {
                crate::text::lemma_dec_val_small(fp);
            }
        }
        if frac_len >= 3 {
            sub
        } else if frac_len == 2 {
            sub * 10
        } else {
            sub * 100
        }
    } else {
        0
    };
    assert(frac <= 999);
    if secs > (u64::MAX - frac) / 1000 {
        proof {
            assert(secs * 1000 + frac > u64::MAX) by (nonlinear_arith)
                requires
                    secs > (u64::MAX - frac) / 1000,
                    frac <= 999,
            ;
        }
        return None;
    }
    proof {
        assert(secs * 1000 + frac <= u64::MAX) by (nonlinear_arith)
            requires
                secs <= (u64::MAX - frac) / 1000,
                frac <= 999,
        ;
    }
    Some(secs * 1000 + frac)
}

/// The value of the first header whose name matches `name` up to ASCII case,
/// looking from position `i` on.
pub open spec fn find_header_from(h: Seq<(String, String)>, name: Seq<char>, i: int) -> Option<
    Seq<char>,
>
    decreases h.len() - i,
{
    if i < 0 || i >= h.len() {
        Option::None
    } else if eq_ignore_ascii_case_spec(h[i].0@, name) {
        Option::Some(h[i].1@)
    } else {
        find_header_from(h, name, i + 1)
    }
}

/// The value of the first header whose name matches `name` up to ASCII case.
pub open spec fn find_header_spec(h: Seq<(String, String)>, name: Seq<char>) -> Option<Seq<char>> {
    find_header_from(h, name, 0)
}

/// The value of a whole-string decimal header, without a size bound.
pub open spec fn header_num_spec(v: Seq<char>) -> Option<int> {
    if v.len() > 0 && all_dec_digits(v) {
        Option::Some(dec_val(v) as int)
    } else {
        Option::None
    }
}

/// What the rate-limit headers of a response mean, given the response status
/// and the name/value pairs.
pub open spec fn classify_headers_spec(status: u16, h: Seq<(String, String)>) -> Result<
    RatelimitHeaders,
    HeaderParseError,
> {
    let global = find_header_spec(h, "x-ratelimit-global"@) is Some;
    let limit = find_header_spec(h, "x-ratelimit-limit"@);
    let remaining = find_header_spec(h, "x-ratelimit-remaining"@);
    let reset_after = find_header_spec(h, "x-ratelimit-reset-after"@);
    if global && status == 429 {
        match reset_after {
            Option::None => Result::Err(HeaderParseError::ResetAfterInvalid),
            Option::Some(v) => match reset_after_ms_spec(v) {
                Option::None => Result::Err(HeaderParseError::ResetAfterInvalid),
                Option::Some(ms) => if ms > u64::MAX {
                    Result::Err(HeaderParseError::ResetAfterInvalid)
                } else {
                    Result::Ok(RatelimitHeaders::GlobalLimited { reset_after: ms as u64 })
                },
            },
        }
    } else if limit is None && remaining is None && reset_after is None {
        Result::Ok(RatelimitHeaders::NotPresent)
    } else if limit is None || remaining is None || reset_after is None {
        Result::Err(HeaderParseError::Incomplete)
    } else {
        match header_num_spec(limit->0) {
            Option::None => Result::Err(HeaderParseError::LimitInvalid),
            Option::Some(l) => if l > u64::MAX {
                Result::Err(HeaderParseError::LimitInvalid)
            } else {
                match header_num_spec(remaining->0) {
                    Option::None => Result::Err(HeaderParseError::RemainingInvalid),
                    Option::Some(r) => if r > u64::MAX {
                        Result::Err(HeaderParseError::RemainingInvalid)
                    } else {
                        match reset_after_ms_spec(reset_after->0) {
                            Option::None => Result::Err(HeaderParseError::ResetAfterInvalid),
                            Option::Some(ms) => if ms > u64::MAX {
                                Result::Err(HeaderParseError::ResetAfterInvalid)
                            } else {
                                Result::Ok(
                                    RatelimitHeaders::Present {
                                        global,
                                        limit: l as u64,
                                        remaining: r as u64,
                                        reset_after: ms as u64,
                                    },
                                )
                            },
                        }
                    },
                }
            },
        }
    }
}

/// Interpret the rate-limit headers of one response: the full per-route set,
/// a global-limit notice on a 429, or nothing at all.
pub fn classify_headers(status: u16, headers: &Vec<(String, String)>) -> (r: Result<
    RatelimitHeaders,
    HeaderParseError,
>)
    ensures
        r == classify_headers_spec(status, headers@),
{
    let global = find_header(headers, "x-ratelimit-global").is_some();
    let limit = find_header(headers, "x-ratelimit-limit");
    let remaining = find_header(headers, "x-ratelimit-remaining");
    let reset_after = find_header(headers, "x-ratelimit-reset-after");
    if global && status == 429 {
        return match reset_after {
            Option::None => Err(HeaderParseError::ResetAfterInvalid),
            Option::Some(v) => match parse_reset_after_ms(v.as_str()) {
                Option::None => Err(HeaderParseError::ResetAfterInvalid),
                Option::Some(ms) => Ok(RatelimitHeaders::GlobalLimited { reset_after: ms }),
            },
        };
    }
    match (limit, remaining, reset_after) {
        (Option::None, Option::None, Option::None) => Ok(RatelimitHeaders::NotPresent),
        (Option::Some(l), Option::Some(r), Option::Some(ra)) => {
            let l = match parse_u64_dec(l.as_str()) {
                Option::Some(v) => v,
                Option::None => {
                    return Err(HeaderParseError::LimitInvalid);
                },
            };
            let r = match parse_u64_dec(r.as_str()) {
                Option::Some(v) => v,
                Option::None => {
                    return Err(HeaderParseError::RemainingInvalid);
                },
            };
            let ms = match parse_reset_after_ms(ra.as_str()) {
                Option::Some(v) => v,
                Option::None => {
                    return Err(HeaderParseError::ResetAfterInvalid);
                },
            };
            Ok(RatelimitHeaders::Present { global, limit: l, remaining: r, reset_after: ms })
        },
        _ => Err(HeaderParseError::Incomplete),
    }
}

/// Look a header up by name, ASCII case-insensitively.
pub fn find_header<'a>(headers: &'a Vec<(String, String)>, name: &str) -> (r: Option<&'a String>)
    ensures
        match r {
            Some(v) => find_header_spec(headers@, name@) == Option::Some(v@),
            None => find_header_spec(headers@, name@) is None,
        },
{
    let n = headers.len();
    let mut i: usize = 0;
    while i < n
        invariant
            0 <= i <= n,
            n == headers@.len(),
            find_header_spec(headers@, name@) == find_header_from(headers@, name@, i as int),
        decreases n - i,
    {
        if eq_ignore_ascii_case(headers[i].0.as_str(), name) {
            return Some(&headers[i].1);
        }
        i = i + 1;
    }
    None
}

} // verus!
