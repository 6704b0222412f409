//! The durable resume token: the session id and sequence a caller keeps
//! across restarts, with a text encoding whose decode provably inverts it.
//!
//! The encoding is `<sequence>:<session id>`: the decimal sequence, one
//! colon, then the session id verbatim. The sequence comes first because its
//! digits cannot contain a colon, so the first colon always splits the two
//! fields, whatever the session id holds.

use vstd::prelude::*;
use crate::text::{
    all_dec_digits, dec_of, dec_val, find_char, find_char_at, lemma_dec_of_shape,
    lemma_dec_roundtrip, lemma_find_char_first,
};

verus! {

/// What a shard needs to resume a session: the server-issued session id and
/// the last sequence number observed.
#[derive(Clone, Debug)]
pub struct ResumeSession {
    /// Server-issued session identifier.
    pub session_id: String,
    /// Last observed event sequence number.
    pub sequence: u64,
}

impl PartialEq for ResumeSession {
    fn eq(&self, other: &ResumeSession) -> (r: bool) {
        self.sequence == other.sequence && crate::text::str_eq(
            self.session_id.as_str(),
            other.session_id.as_str(),
        )
    }
}

impl vstd::std_specs::cmp::PartialEqSpecImpl for ResumeSession {
    open spec fn obeys_eq_spec() -> bool {
        true
    }

    open spec fn eq_spec(&self, other: &ResumeSession) -> bool {
        self.sequence == other.sequence && self.session_id@ =~= other.session_id@
    }
}

/// The encoded form of a resume token.
pub open spec fn encode_resume_spec(session_id: Seq<char>, sequence: u64) -> Seq<char> {
    dec_of(sequence as nat) + seq![':'] + session_id
}

/// What decoding a text yields: the digits before the first colon as the
/// sequence, the rest as the session id; nothing if there is no colon, no
/// digit before it, a stray character among the digits, or a sequence too
/// large for a `u64`.
pub open spec fn decode_resume_spec(s: Seq<char>) -> Option<(u64, Seq<char>)> {
    let d = find_char(s, ':', 0);
    let digits = s.subrange(0, d);
    if d == s.len() || digits.len() == 0 || !all_dec_digits(digits) || dec_val(digits) > u64::MAX {
        Option::None
    } else {
        Option::Some((dec_val(digits) as u64, s.subrange(d + 1, s.len() as int)))
    }
}

impl ResumeSession {
    /// Encode the token as `<sequence>:<session id>`.
    pub fn encode(&self) -> (r: String)
        ensures
            r@ == encode_resume_spec(self.session_id@, self.sequence),
    {
        let r = crate::text::u64_to_dec(self.sequence).concat(":").concat(
            self.session_id.as_str(),
        );
        proof {
            reveal_strlit(":");
            assert(r@ =~= dec_of(self.sequence as nat) + seq![':'] + self.session_id@);
        }
        r
    }

    /// Decode a token encoded by [`ResumeSession::encode`].
    pub fn decode(s: &str) -> (r: Option<ResumeSession>)
        ensures
            match r {
                Some(rs) => decode_resume_spec(s@) == Option::Some((rs.sequence, rs.session_id@)),
                None => decode_resume_spec(s@) is None,
            },
    {
        let len = s.unicode_len();
        let d = find_char_at(s, ':');
        if d == len {
            return None;
        }
        let digits = s.substring_char(0, d);
        let sequence = match crate::text::parse_u64_dec(digits) {
            Some(v) => v,
            None => {
                return None;
            },
        };
        let session_id = s.substring_char(d + 1, len).to_owned();
        Some(ResumeSession { session_id, sequence })
    }
}

/// Encoding a resume token and decoding the result gives the token back.
pub proof fn lemma_resume_roundtrip(session_id: Seq<char>, sequence: u64)
    ensures
        decode_resume_spec(encode_resume_spec(session_id, sequence)) == Option::Some(
            (sequence, session_id),
        ),
{
    let digits = dec_of(sequence as nat);
    let enc = encode_resume_spec(session_id, sequence);
    lemma_dec_of_shape(sequence as nat);
    lemma_dec_roundtrip(sequence as nat);
    assert(enc[digits.len() as int] == ':');
    assert forall|j: int| 0 <= j < digits.len() implies enc[j] != ':' by {
        assert(enc[j] == digits[j]);
        assert(crate::text::is_dec_digit(digits[j]));
    }
    lemma_find_char_first(enc, ':', digits.len() as int, 0);
    assert(enc.subrange(0, digits.len() as int) =~= digits);
    assert(enc.subrange(digits.len() as int + 1, enc.len() as int) =~= session_id);
}

} // verus!
