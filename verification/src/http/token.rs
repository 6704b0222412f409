//! Token normalization. An authentication token must carry a recognized
//! prefix on the wire: `Bot ` for bot accounts or `Bearer ` for OAuth users.
//! A token that lacks both is a bot token and gains the `Bot ` prefix; one
//! that already carries a prefix passes through unchanged.

use vstd::prelude::*;
use crate::text::{has_prefix, starts_with_str};

verus! {

/// Whether a token already carries a recognized authentication prefix.
pub open spec fn has_auth_prefix(t: Seq<char>) -> bool {
    has_prefix(t, "Bot "@) || has_prefix(t, "Bearer "@)
}

/// The normalized form of a token: unchanged when a recognized prefix is
/// present, prefixed with `Bot ` otherwise.
pub open spec fn spec_normalize_token(t: Seq<char>) -> Seq<char> {
    if has_auth_prefix(t) {
        t
    } else {
        "Bot "@ + t
    }
}

/// Normalize a token to carry an authentication prefix.
pub fn normalize_token(token: String) -> (r: String)
    ensures
        r@ == spec_normalize_token(token@),
{
    if starts_with_str(token.as_str(), "Bot ") || starts_with_str(token.as_str(), "Bearer ") {
        token
    } else {
        let r = "Bot ".to_owned().concat(token.as_str());
        proof {
            assert(r@ =~= "Bot "@ + token@);
        }
        r
    }
}

/// Normalizing a token that already begins with `Bot ` is the identity.
pub proof fn lemma_normalize_bot_identity(t: Seq<char>)
    requires
        has_prefix(t, "Bot "@),
    ensures
        spec_normalize_token(t) == t,
{
}

/// Normalizing is idempotent: a second pass changes nothing.
pub proof fn lemma_normalize_idempotent(t: Seq<char>)
    ensures
        spec_normalize_token(spec_normalize_token(t)) == spec_normalize_token(t),
{
    if !has_auth_prefix(t) {
        let p = "Bot "@;
        let n = p + t;
        assert(n.subrange(0, p.len() as int) =~= p);
        assert(has_prefix(n, p));
    }
}

} // verus!
