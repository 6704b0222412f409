//! The request surface: the request value the pipeline consumes, the HTTP
//! method, the audit-log reason header, and the endpoint builders.



pub mod channel;
pub mod guild;
pub mod json_body;
pub mod multipart;
pub mod validate;
pub mod webhook;


use vstd::prelude::*;
use crate::encoding::{pct_encode_non_alnum_ascii, pct_encoded_non_alnum, percent_encode_non_alnum};

verus! {

/// An HTTP request method.
#[derive(Clone, Copy, Debug, Eq, Hash, PartialEq, Structural)]
pub enum Method {
    /// DELETE method.
    Delete,
    /// GET method.
    Get,
    /// PATCH method.
    Patch,
    /// POST method.
    Post,
    /// PUT method.
    Put,
}

/// Wire name of each method.
pub open spec fn method_name_spec(m: Method) -> Seq<char> {
    match m {
        Method::Delete => "DELETE"@,
        Method::Get => "GET"@,
        Method::Patch => "PATCH"@,
        Method::Post => "POST"@,
        Method::Put => "PUT"@,
    }
}

impl Method {
    /// Wire name of the method.
    pub fn name(self) -> (r: &'static str)
        ensures
            r@ == method_name_spec(self),
    {
        match self {
            Method::Delete => "DELETE",
            Method::Get => "GET",
            Method::Patch => "PATCH",
            Method::Post => "POST",
            Method::Put => "PUT",
        }
    }

    /// Whether a bodiless request with this method must announce an explicit
    /// zero content length.
    pub fn requires_zero_length(self) -> (r: bool)
        ensures
            r == (self == Method::Put || self == Method::Post || self == Method::Patch),
    {
        matches!(self, Method::Put | Method::Post | Method::Patch)
    }
}

/// One request, as the pipeline consumes it: an opaque tuple of method,
/// rate-limit bucket path, concrete path, body, extra headers and the
/// authorization flag.
#[derive(Clone, Debug)]
pub struct Request {
    /// The method.
    pub method: Method,
    /// The path the rate limiter buckets this request under.
    pub bucket_path: String,
    /// The concrete path under the versioned API root, query included.
    pub path: String,
    /// The JSON body, when the request carries one.
    pub body: Option<Vec<u8>>,
    /// Files to send as a multipart form, each a name with its bytes.
    pub files: Vec<(String, Vec<u8>)>,
    /// Extra headers for this request alone.
    pub headers: Vec<(String, String)>,
    /// Whether the authorization token accompanies the request.
    pub use_authorization_token: bool,
}

/// The view of a parameter list.
pub open spec fn params_view(ps: Seq<String>) -> Seq<Seq<char>> {
    ps.map_values(|p: String| p@)
}

/// The query parameters after the first, each preceded by `&`.
pub open spec fn query_tail_spec(ps: Seq<Seq<char>>) -> Seq<char>
    decreases ps.len(),
{
    if ps.len() == 0 {
        Seq::empty()
    } else {
        "&"@ + ps[0] + query_tail_spec(ps.drop_first())
    }
}

/// A query string: empty without parameters, else `?` and the parameters
/// joined by `&`.
pub open spec fn query_spec(ps: Seq<Seq<char>>) -> Seq<char> {
    if ps.len() == 0 {
        Seq::empty()
    } else {
        "?"@ + ps[0] + query_tail_spec(ps.drop_first())
    }
}

/// Appending a parameter appends a separator and the parameter.
pub proof fn lemma_query_tail_push(ps: Seq<Seq<char>>, x: Seq<char>)
    ensures
        query_tail_spec(ps.push(x)) == query_tail_spec(ps) + "&"@ + x,
    decreases ps.len(),
{
    assert(query_tail_spec(ps.push(x)) == "&"@ + ps.push(x)[0] + query_tail_spec(
        ps.push(x).drop_first(),
    ));
    if ps.len() == 0 {
        assert(ps.push(x).drop_first() =~= Seq::<Seq<char>>::empty());
        assert(ps.push(x)[0] == x);
        assert(query_tail_spec(Seq::<Seq<char>>::empty()) == Seq::<char>::empty());
        assert(query_tail_spec(ps.push(x)) =~= query_tail_spec(ps) + "&"@ + x);
    } else {
        lemma_query_tail_push(ps.drop_first(), x);
        assert(ps.push(x).drop_first() =~= ps.drop_first().push(x));
        assert(ps.push(x)[0] == ps[0]);
        assert(query_tail_spec(ps.push(x)) =~= query_tail_spec(ps) + "&"@ + x);
    }
}

/// Join query parameters into a query string.
pub fn query_join(ps: &Vec<String>) -> (r: String)
    ensures
        r@ == query_spec(params_view(ps@)),
{
    let n = ps.len();
    if n == 0 {
        let r = String::new();
        proof {
            assert(params_view(ps@).len() == 0);
            assert(r@ =~= query_spec(params_view(ps@)));
        }
        return r;
    }
    let mut r = "?".to_owned();
    r.append(ps[0].as_str());
    proof {
        assert(params_view(ps@.subrange(0, 1)).drop_first() =~= Seq::<Seq<char>>::empty());
        assert(r@ =~= "?"@ + params_view(ps@)[0] + query_tail_spec(
            params_view(ps@.subrange(0, 1)).drop_first(),
        ));
    }
    let mut i: usize = 1;
    while i < n
        invariant
            1 <= i <= n,
            n == ps@.len(),
            r@ == "?"@ + params_view(ps@)[0] + query_tail_spec(
                params_view(ps@.subrange(0, i as int)).drop_first(),
            ),
        decreases n - i,
    {
        proof {
            let pre = params_view(ps@.subrange(0, i as int)).drop_first();
            let next = params_view(ps@.subrange(0, i as int + 1)).drop_first();
            assert(next =~= pre.push(ps@[i as int]@));
            lemma_query_tail_push(pre, ps@[i as int]@);
        }
        r.append("&");
        r.append(ps[i].as_str());
        proof {
            assert(r@ =~= "?"@ + params_view(ps@)[0] + query_tail_spec(
                params_view(ps@.subrange(0, i as int + 1)).drop_first(),
            ));
        }
        i = i + 1;
    }
    proof {
        assert(ps@.subrange(0, n as int) =~= ps@);
        assert(r@ =~= query_spec(params_view(ps@)));
    }
    r
}

/// A query parameter from a `name=` prefix and a numeric value.
pub fn param_u64(prefix: &str, value: u64) -> (r: String)
    ensures
        r@ == prefix@ + crate::text::dec_of(value as nat),
{
    let v = crate::text::u64_to_dec(value);
    let r = prefix.to_owned().concat(v.as_str());
    proof {
        assert(r@ =~= prefix@ + crate::text::dec_of(value as nat));
    }
    r
}

/// A query parameter from a `name=` prefix and a string value, taken as
/// given.
pub fn param_str(prefix: &str, value: &str) -> (r: String)
    ensures
        r@ == prefix@ + value@,
{
    let r = prefix.to_owned().concat(value);
    proof {
        assert(r@ =~= prefix@ + value@);
    }
    r
}

/// A query parameter from a `name=` prefix and a boolean value.
pub fn param_bool(prefix: &str, value: bool) -> (r: String)
    ensures
        r@ == prefix@ + (if value {
            "true"@
        } else {
            "false"@
        }),
{
    let r = prefix.to_owned().concat(
        if value {
            "true"
        } else {
            "false"
        },
    );
    proof {
        assert(r@ =~= prefix@ + (if value {
            "true"@
        } else {
            "false"@
        }));
    }
    r
}

/// The audit-log reason exceeds the allowed length.
#[derive(Clone, Debug)]
pub enum AuditLogReasonError {
    /// The reason is longer than 512 characters.
    ReasonInvalid {
        /// The reason as provided.
        reason: String,
    },
}

/// Validate an audit-log reason: at most 512 characters.
pub fn validate_audit_reason(reason: String) -> (r: Result<String, AuditLogReasonError>)
    ensures
        match r {
            Ok(ok) => reason@.len() <= 512 && ok == reason,
            Err(e) => reason@.len() > 512 && (e matches AuditLogReasonError::ReasonInvalid {
                reason: re,
            } && re == reason),
        },
{
    if reason.as_str().unicode_len() > 512 {
        Err(AuditLogReasonError::ReasonInvalid { reason })
    } else {
        Ok(reason)
    }
}

/// The audit-log reason header for a reason: the fixed name with the
/// percent-encoded reason as its value.
pub open spec fn audit_header_spec(reason: Seq<char>) -> (Seq<char>, Seq<char>) {
    ("x-audit-log-reason"@, pct_encoded_non_alnum(reason))
}

/// Build the audit-log reason header.
pub fn audit_header(reason: &str) -> (r: (String, String))
    ensures
        r.0@ == audit_header_spec(reason@).0,
        r.1@ == audit_header_spec(reason@).1,
        crate::encoding::all_ascii(reason@) ==> r.1@ == pct_encode_non_alnum_ascii(reason@),
{
    ("x-audit-log-reason".to_owned(), percent_encode_non_alnum(reason))
}

} // verus!
