//! The request pipeline's verified decisions. The pipeline builds the URL
//! and the base headers, refuses all work once the token has proved invalid,
//! and interprets response statuses; the socket send itself, with its
//! deadline, happens outside the library.

use vstd::prelude::*;
use crate::http::token::{normalize_token, spec_normalize_token};
use crate::text::{dec_of, u64_to_dec};

verus! {

/// Fixed user-agent announced on every request.
pub const USER_AGENT: &'static str = "DiscordBot (https://crates.io/crates/discord_core, 0.1.0) discord_core";

/// The platform's error envelope, as plain values: the numeric error code
/// and the human-readable message the server sent with a failure.
#[derive(Clone, Debug)]
pub struct ApiError {
    /// The platform's error code.
    pub code: u64,
    /// The error message.
    pub message: String,
}

/// An error of the request pipeline, by observable behavior.
#[derive(Clone, Debug)]
pub enum HttpError {
    /// Assembling the outbound request failed locally.
    BuildingRequest,
    /// Reading the response body failed.
    ChunkingResponse,
    /// A header value could not be constructed.
    CreatingHeader {
        /// Name of the offending header.
        name: String,
    },
    /// The response body was malformed; the raw bytes are kept.
    Parsing {
        /// Raw response body.
        body: Vec<u8>,
    },
    /// The rate-limit ticket was closed before admission.
    RequestCanceled,
    /// The transport failed.
    RequestError,
    /// The deadline covering send and receive expired.
    RequestTimedOut,
    /// The server answered with a failure status; the status, the raw body
    /// and the parsed error envelope, when the driver decoded one, are kept.
    Response {
        /// Raw response body.
        body: Vec<u8>,
        /// Response status code.
        status: u16,
        /// The parsed error envelope, when the body held one.
        error: Option<ApiError>,
    },
    /// The server answered 503; the raw body is kept and the caller decides
    /// whether to retry.
    ServiceUnavailable {
        /// Raw response body.
        body: Vec<u8>,
    },
    /// The configured token is invalid; the client is latched shut.
    Unauthorized,
}

/// What a response status means to the pipeline.
#[derive(Clone, Copy, Debug, Eq, PartialEq, Structural)]
pub enum StatusDisposition {
    /// A 2xx: wrap the body and return it.
    Success,
    /// A 401: latch the client shut and fail.
    Unauthorized,
    /// A 503: surface it, the caller decides.
    ServiceUnavailable,
    /// A 429: never surfaced; the scheduler backs off and retries.
    RateLimited,
    /// Any other 4xx or 5xx: a structured failure.
    Failure,
}

/// Verified state of the HTTP client: the token, the latch, and the
/// settings that shape every request.
#[derive(Clone, Debug)]
pub struct ClientState {
    /// Normalized authentication token, if one is configured.
    pub token: Option<String>,
    /// Host to reach instead of the platform's, if proxying.
    pub proxy: Option<String>,
    /// Whether to speak plain HTTP instead of HTTPS.
    pub use_http: bool,
    /// Deadline covering socket send and receive, in milliseconds.
    pub timeout_ms: u64,
    /// Whether rate limiting is enabled.
    pub ratelimiter_enabled: bool,
    /// Headers appended to every request, after all others, so they win
    /// where a name repeats.
    pub default_headers: Vec<(String, String)>,
    /// One-way latch: set on the first 401 and never cleared.
    pub token_invalid: bool,
}

impl ClientState {
    /// A fresh client around a token, normalized to carry an authentication
    /// prefix. The defaults: HTTPS to the platform's own host, a ten-second
    /// deadline, rate limiting on, latch open.
    pub fn new(token: String) -> (r: ClientState)
        ensures
            r.token matches Some(t) && t@ == spec_normalize_token(token@),
            r.proxy is None,
            !r.use_http,
            r.timeout_ms == 10000,
            r.ratelimiter_enabled,
            r.default_headers@.len() == 0,
            !r.token_invalid,
    {
        ClientState {
            token: Some(normalize_token(token)),
            proxy: None,
            use_http: false,
            timeout_ms: 10000,
            ratelimiter_enabled: true,
            default_headers: Vec::new(),
            token_invalid: false,
        }
    }

    /// The configured token, normalized.
    pub fn token(&self) -> (r: Option<&String>)
        ensures
            match r {
                Some(t) => self.token matches Some(own) && t@ == own@,
                None => self.token is None,
            },
    {
        self.token.as_ref()
    }

    /// Gate every request on the latch: once the token has proved invalid,
    /// no request may be produced, ever.
    pub fn check_token(&self) -> (r: Result<(), HttpError>)
        ensures
            self.token_invalid <==> (r matches Err(e) && e matches HttpError::Unauthorized),
            !self.token_invalid <==> r is Ok,
    {
        if self.token_invalid {
            Err(HttpError::Unauthorized)
        } else {
            Ok(())
        }
    }

    /// Record a response status on the latch: a 401 latches the client shut
    /// permanently; nothing else changes the latch, and nothing opens it.
    pub fn record_status(&mut self, status: u16)
        ensures
            *final(self) == (ClientState {
                token_invalid: old(self).token_invalid || status == 401,
                ..*old(self)
            }),
    {
        if status == 401 {
            self.token_invalid = true;
        }
    }
}

/// The URL of a request: scheme, proxy host or the platform's own, the
/// versioned API prefix, then the route's path.
pub open spec fn spec_request_url(use_http: bool, proxy: Option<Seq<char>>, path: Seq<char>) -> Seq<
    char,
> {
    let scheme = if use_http {
        "http://"@
    } else {
        "https://"@
    };
    let host = match proxy {
        Option::Some(p) => p,
        Option::None => "discord.com"@,
    };
    scheme + host + "/api/v"@ + dec_of(crate::API_VERSION as nat) + "/"@ + path
}

/// Build the URL for a route path under the client's settings.
pub fn request_url(state: &ClientState, path: &str) -> (r: String)
    ensures
        r@ == spec_request_url(
            state.use_http,
            match state.proxy {
                Some(p) => Some(p@),
                None => None,
            },
            path@,
        ),
{
    let scheme: &str = if state.use_http {
        "http://"
    } else {
        "https://"
    };
    let host: &str = match &state.proxy {
        Some(p) => p.as_str(),
        None => "discord.com",
    };
    let version = u64_to_dec(crate::API_VERSION as u64);
    let r = scheme.to_owned().concat(host).concat("/api/v").concat(version.as_str()).concat(
        "/",
    ).concat(path);
    proof {
        assert(r@ =~= spec_request_url(
            state.use_http,
            match state.proxy {
                Some(p) => Some(p@),
                None => None,
            },
            path@,
        ));
    }
    r
}

/// What the body of a request contributes to its headers.
#[derive(Clone, Debug)]
pub enum ContentKind {
    /// No body; `set_zero_length` when the method is PUT, POST or PATCH,
    /// which must announce an explicit zero length.
    NoBody {
        /// Whether an explicit `content-length: 0` is required.
        set_zero_length: bool,
    },
    /// A JSON body of this many bytes.
    Json {
        /// Body length in bytes.
        length: u64,
    },
    /// A multipart form with its own content type, of this many bytes.
    Form {
        /// The form's content type, boundary included.
        content_type: String,
        /// Body length in bytes.
        length: u64,
    },
}

/// The base headers of a request, in order: authorization when asked for
/// and configured, the body's content headers, then the user-agent.
pub open spec fn spec_base_headers(
    token: Option<Seq<char>>,
    use_authorization: bool,
    content: ContentKind,
) -> Seq<(Seq<char>, Seq<char>)> {
    let auth: Seq<(Seq<char>, Seq<char>)> = match token {
        Option::Some(t) => if use_authorization {
            seq![("authorization"@, t)]
        } else {
            Seq::empty()
        },
        Option::None => Seq::empty(),
    };
    let body: Seq<(Seq<char>, Seq<char>)> = match content {
        ContentKind::NoBody { set_zero_length } => if set_zero_length {
            seq![("content-length"@, "0"@)]
        } else {
            Seq::empty()
        },
        ContentKind::Json { length } => seq![
            ("content-type"@, "application/json"@),
            ("content-length"@, dec_of(length as nat)),
        ],
        ContentKind::Form { content_type, length } => seq![
            ("content-type"@, content_type@),
            ("content-length"@, dec_of(length as nat)),
        ],
    };
    auth + body + seq![("user-agent"@, USER_AGENT@)]
}

/// The view of a header list.
pub open spec fn headers_view(h: Seq<(String, String)>) -> Seq<(Seq<char>, Seq<char>)> {
    h.map_values(|p: (String, String)| (p.0@, p.1@))
}

/// Assemble the base headers of a request. Per-request headers and the
/// client's default headers are appended after these by the sender, defaults
/// last so they win.
pub fn base_headers(state: &ClientState, use_authorization: bool, content: ContentKind) -> (r: Vec<
    (String, String),
>)
    ensures
        headers_view(r@) =~= spec_base_headers(
            match state.token {
                Some(t) => Some(t@),
                None => None,
            },
            use_authorization,
            content,
        ),
{
    let mut headers: Vec<(String, String)> = Vec::new();
    if use_authorization {
        match &state.token {
            Some(t) => {
                headers.push(("authorization".to_owned(), t.clone()));
            },
            None => {},
        }
    }
    match content {
        ContentKind::NoBody { set_zero_length } => {
            if set_zero_length {
                headers.push(("content-length".to_owned(), "0".to_owned()));
            }
        },
        ContentKind::Json { length } => {
            headers.push(("content-type".to_owned(), "application/json".to_owned()));
            headers.push(("content-length".to_owned(), u64_to_dec(length)));
        },
        ContentKind::Form { content_type, length } => {
            headers.push(("content-type".to_owned(), content_type));
            headers.push(("content-length".to_owned(), u64_to_dec(length)));
        },
    }
    headers.push(("user-agent".to_owned(), USER_AGENT.to_owned()));
    headers
}

/// Interpret a response status: 2xx succeeds, 401 latches, 503 and 429 are
/// special, everything else at 400 and above is a structured failure.
pub fn interpret_status(status: u16) -> (r: StatusDisposition)
    ensures
        r == (if 200 <= status < 300 {
            StatusDisposition::Success
        } else if status == 401 {
            StatusDisposition::Unauthorized
        } else if status == 503 {
            StatusDisposition::ServiceUnavailable
        } else if status == 429 {
            StatusDisposition::RateLimited
        } else {
            StatusDisposition::Failure
        }),
{
    if 200 <= status && status < 300 {
        StatusDisposition::Success
    } else if status == 401 {
        StatusDisposition::Unauthorized
    } else if status == 503 {
        StatusDisposition::ServiceUnavailable
    } else if status == 429 {
        StatusDisposition::RateLimited
    } else {
        StatusDisposition::Failure
    }
}


/// Append clones of header pairs to a header list.
fn push_header_clones(dst: &mut Vec<(String, String)>, src: &Vec<(String, String)>)
    ensures
        headers_view(final(dst)@) =~= headers_view(old(dst)@) + headers_view(src@),
{
    let n = src.len();
    let mut i: usize = 0;
    while i < n
        invariant
            0 <= i <= n,
            n == src@.len(),
            dst@.len() == old(dst)@.len() + i,
            forall|j: int| 0 <= j < old(dst)@.len() ==> (#[trigger] dst@[j]) == old(dst)@[j],
            forall|j: int|
                0 <= j < i ==> dst@[old(dst)@.len() + j].0@ == (#[trigger] src@[j]).0@ && dst@[old(
                    dst,
                )@.len() + j].1@ == src@[j].1@,
        decreases n - i,
    {
        dst.push((src[i].0.clone(), src[i].1.clone()));
        i = i + 1;
    }
    proof {
        let all = headers_view(old(dst)@) + headers_view(src@);
        assert forall|j: int| 0 <= j < dst@.len() implies (#[trigger] headers_view(dst@)[j])
            == all[j] by {
            if j < old(dst)@.len() {
                assert(dst@[j] == old(dst)@[j]);
            } else {
                let k = j - old(dst)@.len();
                assert(dst@[old(dst)@.len() + k].0@ == src@[k].0@);
                assert(dst@[old(dst)@.len() + k].1@ == src@[k].1@);
                assert(dst@[j].0@ == src@[k].0@);
                assert(dst@[j].1@ == src@[k].1@);
            }
        }
        assert(headers_view(dst@) =~= all);
    }
}

/// Assemble every header of a request, in send order: the base headers for
/// the client and body, then the request's own, then the client's default
/// headers. The defaults come last, so where a name repeats, the default
/// wins at insertion.
pub fn full_headers(
    state: &ClientState,
    use_authorization: bool,
    content: ContentKind,
    extra: &Vec<(String, String)>,
) -> (r: Vec<(String, String)>)
    ensures
        headers_view(r@) =~= spec_base_headers(
            match state.token {
                Some(t) => Some(t@),
                None => None,
            },
            use_authorization,
            content,
        ) + headers_view(extra@) + headers_view(state.default_headers@),
{
    let mut r = base_headers(state, use_authorization, content);
    push_header_clones(&mut r, extra);
    push_header_clones(&mut r, &state.default_headers);
    r
}

/// What one response means for the pipeline, once the latch has recorded
/// its status.
#[derive(Clone, Debug)]
pub enum ResponseOutcome {
    /// A success: the response body is handed back.
    Success {
        /// Raw response body.
        body: Vec<u8>,
    },
    /// A 429: rate-limit pressure is never surfaced to the caller; the
    /// request must be retried once the global cooldown clears.
    RetryAfterGlobal,
    /// A failure the caller sees.
    Fail {
        /// The error to surface.
        error: HttpError,
    },
}

/// Decide what one response means. A 2xx succeeds with its body; a 429 is
/// never surfaced — the request is retried after the global cooldown; a 401
/// is the unauthorized failure; a 503 surfaces with its body; any other
/// failure surfaces the status and raw body, carrying the error envelope
/// the driver decoded from the body, or the parse failure when it could
/// not.
pub fn response_outcome(status: u16, body: Vec<u8>, api_error: Option<ApiError>) -> (r:
    ResponseOutcome)
    ensures
        200 <= status < 300 ==> (r matches ResponseOutcome::Success { body: b } && b == body),
        status == 429 ==> r is RetryAfterGlobal,
        status == 401 ==> (r matches ResponseOutcome::Fail { error } && error
            matches HttpError::Unauthorized),
        status == 503 ==> (r matches ResponseOutcome::Fail { error } && (error
            matches HttpError::ServiceUnavailable { body: b } && b == body)),
        (!(200 <= status < 300) && status != 429 && status != 401 && status != 503) ==> (r
            matches ResponseOutcome::Fail { error } && (match api_error {
            Option::Some(e) => error matches HttpError::Response {
                body: b,
                status: s,
                error: er,
            } && b == body && s == status && (er matches Some(x) && x == e),
            Option::None => error matches HttpError::Parsing { body: b } && b == body,
        })),
{
    match interpret_status(status) {
        StatusDisposition::Success => ResponseOutcome::Success { body },
        StatusDisposition::RateLimited => ResponseOutcome::RetryAfterGlobal,
        StatusDisposition::Unauthorized => ResponseOutcome::Fail {
            error: HttpError::Unauthorized,
        },
        StatusDisposition::ServiceUnavailable => ResponseOutcome::Fail {
            error: HttpError::ServiceUnavailable { body },
        },
        StatusDisposition::Failure => match api_error {
            Some(e) => ResponseOutcome::Fail {
                error: HttpError::Response { body, status, error: Some(e) },
            },
            None => ResponseOutcome::Fail { error: HttpError::Parsing { body } },
        },
    }
}

/// The latch only closes: recording statuses never reopens a latched
/// client, so once the token has proved invalid, `check_token` refuses
/// every later request.
pub proof fn lemma_token_invalid_latched(before: ClientState, after: ClientState, status: u16)
    requires
        after == (ClientState {
            token_invalid: before.token_invalid || status == 401,
            ..before
        }),
        before.token_invalid,
    ensures
        after.token_invalid,
{
}

} // verus!
