//! Webhook endpoint builders: executing a webhook, updating a webhook by
//! token, and updating a message a webhook produced — with the embed model
//! the message limits are counted over.

use vstd::prelude::*;
use vstd::string::StringSliceAdditionalSpecFns;
use crate::request::json_body::{
    dec_bytes, jid, json_array, json_array_bytes, json_null_bytes, json_object,
    json_object_bytes, json_string_bytes, jstr, jnull, members_view, items_view,
};
use crate::request::guild::{headers_pairs_view, reason_headers_spec};
use crate::request::validate;
use crate::request::{params_view, query_join, query_spec, Method, Request};
use crate::text::{dec_of, u64_to_dec};

verus! {

/// Maximum number of embeds a webhook message may carry.
pub const EMBED_COUNT_LIMIT: usize = 10;

/// Maximum total character count of one embed's text.
pub const EMBED_TOTAL_LIMIT: u64 = 6000;

/// The textual parts of an embed that count against the embed size limit.
#[derive(Clone, Debug)]
pub struct Embed {
    /// Title text.
    pub title: Option<String>,
    /// Description text.
    pub description: Option<String>,
    /// Footer text.
    pub footer_text: Option<String>,
    /// Author name.
    pub author_name: Option<String>,
    /// Inline fields, each a name and a value.
    pub fields: Vec<(String, String)>,
}

/// Character count of an optional text.
pub open spec fn opt_len(s: Option<String>) -> int {
    match s {
        Option::Some(x) => x@.len() as int,
        Option::None => 0,
    }
}

/// Total character count of an embed's inline fields.
pub open spec fn fields_total(fs: Seq<(String, String)>) -> int
    decreases fs.len(),
{
    if fs.len() == 0 {
        0
    } else {
        fs[0].0@.len() + fs[0].1@.len() + fields_total(fs.drop_first())
    }
}

/// Total character count of an embed's text.
pub open spec fn embed_total(e: Embed) -> int {
    opt_len(e.title) + opt_len(e.description) + opt_len(e.footer_text) + opt_len(e.author_name)
        + fields_total(e.fields@)
}

/// A prefix of the fields counts no more than the whole.
proof fn lemma_fields_total_prefix(fs: Seq<(String, String)>, i: int)
    requires
        0 <= i <= fs.len(),
    ensures
        fields_total(fs.subrange(i, fs.len() as int)) <= fields_total(fs),
        fields_total(fs) == fields_total(fs.subrange(0, i)) + fields_total(
            fs.subrange(i, fs.len() as int),
        ),
        fields_total(fs.subrange(0, i)) >= 0,
        fields_total(fs) >= 0,
    decreases i,
{
    if i == 0 {
        assert(fs.subrange(0, fs.len() as int) =~= fs);
        assert(fs.subrange(0, 0) =~= Seq::<(String, String)>::empty());
        lemma_fields_total_nonneg(fs);
    } else {
        lemma_fields_total_prefix(fs, i - 1);
        let a = fs.subrange(0, i - 1);
        let b = fs.subrange(0, i);
        let ra = fs.subrange(i - 1, fs.len() as int);
        let rb = fs.subrange(i, fs.len() as int);
        assert(ra[0] == fs[i - 1]);
        assert(ra.drop_first() =~= rb);
        assert(b.drop_last() =~= a);
        lemma_fields_total_last(b);
        lemma_fields_total_nonneg(rb);
    }
}

/// Total of a non-empty field list, from the last element.
proof fn lemma_fields_total_last(fs: Seq<(String, String)>)
    requires
        fs.len() > 0,
    ensures
        fields_total(fs) == fields_total(fs.drop_last()) + fs.last().0@.len()
            + fs.last().1@.len(),
    decreases fs.len(),
{
    if fs.len() == 1 {
        assert(fs.drop_last() =~= Seq::<(String, String)>::empty());
        assert(fs.drop_first() =~= Seq::<(String, String)>::empty());
    } else {
        lemma_fields_total_last(fs.drop_first());
        assert(fs.drop_first().drop_last() =~= fs.drop_last().drop_first());
        assert(fs.drop_first().last() == fs.last());
        assert(fs.drop_last()[0] == fs[0]);
    }
}

/// A field total is never negative.
proof fn lemma_fields_total_nonneg(fs: Seq<(String, String)>)
    ensures
        fields_total(fs) >= 0,
    decreases fs.len(),
{
    if fs.len() > 0 {
        lemma_fields_total_nonneg(fs.drop_first());
    }
}

/// Whether an embed's text fits the total size limit.
pub fn embed_within_limit(e: &Embed) -> (r: bool)
    ensures
        r == (embed_total(*e) <= EMBED_TOTAL_LIMIT),
{
    let mut acc: u64 = 0;
    let t = match &e.title {
        Some(s) => s.as_str().unicode_len(),
        None => 0,
    };
    if t > 6000 {
        proof {
            lemma_fields_total_nonneg(e.fields@);
        }
        return false;
    }
    acc = acc + t as u64;
    let d = match &e.description {
        Some(s) => s.as_str().unicode_len(),
        None => 0,
    };
    if d > 6000 {
        proof {
            lemma_fields_total_nonneg(e.fields@);
        }
        return false;
    }
    acc = acc + d as u64;
    let f = match &e.footer_text {
        Some(s) => s.as_str().unicode_len(),
        None => 0,
    };
    if f > 6000 {
        proof {
            lemma_fields_total_nonneg(e.fields@);
        }
        return false;
    }
    acc = acc + f as u64;
    let a = match &e.author_name {
        Some(s) => s.as_str().unicode_len(),
        None => 0,
    };
    if a > 6000 {
        proof {
            lemma_fields_total_nonneg(e.fields@);
        }
        return false;
    }
    acc = acc + a as u64;
    if acc > 6000 {
        proof {
            lemma_fields_total_nonneg(e.fields@);
        }
        return false;
    }
    let n = e.fields.len();
    let mut i: usize = 0;
    while i < n
        invariant
            0 <= i <= n,
            n == e.fields@.len(),
            acc as int == opt_len(e.title) + opt_len(e.description) + opt_len(e.footer_text)
                + opt_len(e.author_name) + fields_total(e.fields@.subrange(0, i as int)),
            acc <= 6000,
        decreases n - i,
    {
        proof {
            lemma_fields_total_prefix(e.fields@, i as int);
            lemma_fields_total_prefix(e.fields@, i as int + 1);
            assert(e.fields@.subrange(0, i as int + 1).drop_last() =~= e.fields@.subrange(
                0,
                i as int,
            ));
            lemma_fields_total_last(e.fields@.subrange(0, i as int + 1));
        }
        let name_len = e.fields[i].0.as_str().unicode_len();
        let value_len = e.fields[i].1.as_str().unicode_len();
        proof {
            let rest = e.fields@.subrange(i as int, n as int);
            assert(rest[0] == e.fields@[i as int]);
            assert(rest.drop_first() =~= e.fields@.subrange(i as int + 1, n as int));
            lemma_fields_total_nonneg(e.fields@.subrange(i as int + 1, n as int));
        }
        if name_len > 6000 || value_len > 6000 {
            return false;
        }
        let add = name_len as u64 + value_len as u64;
        if acc + add > 6000 {
            return false;
        }
        acc = acc + add;
        i = i + 1;
    }
    proof {
        assert(e.fields@.subrange(0, n as int) =~= e.fields@);
    }
    true
}

/// The members of one embed's JSON form, in field order.
pub open spec fn embed_members(e: Embed) -> Seq<(Seq<u8>, Seq<u8>)> {
    (match e.title {
        Option::Some(t) => seq![
            ("title".spec_bytes(), json_string_bytes(vstd::utf8::encode_utf8(t@))),
        ],
        Option::None => Seq::empty(),
    }) + (match e.description {
        Option::Some(d) => seq![
            ("description".spec_bytes(), json_string_bytes(vstd::utf8::encode_utf8(d@))),
        ],
        Option::None => Seq::empty(),
    }) + (match e.footer_text {
        Option::Some(f) => seq![
            (
                "footer".spec_bytes(),
                json_object_bytes(
                    seq![
                        ("text".spec_bytes(), json_string_bytes(vstd::utf8::encode_utf8(f@))),
                    ],
                ),
            ),
        ],
        Option::None => Seq::empty(),
    }) + (match e.author_name {
        Option::Some(a) => seq![
            (
                "author".spec_bytes(),
                json_object_bytes(
                    seq![
                        ("name".spec_bytes(), json_string_bytes(vstd::utf8::encode_utf8(a@))),
                    ],
                ),
            ),
        ],
        Option::None => Seq::empty(),
    }) + seq![("fields".spec_bytes(), json_array_bytes(embed_fields_items(e.fields@)))]
}

/// The items of an embed's field array.
pub open spec fn embed_fields_items(fs: Seq<(String, String)>) -> Seq<Seq<u8>> {
    fs.map_values(
        |f: (String, String)|
            json_object_bytes(
                seq![
                    ("name".spec_bytes(), json_string_bytes(vstd::utf8::encode_utf8(f.0@))),
                    ("value".spec_bytes(), json_string_bytes(vstd::utf8::encode_utf8(f.1@))),
                ],
            ),
    )
}

/// The JSON form of one embed.
#[verifier::rlimit(100)]
pub fn embed_json(e: &Embed) -> (r: Vec<u8>)
    ensures
        r@ == json_object_bytes(embed_members(*e)),
{
    let mut members: Vec<(Vec<u8>, Vec<u8>)> = Vec::new();
    match &e.title {
        Some(t) => {
            members.push(("title".as_bytes_vec(), jstr(t.as_str())));
        },
        None => {},
    }
    match &e.description {
        Some(d) => {
            members.push(("description".as_bytes_vec(), jstr(d.as_str())));
        },
        None => {},
    }
    match &e.footer_text {
        Some(f) => {
            let mut inner: Vec<(Vec<u8>, Vec<u8>)> = Vec::new();
            inner.push(("text".as_bytes_vec(), jstr(f.as_str())));
            proof {
                assert(members_view(inner@) =~= seq![
                    ("text".spec_bytes(), json_string_bytes(vstd::utf8::encode_utf8(f@))),
                ]);
            }
            members.push(("footer".as_bytes_vec(), json_object(&inner)));
        },
        None => {},
    }
    match &e.author_name {
        Some(a) => {
            let mut inner: Vec<(Vec<u8>, Vec<u8>)> = Vec::new();
            inner.push(("name".as_bytes_vec(), jstr(a.as_str())));
            proof {
                assert(members_view(inner@) =~= seq![
                    ("name".spec_bytes(), json_string_bytes(vstd::utf8::encode_utf8(a@))),
                ]);
            }
            members.push(("author".as_bytes_vec(), json_object(&inner)));
        },
        None => {},
    }
    let n = e.fields.len();
    let mut items: Vec<Vec<u8>> = Vec::new();
    let mut i: usize = 0;
    while i < n
        invariant
            0 <= i <= n,
            n == e.fields@.len(),
            items@.len() == i,
            forall|j: int|
                0 <= j < i ==> (#[trigger] items@[j])@ == embed_fields_items(e.fields@)[j],
        decreases n - i,
    {
        let mut inner: Vec<(Vec<u8>, Vec<u8>)> = Vec::new();
        inner.push(("name".as_bytes_vec(), jstr(e.fields[i].0.as_str())));
        inner.push(("value".as_bytes_vec(), jstr(e.fields[i].1.as_str())));
        proof {
            assert(members_view(inner@) =~= seq![
                (
                    "name".spec_bytes(),
                    json_string_bytes(vstd::utf8::encode_utf8(e.fields@[i as int].0@)),
                ),
                (
                    "value".spec_bytes(),
                    json_string_bytes(vstd::utf8::encode_utf8(e.fields@[i as int].1@)),
                ),
            ]);
        }
        items.push(json_object(&inner));
        i = i + 1;
    }
    proof {
        assert(items_view(items@) =~= embed_fields_items(e.fields@));
    }
    members.push(("fields".as_bytes_vec(), json_array(&items)));
    proof {
        assert(members_view(members@) =~= embed_members(*e));
    }
    json_object(&members)
}

/// Kind of failure when updating a webhook message.
#[derive(Clone, Debug)]
pub enum UpdateWebhookMessageErrorType {
    /// Content is over 2000 characters.
    ContentInvalid {
        /// The content as provided.
        content: String,
    },
    /// One embed's text totals over the limit.
    EmbedTooLarge {
        /// The embeds as provided.
        embeds: Vec<Embed>,
        /// Index of the embed that is too large.
        index: usize,
    },
    /// More embeds than the limit allows.
    TooManyEmbeds {
        /// The embeds as provided.
        embeds: Vec<Embed>,
    },
}

/// A webhook's message cannot be updated as configured.
#[derive(Clone, Debug)]
pub struct UpdateWebhookMessageError {
    /// What failed.
    pub kind: UpdateWebhookMessageErrorType,
}

impl UpdateWebhookMessageError {
    /// The kind of failure.
    pub fn kind(&self) -> (r: &UpdateWebhookMessageErrorType)
        ensures
            r == self.kind,
    {
        &self.kind
    }

    /// Consume the error; it never carries an underlying cause.
    pub fn into_source(self) -> (r: Option<String>)
        ensures
            r is None,
    {
        None
    }

    /// Consume the error into its kind and absent cause.
    pub fn into_parts(self) -> (r: (UpdateWebhookMessageErrorType, Option<String>))
        ensures
            r.0 == self.kind,
            r.1 is None,
    {
        (self.kind, None)
    }
}

/// Update a message a webhook produced.
#[derive(Clone, Debug)]
pub struct UpdateWebhookMessage {
    /// The webhook that produced the message.
    pub webhook_id: u64,
    /// The webhook's token; the request authenticates with it instead of
    /// the client token.
    pub token: String,
    /// The message updated.
    pub message_id: u64,
    /// Attachments of the target message to keep, each an id and filename.
    pub attachments: Vec<(u64, String)>,
    /// New content, or null to clear; validated to 2000 characters.
    pub content: Option<Option<String>>,
    /// New embeds, or null to clear; at most ten, each within the size
    /// limit.
    pub embeds: Option<Option<Vec<Embed>>>,
    /// Raw JSON to send instead of the serialized fields.
    pub payload_json: Option<Vec<u8>>,
    /// Files to attach, each a name and its bytes.
    pub files: Vec<(String, Vec<u8>)>,
    /// Audit-log reason, when set.
    pub reason: Option<String>,
}

impl UpdateWebhookMessage {
    /// Configure updating a webhook's message, with nothing changed yet.
    pub fn new(webhook_id: u64, token: String, message_id: u64) -> (r: UpdateWebhookMessage)
        ensures
            r.webhook_id == webhook_id,
            r.token@ == token@,
            r.message_id == message_id,
            r.attachments@.len() == 0,
            r.content is None,
            r.embeds is None,
            r.payload_json is None,
            r.files@.len() == 0,
            r.reason is None,
    {
        UpdateWebhookMessage {
            webhook_id,
            token,
            message_id,
            attachments: Vec::new(),
            content: None,
            embeds: None,
            payload_json: None,
            files: Vec::new(),
            reason: None,
        }
    }

    /// Keep one attachment of the target message.
    pub fn attachment(self, id: u64, filename: String) -> (r: Self)
        ensures
            r == (UpdateWebhookMessage { attachments: r.attachments, ..self }),
            r.attachments@ == self.attachments@.push((id, filename)),
    {
        let mut b = self;
        b.attachments.push((id, filename));
        b
    }

    /// Set the content — at most 2000 characters — or clear it with null.
    pub fn content(self, content: Option<String>) -> (r: Result<Self, UpdateWebhookMessageError>)
        ensures
            match r {
                Ok(b) => match content {
                    Option::Some(c) => c@.len() <= 2000 && b == (UpdateWebhookMessage {
                        content: Some(Some(c)),
                        ..self
                    }),
                    Option::None => b == (UpdateWebhookMessage {
                        content: Some(Option::<String>::None),
                        ..self
                    }),
                },
                Err(e) => (content matches Some(c) && c@.len() > 2000 && (e.kind
                    matches UpdateWebhookMessageErrorType::ContentInvalid { content: x } && x
                    == c)),
            },
    {
        match content {
            Some(c) => {
                if !validate::content_limit(c.as_str()) {
                    return Err(
                        UpdateWebhookMessageError {
                            kind: UpdateWebhookMessageErrorType::ContentInvalid { content: c },
                        },
                    );
                }
                Ok(UpdateWebhookMessage { content: Some(Some(c)), ..self })
            },
            None => Ok(UpdateWebhookMessage { content: Some(None), ..self }),
        }
    }

    /// Set the embeds — at most ten, each within the size limit — or clear
    /// them with null.
    pub fn embeds(self, embeds: Option<Vec<Embed>>) -> (r: Result<
        Self,
        UpdateWebhookMessageError,
    >)
        ensures
            match r {
                Ok(b) => match embeds {
                    Option::Some(es) => es@.len() <= EMBED_COUNT_LIMIT && (forall|j: int|
                        0 <= j < es@.len() ==> embed_total(#[trigger] es@[j])
                            <= EMBED_TOTAL_LIMIT) && b == (UpdateWebhookMessage {
                        embeds: Some(Some(es)),
                        ..self
                    }),
                    Option::None => b == (UpdateWebhookMessage {
                        embeds: Some(Option::<Vec<Embed>>::None),
                        ..self
                    }),
                },
                Err(e) => (embeds matches Some(es) && match e.kind {
                    UpdateWebhookMessageErrorType::TooManyEmbeds { .. } => es@.len()
                        > EMBED_COUNT_LIMIT,
                    UpdateWebhookMessageErrorType::EmbedTooLarge { index, .. } => index
                        < es@.len() && embed_total(es@[index as int]) > EMBED_TOTAL_LIMIT,
                    _ => false,
                }),
            },
    {
        match embeds {
            Some(es) => {
                if es.len() > EMBED_COUNT_LIMIT {
                    return Err(
                        UpdateWebhookMessageError {
                            kind: UpdateWebhookMessageErrorType::TooManyEmbeds { embeds: es },
                        },
                    );
                }
                let n = es.len();
                let mut i: usize = 0;
                while i < n
                    invariant
                        0 <= i <= n,
                        n == es@.len(),
                        n <= EMBED_COUNT_LIMIT,
                        embeds == Some(es),
                        forall|j: int|
                            0 <= j < i ==> embed_total(#[trigger] es@[j]) <= EMBED_TOTAL_LIMIT,
                    decreases n - i,
                {
                    if !embed_within_limit(&es[i]) {
                        return Err(
                            UpdateWebhookMessageError {
                                kind: UpdateWebhookMessageErrorType::EmbedTooLarge {
                                    embeds: es,
                                    index: i,
                                },
                            },
                        );
                    }
                    i = i + 1;
                }
                Ok(UpdateWebhookMessage { embeds: Some(Some(es)), ..self })
            },
            None => Ok(UpdateWebhookMessage { embeds: Some(None), ..self }),
        }
    }

    /// Attach a file.
    pub fn file(self, name: String, bytes: Vec<u8>) -> (r: Self)
        ensures
            r == (UpdateWebhookMessage { files: r.files, ..self }),
            r.files@ == self.files@.push((name, bytes)),
    {
        let mut b = self;
        b.files.push((name, bytes));
        b
    }

    /// Send raw JSON instead of the serialized fields.
    pub fn payload_json(self, payload_json: Vec<u8>) -> (r: Self)
        ensures
            r == (UpdateWebhookMessage { payload_json: Some(payload_json), ..self }),
    {
        let mut b = self;
        b.payload_json = Some(payload_json);
        b
    }

    /// Attach an audit-log reason: at most 512 characters.
    pub fn reason(self, reason: String) -> (r: Result<Self, crate::request::AuditLogReasonError>)
        ensures
            match r {
                Ok(b) => reason@.len() <= 512 && b == (UpdateWebhookMessage {
                    reason: Some(reason),
                    ..self
                }),
                Err(_) => reason@.len() > 512,
            },
    {
        let validated = match crate::request::validate_audit_reason(reason) {
            Ok(v) => v,
            Err(e) => {
                return Err(e);
            },
        };
        Ok(UpdateWebhookMessage { reason: Some(validated), ..self })
    }

    /// The body members of the serialized fields, in field order.
    pub open spec fn spec_body_members(&self) -> Seq<(Seq<u8>, Seq<u8>)> {
        (if self.attachments@.len() > 0 {
            seq![
                (
                    "attachments".spec_bytes(),
                    json_array_bytes(attachment_items(self.attachments@)),
                ),
            ]
        } else {
            Seq::empty()
        }) + (match self.content {
            Option::Some(c) => seq![
                ("content".spec_bytes(), match c {
                    Option::Some(x) => json_string_bytes(vstd::utf8::encode_utf8(x@)),
                    Option::None => json_null_bytes(),
                }),
            ],
            Option::None => Seq::empty(),
        }) + (match self.embeds {
            Option::Some(es) => seq![
                ("embeds".spec_bytes(), match es {
                    Option::Some(list) => json_array_bytes(
                        list@.map_values(|e: Embed| json_object_bytes(embed_members(e))),
                    ),
                    Option::None => json_null_bytes(),
                }),
            ],
            Option::None => Seq::empty(),
        })
    }

    /// The JSON the request carries: the raw payload when one was given,
    /// the serialized fields otherwise.
    pub open spec fn spec_payload(&self) -> Seq<u8> {
        match self.payload_json {
            Option::Some(p) => p@,
            Option::None => json_object_bytes(self.spec_body_members()),
        }
    }

    /// The request: a PATCH of the webhook's message route, authenticated by
    /// the webhook token rather than the client token, carrying the payload
    /// as its body and the files for a multipart form, with the audit-log
    /// reason header when one is set.
    #[verifier::rlimit(100)]
    pub fn request(&self) -> (r: Request)
        ensures
            r.method == Method::Patch,
            !r.use_authorization_token,
            r.body matches Some(b) && b@ == self.spec_payload(),
            r.files@.len() == self.files@.len(),
            forall|j: int|
                0 <= j < self.files@.len() ==> (#[trigger] r.files@[j]).0@ == self.files@[j].0@
                    && r.files@[j].1@ == self.files@[j].1@,
            headers_pairs_view(r.headers@) == reason_headers_spec(self.reason),
            r.path@ == "webhooks/"@ + dec_of(self.webhook_id as nat) + "/"@ + self.token@
                + "/messages/"@ + dec_of(self.message_id as nat),
            r.bucket_path@ == r.path@,
    {
        let path = "webhooks/".to_owned().concat(u64_to_dec(self.webhook_id).as_str()).concat(
            "/",
        ).concat(self.token.as_str()).concat("/messages/").concat(
            u64_to_dec(self.message_id).as_str(),
        );
        proof {
            assert(path@ =~= "webhooks/"@ + dec_of(self.webhook_id as nat) + "/"@ + self.token@
                + "/messages/"@ + dec_of(self.message_id as nat));
        }
        let body = match &self.payload_json {
            Some(p) => {
                let mut copy: Vec<u8> = Vec::new();
                crate::request::json_body::extend_bytes(&mut copy, p);
                proof {
                    assert(copy@ =~= p@);
                }
                copy
            },
            None => {
                let mut members: Vec<(Vec<u8>, Vec<u8>)> = Vec::new();
                if self.attachments.len() > 0 {
                    let n = self.attachments.len();
                    let mut items: Vec<Vec<u8>> = Vec::new();
                    let mut i: usize = 0;
                    while i < n
                        invariant
                            0 <= i <= n,
                            n == self.attachments@.len(),
                            items@.len() == i,
                            forall|j: int|
                                0 <= j < i ==> (#[trigger] items@[j])@ == attachment_items(
                                    self.attachments@,
                                )[j],
                        decreases n - i,
                    {
                        let mut inner: Vec<(Vec<u8>, Vec<u8>)> = Vec::new();
                        inner.push(("id".as_bytes_vec(), jid(self.attachments[i].0)));
                        inner.push(
                            ("filename".as_bytes_vec(), jstr(self.attachments[i].1.as_str())),
                        );
                        proof {
                            assert(members_view(inner@) =~= seq![
                                (
                                    "id".spec_bytes(),
                                    json_string_bytes(
                                        dec_bytes(self.attachments@[i as int].0 as nat),
                                    ),
                                ),
                                (
                                    "filename".spec_bytes(),
                                    json_string_bytes(
                                        vstd::utf8::encode_utf8(self.attachments@[i as int].1@),
                                    ),
                                ),
                            ]);
                        }
                        items.push(json_object(&inner));
                        i = i + 1;
                    }
                    proof {
                        assert(items_view(items@) =~= attachment_items(self.attachments@));
                    }
                    members.push(("attachments".as_bytes_vec(), json_array(&items)));
                }
                match &self.content {
                    Some(c) => {
                        let value = match c {
                            Some(x) => jstr(x.as_str()),
                            None => jnull(),
                        };
                        members.push(("content".as_bytes_vec(), value));
                    },
                    None => {},
                }
                match &self.embeds {
                    Some(es) => {
                        let value = match es {
                            Some(list) => {
                                let n = list.len();
                                let mut items: Vec<Vec<u8>> = Vec::new();
                                let mut i: usize = 0;
                                while i < n
                                    invariant
                                        0 <= i <= n,
                                        n == list@.len(),
                                        items@.len() == i,
                                        forall|j: int|
                                            0 <= j < i ==> (#[trigger] items@[j])@
                                                == json_object_bytes(embed_members(list@[j])),
                                    decreases n - i,
                                {
                                    items.push(embed_json(&list[i]));
                                    i = i + 1;
                                }
                                proof {
                                    assert(items_view(items@) =~= list@.map_values(
                                        |e: Embed| json_object_bytes(embed_members(e)),
                                    ));
                                }
                                json_array(&items)
                            },
                            None => jnull(),
                        };
                        members.push(("embeds".as_bytes_vec(), value));
                    },
                    None => {},
                }
                proof {
                    assert(members_view(members@) =~= self.spec_body_members());
                }
                json_object(&members)
            },
        };
        let mut files: Vec<(String, Vec<u8>)> = Vec::new();
        let n = self.files.len();
        let mut i: usize = 0;
        while i < n
            invariant
                0 <= i <= n,
                n == self.files@.len(),
                files@.len() == i,
                forall|j: int|
                    0 <= j < i ==> (#[trigger] files@[j]).0@ == self.files@[j].0@
                        && files@[j].1@ == self.files@[j].1@,
            decreases n - i,
        {
            let name = self.files[i].0.clone();
            let mut bytes: Vec<u8> = Vec::new();
            crate::request::json_body::extend_bytes(&mut bytes, &self.files[i].1);
            proof {
                assert(bytes@ =~= self.files@[i as int].1@);
                assert(name@ == self.files@[i as int].0@);
            }
            files.push((name, bytes));
            i = i + 1;
        }
        let headers = crate::request::guild::reason_headers(&self.reason);
        Request {
            method: Method::Patch,
            bucket_path: path.clone(),
            path,
            body: Some(body),
            files,
            headers,
            use_authorization_token: false,
        }
    }
}

/// The items of the kept-attachments array.
pub open spec fn attachment_items(ats: Seq<(u64, String)>) -> Seq<Seq<u8>> {
    ats.map_values(
        |a: (u64, String)|
            json_object_bytes(
                seq![
                    ("id".spec_bytes(), json_string_bytes(dec_bytes(a.0 as nat))),
                    (
                        "filename".spec_bytes(),
                        json_string_bytes(vstd::utf8::encode_utf8(a.1@)),
                    ),
                ],
            ),
    )
}

/// Update a webhook itself, authenticating with its token.
#[derive(Clone, Debug)]
pub struct UpdateWebhookWithToken {
    /// The webhook updated.
    pub webhook_id: u64,
    /// The webhook's token.
    pub token: String,
    /// New avatar image data, or null to clear.
    pub avatar: Option<Option<String>>,
    /// New name.
    pub name: Option<String>,
}

impl UpdateWebhookWithToken {
    /// Configure updating a webhook by its token, with nothing changed yet.
    pub fn new(webhook_id: u64, token: String) -> (r: UpdateWebhookWithToken)
        ensures
            r.webhook_id == webhook_id,
            r.token@ == token@,
            r.avatar is None,
            r.name is None,
    {
        UpdateWebhookWithToken { webhook_id, token, avatar: None, name: None }
    }

    /// Set the avatar image data, or clear it.
    pub fn avatar(self, avatar: Option<String>) -> (r: Self)
        ensures
            r == (UpdateWebhookWithToken { avatar: Some(avatar), ..self }),
    {
        UpdateWebhookWithToken { avatar: Some(avatar), ..self }
    }

    /// Set the name.
    pub fn name(self, name: String) -> (r: Self)
        ensures
            r == (UpdateWebhookWithToken { name: Some(name), ..self }),
    {
        UpdateWebhookWithToken { name: Some(name), ..self }
    }

    /// The body members of the request, in field order.
    pub open spec fn spec_body_members(&self) -> Seq<(Seq<u8>, Seq<u8>)> {
        (match self.avatar {
            Option::Some(a) => seq![
                ("avatar".spec_bytes(), match a {
                    Option::Some(x) => json_string_bytes(vstd::utf8::encode_utf8(x@)),
                    Option::None => json_null_bytes(),
                }),
            ],
            Option::None => Seq::empty(),
        }) + (match self.name {
            Option::Some(n) => seq![
                ("name".spec_bytes(), json_string_bytes(vstd::utf8::encode_utf8(n@))),
            ],
            Option::None => Seq::empty(),
        })
    }

    /// The request: a PATCH of the webhook's token route, authenticated by
    /// the token rather than the client token, carrying the changed fields
    /// as its JSON body.
    pub fn request(&self) -> (r: Request)
        ensures
            r.method == Method::Patch,
            !r.use_authorization_token,
            r.body matches Some(b) && b@ == json_object_bytes(self.spec_body_members()),
            r.files@.len() == 0,
            r.headers@.len() == 0,
            r.path@ == "webhooks/"@ + dec_of(self.webhook_id as nat) + "/"@ + self.token@,
            r.bucket_path@ == r.path@,
    {
        let path = "webhooks/".to_owned().concat(u64_to_dec(self.webhook_id).as_str()).concat(
            "/",
        ).concat(self.token.as_str());
        proof {
            assert(path@ =~= "webhooks/"@ + dec_of(self.webhook_id as nat) + "/"@ + self.token@);
        }
        let mut members: Vec<(Vec<u8>, Vec<u8>)> = Vec::new();
        match &self.avatar {
            Some(a) => {
                let value = match a {
                    Some(x) => jstr(x.as_str()),
                    None => jnull(),
                };
                members.push(("avatar".as_bytes_vec(), value));
            },
            None => {},
        }
        match &self.name {
            Some(n) => {
                members.push(("name".as_bytes_vec(), jstr(n.as_str())));
            },
            None => {},
        }
        proof {
            assert(members_view(members@) =~= self.spec_body_members());
        }
        let body = json_object(&members);
        Request {
            method: Method::Patch,
            bucket_path: path.clone(),
            path,
            body: Some(body),
            files: Vec::new(),
            headers: Vec::new(),
            use_authorization_token: false,
        }
    }
}

/// Execute a webhook and wait for the created message.
#[derive(Clone, Debug)]
pub struct ExecuteWebhookAndWait {
    /// The webhook executed.
    pub webhook_id: u64,
    /// The webhook's token.
    pub token: String,
    /// The JSON payload to execute with.
    pub payload: Vec<u8>,
}

impl ExecuteWebhookAndWait {
    /// Configure executing a webhook, waiting for the created message.
    pub fn new(webhook_id: u64, token: String, payload: Vec<u8>) -> (r: ExecuteWebhookAndWait)
        ensures
            r.webhook_id == webhook_id,
            r.token@ == token@,
            r.payload@ == payload@,
    {
        ExecuteWebhookAndWait { webhook_id, token, payload }
    }

    /// The request: a POST of the webhook's token route with the wait flag
    /// set, authenticated by the token, carrying the payload as its body.
    pub fn request(&self) -> (r: Request)
        ensures
            r.method == Method::Post,
            !r.use_authorization_token,
            r.body matches Some(b) && b@ == self.payload@,
            r.files@.len() == 0,
            r.headers@.len() == 0,
            r.bucket_path@ == "webhooks/"@ + dec_of(self.webhook_id as nat) + "/"@ + self.token@,
            r.path@ == r.bucket_path@ + query_spec(seq!["wait=true"@]),
    {
        let base = "webhooks/".to_owned().concat(u64_to_dec(self.webhook_id).as_str()).concat(
            "/",
        ).concat(self.token.as_str());
        proof {
            assert(base@ =~= "webhooks/"@ + dec_of(self.webhook_id as nat) + "/"@ + self.token@);
        }
        let mut params: Vec<String> = Vec::new();
        params.push("wait=true".to_owned());
        proof {
            assert(params_view(params@) =~= seq!["wait=true"@]);
        }
        let query = query_join(&params);
        let path = base.clone().concat(query.as_str());
        let mut body: Vec<u8> = Vec::new();
        crate::request::json_body::extend_bytes(&mut body, &self.payload);
        proof {
            assert(body@ =~= self.payload@);
        }
        Request {
            method: Method::Post,
            bucket_path: base,
            path,
            body: Some(body),
            files: Vec::new(),
            headers: Vec::new(),
            use_authorization_token: false,
        }
    }
}

} // verus!
