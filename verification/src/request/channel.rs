//! Channel-side endpoint builders: message pages, reactions, invites, and
//! stage instances.

use vstd::prelude::*;
use vstd::string::StringSliceAdditionalSpecFns;
use crate::encoding::pct_encoded_non_alnum;
use crate::request::json_body::{
    dec_bytes, jid, jnum, json_object, json_object_bytes, json_string_bytes, jstr,
};
use crate::request::validate;
use crate::request::{
    param_bool, param_u64, params_view, query_join, query_spec, Method, Request,
};
use crate::text::{dec_of, u64_to_dec};

verus! {

/// A reaction emoji as requests carry it.
#[derive(Clone, Debug)]
pub enum RequestReactionType {
    /// A custom emoji, by id and name.
    Custom {
        /// Emoji id.
        id: u64,
        /// Emoji name, when known.
        name: Option<String>,
    },
    /// A unicode emoji, by its characters.
    Unicode {
        /// The emoji itself.
        name: String,
    },
}

/// The path form of a reaction emoji: `name:id` for a custom emoji (an `e`
/// stands in for an unknown name), the percent-encoded characters for a
/// unicode one.
pub open spec fn format_emoji_spec(emoji: RequestReactionType) -> Seq<char> {
    match emoji {
        RequestReactionType::Custom { id, name } => (match name {
            Option::Some(n) => n@,
            Option::None => "e"@,
        }) + ":"@ + dec_of(id as nat),
        RequestReactionType::Unicode { name } => pct_encoded_non_alnum(name@),
    }
}

/// Format a reaction emoji for a request path.
pub fn format_emoji(emoji: &RequestReactionType) -> (r: String)
    ensures
        r@ == format_emoji_spec(*emoji),
{
    match emoji {
        RequestReactionType::Custom { id, name } => {
            let base = match name {
                Some(n) => n.clone(),
                None => "e".to_owned(),
            };
            let r = base.concat(":").concat(u64_to_dec(*id).as_str());
            proof {
                assert(r@ =~= format_emoji_spec(*emoji));
            }
            r
        },
        RequestReactionType::Unicode { name } => crate::encoding::percent_encode_non_alnum(
            name.as_str(),
        ),
    }
}

/// Kind of failure when configuring a message page request.
#[derive(Clone, Copy, Debug, Eq, PartialEq, Structural)]
pub enum GetChannelMessagesConfiguredErrorType {
    /// The page size is zero or above one hundred.
    LimitInvalid {
        /// The page size asked for.
        limit: u64,
    },
}

/// A message page request cannot be created as configured.
#[derive(Clone, Copy, Debug, Eq, PartialEq, Structural)]
pub struct GetChannelMessagesConfiguredError {
    /// What failed.
    pub kind: GetChannelMessagesConfiguredErrorType,
}

impl GetChannelMessagesConfiguredError {
    /// The kind of failure.
    pub fn kind(&self) -> (r: &GetChannelMessagesConfiguredErrorType)
        ensures
            r == self.kind,
    {
        &self.kind
    }

    /// Consume the error; it never carries an underlying cause.
    pub fn into_source(self) -> (r: Option<String>)
        ensures
            r is None,
    {
        None
    }

    /// Consume the error into its kind and absent cause.
    pub fn into_parts(self) -> (r: (GetChannelMessagesConfiguredErrorType, Option<String>))
        ensures
            r.0 == self.kind,
            r.1 is None,
    {
        (self.kind, None)
    }
}

/// A page of channel messages anchored at one of `after`, `around` or
/// `before`.
#[derive(Clone, Copy, Debug, Eq, PartialEq, Structural)]
pub struct GetChannelMessagesConfigured {
    /// Return messages after this one.
    pub after: Option<u64>,
    /// Return messages around this one.
    pub around: Option<u64>,
    /// Return messages before this one.
    pub before: Option<u64>,
    /// The channel whose messages are read.
    pub channel_id: u64,
    /// Page size, when set.
    pub limit: Option<u64>,
}

impl GetChannelMessagesConfigured {
    /// Configure a page of messages for a channel. The anchors are mutually
    /// exclusive by construction upstream.
    pub fn new(
        channel_id: u64,
        after: Option<u64>,
        around: Option<u64>,
        before: Option<u64>,
        limit: Option<u64>,
    ) -> (r: GetChannelMessagesConfigured)
        ensures
            r == (GetChannelMessagesConfigured { after, around, before, channel_id, limit }),
    {
        GetChannelMessagesConfigured { after, around, before, channel_id, limit }
    }

    /// Set the page size: at least one and at most one hundred.
    pub fn limit(self, limit: u64) -> (r: Result<Self, GetChannelMessagesConfiguredError>)
        ensures
            match r {
                Ok(b) => 1 <= limit <= 100 && b == (GetChannelMessagesConfigured {
                    limit: Some(limit),
                    ..self
                }),
                Err(e) => !(1 <= limit <= 100) && e.kind
                    == (GetChannelMessagesConfiguredErrorType::LimitInvalid { limit }),
            },
    {
        if !validate::get_channel_messages_limit(limit) {
            return Err(
                GetChannelMessagesConfiguredError {
                    kind: GetChannelMessagesConfiguredErrorType::LimitInvalid { limit },
                },
            );
        }
        Ok(GetChannelMessagesConfigured { limit: Some(limit), ..self })
    }

    /// The query parameters of the request, in order.
    pub open spec fn spec_params(&self) -> Seq<Seq<char>> {
        (match self.after {
            Option::Some(v) => seq!["after="@ + dec_of(v as nat)],
            Option::None => Seq::empty(),
        }) + (match self.around {
            Option::Some(v) => seq!["around="@ + dec_of(v as nat)],
            Option::None => Seq::empty(),
        }) + (match self.before {
            Option::Some(v) => seq!["before="@ + dec_of(v as nat)],
            Option::None => Seq::empty(),
        }) + (match self.limit {
            Option::Some(v) => seq!["limit="@ + dec_of(v as nat)],
            Option::None => Seq::empty(),
        })
    }

    /// The request: a GET of the channel's messages route with the
    /// configured anchors and page size as its query.
    pub fn request(&self) -> (r: Request)
        ensures
            r.method == Method::Get,
            r.use_authorization_token,
            r.body is None,
            r.files@.len() == 0,
            r.headers@.len() == 0,
            r.bucket_path@ == "channels/"@ + dec_of(self.channel_id as nat) + "/messages"@,
            r.path@ == "channels/"@ + dec_of(self.channel_id as nat) + "/messages"@ + query_spec(
                self.spec_params(),
            ),
    {
        let base = "channels/".to_owned().concat(u64_to_dec(self.channel_id).as_str()).concat(
            "/messages",
        );
        proof {
            assert(base@ =~= "channels/"@ + dec_of(self.channel_id as nat) + "/messages"@);
        }
        let mut params: Vec<String> = Vec::new();
        match self.after {
            Some(v) => {
                params.push(param_u64("after=", v));
            },
            None => {},
        }
        match self.around {
            Some(v) => {
                params.push(param_u64("around=", v));
            },
            None => {},
        }
        match self.before {
            Some(v) => {
                params.push(param_u64("before=", v));
            },
            None => {},
        }
        match self.limit {
            Some(v) => {
                params.push(param_u64("limit=", v));
            },
            None => {},
        }
        proof {
            assert(params_view(params@) =~= self.spec_params());
        }
        let query = query_join(&params);
        let path = base.clone().concat(query.as_str());
        proof {
            assert(path@ =~= base@ + query_spec(self.spec_params()));
        }
        Request {
            method: Method::Get,
            bucket_path: base,
            path,
            body: None,
            files: Vec::new(),
            headers: Vec::new(),
            use_authorization_token: true,
        }
    }
}

/// Kind of failure when configuring a reactions page request.
#[derive(Clone, Copy, Debug, Eq, PartialEq, Structural)]
pub enum GetReactionsErrorType {
    /// The page size is zero or above one hundred.
    LimitInvalid {
        /// The page size asked for.
        limit: u64,
    },
}

/// A reactions page request cannot be created as configured.
#[derive(Clone, Copy, Debug, Eq, PartialEq, Structural)]
pub struct GetReactionsError {
    /// What failed.
    pub kind: GetReactionsErrorType,
}

impl GetReactionsError {
    /// The kind of failure.
    pub fn kind(&self) -> (r: &GetReactionsErrorType)
        ensures
            r == self.kind,
    {
        &self.kind
    }

    /// Consume the error; it never carries an underlying cause.
    pub fn into_source(self) -> (r: Option<String>)
        ensures
            r is None,
    {
        None
    }

    /// Consume the error into its kind and absent cause.
    pub fn into_parts(self) -> (r: (GetReactionsErrorType, Option<String>))
        ensures
            r.0 == self.kind,
            r.1 is None,
    {
        (self.kind, None)
    }
}

/// A page of the users that reacted with one emoji.
#[derive(Clone, Debug)]
pub struct GetReactions {
    /// The channel of the message.
    pub channel_id: u64,
    /// The emoji, already formatted for the path.
    pub emoji: String,
    /// The message whose reactions are read.
    pub message_id: u64,
    /// Return users after this one.
    pub after: Option<u64>,
    /// Page size, when set.
    pub limit: Option<u64>,
}

impl GetReactions {
    /// Configure a page of reaction users for one message and emoji.
    pub fn new(channel_id: u64, message_id: u64, emoji: &RequestReactionType) -> (r: GetReactions)
        ensures
            r.channel_id == channel_id,
            r.message_id == message_id,
            r.emoji@ == format_emoji_spec(*emoji),
            r.after is None,
            r.limit is None,
    {
        GetReactions {
            channel_id,
            emoji: format_emoji(emoji),
            message_id,
            after: None,
            limit: None,
        }
    }

    /// Return users after this one.
    pub fn after(self, after: u64) -> (r: Self)
        ensures
            r == (GetReactions { after: Some(after), ..self }),
    {
        GetReactions { after: Some(after), ..self }
    }

    /// Set the page size: at least one and at most one hundred.
    pub fn limit(self, limit: u64) -> (r: Result<Self, GetReactionsError>)
        ensures
            match r {
                Ok(b) => 1 <= limit <= 100 && b == (GetReactions { limit: Some(limit), ..self }),
                Err(e) => !(1 <= limit <= 100) && e.kind == (GetReactionsErrorType::LimitInvalid {
                    limit,
                }),
            },
    {
        if !validate::get_reactions_limit(limit) {
            return Err(GetReactionsError { kind: GetReactionsErrorType::LimitInvalid { limit } });
        }
        Ok(GetReactions { limit: Some(limit), ..self })
    }

    /// The query parameters of the request, in order.
    pub open spec fn spec_params(&self) -> Seq<Seq<char>> {
        (match self.after {
            Option::Some(v) => seq!["after="@ + dec_of(v as nat)],
            Option::None => Seq::empty(),
        }) + (match self.limit {
            Option::Some(v) => seq!["limit="@ + dec_of(v as nat)],
            Option::None => Seq::empty(),
        })
    }

    /// The base path of the request: the message's reactions route for the
    /// emoji.
    pub open spec fn spec_base(&self) -> Seq<char> {
        "channels/"@ + dec_of(self.channel_id as nat) + "/messages/"@ + dec_of(
            self.message_id as nat,
        ) + "/reactions/"@ + self.emoji@
    }

    /// The request: a GET of the reactions route with the configured anchor
    /// and page size as its query.
    pub fn request(&self) -> (r: Request)
        ensures
            r.method == Method::Get,
            r.use_authorization_token,
            r.body is None,
            r.files@.len() == 0,
            r.headers@.len() == 0,
            r.bucket_path@ == self.spec_base(),
            r.path@ == self.spec_base() + query_spec(self.spec_params()),
    {
        let base = "channels/".to_owned().concat(u64_to_dec(self.channel_id).as_str()).concat(
            "/messages/",
        ).concat(u64_to_dec(self.message_id).as_str()).concat("/reactions/").concat(
            self.emoji.as_str(),
        );
        proof {
            assert(base@ =~= self.spec_base());
        }
        let mut params: Vec<String> = Vec::new();
        match self.after {
            Some(v) => {
                params.push(param_u64("after=", v));
            },
            None => {},
        }
        match self.limit {
            Some(v) => {
                params.push(param_u64("limit=", v));
            },
            None => {},
        }
        proof {
            assert(params_view(params@) =~= self.spec_params());
        }
        let query = query_join(&params);
        let path = base.clone().concat(query.as_str());
        proof {
            assert(path@ =~= base@ + query_spec(self.spec_params()));
        }
        Request {
            method: Method::Get,
            bucket_path: base,
            path,
            body: None,
            files: Vec::new(),
            headers: Vec::new(),
            use_authorization_token: true,
        }
    }
}

/// Delete one user's reaction with one emoji from a message.
#[derive(Clone, Debug)]
pub struct DeleteReaction {
    /// The channel of the message.
    pub channel_id: u64,
    /// The emoji, already formatted for the path.
    pub emoji: String,
    /// The message the reaction is on.
    pub message_id: u64,
    /// Whose reaction to delete: a user id, or `@me`.
    pub target_user: String,
}

impl DeleteReaction {
    /// Configure deleting one user's reaction.
    pub fn new(
        channel_id: u64,
        message_id: u64,
        emoji: &RequestReactionType,
        target_user: String,
    ) -> (r: DeleteReaction)
        ensures
            r.channel_id == channel_id,
            r.message_id == message_id,
            r.emoji@ == format_emoji_spec(*emoji),
            r.target_user@ == target_user@,
    {
        DeleteReaction { channel_id, emoji: format_emoji(emoji), message_id, target_user }
    }

    /// The request: a DELETE of the user's reaction route.
    pub fn request(&self) -> (r: Request)
        ensures
            r.method == Method::Delete,
            r.use_authorization_token,
            r.body is None,
            r.files@.len() == 0,
            r.headers@.len() == 0,
            r.path@ == "channels/"@ + dec_of(self.channel_id as nat) + "/messages/"@ + dec_of(
                self.message_id as nat,
            ) + "/reactions/"@ + self.emoji@ + "/"@ + self.target_user@,
            r.bucket_path@ == r.path@,
    {
        let path = "channels/".to_owned().concat(u64_to_dec(self.channel_id).as_str()).concat(
            "/messages/",
        ).concat(u64_to_dec(self.message_id).as_str()).concat("/reactions/").concat(
            self.emoji.as_str(),
        ).concat("/").concat(self.target_user.as_str());
        proof {
            assert(path@ =~= "channels/"@ + dec_of(self.channel_id as nat) + "/messages/"@
                + dec_of(self.message_id as nat) + "/reactions/"@ + self.emoji@ + "/"@
                + self.target_user@);
        }
        Request {
            method: Method::Delete,
            bucket_path: path.clone(),
            path,
            body: None,
            files: Vec::new(),
            headers: Vec::new(),
            use_authorization_token: true,
        }
    }
}

/// Delete every reaction with one emoji from a message.
#[derive(Clone, Debug)]
pub struct DeleteAllReaction {
    /// The channel of the message.
    pub channel_id: u64,
    /// The emoji, already formatted for the path.
    pub emoji: String,
    /// The message the reactions are on.
    pub message_id: u64,
}

impl DeleteAllReaction {
    /// Configure deleting every reaction with one emoji.
    pub fn new(channel_id: u64, message_id: u64, emoji: &RequestReactionType) -> (r:
        DeleteAllReaction)
        ensures
            r.channel_id == channel_id,
            r.message_id == message_id,
            r.emoji@ == format_emoji_spec(*emoji),
    {
        DeleteAllReaction { channel_id, emoji: format_emoji(emoji), message_id }
    }

    /// The request: a DELETE of the emoji's whole reaction route.
    pub fn request(&self) -> (r: Request)
        ensures
            r.method == Method::Delete,
            r.use_authorization_token,
            r.body is None,
            r.files@.len() == 0,
            r.headers@.len() == 0,
            r.path@ == "channels/"@ + dec_of(self.channel_id as nat) + "/messages/"@ + dec_of(
                self.message_id as nat,
            ) + "/reactions/"@ + self.emoji@,
            r.bucket_path@ == r.path@,
    {
        let path = "channels/".to_owned().concat(u64_to_dec(self.channel_id).as_str()).concat(
            "/messages/",
        ).concat(u64_to_dec(self.message_id).as_str()).concat("/reactions/").concat(
            self.emoji.as_str(),
        );
        proof {
            assert(path@ =~= "channels/"@ + dec_of(self.channel_id as nat) + "/messages/"@
                + dec_of(self.message_id as nat) + "/reactions/"@ + self.emoji@);
        }
        Request {
            method: Method::Delete,
            bucket_path: path.clone(),
            path,
            body: None,
            files: Vec::new(),
            headers: Vec::new(),
            use_authorization_token: true,
        }
    }
}

/// Look an invite up by its code.
#[derive(Clone, Debug)]
pub struct GetInvite {
    /// The invite code.
    pub code: String,
    /// Whether to include approximate member counts.
    pub with_counts: bool,
    /// Whether to include the expiration date.
    pub with_expiration: bool,
}

impl GetInvite {
    /// Configure looking an invite up by its code.
    pub fn new(code: String) -> (r: GetInvite)
        ensures
            r.code@ == code@,
            !r.with_counts,
            !r.with_expiration,
    {
        GetInvite { code, with_counts: false, with_expiration: false }
    }

    /// Include approximate member counts in the response.
    pub fn with_counts(self) -> (r: Self)
        ensures
            r == (GetInvite { with_counts: true, ..self }),
    {
        GetInvite { with_counts: true, ..self }
    }

    /// Include the expiration date in the response.
    pub fn with_expiration(self) -> (r: Self)
        ensures
            r == (GetInvite { with_expiration: true, ..self }),
    {
        GetInvite { with_expiration: true, ..self }
    }

    /// The request: a GET of the invite route, with both inclusion flags as
    /// its query.
    pub fn request(&self) -> (r: Request)
        ensures
            r.method == Method::Get,
            r.use_authorization_token,
            r.body is None,
            r.files@.len() == 0,
            r.headers@.len() == 0,
            r.bucket_path@ == "invites/"@ + self.code@,
            r.path@ == "invites/"@ + self.code@ + query_spec(
                seq![
                    "with_counts="@ + (if self.with_counts {
                        "true"@
                    } else {
                        "false"@
                    }),
                    "with_expiration="@ + (if self.with_expiration {
                        "true"@
                    } else {
                        "false"@
                    }),
                ],
            ),
    {
        let base = "invites/".to_owned().concat(self.code.as_str());
        proof {
            assert(base@ =~= "invites/"@ + self.code@);
        }
        let mut params: Vec<String> = Vec::new();
        params.push(param_bool("with_counts=", self.with_counts));
        params.push(param_bool("with_expiration=", self.with_expiration));
        proof {
            assert(params_view(params@) =~= seq![
                "with_counts="@ + (if self.with_counts {
                    "true"@
                } else {
                    "false"@
                }),
                "with_expiration="@ + (if self.with_expiration {
                    "true"@
                } else {
                    "false"@
                }),
            ]);
        }
        let query = query_join(&params);
        let path = base.clone().concat(query.as_str());
        Request {
            method: Method::Get,
            bucket_path: base,
            path,
            body: None,
            files: Vec::new(),
            headers: Vec::new(),
            use_authorization_token: true,
        }
    }
}

/// Kind of failure when configuring a stage instance request.
#[derive(Clone, Debug)]
pub enum CreateStageInstanceErrorType {
    /// The topic is empty or longer than 120 characters.
    InvalidTopic {
        /// The topic as provided.
        topic: String,
    },
}

/// A stage instance cannot be created as configured.
#[derive(Clone, Debug)]
pub struct CreateStageInstanceError {
    /// What failed.
    pub kind: CreateStageInstanceErrorType,
    /// Description of the underlying cause, if one is known.
    pub source: Option<String>,
}

impl CreateStageInstanceError {
    /// The kind of failure.
    pub fn kind(&self) -> (r: &CreateStageInstanceErrorType)
        ensures
            r == self.kind,
    {
        &self.kind
    }

    /// Consume the error, keeping only the underlying cause.
    pub fn into_source(self) -> (r: Option<String>)
        ensures
            r == self.source,
    {
        self.source
    }

    /// Consume the error into its kind and underlying cause.
    pub fn into_parts(self) -> (r: (CreateStageInstanceErrorType, Option<String>))
        ensures
            r.0 == self.kind,
            r.1 == self.source,
    {
        (self.kind, self.source)
    }
}

/// Create a stage instance on a stage channel.
#[derive(Clone, Debug)]
pub struct CreateStageInstance {
    /// The stage channel.
    pub channel_id: u64,
    /// Privacy level number, when set.
    pub privacy_level: Option<u64>,
    /// The instance's topic.
    pub topic: String,
}

impl CreateStageInstance {
    /// Configure creating a stage instance. The topic must be between one
    /// and 120 characters.
    pub fn new(channel_id: u64, topic: String) -> (r: Result<
        CreateStageInstance,
        CreateStageInstanceError,
    >)
        ensures
            match r {
                Ok(b) => 1 <= topic@.len() <= 120 && b.channel_id == channel_id && b.topic@
                    == topic@ && b.privacy_level is None,
                Err(e) => !(1 <= topic@.len() <= 120) && (e.kind
                    matches CreateStageInstanceErrorType::InvalidTopic { topic: t } && t@
                    == topic@) && e.source is None,
            },
    {
        if !validate::stage_topic(topic.as_str()) {
            return Err(
                CreateStageInstanceError {
                    kind: CreateStageInstanceErrorType::InvalidTopic { topic },
                    source: None,
                },
            );
        }
        Ok(CreateStageInstance { channel_id, privacy_level: None, topic })
    }

    /// Set the privacy level of the instance, by its wire number.
    pub fn privacy_level(self, privacy_level: u64) -> (r: Self)
        ensures
            r == (CreateStageInstance { privacy_level: Some(privacy_level), ..self }),
    {
        CreateStageInstance { privacy_level: Some(privacy_level), ..self }
    }

    /// The body members of the request, in order.
    pub open spec fn spec_body_members(&self) -> Seq<(Seq<u8>, Seq<u8>)> {
        seq![
            ("channel_id".spec_bytes(), json_string_bytes(dec_bytes(self.channel_id as nat))),
            ("topic".spec_bytes(), json_string_bytes(vstd::utf8::encode_utf8(self.topic@))),
        ] + (match self.privacy_level {
            Option::Some(p) => seq![("privacy_level".spec_bytes(), dec_bytes(p as nat))],
            Option::None => Seq::empty(),
        })
    }

    /// The request: a POST of the stage-instances route carrying the
    /// channel, topic and optional privacy level as its JSON body.
    pub fn request(&self) -> (r: Request)
        ensures
            r.method == Method::Post,
            r.use_authorization_token,
            r.body matches Some(b) && b@ == json_object_bytes(self.spec_body_members()),
            r.files@.len() == 0,
            r.headers@.len() == 0,
            r.bucket_path@ == "stage-instances"@,
            r.path@ == "stage-instances"@,
    {
        let mut members: Vec<(Vec<u8>, Vec<u8>)> = Vec::new();
        members.push(("channel_id".as_bytes_vec(), jid(self.channel_id)));
        members.push(("topic".as_bytes_vec(), jstr(self.topic.as_str())));
        match self.privacy_level {
            Some(p) => {
                members.push(("privacy_level".as_bytes_vec(), jnum(p)));
            },
            None => {},
        }
        proof {
            assert(crate::request::json_body::members_view(members@) =~= self.spec_body_members());
        }
        let body = json_object(&members);
        Request {
            method: Method::Post,
            bucket_path: "stage-instances".to_owned(),
            path: "stage-instances".to_owned(),
            body: Some(body),
            files: Vec::new(),
            headers: Vec::new(),
            use_authorization_token: true,
        }
    }
}

/// Kind of failure when updating a stage instance.
#[derive(Clone, Debug)]
pub enum UpdateStageInstanceErrorType {
    /// The topic is empty or longer than 120 characters.
    InvalidTopic {
        /// The topic as provided.
        topic: String,
    },
}

/// A stage instance cannot be updated as configured.
#[derive(Clone, Debug)]
pub struct UpdateStageInstanceError {
    /// What failed.
    pub kind: UpdateStageInstanceErrorType,
    /// Description of the underlying cause, if one is known.
    pub source: Option<String>,
}

impl UpdateStageInstanceError {
    /// The kind of failure.
    pub fn kind(&self) -> (r: &UpdateStageInstanceErrorType)
        ensures
            r == self.kind,
    {
        &self.kind
    }

    /// Consume the error, keeping only the underlying cause.
    pub fn into_source(self) -> (r: Option<String>)
        ensures
            r == self.source,
    {
        self.source
    }

    /// Consume the error into its kind and underlying cause.
    pub fn into_parts(self) -> (r: (UpdateStageInstanceErrorType, Option<String>))
        ensures
            r.0 == self.kind,
            r.1 == self.source,
    {
        (self.kind, self.source)
    }
}

/// Update the stage instance of a stage channel.
#[derive(Clone, Debug)]
pub struct UpdateStageInstance {
    /// The stage channel.
    pub channel_id: u64,
    /// Privacy level number, when set.
    pub privacy_level: Option<u64>,
    /// New topic, when set.
    pub topic: Option<String>,
}

impl UpdateStageInstance {
    /// Configure updating a stage instance with a new topic, which must be
    /// between one and 120 characters.
    pub fn new(channel_id: u64, topic: String) -> (r: Result<
        UpdateStageInstance,
        UpdateStageInstanceError,
    >)
        ensures
            match r {
                Ok(b) => 1 <= topic@.len() <= 120 && b.channel_id == channel_id && (b.topic
                    matches Some(t) && t@ == topic@) && b.privacy_level is None,
                Err(e) => !(1 <= topic@.len() <= 120) && (e.kind
                    matches UpdateStageInstanceErrorType::InvalidTopic { topic: t } && t@
                    == topic@) && e.source is None,
            },
    {
        if !validate::stage_topic(topic.as_str()) {
            return Err(
                UpdateStageInstanceError {
                    kind: UpdateStageInstanceErrorType::InvalidTopic { topic },
                    source: None,
                },
            );
        }
        Ok(UpdateStageInstance { channel_id, privacy_level: None, topic: Some(topic) })
    }

    /// Set the privacy level of the instance, by its wire number.
    pub fn privacy_level(self, privacy_level: u64) -> (r: Self)
        ensures
            r == (UpdateStageInstance { privacy_level: Some(privacy_level), ..self }),
    {
        UpdateStageInstance { privacy_level: Some(privacy_level), ..self }
    }

    /// Replace the topic, which must be between one and 120 characters.
    pub fn topic(self, topic: String) -> (r: Result<Self, UpdateStageInstanceError>)
        ensures
            match r {
                Ok(b) => 1 <= topic@.len() <= 120 && (b.topic matches Some(t) && t@ == topic@)
                    && b.channel_id == self.channel_id && b.privacy_level == self.privacy_level,
                Err(e) => !(1 <= topic@.len() <= 120) && (e.kind
                    matches UpdateStageInstanceErrorType::InvalidTopic { topic: t } && t@
                    == topic@) && e.source is None,
            },
    {
        if !validate::stage_topic(topic.as_str()) {
            return Err(
                UpdateStageInstanceError {
                    kind: UpdateStageInstanceErrorType::InvalidTopic { topic },
                    source: None,
                },
            );
        }
        Ok(UpdateStageInstance { topic: Some(topic), ..self })
    }

    /// The body members of the request, in order.
    pub open spec fn spec_body_members(&self) -> Seq<(Seq<u8>, Seq<u8>)> {
        (match self.privacy_level {
            Option::Some(p) => seq![("privacy_level".spec_bytes(), dec_bytes(p as nat))],
            Option::None => Seq::empty(),
        }) + (match self.topic {
            Option::Some(t) => seq![("topic".spec_bytes(), json_string_bytes(vstd::utf8::encode_utf8(t@)))],
            Option::None => Seq::empty(),
        })
    }

    /// The request: a PATCH of the channel's stage-instance route carrying
    /// the changed fields as its JSON body.
    pub fn request(&self) -> (r: Request)
        ensures
            r.method == Method::Patch,
            r.use_authorization_token,
            r.body matches Some(b) && b@ == json_object_bytes(self.spec_body_members()),
            r.files@.len() == 0,
            r.headers@.len() == 0,
            r.bucket_path@ == "stage-instances/"@ + dec_of(self.channel_id as nat),
            r.path@ == r.bucket_path@,
    {
        let path = "stage-instances/".to_owned().concat(u64_to_dec(self.channel_id).as_str());
        proof {
            assert(path@ =~= "stage-instances/"@ + dec_of(self.channel_id as nat));
        }
        let mut members: Vec<(Vec<u8>, Vec<u8>)> = Vec::new();
        match self.privacy_level {
            Some(p) => {
                members.push(("privacy_level".as_bytes_vec(), jnum(p)));
            },
            None => {},
        }
        match &self.topic {
            Some(t) => {
                members.push(("topic".as_bytes_vec(), jstr(t.as_str())));
            },
            None => {},
        }
        proof {
            assert(crate::request::json_body::members_view(members@) =~= self.spec_body_members());
        }
        let body = json_object(&members);
        Request {
            method: Method::Patch,
            bucket_path: path.clone(),
            path,
            body: Some(body),
            files: Vec::new(),
            headers: Vec::new(),
            use_authorization_token: true,
        }
    }
}

} // verus!
