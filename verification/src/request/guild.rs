//! Guild-side endpoint builders: guild settings, the widget, the welcome
//! screen, emojis, and member management.

use vstd::prelude::*;
use vstd::string::StringSliceAdditionalSpecFns;
use crate::encoding::url_encoded;
use crate::request::json_body::{
    dec_bytes, jbool, jid, jid_array, jnull, jnum, json_array_bytes, json_bool_bytes,
    json_null_bytes, json_object, json_object_bytes, json_string_bytes, jstr, members_view,
};
use crate::request::validate;
use crate::request::{
    audit_header, audit_header_spec, param_bool, param_str, param_u64, params_view, query_join,
    query_spec, Method, Request,
};
use crate::text::{dec_of, u64_to_dec};

verus! {

/// The bytes of a member value that is either an id string or null.
pub open spec fn id_or_null(v: Option<u64>) -> Seq<u8> {
    match v {
        Option::Some(id) => json_string_bytes(dec_bytes(id as nat)),
        Option::None => json_null_bytes(),
    }
}

fn jid_or_null(v: Option<u64>) -> (r: Vec<u8>)
    ensures
        r@ == id_or_null(v),
{
    match v {
        Some(id) => jid(id),
        None => jnull(),
    }
}

/// The audit-reason headers of a request: one header when a reason is set.
pub open spec fn reason_headers_spec(reason: Option<String>) -> Seq<(Seq<char>, Seq<char>)> {
    match reason {
        Option::Some(re) => seq![audit_header_spec(re@)],
        Option::None => Seq::empty(),
    }
}

/// The view of a header list.
pub open spec fn headers_pairs_view(h: Seq<(String, String)>) -> Seq<(Seq<char>, Seq<char>)> {
    h.map_values(|p: (String, String)| (p.0@, p.1@))
}

pub fn reason_headers(reason: &Option<String>) -> (r: Vec<(String, String)>)
    ensures
        headers_pairs_view(r@) =~= reason_headers_spec(*reason),
{
    let mut out: Vec<(String, String)> = Vec::new();
    match reason {
        Some(re) => {
            out.push(audit_header(re.as_str()));
        },
        None => {},
    }
    out
}

/// Kind of failure when updating a guild.
#[derive(Clone, Debug)]
pub enum UpdateGuildErrorType {
    /// The name is shorter than 2 or longer than 100 characters.
    NameInvalid {
        /// The name as provided.
        name: String,
    },
}

/// A guild cannot be updated as configured.
#[derive(Clone, Debug)]
pub struct UpdateGuildError {
    /// What failed.
    pub kind: UpdateGuildErrorType,
}

impl UpdateGuildError {
    /// The kind of failure.
    pub fn kind(&self) -> (r: &UpdateGuildErrorType)
        ensures
            r == self.kind,
    {
        &self.kind
    }

    /// Consume the error; it never carries an underlying cause.
    pub fn into_source(self) -> (r: Option<String>)
        ensures
            r is None,
    {
        None
    }

    /// Consume the error into its kind and absent cause.
    pub fn into_parts(self) -> (r: (UpdateGuildErrorType, Option<String>))
        ensures
            r.0 == self.kind,
            r.1 is None,
    {
        (self.kind, None)
    }
}

/// Update a guild's settings. Every field is optional; a field wrapped
/// twice distinguishes clearing (inner `None`, serialized as null) from
/// leaving the setting alone (outer `None`, omitted).
#[derive(Clone, Debug)]
pub struct UpdateGuild {
    /// The guild to update.
    pub guild_id: u64,
    /// Voice AFK channel, or null to clear.
    pub afk_channel_id: Option<Option<u64>>,
    /// Voice AFK timeout in seconds.
    pub afk_timeout: Option<u64>,
    /// Default message notification level, or null to clear.
    pub default_message_notifications: Option<Option<u64>>,
    /// Explicit content filter level, or null to clear.
    pub explicit_content_filter: Option<Option<u64>>,
    /// New name; validated to 2 through 100 characters.
    pub name: Option<String>,
    /// New owner.
    pub owner_id: Option<u64>,
    /// System channel, or null to clear.
    pub system_channel_id: Option<Option<u64>>,
    /// System channel flag bits, or null to clear.
    pub system_channel_flags: Option<Option<u64>>,
    /// Rules channel, or null to clear.
    pub rules_channel_id: Option<Option<u64>>,
    /// Public updates channel, or null to clear.
    pub public_updates_channel_id: Option<Option<u64>>,
    /// Verification level, or null to clear.
    pub verification_level: Option<Option<u64>>,
    /// Audit-log reason, when set.
    pub reason: Option<String>,
}

impl UpdateGuild {
    /// Configure updating a guild, with nothing changed yet.
    pub fn new(guild_id: u64) -> (r: UpdateGuild)
        ensures
            r.guild_id == guild_id,
            r.afk_channel_id is None,
            r.afk_timeout is None,
            r.default_message_notifications is None,
            r.explicit_content_filter is None,
            r.name is None,
            r.owner_id is None,
            r.system_channel_id is None,
            r.system_channel_flags is None,
            r.rules_channel_id is None,
            r.public_updates_channel_id is None,
            r.verification_level is None,
            r.reason is None,
    {
        UpdateGuild {
            guild_id,
            afk_channel_id: None,
            afk_timeout: None,
            default_message_notifications: None,
            explicit_content_filter: None,
            name: None,
            owner_id: None,
            system_channel_id: None,
            system_channel_flags: None,
            rules_channel_id: None,
            public_updates_channel_id: None,
            verification_level: None,
            reason: None,
        }
    }

    /// Set the voice AFK channel, or clear it.
    pub fn afk_channel_id(self, afk_channel_id: Option<u64>) -> (r: Self)
        ensures
            r == (UpdateGuild { afk_channel_id: Some(afk_channel_id), ..self }),
    {
        UpdateGuild { afk_channel_id: Some(afk_channel_id), ..self }
    }

    /// Set the voice AFK timeout, in seconds.
    pub fn afk_timeout(self, afk_timeout: u64) -> (r: Self)
        ensures
            r == (UpdateGuild { afk_timeout: Some(afk_timeout), ..self }),
    {
        UpdateGuild { afk_timeout: Some(afk_timeout), ..self }
    }

    /// Set the default message notification level, or clear it.
    pub fn default_message_notifications(self, level: Option<u64>) -> (r: Self)
        ensures
            r == (UpdateGuild { default_message_notifications: Some(level), ..self }),
    {
        UpdateGuild { default_message_notifications: Some(level), ..self }
    }

    /// Set the explicit content filter level, or clear it.
    pub fn explicit_content_filter(self, level: Option<u64>) -> (r: Self)
        ensures
            r == (UpdateGuild { explicit_content_filter: Some(level), ..self }),
    {
        UpdateGuild { explicit_content_filter: Some(level), ..self }
    }

    /// Set the guild's name: 2 through 100 characters.
    pub fn name(self, name: String) -> (r: Result<Self, UpdateGuildError>)
        ensures
            match r {
                Ok(b) => 2 <= name@.len() <= 100 && b == (UpdateGuild {
                    name: Some(name),
                    ..self
                }),
                Err(e) => !(2 <= name@.len() <= 100) && (e.kind
                    matches UpdateGuildErrorType::NameInvalid { name: n } && n == name),
            },
    {
        if !validate::guild_name(name.as_str()) {
            return Err(UpdateGuildError { kind: UpdateGuildErrorType::NameInvalid { name } });
        }
        Ok(UpdateGuild { name: Some(name), ..self })
    }

    /// Transfer ownership to another member.
    pub fn owner_id(self, owner_id: u64) -> (r: Self)
        ensures
            r == (UpdateGuild { owner_id: Some(owner_id), ..self }),
    {
        UpdateGuild { owner_id: Some(owner_id), ..self }
    }

    /// Set the system channel, or clear it.
    pub fn system_channel(self, system_channel_id: Option<u64>) -> (r: Self)
        ensures
            r == (UpdateGuild { system_channel_id: Some(system_channel_id), ..self }),
    {
        UpdateGuild { system_channel_id: Some(system_channel_id), ..self }
    }

    /// Set the system channel flag bits, or clear them.
    pub fn system_channel_flags(self, flags: Option<u64>) -> (r: Self)
        ensures
            r == (UpdateGuild { system_channel_flags: Some(flags), ..self }),
    {
        UpdateGuild { system_channel_flags: Some(flags), ..self }
    }

    /// Set the rules channel, or clear it.
    pub fn rules_channel(self, rules_channel_id: Option<u64>) -> (r: Self)
        ensures
            r == (UpdateGuild { rules_channel_id: Some(rules_channel_id), ..self }),
    {
        UpdateGuild { rules_channel_id: Some(rules_channel_id), ..self }
    }

    /// Set the public updates channel, or clear it.
    pub fn public_updates_channel(self, public_updates_channel_id: Option<u64>) -> (r: Self)
        ensures
            r == (UpdateGuild {
                public_updates_channel_id: Some(public_updates_channel_id),
                ..self
            }),
    {
        UpdateGuild { public_updates_channel_id: Some(public_updates_channel_id), ..self }
    }

    /// Set the verification level, or clear it.
    pub fn verification_level(self, level: Option<u64>) -> (r: Self)
        ensures
            r == (UpdateGuild { verification_level: Some(level), ..self }),
    {
        UpdateGuild { verification_level: Some(level), ..self }
    }

    /// Attach an audit-log reason: at most 512 characters.
    pub fn reason(self, reason: String) -> (r: Result<Self, crate::request::AuditLogReasonError>)
        ensures
            match r {
                Ok(b) => reason@.len() <= 512 && b == (UpdateGuild {
                    reason: Some(reason),
                    ..self
                }),
                Err(_) => reason@.len() > 512,
            },
    {
        let validated = match crate::request::validate_audit_reason(reason) {
            Ok(v) => v,
            Err(e) => {
                return Err(e);
            },
        };
        Ok(UpdateGuild { reason: Some(validated), ..self })
    }

    /// The first half of the body members, in field order.
    pub open spec fn spec_members_head(&self) -> Seq<(Seq<u8>, Seq<u8>)> {
        (match self.afk_channel_id {
            Option::Some(v) => seq![("afk_channel_id".spec_bytes(), id_or_null(v))],
            Option::None => Seq::empty(),
        }) + (match self.afk_timeout {
            Option::Some(v) => seq![("afk_timeout".spec_bytes(), dec_bytes(v as nat))],
            Option::None => Seq::empty(),
        }) + (match self.default_message_notifications {
            Option::Some(v) => seq![
                ("default_message_notifications".spec_bytes(), match v {
                    Option::Some(level) => dec_bytes(level as nat),
                    Option::None => json_null_bytes(),
                }),
            ],
            Option::None => Seq::empty(),
        }) + (match self.explicit_content_filter {
            Option::Some(v) => seq![
                ("explicit_content_filter".spec_bytes(), match v {
                    Option::Some(level) => dec_bytes(level as nat),
                    Option::None => json_null_bytes(),
                }),
            ],
            Option::None => Seq::empty(),
        }) + (match self.name {
            Option::Some(n) => seq![
                ("name".spec_bytes(), json_string_bytes(vstd::utf8::encode_utf8(n@))),
            ],
            Option::None => Seq::empty(),
        }) + (match self.owner_id {
            Option::Some(v) => seq![
                ("owner_id".spec_bytes(), json_string_bytes(dec_bytes(v as nat))),
            ],
            Option::None => Seq::empty(),
        })
    }

    /// The second half of the body members, in field order.
    pub open spec fn spec_members_tail(&self) -> Seq<(Seq<u8>, Seq<u8>)> {
        (match self.system_channel_id {
            Option::Some(v) => seq![("system_channel_id".spec_bytes(), id_or_null(v))],
            Option::None => Seq::empty(),
        }) + (match self.system_channel_flags {
            Option::Some(v) => seq![
                ("system_channel_flags".spec_bytes(), match v {
                    Option::Some(flags) => dec_bytes(flags as nat),
                    Option::None => json_null_bytes(),
                }),
            ],
            Option::None => Seq::empty(),
        }) + (match self.rules_channel_id {
            Option::Some(v) => seq![("rules_channel_id".spec_bytes(), id_or_null(v))],
            Option::None => Seq::empty(),
        }) + (match self.public_updates_channel_id {
            Option::Some(v) => seq![("public_updates_channel_id".spec_bytes(), id_or_null(v))],
            Option::None => Seq::empty(),
        }) + (match self.verification_level {
            Option::Some(v) => seq![
                ("verification_level".spec_bytes(), match v {
                    Option::Some(level) => dec_bytes(level as nat),
                    Option::None => json_null_bytes(),
                }),
            ],
            Option::None => Seq::empty(),
        })
    }

    /// The body members of the request, in field order.
    pub open spec fn spec_body_members(&self) -> Seq<(Seq<u8>, Seq<u8>)> {
        self.spec_members_head() + self.spec_members_tail()
    }

    /// The first half of the body members, assembled in field order.
    #[verifier::rlimit(100)]
    fn body_members_head(&self) -> (r: Vec<(Vec<u8>, Vec<u8>)>)
        ensures
            members_view(r@) == self.spec_members_head(),
    {
        let mut members: Vec<(Vec<u8>, Vec<u8>)> = Vec::new();
        match self.afk_channel_id {
            Some(v) => {
                members.push(("afk_channel_id".as_bytes_vec(), jid_or_null(v)));
            },
            None => {},
        }
        match self.afk_timeout {
            Some(v) => {
                members.push(("afk_timeout".as_bytes_vec(), jnum(v)));
            },
            None => {},
        }
        match self.default_message_notifications {
            Some(v) => {
                let value = match v {
                    Some(level) => jnum(level),
                    None => jnull(),
                };
                members.push(("default_message_notifications".as_bytes_vec(), value));
            },
            None => {},
        }
        match self.explicit_content_filter {
            Some(v) => {
                let value = match v {
                    Some(level) => jnum(level),
                    None => jnull(),
                };
                members.push(("explicit_content_filter".as_bytes_vec(), value));
            },
            None => {},
        }
        match &self.name {
            Some(n) => {
                members.push(("name".as_bytes_vec(), jstr(n.as_str())));
            },
            None => {},
        }
        match self.owner_id {
            Some(v) => {
                members.push(("owner_id".as_bytes_vec(), jid(v)));
            },
            None => {},
        }
        proof {
            assert(members_view(members@) =~= self.spec_members_head());
        }
        members
    }

    /// The body members of the request, assembled in field order.
    fn body_members(&self) -> (r: Vec<(Vec<u8>, Vec<u8>)>)
        ensures
            members_view(r@) == self.spec_body_members(),
    {
        let mut members = self.body_members_head();
        let ghost head_view = members@;
        let mut tail = self.body_members_tail();
        let ghost tail_view = tail@;
        members.append(&mut tail);
        proof {
            assert(members@ == head_view + tail_view);
            assert(members_view(head_view + tail_view) =~= members_view(head_view) + members_view(
                tail_view,
            ));
            assert(members_view(members@) =~= self.spec_body_members());
        }
        members
    }

    /// The second half of the body members, assembled in field order.
    #[verifier::rlimit(100)]
    fn body_members_tail(&self) -> (r: Vec<(Vec<u8>, Vec<u8>)>)
        ensures
            members_view(r@) == self.spec_members_tail(),
    {
        let mut members: Vec<(Vec<u8>, Vec<u8>)> = Vec::new();
        match self.system_channel_id {
            Some(v) => {
                members.push(("system_channel_id".as_bytes_vec(), jid_or_null(v)));
            },
            None => {},
        }
        match self.system_channel_flags {
            Some(v) => {
                let value = match v {
                    Some(flags) => jnum(flags),
                    None => jnull(),
                };
                members.push(("system_channel_flags".as_bytes_vec(), value));
            },
            None => {},
        }
        match self.rules_channel_id {
            Some(v) => {
                members.push(("rules_channel_id".as_bytes_vec(), jid_or_null(v)));
            },
            None => {},
        }
        match self.public_updates_channel_id {
            Some(v) => {
                members.push(("public_updates_channel_id".as_bytes_vec(), jid_or_null(v)));
            },
            None => {},
        }
        match self.verification_level {
            Some(v) => {
                let value = match v {
                    Some(level) => jnum(level),
                    None => jnull(),
                };
                members.push(("verification_level".as_bytes_vec(), value));
            },
            None => {},
        }
        proof {
            assert(members_view(members@) =~= self.spec_members_tail());
        }
        members
    }

    /// The request: a PATCH of the guild route carrying the changed fields
    /// as its JSON body, with the audit-log reason header when one is set.
    pub fn request(&self) -> (r: Request)
        ensures
            r.method == Method::Patch,
            r.use_authorization_token,
            r.body matches Some(b) && b@ == json_object_bytes(self.spec_body_members()),
            r.files@.len() == 0,
            headers_pairs_view(r.headers@) == reason_headers_spec(self.reason),
            r.bucket_path@ == "guilds/"@ + dec_of(self.guild_id as nat),
            r.path@ == r.bucket_path@,
    {
        let path = "guilds/".to_owned().concat(u64_to_dec(self.guild_id).as_str());
        proof {
            assert(path@ =~= "guilds/"@ + dec_of(self.guild_id as nat));
        }
        let members = self.body_members();
        let body = json_object(&members);
        let headers = reason_headers(&self.reason);
        Request {
            method: Method::Patch,
            bucket_path: path.clone(),
            path,
            body: Some(body),
            files: Vec::new(),
            headers,
            use_authorization_token: true,
        }
    }
}

/// Update a guild's widget.
#[derive(Clone, Debug)]
pub struct UpdateGuildWidget {
    /// The guild whose widget is updated.
    pub guild_id: u64,
    /// The widget's invite channel, or null to clear.
    pub channel_id: Option<Option<u64>>,
    /// Whether the widget is enabled.
    pub enabled: Option<bool>,
}

impl UpdateGuildWidget {
    /// Configure updating a guild's widget, with nothing changed yet.
    pub fn new(guild_id: u64) -> (r: UpdateGuildWidget)
        ensures
            r.guild_id == guild_id,
            r.channel_id is None,
            r.enabled is None,
    {
        UpdateGuildWidget { guild_id, channel_id: None, enabled: None }
    }

    /// Set the widget's invite channel, or clear it.
    pub fn channel_id(self, channel_id: Option<u64>) -> (r: Self)
        ensures
            r == (UpdateGuildWidget { channel_id: Some(channel_id), ..self }),
    {
        UpdateGuildWidget { channel_id: Some(channel_id), ..self }
    }

    /// Set whether the widget is enabled.
    pub fn enabled(self, enabled: bool) -> (r: Self)
        ensures
            r == (UpdateGuildWidget { enabled: Some(enabled), ..self }),
    {
        UpdateGuildWidget { enabled: Some(enabled), ..self }
    }

    /// The body members of the request, in field order.
    pub open spec fn spec_body_members(&self) -> Seq<(Seq<u8>, Seq<u8>)> {
        (match self.channel_id {
            Option::Some(v) => seq![("channel_id".spec_bytes(), id_or_null(v))],
            Option::None => Seq::empty(),
        }) + (match self.enabled {
            Option::Some(b) => seq![("enabled".spec_bytes(), json_bool_bytes(b))],
            Option::None => Seq::empty(),
        })
    }

    /// The request: a PATCH of the guild's widget route carrying the
    /// changed fields as its JSON body.
    pub fn request(&self) -> (r: Request)
        ensures
            r.method == Method::Patch,
            r.use_authorization_token,
            r.body matches Some(b) && b@ == json_object_bytes(self.spec_body_members()),
            r.files@.len() == 0,
            r.headers@.len() == 0,
            r.bucket_path@ == "guilds/"@ + dec_of(self.guild_id as nat) + "/widget"@,
            r.path@ == r.bucket_path@,
    {
        let path = "guilds/".to_owned().concat(u64_to_dec(self.guild_id).as_str()).concat(
            "/widget",
        );
        proof {
            assert(path@ =~= "guilds/"@ + dec_of(self.guild_id as nat) + "/widget"@);
        }
        let mut members: Vec<(Vec<u8>, Vec<u8>)> = Vec::new();
        match self.channel_id {
            Some(v) => {
                members.push(("channel_id".as_bytes_vec(), jid_or_null(v)));
            },
            None => {},
        }
        match self.enabled {
            Some(b) => {
                members.push(("enabled".as_bytes_vec(), jbool(b)));
            },
            None => {},
        }
        proof {
            assert(members_view(members@) =~= self.spec_body_members());
        }
        let body = json_object(&members);
        Request {
            method: Method::Patch,
            bucket_path: path.clone(),
            path,
            body: Some(body),
            files: Vec::new(),
            headers: Vec::new(),
            use_authorization_token: true,
        }
    }
}

/// Read a guild's welcome screen.
#[derive(Clone, Copy, Debug, Eq, PartialEq, Structural)]
pub struct GetGuildWelcomeScreen {
    /// The guild whose welcome screen is read.
    pub guild_id: u64,
}

impl GetGuildWelcomeScreen {
    /// Configure reading a guild's welcome screen.
    pub fn new(guild_id: u64) -> (r: GetGuildWelcomeScreen)
        ensures
            r.guild_id == guild_id,
    {
        GetGuildWelcomeScreen { guild_id }
    }

    /// The request: a GET of the guild's welcome-screen route.
    pub fn request(&self) -> (r: Request)
        ensures
            r.method == Method::Get,
            r.use_authorization_token,
            r.body is None,
            r.files@.len() == 0,
            r.headers@.len() == 0,
            r.path@ == "guilds/"@ + dec_of(self.guild_id as nat) + "/welcome-screen"@,
            r.bucket_path@ == r.path@,
    {
        let path = "guilds/".to_owned().concat(u64_to_dec(self.guild_id).as_str()).concat(
            "/welcome-screen",
        );
        proof {
            assert(path@ =~= "guilds/"@ + dec_of(self.guild_id as nat) + "/welcome-screen"@);
        }
        Request {
            method: Method::Get,
            bucket_path: path.clone(),
            path,
            body: None,
            files: Vec::new(),
            headers: Vec::new(),
            use_authorization_token: true,
        }
    }
}

/// Read one emoji of a guild.
#[derive(Clone, Copy, Debug, Eq, PartialEq, Structural)]
pub struct GetEmoji {
    /// The emoji to read.
    pub emoji_id: u64,
    /// The guild the emoji belongs to.
    pub guild_id: u64,
}

impl GetEmoji {
    /// Configure reading one emoji of a guild.
    pub fn new(guild_id: u64, emoji_id: u64) -> (r: GetEmoji)
        ensures
            r.guild_id == guild_id,
            r.emoji_id == emoji_id,
    {
        GetEmoji { emoji_id, guild_id }
    }

    /// The request: a GET of the guild's emoji route.
    pub fn request(&self) -> (r: Request)
        ensures
            r.method == Method::Get,
            r.use_authorization_token,
            r.body is None,
            r.files@.len() == 0,
            r.headers@.len() == 0,
            r.path@ == "guilds/"@ + dec_of(self.guild_id as nat) + "/emojis/"@ + dec_of(
                self.emoji_id as nat,
            ),
            r.bucket_path@ == r.path@,
    {
        let path = "guilds/".to_owned().concat(u64_to_dec(self.guild_id).as_str()).concat(
            "/emojis/",
        ).concat(u64_to_dec(self.emoji_id).as_str());
        proof {
            assert(path@ =~= "guilds/"@ + dec_of(self.guild_id as nat) + "/emojis/"@ + dec_of(
                self.emoji_id as nat,
            ));
        }
        Request {
            method: Method::Get,
            bucket_path: path.clone(),
            path,
            body: None,
            files: Vec::new(),
            headers: Vec::new(),
            use_authorization_token: true,
        }
    }
}

/// Read all emojis of a guild.
#[derive(Clone, Copy, Debug, Eq, PartialEq, Structural)]
pub struct GetEmojis {
    /// The guild whose emojis are read.
    pub guild_id: u64,
}

impl GetEmojis {
    /// Configure reading all emojis of a guild.
    pub fn new(guild_id: u64) -> (r: GetEmojis)
        ensures
            r.guild_id == guild_id,
    {
        GetEmojis { guild_id }
    }

    /// The request: a GET of the guild's emojis route.
    pub fn request(&self) -> (r: Request)
        ensures
            r.method == Method::Get,
            r.use_authorization_token,
            r.body is None,
            r.files@.len() == 0,
            r.headers@.len() == 0,
            r.path@ == "guilds/"@ + dec_of(self.guild_id as nat) + "/emojis"@,
            r.bucket_path@ == r.path@,
    {
        let path = "guilds/".to_owned().concat(u64_to_dec(self.guild_id).as_str()).concat(
            "/emojis",
        );
        proof {
            assert(path@ =~= "guilds/"@ + dec_of(self.guild_id as nat) + "/emojis"@);
        }
        Request {
            method: Method::Get,
            bucket_path: path.clone(),
            path,
            body: None,
            files: Vec::new(),
            headers: Vec::new(),
            use_authorization_token: true,
        }
    }
}

/// Kind of failure when adding a member to a guild.
#[derive(Clone, Debug)]
pub enum AddGuildMemberErrorType {
    /// The nickname is empty or longer than 32 characters.
    NicknameInvalid {
        /// The nickname as provided.
        nickname: String,
    },
}

/// A member cannot be added as configured.
#[derive(Clone, Debug)]
pub struct AddGuildMemberError {
    /// What failed.
    pub kind: AddGuildMemberErrorType,
}

impl AddGuildMemberError {
    /// The kind of failure.
    pub fn kind(&self) -> (r: &AddGuildMemberErrorType)
        ensures
            r == self.kind,
    {
        &self.kind
    }

    /// Consume the error; it never carries an underlying cause.
    pub fn into_source(self) -> (r: Option<String>)
        ensures
            r is None,
    {
        None
    }

    /// Consume the error into its kind and absent cause.
    pub fn into_parts(self) -> (r: (AddGuildMemberErrorType, Option<String>))
        ensures
            r.0 == self.kind,
            r.1 is None,
    {
        (self.kind, None)
    }
}

/// Add a user to a guild, with an OAuth2 access token bearing the join
/// scope.
#[derive(Clone, Debug)]
pub struct AddGuildMember {
    /// The access token authorizing the join.
    pub access_token: String,
    /// The guild joined.
    pub guild_id: u64,
    /// The user joining.
    pub user_id: u64,
    /// Whether the member starts deafened.
    pub deaf: Option<bool>,
    /// Whether the member starts muted.
    pub mute: Option<bool>,
    /// Nickname to set on join; validated to 1 through 32 characters.
    pub nick: Option<String>,
    /// Roles to grant on join.
    pub roles: Option<Vec<u64>>,
}

impl AddGuildMember {
    /// Configure adding a user to a guild.
    pub fn new(guild_id: u64, user_id: u64, access_token: String) -> (r: AddGuildMember)
        ensures
            r.guild_id == guild_id,
            r.user_id == user_id,
            r.access_token@ == access_token@,
            r.deaf is None,
            r.mute is None,
            r.nick is None,
            r.roles is None,
    {
        AddGuildMember {
            access_token,
            guild_id,
            user_id,
            deaf: None,
            mute: None,
            nick: None,
            roles: None,
        }
    }

    /// Whether the member starts deafened.
    pub fn deaf(self, deaf: bool) -> (r: Self)
        ensures
            r == (AddGuildMember { deaf: Some(deaf), ..self }),
    {
        AddGuildMember { deaf: Some(deaf), ..self }
    }

    /// Whether the member starts muted.
    pub fn mute(self, mute: bool) -> (r: Self)
        ensures
            r == (AddGuildMember { mute: Some(mute), ..self }),
    {
        AddGuildMember { mute: Some(mute), ..self }
    }

    /// Set the nickname to set on join: 1 through 32 characters.
    pub fn nick(self, nick: String) -> (r: Result<Self, AddGuildMemberError>)
        ensures
            match r {
                Ok(b) => 1 <= nick@.len() <= 32 && b == (AddGuildMember {
                    nick: Some(nick),
                    ..self
                }),
                Err(e) => !(1 <= nick@.len() <= 32) && (e.kind
                    matches AddGuildMemberErrorType::NicknameInvalid { nickname } && nickname
                    == nick),
            },
    {
        if !validate::nickname(nick.as_str()) {
            return Err(
                AddGuildMemberError {
                    kind: AddGuildMemberErrorType::NicknameInvalid { nickname: nick },
                },
            );
        }
        Ok(AddGuildMember { nick: Some(nick), ..self })
    }

    /// Set the roles to grant on join.
    pub fn roles(self, roles: Vec<u64>) -> (r: Self)
        ensures
            r == (AddGuildMember { roles: Some(roles), ..self }),
    {
        AddGuildMember { roles: Some(roles), ..self }
    }

    /// The body members of the request, in field order.
    pub open spec fn spec_body_members(&self) -> Seq<(Seq<u8>, Seq<u8>)> {
        seq![
            (
                "access_token".spec_bytes(),
                json_string_bytes(vstd::utf8::encode_utf8(self.access_token@)),
            ),
        ] + (match self.deaf {
            Option::Some(b) => seq![("deaf".spec_bytes(), json_bool_bytes(b))],
            Option::None => Seq::empty(),
        }) + (match self.mute {
            Option::Some(b) => seq![("mute".spec_bytes(), json_bool_bytes(b))],
            Option::None => Seq::empty(),
        }) + (match self.nick {
            Option::Some(n) => seq![
                ("nick".spec_bytes(), json_string_bytes(vstd::utf8::encode_utf8(n@))),
            ],
            Option::None => Seq::empty(),
        }) + (match self.roles {
            Option::Some(rs) => seq![
                (
                    "roles".spec_bytes(),
                    json_array_bytes(
                        rs@.map_values(|id: u64| json_string_bytes(dec_bytes(id as nat))),
                    ),
                ),
            ],
            Option::None => Seq::empty(),
        })
    }

    /// The request: a PUT of the guild's member route carrying the access
    /// token and the optional settings as its JSON body.
    pub fn request(&self) -> (r: Request)
        ensures
            r.method == Method::Put,
            r.use_authorization_token,
            r.body matches Some(b) && b@ == json_object_bytes(self.spec_body_members()),
            r.files@.len() == 0,
            r.headers@.len() == 0,
            r.path@ == "guilds/"@ + dec_of(self.guild_id as nat) + "/members/"@ + dec_of(
                self.user_id as nat,
            ),
            r.bucket_path@ == r.path@,
    {
        let path = "guilds/".to_owned().concat(u64_to_dec(self.guild_id).as_str()).concat(
            "/members/",
        ).concat(u64_to_dec(self.user_id).as_str());
        proof {
            assert(path@ =~= "guilds/"@ + dec_of(self.guild_id as nat) + "/members/"@ + dec_of(
                self.user_id as nat,
            ));
        }
        let mut members: Vec<(Vec<u8>, Vec<u8>)> = Vec::new();
        members.push(("access_token".as_bytes_vec(), jstr(self.access_token.as_str())));
        match self.deaf {
            Some(b) => {
                members.push(("deaf".as_bytes_vec(), jbool(b)));
            },
            None => {},
        }
        match self.mute {
            Some(b) => {
                members.push(("mute".as_bytes_vec(), jbool(b)));
            },
            None => {},
        }
        match &self.nick {
            Some(n) => {
                members.push(("nick".as_bytes_vec(), jstr(n.as_str())));
            },
            None => {},
        }
        match &self.roles {
            Some(rs) => {
                members.push(("roles".as_bytes_vec(), jid_array(rs)));
            },
            None => {},
        }
        proof {
            assert(members_view(members@) =~= self.spec_body_members());
        }
        let body = json_object(&members);
        Request {
            method: Method::Put,
            bucket_path: path.clone(),
            path,
            body: Some(body),
            files: Vec::new(),
            headers: Vec::new(),
            use_authorization_token: true,
        }
    }
}

/// Kind of failure when reading a member page.
#[derive(Clone, Copy, Debug, Eq, PartialEq, Structural)]
pub enum GetGuildMembersErrorType {
    /// The page size is zero or above one thousand.
    LimitInvalid {
        /// The page size asked for.
        limit: u64,
    },
}

/// A member page request cannot be created as configured.
#[derive(Clone, Copy, Debug, Eq, PartialEq, Structural)]
pub struct GetGuildMembersError {
    /// What failed.
    pub kind: GetGuildMembersErrorType,
}

impl GetGuildMembersError {
    /// The kind of failure.
    pub fn kind(&self) -> (r: &GetGuildMembersErrorType)
        ensures
            r == self.kind,
    {
        &self.kind
    }

    /// Consume the error; it never carries an underlying cause.
    pub fn into_source(self) -> (r: Option<String>)
        ensures
            r is None,
    {
        None
    }

    /// Consume the error into its kind and absent cause.
    pub fn into_parts(self) -> (r: (GetGuildMembersErrorType, Option<String>))
        ensures
            r.0 == self.kind,
            r.1 is None,
    {
        (self.kind, None)
    }
}

/// A page of a guild's members.
#[derive(Clone, Copy, Debug, Eq, PartialEq, Structural)]
pub struct GetGuildMembers {
    /// The guild whose members are read.
    pub guild_id: u64,
    /// Return members after this user.
    pub after: Option<u64>,
    /// Page size, when set.
    pub limit: Option<u64>,
    /// Whether to include presences.
    pub presences: Option<bool>,
}

impl GetGuildMembers {
    /// Configure a page of a guild's members.
    pub fn new(guild_id: u64) -> (r: GetGuildMembers)
        ensures
            r.guild_id == guild_id,
            r.after is None,
            r.limit is None,
            r.presences is None,
    {
        GetGuildMembers { guild_id, after: None, limit: None, presences: None }
    }

    /// Return members after this user.
    pub fn after(self, after: u64) -> (r: Self)
        ensures
            r == (GetGuildMembers { after: Some(after), ..self }),
    {
        GetGuildMembers { after: Some(after), ..self }
    }

    /// Set the page size: at least one and at most one thousand.
    pub fn limit(self, limit: u64) -> (r: Result<Self, GetGuildMembersError>)
        ensures
            match r {
                Ok(b) => 1 <= limit <= 1000 && b == (GetGuildMembers { limit: Some(limit), ..self }),
                Err(e) => !(1 <= limit <= 1000) && e.kind
                    == (GetGuildMembersErrorType::LimitInvalid { limit }),
            },
    {
        if !validate::get_guild_members_limit(limit) {
            return Err(
                GetGuildMembersError { kind: GetGuildMembersErrorType::LimitInvalid { limit } },
            );
        }
        Ok(GetGuildMembers { limit: Some(limit), ..self })
    }

    /// Whether to include presences.
    pub fn presences(self, presences: bool) -> (r: Self)
        ensures
            r == (GetGuildMembers { presences: Some(presences), ..self }),
    {
        GetGuildMembers { presences: Some(presences), ..self }
    }

    /// The query parameters of the request, in order.
    pub open spec fn spec_params(&self) -> Seq<Seq<char>> {
        (match self.after {
            Option::Some(v) => seq!["after="@ + dec_of(v as nat)],
            Option::None => Seq::empty(),
        }) + (match self.limit {
            Option::Some(v) => seq!["limit="@ + dec_of(v as nat)],
            Option::None => Seq::empty(),
        }) + (match self.presences {
            Option::Some(b) => seq![
                "presences="@ + (if b {
                    "true"@
                } else {
                    "false"@
                }),
            ],
            Option::None => Seq::empty(),
        })
    }

    /// The request: a GET of the guild's members route with the configured
    /// anchor, page size and presence flag as its query.
    pub fn request(&self) -> (r: Request)
        ensures
            r.method == Method::Get,
            r.use_authorization_token,
            r.body is None,
            r.files@.len() == 0,
            r.headers@.len() == 0,
            r.bucket_path@ == "guilds/"@ + dec_of(self.guild_id as nat) + "/members"@,
            r.path@ == r.bucket_path@ + query_spec(self.spec_params()),
    {
        let base = "guilds/".to_owned().concat(u64_to_dec(self.guild_id).as_str()).concat(
            "/members",
        );
        proof {
            assert(base@ =~= "guilds/"@ + dec_of(self.guild_id as nat) + "/members"@);
        }
        let mut params: Vec<String> = Vec::new();
        match self.after {
            Some(v) => {
                params.push(param_u64("after=", v));
            },
            None => {},
        }
        match self.limit {
            Some(v) => {
                params.push(param_u64("limit=", v));
            },
            None => {},
        }
        match self.presences {
            Some(b) => {
                params.push(param_bool("presences=", b));
            },
            None => {},
        }
        proof {
            assert(params_view(params@) =~= self.spec_params());
        }
        let query = query_join(&params);
        let path = base.clone().concat(query.as_str());
        proof {
            assert(path@ =~= base@ + query_spec(self.spec_params()));
        }
        Request {
            method: Method::Get,
            bucket_path: base,
            path,
            body: None,
            files: Vec::new(),
            headers: Vec::new(),
            use_authorization_token: true,
        }
    }
}

/// A member search request cannot be created as configured.
#[derive(Clone, Copy, Debug, Eq, PartialEq, Structural)]
pub enum SearchGuildMembersError {
    /// The page size is zero or above one thousand.
    LimitInvalid {
        /// The page size asked for.
        limit: u64,
    },
}

/// Search a guild's members by name prefix.
#[derive(Clone, Debug)]
pub struct SearchGuildMembers {
    /// The guild searched.
    pub guild_id: u64,
    /// The name prefix searched for.
    pub query: String,
    /// Page size, when set.
    pub limit: Option<u64>,
}

impl SearchGuildMembers {
    /// Configure searching a guild's members.
    pub fn new(guild_id: u64, query: String) -> (r: SearchGuildMembers)
        ensures
            r.guild_id == guild_id,
            r.query@ == query@,
            r.limit is None,
    {
        SearchGuildMembers { guild_id, query, limit: None }
    }

    /// Set the page size: at least one and at most one thousand.
    pub fn limit(self, limit: u64) -> (r: Result<Self, SearchGuildMembersError>)
        ensures
            match r {
                Ok(b) => 1 <= limit <= 1000 && b.guild_id == self.guild_id && b.query == self.query
                    && b.limit == Some(limit),
                Err(e) => !(1 <= limit <= 1000) && e == (SearchGuildMembersError::LimitInvalid {
                    limit,
                }),
            },
    {
        if !validate::search_guild_members_limit(limit) {
            return Err(SearchGuildMembersError::LimitInvalid { limit });
        }
        Ok(SearchGuildMembers { limit: Some(limit), ..self })
    }

    /// The query parameters of the request, in order: the percent-encoded
    /// search prefix, then the page size when set.
    pub open spec fn spec_params(&self) -> Seq<Seq<char>> {
        seq!["query="@ + url_encoded(self.query@)] + (match self.limit {
            Option::Some(v) => seq!["limit="@ + dec_of(v as nat)],
            Option::None => Seq::empty(),
        })
    }

    /// The request: a GET of the guild's member-search route with the
    /// encoded search prefix and page size as its query.
    pub fn request(&self) -> (r: Request)
        ensures
            r.method == Method::Get,
            r.use_authorization_token,
            r.body is None,
            r.files@.len() == 0,
            r.headers@.len() == 0,
            r.bucket_path@ == "guilds/"@ + dec_of(self.guild_id as nat) + "/members/search"@,
            r.path@ == r.bucket_path@ + query_spec(self.spec_params()),
    {
        let base = "guilds/".to_owned().concat(u64_to_dec(self.guild_id).as_str()).concat(
            "/members/search",
        );
        proof {
            assert(base@ =~= "guilds/"@ + dec_of(self.guild_id as nat) + "/members/search"@);
        }
        let mut params: Vec<String> = Vec::new();
        let encoded = crate::encoding::url_encode(self.query.as_str());
        params.push(param_str("query=", encoded.as_str()));
        match self.limit {
            Some(v) => {
                params.push(param_u64("limit=", v));
            },
            None => {},
        }
        proof {
            assert(params_view(params@) =~= self.spec_params());
        }
        let query = query_join(&params);
        let path = base.clone().concat(query.as_str());
        proof {
            assert(path@ =~= base@ + query_spec(self.spec_params()));
        }
        Request {
            method: Method::Get,
            bucket_path: base,
            path,
            body: None,
            files: Vec::new(),
            headers: Vec::new(),
            use_authorization_token: true,
        }
    }
}

/// Kind of failure when updating a guild member.
#[derive(Clone, Debug)]
pub enum UpdateGuildMemberErrorType {
    /// The nickname is empty or longer than 32 characters.
    NicknameInvalid {
        /// The nickname as provided.
        nickname: String,
    },
}

/// A member cannot be updated as configured.
#[derive(Clone, Debug)]
pub struct UpdateGuildMemberError {
    /// What failed.
    pub kind: UpdateGuildMemberErrorType,
}

impl UpdateGuildMemberError {
    /// The kind of failure.
    pub fn kind(&self) -> (r: &UpdateGuildMemberErrorType)
        ensures
            r == self.kind,
    {
        &self.kind
    }

    /// Consume the error; it never carries an underlying cause.
    pub fn into_source(self) -> (r: Option<String>)
        ensures
            r is None,
    {
        None
    }

    /// Consume the error into its kind and absent cause.
    pub fn into_parts(self) -> (r: (UpdateGuildMemberErrorType, Option<String>))
        ensures
            r.0 == self.kind,
            r.1 is None,
    {
        (self.kind, None)
    }
}

/// Update a guild member's voice and identity settings.
#[derive(Clone, Debug)]
pub struct UpdateGuildMember {
    /// The guild of the member.
    pub guild_id: u64,
    /// The member updated.
    pub user_id: u64,
    /// Voice channel to move the member to, or null to disconnect.
    pub channel_id: Option<Option<u64>>,
    /// Whether the member is deafened.
    pub deaf: Option<bool>,
    /// Whether the member is muted.
    pub mute: Option<bool>,
    /// Nickname, or null to clear; validated to 1 through 32 characters.
    pub nick: Option<Option<String>>,
    /// Roles the member keeps.
    pub roles: Option<Vec<u64>>,
    /// Audit-log reason, when set.
    pub reason: Option<String>,
}

impl UpdateGuildMember {
    /// Configure updating a guild member, with nothing changed yet.
    pub fn new(guild_id: u64, user_id: u64) -> (r: UpdateGuildMember)
        ensures
            r.guild_id == guild_id,
            r.user_id == user_id,
            r.channel_id is None,
            r.deaf is None,
            r.mute is None,
            r.nick is None,
            r.roles is None,
            r.reason is None,
    {
        UpdateGuildMember {
            guild_id,
            user_id,
            channel_id: None,
            deaf: None,
            mute: None,
            nick: None,
            roles: None,
            reason: None,
        }
    }

    /// Move the member to a voice channel, or disconnect them.
    pub fn channel_id(self, channel_id: Option<u64>) -> (r: Self)
        ensures
            r == (UpdateGuildMember { channel_id: Some(channel_id), ..self }),
    {
        UpdateGuildMember { channel_id: Some(channel_id), ..self }
    }

    /// Whether the member is deafened.
    pub fn deaf(self, deaf: bool) -> (r: Self)
        ensures
            r == (UpdateGuildMember { deaf: Some(deaf), ..self }),
    {
        UpdateGuildMember { deaf: Some(deaf), ..self }
    }

    /// Whether the member is muted.
    pub fn mute(self, mute: bool) -> (r: Self)
        ensures
            r == (UpdateGuildMember { mute: Some(mute), ..self }),
    {
        UpdateGuildMember { mute: Some(mute), ..self }
    }

    /// Set the nickname — 1 through 32 characters — or clear it.
    pub fn nick(self, nick: Option<String>) -> (r: Result<Self, UpdateGuildMemberError>)
        ensures
            match r {
                Ok(b) => match nick {
                    Option::Some(n) => 1 <= n@.len() <= 32 && b == (UpdateGuildMember {
                        nick: Some(Some(n)),
                        ..self
                    }),
                    Option::None => b == (UpdateGuildMember {
                        nick: Some(Option::<String>::None),
                        ..self
                    }),
                },
                Err(e) => (nick matches Some(n) && !(1 <= n@.len() <= 32) && (e.kind
                    matches UpdateGuildMemberErrorType::NicknameInvalid { nickname } && nickname
                    == n)),
            },
    {
        match nick {
            Some(n) => {
                if !validate::nickname(n.as_str()) {
                    return Err(
                        UpdateGuildMemberError {
                            kind: UpdateGuildMemberErrorType::NicknameInvalid { nickname: n },
                        },
                    );
                }
                Ok(UpdateGuildMember { nick: Some(Some(n)), ..self })
            },
            None => Ok(UpdateGuildMember { nick: Some(None), ..self }),
        }
    }

    /// Set the roles the member keeps.
    pub fn roles(self, roles: Vec<u64>) -> (r: Self)
        ensures
            r == (UpdateGuildMember { roles: Some(roles), ..self }),
    {
        UpdateGuildMember { roles: Some(roles), ..self }
    }

    /// Attach an audit-log reason: at most 512 characters.
    pub fn reason(self, reason: String) -> (r: Result<Self, crate::request::AuditLogReasonError>)
        ensures
            match r {
                Ok(b) => reason@.len() <= 512 && b == (UpdateGuildMember {
                    reason: Some(reason),
                    ..self
                }),
                Err(_) => reason@.len() > 512,
            },
    {
        let validated = match crate::request::validate_audit_reason(reason) {
            Ok(v) => v,
            Err(e) => {
                return Err(e);
            },
        };
        Ok(UpdateGuildMember { reason: Some(validated), ..self })
    }

    /// The body members of the request, in field order.
    pub open spec fn spec_body_members(&self) -> Seq<(Seq<u8>, Seq<u8>)> {
        (match self.channel_id {
            Option::Some(v) => seq![("channel_id".spec_bytes(), id_or_null(v))],
            Option::None => Seq::empty(),
        }) + (match self.deaf {
            Option::Some(b) => seq![("deaf".spec_bytes(), json_bool_bytes(b))],
            Option::None => Seq::empty(),
        }) + (match self.mute {
            Option::Some(b) => seq![("mute".spec_bytes(), json_bool_bytes(b))],
            Option::None => Seq::empty(),
        }) + (match self.nick {
            Option::Some(n) => seq![
                ("nick".spec_bytes(), match n {
                    Option::Some(x) => json_string_bytes(vstd::utf8::encode_utf8(x@)),
                    Option::None => json_null_bytes(),
                }),
            ],
            Option::None => Seq::empty(),
        }) + (match self.roles {
            Option::Some(rs) => seq![
                (
                    "roles".spec_bytes(),
                    json_array_bytes(
                        rs@.map_values(|id: u64| json_string_bytes(dec_bytes(id as nat))),
                    ),
                ),
            ],
            Option::None => Seq::empty(),
        })
    }

    /// The request: a PATCH of the guild's member route carrying the
    /// changed fields as its JSON body, with the audit-log reason header
    /// when one is set.
    pub fn request(&self) -> (r: Request)
        ensures
            r.method == Method::Patch,
            r.use_authorization_token,
            r.body matches Some(b) && b@ == json_object_bytes(self.spec_body_members()),
            r.files@.len() == 0,
            headers_pairs_view(r.headers@) == reason_headers_spec(self.reason),
            r.path@ == "guilds/"@ + dec_of(self.guild_id as nat) + "/members/"@ + dec_of(
                self.user_id as nat,
            ),
            r.bucket_path@ == r.path@,
    {
        let path = "guilds/".to_owned().concat(u64_to_dec(self.guild_id).as_str()).concat(
            "/members/",
        ).concat(u64_to_dec(self.user_id).as_str());
        proof {
            assert(path@ =~= "guilds/"@ + dec_of(self.guild_id as nat) + "/members/"@ + dec_of(
                self.user_id as nat,
            ));
        }
        let mut members: Vec<(Vec<u8>, Vec<u8>)> = Vec::new();
        match self.channel_id {
            Some(v) => {
                members.push(("channel_id".as_bytes_vec(), jid_or_null(v)));
            },
            None => {},
        }
        match self.deaf {
            Some(b) => {
                members.push(("deaf".as_bytes_vec(), jbool(b)));
            },
            None => {},
        }
        match self.mute {
            Some(b) => {
                members.push(("mute".as_bytes_vec(), jbool(b)));
            },
            None => {},
        }
        match &self.nick {
            Some(n) => {
                let value = match n {
                    Some(x) => jstr(x.as_str()),
                    None => jnull(),
                };
                members.push(("nick".as_bytes_vec(), value));
            },
            None => {},
        }
        match &self.roles {
            Some(rs) => {
                members.push(("roles".as_bytes_vec(), jid_array(rs)));
            },
            None => {},
        }
        proof {
            assert(members_view(members@) =~= self.spec_body_members());
        }
        let body = json_object(&members);
        let headers = reason_headers(&self.reason);
        Request {
            method: Method::Patch,
            bucket_path: path.clone(),
            path,
            body: Some(body),
            files: Vec::new(),
            headers,
            use_authorization_token: true,
        }
    }
}

/// Grant one role to a guild member.
#[derive(Clone, Debug)]
pub struct AddRoleToMember {
    /// The guild of the member.
    pub guild_id: u64,
    /// The role granted.
    pub role_id: u64,
    /// The member granted the role.
    pub user_id: u64,
    /// Audit-log reason, when set.
    pub reason: Option<String>,
}

impl AddRoleToMember {
    /// Configure granting one role to a member.
    pub fn new(guild_id: u64, user_id: u64, role_id: u64) -> (r: AddRoleToMember)
        ensures
            r.guild_id == guild_id,
            r.user_id == user_id,
            r.role_id == role_id,
            r.reason is None,
    {
        AddRoleToMember { guild_id, role_id, user_id, reason: None }
    }

    /// Attach an audit-log reason: at most 512 characters.
    pub fn reason(self, reason: String) -> (r: Result<Self, crate::request::AuditLogReasonError>)
        ensures
            match r {
                Ok(b) => reason@.len() <= 512 && b == (AddRoleToMember {
                    reason: Some(reason),
                    ..self
                }),
                Err(_) => reason@.len() > 512,
            },
    {
        let validated = match crate::request::validate_audit_reason(reason) {
            Ok(v) => v,
            Err(e) => {
                return Err(e);
            },
        };
        Ok(AddRoleToMember { reason: Some(validated), ..self })
    }

    /// The request: a PUT of the member's role route, with the audit-log
    /// reason header when one is set.
    pub fn request(&self) -> (r: Request)
        ensures
            r.method == Method::Put,
            r.use_authorization_token,
            r.body is None,
            r.files@.len() == 0,
            headers_pairs_view(r.headers@) == reason_headers_spec(self.reason),
            r.path@ == "guilds/"@ + dec_of(self.guild_id as nat) + "/members/"@ + dec_of(
                self.user_id as nat,
            ) + "/roles/"@ + dec_of(self.role_id as nat),
            r.bucket_path@ == r.path@,
    {
        let path = "guilds/".to_owned().concat(u64_to_dec(self.guild_id).as_str()).concat(
            "/members/",
        ).concat(u64_to_dec(self.user_id).as_str()).concat("/roles/").concat(
            u64_to_dec(self.role_id).as_str(),
        );
        proof {
            assert(path@ =~= "guilds/"@ + dec_of(self.guild_id as nat) + "/members/"@ + dec_of(
                self.user_id as nat,
            ) + "/roles/"@ + dec_of(self.role_id as nat));
        }
        let headers = reason_headers(&self.reason);
        Request {
            method: Method::Put,
            bucket_path: path.clone(),
            path,
            body: None,
            files: Vec::new(),
            headers,
            use_authorization_token: true,
        }
    }
}

} // verus!
