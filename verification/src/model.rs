//! Discord data-model enums that travel the wire as small integers, and the
//! permission-overwrite value object. Each enum keeps unknown wire values in
//! an `Unknown` variant so decoding never loses information.

use vstd::prelude::*;

verus! {

/// Kind of a channel.
#[derive(Clone, Copy, Debug, Eq, Hash, PartialEq, Structural)]
pub enum ChannelType {
    GuildText,
    Private,
    GuildVoice,
    Group,
    GuildCategory,
    GuildNews,
    GuildStore,
    GuildStageVoice,
    /// Kind is not known to this library.
    Unknown {
        /// Raw unknown variant number.
        value: u8,
    },
}

/// Wire number of each channel kind.
pub open spec fn channel_type_number(t: ChannelType) -> u8 {
    match t {
        ChannelType::GuildText => 0,
        ChannelType::Private => 1,
        ChannelType::GuildVoice => 2,
        ChannelType::Group => 3,
        ChannelType::GuildCategory => 4,
        ChannelType::GuildNews => 5,
        ChannelType::GuildStore => 6,
        ChannelType::GuildStageVoice => 13,
        ChannelType::Unknown { value } => value,
    }
}

/// Channel kind for a wire number.
pub open spec fn channel_type_from(value: u8) -> ChannelType {
    if value == 0 {
        ChannelType::GuildText
    } else if value == 1 {
        ChannelType::Private
    } else if value == 2 {
        ChannelType::GuildVoice
    } else if value == 3 {
        ChannelType::Group
    } else if value == 4 {
        ChannelType::GuildCategory
    } else if value == 5 {
        ChannelType::GuildNews
    } else if value == 6 {
        ChannelType::GuildStore
    } else if value == 13 {
        ChannelType::GuildStageVoice
    } else {
        ChannelType::Unknown { value }
    }
}

impl ChannelType {
    /// Name of the variant.
    pub fn name(self) -> (r: &'static str)
        ensures
            r@ == match self {
                ChannelType::Group => "Group"@,
                ChannelType::GuildCategory => "GuildCategory"@,
                ChannelType::GuildNews => "GuildNews"@,
                ChannelType::GuildStageVoice => "GuildStageVoice"@,
                ChannelType::GuildStore => "GuildStore"@,
                ChannelType::GuildText => "GuildText"@,
                ChannelType::GuildVoice => "GuildVoice"@,
                ChannelType::Private => "Private"@,
                ChannelType::Unknown { .. } => "Unknown"@,
            },
    {
        match self {
            Self::Group => "Group",
            Self::GuildCategory => "GuildCategory",
            Self::GuildNews => "GuildNews",
            Self::GuildStageVoice => "GuildStageVoice",
            Self::GuildStore => "GuildStore",
            Self::GuildText => "GuildText",
            Self::GuildVoice => "GuildVoice",
            Self::Private => "Private",
            Self::Unknown { .. } => "Unknown",
        }
    }

    /// Raw wire variant number.
    pub fn number(self) -> (r: u8)
        ensures
            r == channel_type_number(self),
    {
        match self {
            Self::GuildText => 0,
            Self::Private => 1,
            Self::GuildVoice => 2,
            Self::Group => 3,
            Self::GuildCategory => 4,
            Self::GuildNews => 5,
            Self::GuildStore => 6,
            Self::GuildStageVoice => 13,
            Self::Unknown { value } => value,
        }
    }
}

impl From<u8> for ChannelType {
    fn from(value: u8) -> (r: Self) {
        match value {
            0 => Self::GuildText,
            1 => Self::Private,
            2 => Self::GuildVoice,
            3 => Self::Group,
            4 => Self::GuildCategory,
            5 => Self::GuildNews,
            6 => Self::GuildStore,
            13 => Self::GuildStageVoice,
            _ => Self::Unknown { value },
        }
    }
}

impl vstd::std_specs::convert::FromSpecImpl<u8> for ChannelType {
    open spec fn obeys_from_spec() -> bool {
        true
    }

    open spec fn from_spec(value: u8) -> Self {
        channel_type_from(value)
    }
}

/// Decoding a wire number and reading the number back is the identity.
pub proof fn lemma_channel_type_number_roundtrip(value: u8)
    ensures
        channel_type_number(channel_type_from(value)) == value,
{
}

/// Kind of activity attached to a message.
#[derive(Clone, Copy, Debug, Eq, Hash, PartialEq, Structural)]
pub enum MessageActivityType {
    Join,
    Spectate,
    Listen,
    JoinRequest,
    /// Kind is not known to this library.
    Unknown {
        /// Raw unknown variant number.
        value: u8,
    },
}

/// Wire number of each message-activity kind.
pub open spec fn message_activity_type_number(t: MessageActivityType) -> u8 {
    match t {
        MessageActivityType::Join => 1,
        MessageActivityType::Spectate => 2,
        MessageActivityType::Listen => 3,
        MessageActivityType::JoinRequest => 5,
        MessageActivityType::Unknown { value } => value,
    }
}

/// Message-activity kind for a wire number.
pub open spec fn message_activity_type_from(value: u8) -> MessageActivityType {
    if value == 1 {
        MessageActivityType::Join
    } else if value == 2 {
        MessageActivityType::Spectate
    } else if value == 3 {
        MessageActivityType::Listen
    } else if value == 5 {
        MessageActivityType::JoinRequest
    } else {
        MessageActivityType::Unknown { value }
    }
}

impl MessageActivityType {
    /// Raw wire variant number.
    pub fn number(self) -> (r: u8)
        ensures
            r == message_activity_type_number(self),
    {
        match self {
            Self::Join => 1,
            Self::Spectate => 2,
            Self::Listen => 3,
            Self::JoinRequest => 5,
            Self::Unknown { value } => value,
        }
    }
}

impl From<u8> for MessageActivityType {
    fn from(value: u8) -> (r: Self) {
        match value {
            1 => Self::Join,
            2 => Self::Spectate,
            3 => Self::Listen,
            5 => Self::JoinRequest,
            _ => Self::Unknown { value },
        }
    }
}

impl vstd::std_specs::convert::FromSpecImpl<u8> for MessageActivityType {
    open spec fn obeys_from_spec() -> bool {
        true
    }

    open spec fn from_spec(value: u8) -> Self {
        message_activity_type_from(value)
    }
}

/// Decoding a wire number and reading the number back is the identity.
pub proof fn lemma_message_activity_type_number_roundtrip(value: u8)
    ensures
        message_activity_type_number(message_activity_type_from(value)) == value,
{
}

/// Kind of a message.
#[derive(Clone, Copy, Debug, Eq, Hash, PartialEq, Structural)]
pub enum MessageType {
    Regular,
    RecipientAdd,
    RecipientRemove,
    Call,
    ChannelNameChange,
    ChannelIconChange,
    ChannelMessagePinned,
    GuildMemberJoin,
    UserPremiumSub,
    UserPremiumSubTier1,
    UserPremiumSubTier2,
    UserPremiumSubTier3,
    ChannelFollowAdd,
    GuildDiscoveryDisqualified,
    GuildDiscoveryRequalified,
    GuildDiscoveryGracePeriodInitialWarning,
    GuildDiscoveryGracePeriodFinalWarning,
    Reply,
    GuildInviteReminder,
    /// Kind is not known to this library.
    Unknown {
        /// Raw unknown variant number.
        value: u8,
    },
}

/// Wire number of each message kind.
pub open spec fn message_type_number(t: MessageType) -> u8 {
    match t {
        MessageType::Regular => 0,
        MessageType::RecipientAdd => 1,
        MessageType::RecipientRemove => 2,
        MessageType::Call => 3,
        MessageType::ChannelNameChange => 4,
        MessageType::ChannelIconChange => 5,
        MessageType::ChannelMessagePinned => 6,
        MessageType::GuildMemberJoin => 7,
        MessageType::UserPremiumSub => 8,
        MessageType::UserPremiumSubTier1 => 9,
        MessageType::UserPremiumSubTier2 => 10,
        MessageType::UserPremiumSubTier3 => 11,
        MessageType::ChannelFollowAdd => 12,
        MessageType::GuildDiscoveryDisqualified => 14,
        MessageType::GuildDiscoveryRequalified => 15,
        MessageType::GuildDiscoveryGracePeriodInitialWarning => 16,
        MessageType::GuildDiscoveryGracePeriodFinalWarning => 17,
        MessageType::Reply => 19,
        MessageType::GuildInviteReminder => 22,
        MessageType::Unknown { value } => value,
    }
}

/// Message kind for a wire number.
pub open spec fn message_type_from(value: u8) -> MessageType {
    if value == 0 {
        MessageType::Regular
    } else if value == 1 {
        MessageType::RecipientAdd
    } else if value == 2 {
        MessageType::RecipientRemove
    } else if value == 3 {
        MessageType::Call
    } else if value == 4 {
        MessageType::ChannelNameChange
    } else if value == 5 {
        MessageType::ChannelIconChange
    } else if value == 6 {
        MessageType::ChannelMessagePinned
    } else if value == 7 {
        MessageType::GuildMemberJoin
    } else if value == 8 {
        MessageType::UserPremiumSub
    } else if value == 9 {
        MessageType::UserPremiumSubTier1
    } else if value == 10 {
        MessageType::UserPremiumSubTier2
    } else if value == 11 {
        MessageType::UserPremiumSubTier3
    } else if value == 12 {
        MessageType::ChannelFollowAdd
    } else if value == 14 {
        MessageType::GuildDiscoveryDisqualified
    } else if value == 15 {
        MessageType::GuildDiscoveryRequalified
    } else if value == 16 {
        MessageType::GuildDiscoveryGracePeriodInitialWarning
    } else if value == 17 {
        MessageType::GuildDiscoveryGracePeriodFinalWarning
    } else if value == 19 {
        MessageType::Reply
    } else if value == 22 {
        MessageType::GuildInviteReminder
    } else {
        MessageType::Unknown { value }
    }
}

impl MessageType {
    /// Raw wire variant number.
    pub fn number(self) -> (r: u8)
        ensures
            r == message_type_number(self),
    {
        match self {
            Self::Regular => 0,
            Self::RecipientAdd => 1,
            Self::RecipientRemove => 2,
            Self::Call => 3,
            Self::ChannelNameChange => 4,
            Self::ChannelIconChange => 5,
            Self::ChannelMessagePinned => 6,
            Self::GuildMemberJoin => 7,
            Self::UserPremiumSub => 8,
            Self::UserPremiumSubTier1 => 9,
            Self::UserPremiumSubTier2 => 10,
            Self::UserPremiumSubTier3 => 11,
            Self::ChannelFollowAdd => 12,
            Self::GuildDiscoveryDisqualified => 14,
            Self::GuildDiscoveryRequalified => 15,
            Self::GuildDiscoveryGracePeriodInitialWarning => 16,
            Self::GuildDiscoveryGracePeriodFinalWarning => 17,
            Self::Reply => 19,
            Self::GuildInviteReminder => 22,
            Self::Unknown { value } => value,
        }
    }
}

impl From<u8> for MessageType {
    fn from(value: u8) -> (r: Self) {
        match value {
            0 => Self::Regular,
            1 => Self::RecipientAdd,
            2 => Self::RecipientRemove,
            3 => Self::Call,
            4 => Self::ChannelNameChange,
            5 => Self::ChannelIconChange,
            6 => Self::ChannelMessagePinned,
            7 => Self::GuildMemberJoin,
            8 => Self::UserPremiumSub,
            9 => Self::UserPremiumSubTier1,
            10 => Self::UserPremiumSubTier2,
            11 => Self::UserPremiumSubTier3,
            12 => Self::ChannelFollowAdd,
            14 => Self::GuildDiscoveryDisqualified,
            15 => Self::GuildDiscoveryRequalified,
            16 => Self::GuildDiscoveryGracePeriodInitialWarning,
            17 => Self::GuildDiscoveryGracePeriodFinalWarning,
            19 => Self::Reply,
            22 => Self::GuildInviteReminder,
            _ => Self::Unknown { value },
        }
    }
}

impl vstd::std_specs::convert::FromSpecImpl<u8> for MessageType {
    open spec fn obeys_from_spec() -> bool {
        true
    }

    open spec fn from_spec(value: u8) -> Self {
        message_type_from(value)
    }
}

/// Decoding a wire number and reading the number back is the identity.
pub proof fn lemma_message_type_number_roundtrip(value: u8)
    ensures
        message_type_number(message_type_from(value)) == value,
{
}

/// Storage format of a sticker.
#[derive(Clone, Copy, Debug, Eq, Hash, PartialEq, Structural)]
pub enum StickerFormatType {
    Png,
    Apng,
    Lottie,
    /// Kind is not known to this library.
    Unknown {
        /// Raw unknown variant number.
        value: u8,
    },
}

/// Wire number of each sticker format.
pub open spec fn sticker_format_type_number(t: StickerFormatType) -> u8 {
    match t {
        StickerFormatType::Png => 1,
        StickerFormatType::Apng => 2,
        StickerFormatType::Lottie => 3,
        StickerFormatType::Unknown { value } => value,
    }
}

/// Sticker format for a wire number.
pub open spec fn sticker_format_type_from(value: u8) -> StickerFormatType {
    if value == 1 {
        StickerFormatType::Png
    } else if value == 2 {
        StickerFormatType::Apng
    } else if value == 3 {
        StickerFormatType::Lottie
    } else {
        StickerFormatType::Unknown { value }
    }
}

impl StickerFormatType {
    /// Raw wire variant number.
    pub fn number(self) -> (r: u8)
        ensures
            r == sticker_format_type_number(self),
    {
        match self {
            Self::Png => 1,
            Self::Apng => 2,
            Self::Lottie => 3,
            Self::Unknown { value } => value,
        }
    }
}

impl From<u8> for StickerFormatType {
    fn from(value: u8) -> (r: Self) {
        match value {
            1 => Self::Png,
            2 => Self::Apng,
            3 => Self::Lottie,
            _ => Self::Unknown { value },
        }
    }
}

impl vstd::std_specs::convert::FromSpecImpl<u8> for StickerFormatType {
    open spec fn obeys_from_spec() -> bool {
        true
    }

    open spec fn from_spec(value: u8) -> Self {
        sticker_format_type_from(value)
    }
}

/// Decoding a wire number and reading the number back is the identity.
pub proof fn lemma_sticker_format_type_number_roundtrip(value: u8)
    ensures
        sticker_format_type_number(sticker_format_type_from(value)) == value,
{
}

/// Kind of a webhook.
#[derive(Clone, Copy, Debug, Eq, Hash, PartialEq, Structural)]
pub enum WebhookType {
    Incoming,
    ChannelFollower,
    /// Kind is not known to this library.
    Unknown {
        /// Raw unknown variant number.
        value: u8,
    },
}

/// Wire number of each webhook kind.
pub open spec fn webhook_type_number(t: WebhookType) -> u8 {
    match t {
        WebhookType::Incoming => 1,
        WebhookType::ChannelFollower => 2,
        WebhookType::Unknown { value } => value,
    }
}

/// Webhook kind for a wire number.
pub open spec fn webhook_type_from(value: u8) -> WebhookType {
    if value == 1 {
        WebhookType::Incoming
    } else if value == 2 {
        WebhookType::ChannelFollower
    } else {
        WebhookType::Unknown { value }
    }
}

impl WebhookType {
    /// Raw wire variant number.
    pub fn number(self) -> (r: u8)
        ensures
            r == webhook_type_number(self),
    {
        match self {
            Self::Incoming => 1,
            Self::ChannelFollower => 2,
            Self::Unknown { value } => value,
        }
    }
}

impl Default for WebhookType {
    fn default() -> (r: Self)
        ensures
            r == WebhookType::Incoming,
    {
        Self::Incoming
    }
}

impl From<u8> for WebhookType {
    fn from(value: u8) -> (r: Self) {
        match value {
            1 => Self::Incoming,
            2 => Self::ChannelFollower,
            _ => Self::Unknown { value },
        }
    }
}

impl vstd::std_specs::convert::FromSpecImpl<u8> for WebhookType {
    open spec fn obeys_from_spec() -> bool {
        true
    }

    open spec fn from_spec(value: u8) -> Self {
        webhook_type_from(value)
    }
}

/// Decoding a wire number and reading the number back is the identity.
pub proof fn lemma_webhook_type_number_roundtrip(value: u8)
    ensures
        webhook_type_number(webhook_type_from(value)) == value,
{
}

/// Target of a permission overwrite: an individual member or a role, with the
/// target's snowflake id.
#[derive(Clone, Copy, Debug, Eq, Hash, PartialEq, Structural)]
pub enum PermissionOverwriteType {
    /// Overwrite targets an individual member.
    Member(u64),
    /// Overwrite targets an individual role.
    Role(u64),
}

/// Kind tag of a permission overwrite target, as it travels the wire.
#[derive(Clone, Copy, Debug, Eq, Hash, PartialEq, Structural)]
pub enum PermissionOverwriteTargetType {
    /// Overwrite targets an individual role.
    Role,
    /// Overwrite targets an individual member.
    Member,
}

/// Wire number of each overwrite target kind.
pub open spec fn overwrite_target_type_number(t: PermissionOverwriteTargetType) -> u8 {
    match t {
        PermissionOverwriteTargetType::Role => 0,
        PermissionOverwriteTargetType::Member => 1,
    }
}

impl PermissionOverwriteTargetType {
    /// Raw wire variant number.
    pub fn number(self) -> (r: u8)
        ensures
            r == overwrite_target_type_number(self),
    {
        match self {
            Self::Role => 0,
            Self::Member => 1,
        }
    }

    /// Overwrite target kind for a wire number; only 0 and 1 are assigned.
    pub fn from_number(value: u8) -> (r: Option<Self>)
        ensures
            r == (if value == 0 {
                Some(PermissionOverwriteTargetType::Role)
            } else if value == 1 {
                Some(PermissionOverwriteTargetType::Member)
            } else {
                None::<PermissionOverwriteTargetType>
            }),
    {
        match value {
            0 => Some(Self::Role),
            1 => Some(Self::Member),
            _ => None,
        }
    }
}

/// A channel permission overwrite: allowed and denied permission bit sets for
/// one target.
#[derive(Clone, Copy, Debug, Eq, Hash, PartialEq, Structural)]
pub struct PermissionOverwrite {
    /// Permission bits the target is allowed.
    pub allow: u64,
    /// Permission bits the target is denied.
    pub deny: u64,
    /// Who the overwrite applies to.
    pub kind: PermissionOverwriteType,
}

impl PermissionOverwrite {
    /// Assemble an overwrite from the fields of its wire form: the permission
    /// bit sets, the target id, and the target kind tag.
    pub fn from_data(allow: u64, deny: u64, id: u64, kind: PermissionOverwriteTargetType) -> (r:
        Self)
        ensures
            r.allow == allow,
            r.deny == deny,
            r.kind == match kind {
                PermissionOverwriteTargetType::Member => PermissionOverwriteType::Member(id),
                PermissionOverwriteTargetType::Role => PermissionOverwriteType::Role(id),
            },
    {
        let k = match kind {
            PermissionOverwriteTargetType::Member => PermissionOverwriteType::Member(id),
            PermissionOverwriteTargetType::Role => PermissionOverwriteType::Role(id),
        };
        PermissionOverwrite { allow, deny, kind: k }
    }

    /// Break an overwrite into the fields of its wire form: the permission
    /// bit sets, the target id, and the target kind tag.
    pub fn to_data(&self) -> (r: (u64, u64, u64, PermissionOverwriteTargetType))
        ensures
            r.0 == self.allow,
            r.1 == self.deny,
            match self.kind {
                PermissionOverwriteType::Member(id) => r.2 == id && r.3
                    == PermissionOverwriteTargetType::Member,
                PermissionOverwriteType::Role(id) => r.2 == id && r.3
                    == PermissionOverwriteTargetType::Role,
            },
    {
        match self.kind {
            PermissionOverwriteType::Member(id) => (
                self.allow,
                self.deny,
                id,
                PermissionOverwriteTargetType::Member,
            ),
            PermissionOverwriteType::Role(id) => (
                self.allow,
                self.deny,
                id,
                PermissionOverwriteTargetType::Role,
            ),
        }
    }
}

/// Breaking an overwrite into wire fields and assembling it back is the
/// identity.
pub proof fn lemma_overwrite_data_roundtrip(o: PermissionOverwrite)
    ensures
        ({
            let (allow, deny, id, kind) = (
                o.allow,
                o.deny,
                match o.kind {
                    PermissionOverwriteType::Member(id) => id,
                    PermissionOverwriteType::Role(id) => id,
                },
                match o.kind {
                    PermissionOverwriteType::Member(_) => PermissionOverwriteTargetType::Member,
                    PermissionOverwriteType::Role(_) => PermissionOverwriteTargetType::Role,
                },
            );
            o == PermissionOverwrite {
                allow,
                deny,
                kind: match kind {
                    PermissionOverwriteTargetType::Member => PermissionOverwriteType::Member(id),
                    PermissionOverwriteTargetType::Role => PermissionOverwriteType::Role(id),
                },
            }
        }),
{
}

} // verus!
