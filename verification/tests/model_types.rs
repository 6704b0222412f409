//! Tests for the wire-number enums of the data model.

use discord_core::model::{
    ChannelType, MessageActivityType, MessageType, PermissionOverwrite, PermissionOverwriteTargetType,
    PermissionOverwriteType, StickerFormatType, WebhookType,
};

#[test]
fn channel_type_test_unknown_conversion() {
    assert_eq!(ChannelType::Unknown { value: 250 }, ChannelType::from(250));
}

#[test]
fn test_names() {
    assert_eq!("Group", ChannelType::Group.name());
    assert_eq!("GuildCategory", ChannelType::GuildCategory.name());
    assert_eq!("GuildNews", ChannelType::GuildNews.name());
    assert_eq!("GuildStageVoice", ChannelType::GuildStageVoice.name());
    assert_eq!("GuildStore", ChannelType::GuildStore.name());
    assert_eq!("GuildText", ChannelType::GuildText.name());
    assert_eq!("GuildVoice", ChannelType::GuildVoice.name());
    assert_eq!("Private", ChannelType::Private.name());
}

#[test]
fn channel_type_test_variants() {
    let map = [
        (ChannelType::GuildText, 0),
        (ChannelType::Private, 1),
        (ChannelType::GuildVoice, 2),
        (ChannelType::Group, 3),
        (ChannelType::GuildCategory, 4),
        (ChannelType::GuildNews, 5),
        (ChannelType::GuildStore, 6),
        (ChannelType::GuildStageVoice, 13),
    ];
    for (kind, num) in map {
        assert_eq!(kind, ChannelType::from(num));
        assert_eq!(num, kind.number());
    }
}

#[test]
fn activity_type_test_unknown_conversion() {
    assert_eq!(
        MessageActivityType::Unknown { value: 250 },
        MessageActivityType::from(250)
    );
}

#[test]
fn activity_type_test_variants() {
    let map = [
        (MessageActivityType::Join, 1),
        (MessageActivityType::Spectate, 2),
        (MessageActivityType::Listen, 3),
        (MessageActivityType::JoinRequest, 5),
    ];
    for (kind, num) in map {
        assert_eq!(kind, MessageActivityType::from(num));
        assert_eq!(num, kind.number());
    }
}

#[test]
fn kind_test_unknown_conversion() {
    assert_eq!(MessageType::Unknown { value: 250 }, MessageType::from(250));
    assert_eq!(
        StickerFormatType::Unknown { value: 250 },
        StickerFormatType::from(250)
    );
}

#[test]
fn kind_test_variants() {
    let message_map = [
        (MessageType::Regular, 0),
        (MessageType::RecipientAdd, 1),
        (MessageType::RecipientRemove, 2),
        (MessageType::Call, 3),
        (MessageType::ChannelNameChange, 4),
        (MessageType::ChannelIconChange, 5),
        (MessageType::ChannelMessagePinned, 6),
        (MessageType::GuildMemberJoin, 7),
        (MessageType::UserPremiumSub, 8),
        (MessageType::UserPremiumSubTier1, 9),
        (MessageType::UserPremiumSubTier2, 10),
        (MessageType::UserPremiumSubTier3, 11),
        (MessageType::ChannelFollowAdd, 12),
        (MessageType::GuildDiscoveryDisqualified, 14),
        (MessageType::GuildDiscoveryRequalified, 15),
        (MessageType::GuildDiscoveryGracePeriodInitialWarning, 16),
        (MessageType::GuildDiscoveryGracePeriodFinalWarning, 17),
        (MessageType::Reply, 19),
        (MessageType::GuildInviteReminder, 22),
    ];
    for (kind, num) in message_map {
        assert_eq!(kind, MessageType::from(num));
        assert_eq!(num, kind.number());
    }
    let sticker_map = [
        (StickerFormatType::Png, 1),
        (StickerFormatType::Apng, 2),
        (StickerFormatType::Lottie, 3),
    ];
    for (kind, num) in sticker_map {
        assert_eq!(kind, StickerFormatType::from(num));
        assert_eq!(num, kind.number());
    }
}

#[test]
fn test_default() {
    assert_eq!(WebhookType::Incoming, WebhookType::default());
}

#[test]
fn webhook_type_test_unknown_conversion() {
    assert_eq!(WebhookType::Unknown { value: 250 }, WebhookType::from(250));
}

#[test]
fn webhook_type_test_variants() {
    let map = [(WebhookType::Incoming, 1), (WebhookType::ChannelFollower, 2)];
    for (kind, num) in map {
        assert_eq!(kind, WebhookType::from(num));
        assert_eq!(num, kind.number());
    }
}

#[test]
fn overwrite_data_roundtrip() {
    let overwrite = PermissionOverwrite {
        allow: 1,
        deny: 2,
        kind: PermissionOverwriteType::Member(12_345_678),
    };
    let (allow, deny, id, kind) = overwrite.to_data();
    assert_eq!(1, allow);
    assert_eq!(2, deny);
    assert_eq!(12_345_678, id);
    assert_eq!(PermissionOverwriteTargetType::Member, kind);
    assert_eq!(1, kind.number());
    assert_eq!(overwrite, PermissionOverwrite::from_data(allow, deny, id, kind));
}

#[test]
fn overwrite_target_type_numbers() {
    assert_eq!(0, PermissionOverwriteTargetType::Role.number());
    assert_eq!(1, PermissionOverwriteTargetType::Member.number());
    assert_eq!(
        Some(PermissionOverwriteTargetType::Role),
        PermissionOverwriteTargetType::from_number(0)
    );
    assert_eq!(
        Some(PermissionOverwriteTargetType::Member),
        PermissionOverwriteTargetType::from_number(1)
    );
    assert_eq!(None, PermissionOverwriteTargetType::from_number(2));
}
