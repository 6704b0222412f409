//! Input validators the endpoint builders share. Lengths are counted in
//! characters, as the platform counts them.

use vstd::prelude::*;

verus! {

/// Whether a channel-messages page size is allowed: one through one
/// hundred.
pub fn get_channel_messages_limit(limit: u64) -> (r: bool)
    ensures
        r == (1 <= limit <= 100),
{
    1 <= limit && limit <= 100
}

/// Whether a reactions page size is allowed: one through one hundred.
pub fn get_reactions_limit(limit: u64) -> (r: bool)
    ensures
        r == (1 <= limit <= 100),
{
    1 <= limit && limit <= 100
}

/// Whether a guild-members page size is allowed: one through one thousand.
pub fn get_guild_members_limit(limit: u64) -> (r: bool)
    ensures
        r == (1 <= limit <= 1000),
{
    1 <= limit && limit <= 1000
}

/// Whether a member-search page size is allowed: one through one thousand.
pub fn search_guild_members_limit(limit: u64) -> (r: bool)
    ensures
        r == (1 <= limit <= 1000),
{
    1 <= limit && limit <= 1000
}

/// Whether a stage topic's length is allowed: 1 through 120 characters.
pub fn stage_topic(topic: &str) -> (r: bool)
    ensures
        r == (1 <= topic@.len() <= 120),
{
    let len = topic.unicode_len();
    1 <= len && len <= 120
}

/// Whether a nickname's length is allowed: 1 through 32 characters.
pub fn nickname(nick: &str) -> (r: bool)
    ensures
        r == (1 <= nick@.len() <= 32),
{
    let len = nick.unicode_len();
    1 <= len && len <= 32
}

/// Whether a guild name's length is allowed: 2 through 100 characters.
pub fn guild_name(name: &str) -> (r: bool)
    ensures
        r == (2 <= name@.len() <= 100),
{
    let len = name.unicode_len();
    2 <= len && len <= 100
}

/// Whether message content fits the limit of 2000 characters.
pub fn content_limit(content: &str) -> (r: bool)
    ensures
        r == (content@.len() <= 2000),
{
    content.unicode_len() <= 2000
}

} // verus!
