//! Greets members who join a guild in the guild's welcome channel.

use vstd::prelude::*;
use crate::config::guild::{config_of, ConfigStore, GuildConfigView};
use crate::discord::{user_mention, user_mention_text};
use crate::text::{decimal, push_decimal};

verus! {

/// The channel a guild greets joining members in: none where the system is
/// off or no channel is chosen (id zero).
pub open spec fn welcome_channel_of(config: GuildConfigView) -> Option<u64> {
    if config.welcome_message_system && config.welcome_message_id != 0 {
        Some(config.welcome_message_id)
    } else {
        None
    }
}

/// The channel to greet a member who joined the guild in, if any.
pub fn welcome_channel(store: &ConfigStore, guild_id: u64) -> (channel: Option<u64>)
    ensures
        channel == welcome_channel_of(config_of(store@, guild_id)),
{
    let config = store.get_config(guild_id);
    if !config.welcome_message_system || config.welcome_message_id == 0 {
        return None;
    }
    Some(config.welcome_message_id)
}

/// The greeting: `Welcome <member> to <guild>!`, followed by
/// ` We are now: <count>!` where the member count is known (not zero).
pub open spec fn welcome_text_spec(member_id: u64, guild_name: Seq<char>, member_count: u64) -> Seq<
    char,
> {
    let head = "Welcome "@ + user_mention_text(member_id) + " to "@ + guild_name + "!"@;
    if member_count == 0 {
        head
    } else {
        head + " We are now: "@ + decimal(member_count as nat) + "!"@
    }
}

/// The greeting for a member who joined a guild of `member_count` members
/// (zero where the count is unknown).
pub fn welcome_text(member_id: u64, guild_name: &str, member_count: u64) -> (text: String)
    requires
        member_id != 0,
    ensures
        text@ == welcome_text_spec(member_id, guild_name@, member_count),
{
    let mut text = String::from_str("Welcome ");
    let mention = user_mention(member_id);
    text.append(mention.as_str());
    text.append(" to ");
    text.append(guild_name);
    text.append("!");
    if member_count != 0 {
        text.append(" We are now: ");
        push_decimal(&mut text, member_count as u128);
        text.append("!");
    }
    text
}

} // verus!
