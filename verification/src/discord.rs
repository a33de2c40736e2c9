//! The few computations that the bot takes from the Discord model of
//! `serenity`: mentions, the `@everyone` role of a guild, and permission bits.

use serenity::all::{ChannelId, GuildId, Mentionable, Permissions, UserId};
use vstd::prelude::*;
use crate::text::decimal;

verus! {

/// The text of a user mention: `<@` followed by the id in decimal and `>`.
pub open spec fn user_mention_text(user_id: u64) -> Seq<char> {
    seq!['<', '@'] + decimal(user_id as nat) + seq!['>']
}

/// The text of a channel mention: `<#` followed by the id in decimal and `>`.
pub open spec fn channel_mention_text(channel_id: u64) -> Seq<char> {
    seq!['<', '#'] + decimal(channel_id as nat) + seq!['>']
}

/// Renders the mention of a user.
///
/// Trusted: serenity's `Mentionable::mention` on a `UserId` gives
/// `Mention::User`, whose `Display` writes `<@{id}>` with the id in decimal.
/// `UserId::new` panics on zero, hence the precondition.
#[verifier::external_body]
pub fn user_mention(user_id: u64) -> (text: String)
    requires
        user_id != 0,
    ensures
        text@ == user_mention_text(user_id),
{
    format!("{}", UserId::new(user_id).mention())
}

/// Renders the mention of a channel.
///
/// Trusted: serenity's `Mentionable::mention` on a `ChannelId` gives
/// `Mention::Channel`, whose `Display` writes `<#{id}>` with the id in
/// decimal. `ChannelId::new` panics on zero, hence the precondition.
#[verifier::external_body]
pub fn channel_mention(channel_id: u64) -> (text: String)
    requires
        channel_id != 0,
    ensures
        text@ == channel_mention_text(channel_id),
{
    format!("{}", ChannelId::new(channel_id).mention())
}

/// The id of the `@everyone` role of a guild.
///
/// Trusted: serenity's `GuildId::everyone_role` returns the role whose id is
/// the guild's own id. `GuildId::new` panics on zero, hence the precondition.
#[verifier::external_body]
pub fn everyone_role(guild_id: u64) -> (role_id: u64)
    requires
        guild_id != 0,
    ensures
        role_id == guild_id,
{
    GuildId::new(guild_id).everyone_role().get()
}

/// The bit of the "View Channel" permission.
///
/// Trusted: serenity declares `Permissions::VIEW_CHANNEL` as `1 << 10`.
#[verifier::external_body]
pub fn view_channel_bits() -> (bits: u64)
    ensures
        bits == 1024,
{
    Permissions::VIEW_CHANNEL.bits()
}

/// The bits of the empty permission set.
///
/// Trusted: serenity's `Permissions::empty` is the set with no bit.
#[verifier::external_body]
pub fn no_permission_bits() -> (bits: u64)
    ensures
        bits == 0,
{
    Permissions::empty().bits()
}

} // verus!
