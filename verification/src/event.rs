//! Greets members who join the Ethene Hosting guild and gives them its
//! member role; the channel and role are fixed.

use vstd::prelude::*;
use crate::discord::{user_mention, user_mention_text};
use crate::text::{decimal, push_decimal};

verus! {

/// The channel greetings are posted in.
pub const WELCOME_CHANNEL_ID: u64 = 1323369443145027738;

/// The role given to members who join.
pub const ROLE_ID: u64 = 1323370508477005865;

/// The greeting: `Welcome <member> to Ethene Hosting! We are now: <count>!`.
pub open spec fn welcome_text_spec(member_id: u64, member_count: u64) -> Seq<char> {
    "Welcome "@ + user_mention_text(member_id) + " to Ethene Hosting! We are now: "@ + decimal(
        member_count as nat,
    ) + "!"@
}

/// The greeting for a member who joined a guild of `member_count` members.
pub fn welcome_text(member_id: u64, member_count: u64) -> (text: String)
    requires
        member_id != 0,
    ensures
        text@ == welcome_text_spec(member_id, member_count),
{
    let mut text = String::from_str("Welcome ");
    let mention = user_mention(member_id);
    text.append(mention.as_str());
    text.append(" to Ethene Hosting! We are now: ");
    push_decimal(&mut text, member_count as u128);
    text.append("!");
    text
}

} // verus!
