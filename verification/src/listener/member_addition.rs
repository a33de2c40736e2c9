//! Greets members who join the Ethene Hosting guild, whose welcome channel
//! and role come from the environment.

use vstd::prelude::*;
use crate::discord::{user_mention, user_mention_text};
use crate::text::{decimal, push_decimal};

verus! {

/// The greeting: `Welcome <member> to Ethene Hosting!`, then
/// ` We are now: <count>!` where the member count is known (not zero).
pub open spec fn welcome_text_spec(member_id: u64, member_count: u64) -> Seq<char> {
    let head = "Welcome "@ + user_mention_text(member_id) + " to Ethene Hosting!"@;
    if member_count == 0 {
        head
    } else {
        head + " We are now: "@ + decimal(member_count as nat) + "!"@
    }
}

/// The greeting for a member who joined a guild of `member_count` members
/// (zero where the count is unknown).
pub fn welcome_text(member_id: u64, member_count: u64) -> (text: String)
    requires
        member_id != 0,
    ensures
        text@ == welcome_text_spec(member_id, member_count),
{
    let mut text = String::from_str("Welcome ");
    let mention = user_mention(member_id);
    text.append(mention.as_str());
    text.append(" to Ethene Hosting!");
    if member_count != 0 {
        text.append(" We are now: ");
        push_decimal(&mut text, member_count as u128);
        text.append("!");
    }
    text
}

} // verus!
