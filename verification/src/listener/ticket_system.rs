//! The ticket system: a panel button opens a private ticket channel per
//! request; buttons in the ticket close it (after confirmation), reopen it
//! or delete it.

use vstd::prelude::*;
use crate::config::guild::{config_of, ConfigStore, GuildConfig, GuildConfigView};
use crate::discord::{channel_mention, channel_mention_text, everyone_role, no_permission_bits,
    user_mention, user_mention_text, view_channel_bits};
use crate::text::{
    all_digits, decimal, digits_value, free_of, lemma_decimal_value, lemma_leading_zeros_value, has_prefix, lemma_digits_free_of_dash, lemma_padded_decimal_injective,
    lemma_padded_digits, lemma_second_field_free, lemma_second_field_of_joined, push_chars,
    push_padded_decimal, same_text, second_dash_field, second_field, starts_with, zero_padded,
};

verus! {

/// Button of the ticket panel that opens a ticket.
pub const CREATE: &'static str = "manager-ticket-create";

/// Button in a ticket that asks to close it.
pub const CLOSE: &'static str = "manager-ticket-close";

/// Button that confirms closing a ticket.
pub const CLOSE_CONFIRMATION: &'static str = "manager-ticket-close-confirmation";

/// Button that withdraws the request to close a ticket.
pub const CANCEL_CLOSE: &'static str = "manager-ticket-cancel-close";

/// Button of a closed ticket that reopens it.
pub const OPEN: &'static str = "manager-ticket-open";

/// Button of a closed ticket that deletes it.
pub const DELETE: &'static str = "manager-ticket-delete";

/// Name prefix of an open ticket channel.
pub const TICKET_PREFIX: &'static str = "ticket-";

/// Name prefix of a closed ticket channel.
pub const CLOSED_PREFIX: &'static str = "closed-";

/// Description of the embed that carries a closed ticket's controls.
pub const CONTROLS_DESCRIPTION: &'static str = "```Support team ticket controls```";

/// Reply to a request to close a ticket that is closed already.
pub const ALREADY_CLOSED: &'static str = "> **Warning:** ticket already closed";

/// Question asked before a ticket is closed.
pub const CONFIRM_CLOSE: &'static str = "Are you sure you would like to close this ticket?";

/// Notice posted before a ticket channel is deleted.
pub const DELETING: &'static str = "Ticket will be deleted in a few seconds";

/// Title of the ticket panel and of a new ticket's first message.
pub const PANEL_TITLE: &'static str = "Tickets";

/// Text of the ticket panel.
pub const PANEL_DESCRIPTION: &'static str = "To create a ticket and request support, click 📩";

/// Footer of the ticket panel and of a new ticket's first message.
pub const SYSTEM_FOOTER: &'static str = "Manager - Ticket System";

/// Label of the button that opens a ticket.
pub const CREATE_LABEL: &'static str = "Create ticket";

/// Emoji of the button that opens a ticket.
pub const CREATE_EMOJI: &'static str = "📩";

/// Text of a new ticket's first message.
pub const TICKET_GREETING: &'static str =
    "Support will be with you shortly. To close this ticket react with 🔒";

/// Label of the buttons that close a ticket.
pub const CLOSE_LABEL: &'static str = "Close";

/// Emoji of the button that asks to close a ticket.
pub const CLOSE_EMOJI: &'static str = "🔒";

/// Label of the button that withdraws a request to close.
pub const CANCEL_LABEL: &'static str = "Cancel";

/// Label of the button that reopens a ticket.
pub const OPEN_LABEL: &'static str = "Open";

/// Emoji of the button that reopens a ticket.
pub const OPEN_EMOJI: &'static str = "🔓";

/// Label of the button that deletes a ticket.
pub const DELETE_LABEL: &'static str = "Delete";

/// Emoji of the button that deletes a ticket.
pub const DELETE_EMOJI: &'static str = "⛔";

/// What a ticket button asks for.
#[derive(Debug, Clone, Copy, PartialEq, Eq, Structural)]
pub enum TicketAction {
    Create,
    Close,
    ConfirmClose,
    CancelClose,
    Open,
    Delete,
}

/// The custom id of the button that asks for an action.
pub open spec fn action_id(action: TicketAction) -> Seq<char> {
    match action {
        TicketAction::Create => CREATE@,
        TicketAction::Close => CLOSE@,
        TicketAction::ConfirmClose => CLOSE_CONFIRMATION@,
        TicketAction::CancelClose => CANCEL_CLOSE@,
        TicketAction::Open => OPEN@,
        TicketAction::Delete => DELETE@,
    }
}

/// The action a button's custom id asks for, if any.
pub open spec fn action_with_id(id: Seq<char>) -> Option<TicketAction> {
    if id == CREATE@ {
        Some(TicketAction::Create)
    } else if id == CLOSE@ {
        Some(TicketAction::Close)
    } else if id == CLOSE_CONFIRMATION@ {
        Some(TicketAction::ConfirmClose)
    } else if id == CANCEL_CLOSE@ {
        Some(TicketAction::CancelClose)
    } else if id == OPEN@ {
        Some(TicketAction::Open)
    } else if id == DELETE@ {
        Some(TicketAction::Delete)
    } else {
        None
    }
}

impl TicketAction {
    /// The custom id of the button that asks for this action.
    pub fn custom_id(&self) -> (id: &'static str)
        ensures
            id@ == action_id(*self),
    {
        match self {
            TicketAction::Create => CREATE,
            TicketAction::Close => CLOSE,
            TicketAction::ConfirmClose => CLOSE_CONFIRMATION,
            TicketAction::CancelClose => CANCEL_CLOSE,
            TicketAction::Open => OPEN,
            TicketAction::Delete => DELETE,
        }
    }

    /// The action a button's custom id asks for, if any.
    pub fn from_custom_id(id: &str) -> (action: Option<TicketAction>)
        ensures
            action == action_with_id(id@),
    {
        if same_text(id, CREATE) {
            Some(TicketAction::Create)
        } else if same_text(id, CLOSE) {
            Some(TicketAction::Close)
        } else if same_text(id, CLOSE_CONFIRMATION) {
            Some(TicketAction::ConfirmClose)
        } else if same_text(id, CANCEL_CLOSE) {
            Some(TicketAction::CancelClose)
        } else if same_text(id, OPEN) {
            Some(TicketAction::Open)
        } else if same_text(id, DELETE) {
            Some(TicketAction::Delete)
        } else {
            None
        }
    }
}

/// Every button's custom id leads back to its own action.
pub proof fn lemma_custom_id_finds_action(action: TicketAction)
    ensures
        action_with_id(action_id(action)) == Some(action),
{
    reveal_strlit("manager-ticket-create");
    reveal_strlit("manager-ticket-close");
    reveal_strlit("manager-ticket-close-confirmation");
    reveal_strlit("manager-ticket-cancel-close");
    reveal_strlit("manager-ticket-open");
    reveal_strlit("manager-ticket-delete");
    assert(CREATE@.len() == 21);
    assert(CLOSE@.len() == 20);
    assert(CLOSE_CONFIRMATION@.len() == 33);
    assert(CANCEL_CLOSE@.len() == 27);
    assert(OPEN@.len() == 19);
    assert(DELETE@.len() == 21);
    assert(CREATE@[15] != DELETE@[15]);
}

/// The action an interaction asks of the ticket system: none outside a
/// guild, where the guild has the system off, for anything but a button
/// press, for a press without a member, or for a button of someone else.
pub open spec fn routed_action(
    configs: Map<u64, GuildConfigView>,
    guild_id: Option<u64>,
    custom_id: Option<Seq<char>>,
    has_member: bool,
) -> Option<TicketAction> {
    match guild_id {
        None => None,
        Some(g) => if !config_of(configs, g).ticket_system {
            None
        } else {
            match custom_id {
                None => None,
                Some(id) => if !has_member {
                    None
                } else {
                    action_with_id(id)
                },
            }
        },
    }
}

/// Decides what an interaction asks of the ticket system. `custom_id` is
/// the id of the pressed button, none where the interaction is not a
/// button press; `has_member` tells whether it came with the pressing
/// member.
pub fn route_interaction(
    store: &ConfigStore,
    guild_id: Option<u64>,
    custom_id: Option<&str>,
    has_member: bool,
) -> (action: Option<TicketAction>)
    ensures
        action == routed_action(
            store@,
            guild_id,
            match custom_id {
                Some(id) => Some(id@),
                None => None,
            },
            has_member,
        ),
{
    let guild_id: u64 = match guild_id {
        Some(g) => g,
        None => return None,
    };
    let config = store.get_config(guild_id);
    if !config.ticket_system {
        return None;
    }
    let id = match custom_id {
        Some(id) => id,
        None => return None,
    };
    if !has_member {
        return None;
    }
    TicketAction::from_custom_id(id)
}

/// The channel name of ticket number `number`: `ticket-` and the number,
/// zero-padded to four digits.
pub open spec fn ticket_name_text(number: nat) -> Seq<char> {
    TICKET_PREFIX@ + zero_padded(decimal(number), 4)
}

/// The channel name of ticket number `number`.
pub fn ticket_channel_name(number: u64) -> (name: String)
    ensures
        name@ == ticket_name_text(number as nat),
{
    let mut name = String::from_str(TICKET_PREFIX);
    push_padded_decimal(&mut name, number as u128, 4);
    name
}

/// Opens the next ticket of a guild: the settings with the counter advanced
/// by one, and the name of the new ticket's channel, which carries the new
/// number.
pub fn next_ticket(config: GuildConfig) -> (ticket: (GuildConfig, String))
    requires
        config.ticket_number < u64::MAX,
    ensures
        ticket.0@ == (GuildConfigView { ticket_number: (config.ticket_number + 1) as u64, ..config@ }),
        ticket.1@ == ticket_name_text(config.ticket_number as nat + 1),
{
    let number: u64 = config.ticket_number + 1;
    let name = ticket_channel_name(number);
    let mut config = config;
    config.ticket_number = number;
    (config, name)
}

/// Whom a permission overwrite applies to.
#[derive(Debug, Clone, Copy, PartialEq, Eq, Structural)]
pub enum OverwriteTarget {
    Member(u64),
    Role(u64),
    /// A kind of target this bot does not handle.
    Other,
}

/// A permission overwrite of a channel: permission bits allowed and denied
/// to a member or role.
#[derive(Debug, Clone, Copy, PartialEq, Eq, Structural)]
pub struct Overwrite {
    pub allow: u64,
    pub deny: u64,
    pub target: OverwriteTarget,
}

/// The bit of the "View Channel" permission.
pub open spec fn view_channel() -> u64 {
    1024
}

/// An overwrite that lets a member or role see a channel.
pub open spec fn grant(target: OverwriteTarget) -> Overwrite {
    Overwrite { allow: view_channel(), deny: 0, target }
}

/// An overwrite that hides a channel from a member or role.
pub open spec fn revoke(target: OverwriteTarget) -> Overwrite {
    Overwrite { allow: 0, deny: view_channel(), target }
}

/// An overwrite that lets `target` see a channel.
pub fn grant_view(target: OverwriteTarget) -> (overwrite: Overwrite)
    ensures
        overwrite == grant(target),
{
    Overwrite { allow: view_channel_bits(), deny: no_permission_bits(), target }
}

/// An overwrite that hides a channel from `target`.
pub fn revoke_view(target: OverwriteTarget) -> (overwrite: Overwrite)
    ensures
        overwrite == revoke(target),
{
    Overwrite { allow: no_permission_bits(), deny: view_channel_bits(), target }
}

/// The overwrites of a new ticket channel: the member who opened it may see
/// it, `@everyone` (the role whose id is the guild's) may not, and each
/// moderator role may, in that order.
pub open spec fn ticket_overwrites_spec(
    member_id: u64,
    guild_id: u64,
    moderator_roles: Seq<u64>,
) -> Seq<Overwrite> {
    seq![grant(OverwriteTarget::Member(member_id)), revoke(OverwriteTarget::Role(guild_id))]
        + moderator_roles.map_values(|r: u64| grant(OverwriteTarget::Role(r)))
}

/// The overwrites of a new ticket channel.
pub fn ticket_overwrites(member_id: u64, guild_id: u64, moderator_roles: &Vec<u64>) -> (overwrites:
    Vec<Overwrite>)
    requires
        guild_id != 0,
    ensures
        overwrites@ == ticket_overwrites_spec(member_id, guild_id, moderator_roles@),
{
    let mut overwrites: Vec<Overwrite> = Vec::new();
    overwrites.push(grant_view(OverwriteTarget::Member(member_id)));
    overwrites.push(revoke_view(OverwriteTarget::Role(everyone_role(guild_id))));
    let ghost head = overwrites@;
    let mut i: usize = 0;
    while i < moderator_roles.len()
        invariant
            i <= moderator_roles@.len(),
            head == seq![
                grant(OverwriteTarget::Member(member_id)),
                revoke(OverwriteTarget::Role(guild_id)),
            ],
            overwrites@ == head + moderator_roles@.subrange(0, i as int).map_values(
                |r: u64| grant(OverwriteTarget::Role(r)),
            ),
        decreases moderator_roles@.len() - i,
    {
        overwrites.push(grant_view(OverwriteTarget::Role(moderator_roles[i])));
        i = i + 1;
        assert(overwrites@ =~= head + moderator_roles@.subrange(0, i as int).map_values(
            |r: u64| grant(OverwriteTarget::Role(r)),
        ));
    }
    assert(moderator_roles@.subrange(0, i as int) =~= moderator_roles@);
    overwrites
}

/// Reply to the member who opened a ticket: `✔ Ticket Created` and the
/// new channel's mention.
pub open spec fn ticket_created_text(channel_id: u64) -> Seq<char> {
    "✔ Ticket Created "@ + channel_mention_text(channel_id)
}

/// Reply to the member who opened a ticket.
pub fn ticket_created_message(channel_id: u64) -> (text: String)
    requires
        channel_id != 0,
    ensures
        text@ == ticket_created_text(channel_id),
{
    let mut text = String::from_str("✔ Ticket Created ");
    let mention = channel_mention(channel_id);
    text.append(mention.as_str());
    text
}

/// What pressing "Close" in a ticket leads to.
#[derive(Debug, Clone, Copy, PartialEq, Eq, Structural)]
pub enum CloseReply {
    /// The ticket is closed already: warn the member.
    AlreadyClosed,
    /// Ask the member to confirm.
    AskConfirmation,
}

/// Whether a channel name is that of a closed ticket.
pub open spec fn is_closed_name(name: Seq<char>) -> bool {
    has_prefix(name, CLOSED_PREFIX@)
}

/// What pressing "Close" leads to in a channel named `channel_name`.
pub fn close_reply(channel_name: &str) -> (reply: CloseReply)
    ensures
        reply == (if is_closed_name(channel_name@) {
            CloseReply::AlreadyClosed
        } else {
            CloseReply::AskConfirmation
        }),
{
    if starts_with(channel_name, CLOSED_PREFIX) {
        CloseReply::AlreadyClosed
    } else {
        CloseReply::AskConfirmation
    }
}

/// Whether the ticket in a channel named `channel_name` may be deleted:
/// only a closed one may.
pub fn may_delete(channel_name: &str) -> (allowed: bool)
    ensures
        allowed == is_closed_name(channel_name@),
{
    starts_with(channel_name, CLOSED_PREFIX)
}

/// The number part of a ticket channel's name: its second `-`-separated
/// field, or `0000` where the name holds no `-`.
pub open spec fn ticket_suffix(name: Seq<char>) -> Seq<char> {
    match second_field(name) {
        Some(field) => field,
        None => "0000"@,
    }
}

/// The name a ticket channel takes when it is closed.
pub open spec fn closed_name_text(name: Seq<char>) -> Seq<char> {
    CLOSED_PREFIX@ + ticket_suffix(name)
}

/// The name a ticket channel takes when it is reopened.
pub open spec fn reopened_name_text(name: Seq<char>) -> Seq<char> {
    TICKET_PREFIX@ + ticket_suffix(name)
}

/// `prefix` followed by the number part of `name`.
fn renamed(prefix: &str, name: &str) -> (renamed: String)
    ensures
        renamed@ == prefix@ + ticket_suffix(name@),
{
    let mut renamed = String::from_str(prefix);
    match second_dash_field(name) {
        Some(field) => push_chars(&mut renamed, field.as_slice()),
        None => renamed.append("0000"),
    }
    renamed
}

/// The name a ticket channel named `name` takes when it is closed:
/// `closed-` and its number part.
pub fn closed_channel_name(name: &str) -> (closed: String)
    ensures
        closed@ == closed_name_text(name@),
{
    renamed(CLOSED_PREFIX, name)
}

/// The name a ticket channel named `name` takes when it is reopened:
/// `ticket-` and its number part.
pub fn reopened_channel_name(name: &str) -> (reopened: String)
    ensures
        reopened@ == reopened_name_text(name@),
{
    renamed(TICKET_PREFIX, name)
}

/// The members, in order, whose access to a ticket is reconsidered when it
/// is closed or reopened: every member overwrite except the guild owner's.
pub open spec fn members_to_review_spec(targets: Seq<OverwriteTarget>, owner_id: u64) -> Seq<u64>
    decreases targets.len(),
{
    if targets.len() == 0 {
        Seq::empty()
    } else {
        let earlier = members_to_review_spec(targets.drop_last(), owner_id);
        match targets.last() {
            OverwriteTarget::Member(user_id) => if user_id != owner_id {
                earlier.push(user_id)
            } else {
                earlier
            },
            _ => earlier,
        }
    }
}

/// The members whose access to a ticket is reconsidered when it is closed
/// or reopened, given the targets of the channel's overwrites.
pub fn members_to_review(targets: &Vec<OverwriteTarget>, owner_id: u64) -> (members: Vec<u64>)
    ensures
        members@ == members_to_review_spec(targets@, owner_id),
{
    let mut members: Vec<u64> = Vec::new();
    let mut i: usize = 0;
    while i < targets.len()
        invariant
            i <= targets@.len(),
            members@ == members_to_review_spec(targets@.subrange(0, i as int), owner_id),
        decreases targets@.len() - i,
    {
        assert(targets@.subrange(0, i + 1).drop_last() =~= targets@.subrange(0, i as int));
        match targets[i] {
            OverwriteTarget::Member(user_id) => {
                if user_id != owner_id {
                    members.push(user_id);
                }
            },
            _ => {},
        }
        i = i + 1;
    }
    assert(targets@.subrange(0, i as int) =~= targets@);
    members
}

/// Whether a reviewed member's access changes, given what looking the user
/// up gave: whether the user is a bot, or none where the lookup failed.
/// Bots, and users that cannot be looked up, keep their access.
pub fn access_changes(is_bot: Option<bool>) -> (changes: bool)
    ensures
        changes == (is_bot == Some(false)),
{
    match is_bot {
        Some(bot) => !bot,
        None => false,
    }
}

/// The embed text posted when a member closes a ticket.
pub open spec fn closed_by_text(member_id: u64) -> Seq<char> {
    "Ticket Closed by "@ + user_mention_text(member_id)
}

/// The embed text posted when a member closes a ticket.
pub fn closed_by_message(member_id: u64) -> (text: String)
    requires
        member_id != 0,
    ensures
        text@ == closed_by_text(member_id),
{
    let mut text = String::from_str("Ticket Closed by ");
    let mention = user_mention(member_id);
    text.append(mention.as_str());
    text
}

/// The embed text posted when a member reopens a ticket.
pub open spec fn opened_by_text(member_id: u64) -> Seq<char> {
    "Ticket Opened by "@ + user_mention_text(member_id)
}

/// The embed text posted when a member reopens a ticket.
pub fn opened_by_message(member_id: u64) -> (text: String)
    requires
        member_id != 0,
    ensures
        text@ == opened_by_text(member_id),
{
    let mut text = String::from_str("Ticket Opened by ");
    let mention = user_mention(member_id);
    text.append(mention.as_str());
    text
}

/// Whether a message whose first embed has this description (none where it
/// has no embed or no description) carries a closed ticket's controls.
pub open spec fn is_controls(description: Option<String>) -> bool {
    description matches Some(d) && d@ == CONTROLS_DESCRIPTION@
}

/// The position of the first message carrying a closed ticket's controls,
/// given each message's first embed description.
pub fn controls_message_index(descriptions: &Vec<Option<String>>) -> (index: Option<usize>)
    ensures
        match index {
            Some(i) => {
                &&& i < descriptions@.len()
                &&& is_controls(descriptions@[i as int])
                &&& forall|j: int| 0 <= j < i ==> !is_controls(#[trigger] descriptions@[j])
            },
            None => forall|j: int|
                0 <= j < descriptions@.len() ==> !is_controls(#[trigger] descriptions@[j]),
        },
{
    let controls = String::from_str(CONTROLS_DESCRIPTION);
    let mut i: usize = 0;
    while i < descriptions.len()
        invariant
            controls@ == CONTROLS_DESCRIPTION@,
            i <= descriptions@.len(),
            forall|j: int| 0 <= j < i ==> !is_controls(#[trigger] descriptions@[j]),
        decreases descriptions@.len() - i,
    {
        match &descriptions[i] {
            Some(d) => {
                if *d == controls {
                    return Some(i);
                }
            },
            None => {},
        }
        i = i + 1;
    }
    None
}


/// The number part of any name holds no `-`.
pub proof fn lemma_suffix_free_of_dash(name: Seq<char>)
    ensures
        free_of(ticket_suffix(name), '-'),
{
    lemma_second_field_free(name);
    reveal_strlit("0000");
    assert(free_of("0000"@, '-'));
}

/// `prefix` is a word, then `-`.
proof fn lemma_prefix_shape(prefix: Seq<char>, word: Seq<char>)
    requires
        prefix == word + seq!['-'],
        free_of(word, '-'),
    ensures
        forall|tail: Seq<char>|
            free_of(tail, '-') ==> #[trigger] second_field(prefix + tail) == Some(tail),
{
    assert forall|tail: Seq<char>| free_of(tail, '-') implies #[trigger] second_field(
        prefix + tail,
    ) == Some(tail) by {
        assert(prefix + tail =~= word + seq!['-'] + tail);
        lemma_second_field_of_joined(word, tail);
    }
}

/// `ticket-` and `closed-` are `ticket` and `closed` followed by `-`.
proof fn lemma_prefixes()
    ensures
        forall|tail: Seq<char>|
            free_of(tail, '-') ==> #[trigger] second_field(TICKET_PREFIX@ + tail) == Some(tail),
        forall|tail: Seq<char>|
            free_of(tail, '-') ==> #[trigger] second_field(CLOSED_PREFIX@ + tail) == Some(tail),
{
    reveal_strlit("ticket-");
    reveal_strlit("closed-");
    reveal_strlit("ticket");
    reveal_strlit("closed");
    assert(TICKET_PREFIX@ =~= "ticket"@ + seq!['-']);
    assert(CLOSED_PREFIX@ =~= "closed"@ + seq!['-']);
    lemma_prefix_shape(TICKET_PREFIX@, "ticket"@);
    lemma_prefix_shape(CLOSED_PREFIX@, "closed"@);
}

/// Closing or reopening a ticket keeps its number part.
pub proof fn lemma_rename_keeps_number(name: Seq<char>)
    ensures
        ticket_suffix(closed_name_text(name)) == ticket_suffix(name),
        ticket_suffix(reopened_name_text(name)) == ticket_suffix(name),
{
    lemma_suffix_free_of_dash(name);
    lemma_prefixes();
    assert(second_field(CLOSED_PREFIX@ + ticket_suffix(name)) == Some(ticket_suffix(name)));
    assert(second_field(TICKET_PREFIX@ + ticket_suffix(name)) == Some(ticket_suffix(name)));
}

/// Reopening a closed ticket gives the name that reopening it directly
/// would, and closing a reopened ticket gives the name that closing it
/// directly would: closing and reopening only swap the prefix.
pub proof fn lemma_close_reopen_round_trip(name: Seq<char>)
    ensures
        reopened_name_text(closed_name_text(name)) == reopened_name_text(name),
        closed_name_text(reopened_name_text(name)) == closed_name_text(name),
{
    lemma_rename_keeps_number(name);
}

/// A new ticket's channel, once closed and reopened, carries its original
/// name again.
pub proof fn lemma_new_ticket_round_trip(number: nat)
    ensures
        reopened_name_text(ticket_name_text(number)) == ticket_name_text(number),
        reopened_name_text(closed_name_text(ticket_name_text(number))) == ticket_name_text(number),
{
    lemma_padded_digits(number, 4);
    lemma_digits_free_of_dash(zero_padded(decimal(number), 4));
    lemma_prefixes();
    assert(second_field(TICKET_PREFIX@ + zero_padded(decimal(number), 4)) == Some(
        zero_padded(decimal(number), 4),
    ));
    lemma_close_reopen_round_trip(ticket_name_text(number));
}

/// A closed ticket's name reads as closed; a reopened or new one's does not,
/// so only a closed ticket can be deleted and closing it twice is refused.
pub proof fn lemma_closed_state_follows_name(name: Seq<char>, number: nat)
    ensures
        is_closed_name(closed_name_text(name)),
        !is_closed_name(reopened_name_text(name)),
        !is_closed_name(ticket_name_text(number)),
{
    reveal_strlit("ticket-");
    reveal_strlit("closed-");
    assert(closed_name_text(name).subrange(0, 7) =~= CLOSED_PREFIX@);
    assert(reopened_name_text(name).subrange(0, 7)[0] == 't');
    assert(ticket_name_text(number).subrange(0, 7)[0] == 't');
}

/// Tickets with different numbers get channels with different names.
pub proof fn lemma_ticket_names_distinct(a: nat, b: nat)
    requires
        a != b,
    ensures
        ticket_name_text(a) != ticket_name_text(b),
{
    if ticket_name_text(a) == ticket_name_text(b) {
        let n: int = TICKET_PREFIX@.len() as int;
        assert(zero_padded(decimal(a), 4) =~= ticket_name_text(a).subrange(n, ticket_name_text(a).len() as int));
        assert(zero_padded(decimal(b), 4) =~= ticket_name_text(b).subrange(n, ticket_name_text(b).len() as int));
        lemma_padded_decimal_injective(a, b, 4);
    }
}

/// In a guild with the ticket system on, a member's press of any ticket
/// button is routed to that button's own action; outside a guild, with the
/// system off, without a member or for anything but a button press,
/// nothing is routed.
pub proof fn lemma_button_routes_to_its_action(
    configs: Map<u64, GuildConfigView>,
    guild_id: u64,
    action: TicketAction,
    custom_id: Option<Seq<char>>,
    has_member: bool,
)
    ensures
        config_of(configs, guild_id).ticket_system ==> routed_action(
            configs,
            Some(guild_id),
            Some(action_id(action)),
            true,
        ) == Some(action),
        routed_action(configs, None, custom_id, has_member) is None,
        !config_of(configs, guild_id).ticket_system ==> routed_action(
            configs,
            Some(guild_id),
            custom_id,
            has_member,
        ) is None,
        routed_action(configs, Some(guild_id), None, has_member) is None,
        routed_action(configs, Some(guild_id), custom_id, false) is None,
{
    lemma_custom_id_finds_action(action);
}

/// The members reviewed when a ticket is closed or reopened are exactly the
/// members with an overwrite on it other than the guild owner: every such
/// member is reviewed, nobody else is, and they come in overwrite order.
pub proof fn lemma_review_is_every_member_but_the_owner(
    targets: Seq<OverwriteTarget>,
    owner_id: u64,
)
    ensures
        forall|i: int|
            0 <= i < targets.len() && (#[trigger] targets[i] matches OverwriteTarget::Member(u)
                && u != owner_id) ==> members_to_review_spec(targets, owner_id).contains(
                targets[i]->Member_0,
            ),
        forall|j: int|
            0 <= j < members_to_review_spec(targets, owner_id).len() ==> {
                &&& #[trigger] members_to_review_spec(targets, owner_id)[j] != owner_id
                &&& targets.contains(
                    OverwriteTarget::Member(members_to_review_spec(targets, owner_id)[j]),
                )
            },
        members_to_review_spec(targets, owner_id).len() <= targets.len(),
    decreases targets.len(),
{
    if targets.len() > 0 {
        let earlier = targets.drop_last();
        lemma_review_is_every_member_but_the_owner(earlier, owner_id);
        let prev = members_to_review_spec(earlier, owner_id);
        let now = members_to_review_spec(targets, owner_id);
        assert forall|i: int|
            0 <= i < targets.len() && (#[trigger] targets[i] matches OverwriteTarget::Member(u)
                && u != owner_id) implies now.contains(targets[i]->Member_0) by {
            if i < targets.len() - 1 {
                assert(earlier[i] == targets[i]);
                let k = choose|k: int| 0 <= k < prev.len() && prev[k] == targets[i]->Member_0;
                assert(now[k] == prev[k]);
            } else {
                assert(now[now.len() - 1] == targets[i]->Member_0);
            }
        }
        assert forall|j: int| 0 <= j < now.len() implies {
            &&& #[trigger] now[j] != owner_id
            &&& targets.contains(OverwriteTarget::Member(now[j]))
        } by {
            if j < prev.len() {
                assert(now[j] == prev[j]);
                let k = choose|k: int|
                    0 <= k < earlier.len() && earlier[k] == OverwriteTarget::Member(prev[j]);
                assert(targets[k] == earlier[k]);
            } else {
                assert(targets[targets.len() - 1] == OverwriteTarget::Member(now[j]));
            }
        }
    }
}

/// The number part of a new ticket's channel name is made of digits, at
/// least four of them, and reads back as the ticket's number; the name
/// starts with `ticket-`.
pub proof fn lemma_ticket_name_reads_number(number: nat)
    ensures
        has_prefix(ticket_name_text(number), TICKET_PREFIX@),
        all_digits(ticket_suffix(ticket_name_text(number))),
        ticket_suffix(ticket_name_text(number)).len() >= 4,
        digits_value(ticket_suffix(ticket_name_text(number))) == number,
{
    let padded = zero_padded(decimal(number), 4);
    lemma_padded_digits(number, 4);
    lemma_digits_free_of_dash(padded);
    lemma_prefixes();
    assert(second_field(TICKET_PREFIX@ + padded) == Some(padded));
    assert(ticket_name_text(number).subrange(0, TICKET_PREFIX@.len() as int) =~= TICKET_PREFIX@);
    lemma_decimal_value(number);
    let d = decimal(number);
    if d.len() < 4 {
        lemma_leading_zeros_value((4 - d.len()) as nat, d);
    }
}

} // verus!
