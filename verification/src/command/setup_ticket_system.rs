//! `/setup-ticket-system <channel> <category>`: turns the ticket system on,
//! with its panel in `channel` and its tickets under `category`.

use vstd::prelude::*;
use crate::command::{
    command_spec, required_option, save_reply_text, CommandSpec, CommandSpecView, OptionKind,
    OptionSpecView, SAVE_FAILED,
};
use crate::config::guild::{config_of, ConfigError, ConfigStore, GuildConfig, GuildConfigView};

verus! {

/// Reply once the ticket system is saved (the same words as
/// `/set-welcome-channel` uses).
pub const SYSTEM_SET_UP: &'static str = "New channel has been set to send welcome messages.";

/// How `/setup-ticket-system` is registered: two required channel options,
/// in guilds only, for administrators.
pub open spec fn setup_ticket_system_spec() -> CommandSpecView {
    CommandSpecView {
        name: "setup-ticket-system"@,
        description: "Setup the ticket system."@,
        guild_only: true,
        admin_only: true,
        options: seq![
            OptionSpecView {
                kind: OptionKind::Channel,
                name: "channel"@,
                description: "Select a channel to send the ticket panel message."@,
                required: true,
                choices: Seq::empty(),
            },
            OptionSpecView {
                kind: OptionKind::Channel,
                name: "category"@,
                description: "Add the tickets category id."@,
                required: true,
                choices: Seq::empty(),
            },
        ],
    }
}

/// How `/setup-ticket-system` is registered.
pub fn register() -> (spec: CommandSpec)
    ensures
        spec@ == setup_ticket_system_spec(),
{
    let mut options = Vec::new();
    options.push(
        required_option(
            OptionKind::Channel,
            "channel",
            "Select a channel to send the ticket panel message.",
        ),
    );
    options.push(
        required_option(OptionKind::Channel, "category", "Add the tickets category id."),
    );
    let spec = command_spec("setup-ticket-system", "Setup the ticket system.", true, true, options);
    assert(spec@.options =~= setup_ticket_system_spec().options);
    spec
}

/// The guild's settings with the ticket system on, its panel in
/// `channel_id`, its tickets under `category_id` and its counter at zero;
/// everything else as stored.
pub fn updated_config(
    store: &ConfigStore,
    guild_id: u64,
    channel_id: u64,
    category_id: u64,
) -> (config: GuildConfig)
    ensures
        config@ == (GuildConfigView {
            ticket_channel: channel_id,
            ticket_category: category_id,
            ticket_system: true,
            ticket_number: 0,
            ..config_of(store@, guild_id)
        }),
{
    let mut config = store.get_config(guild_id);
    config.ticket_channel = channel_id;
    config.ticket_category = category_id;
    config.ticket_system = true;
    config.ticket_number = 0;
    config
}

/// The reply once the new settings were or were not saved.
pub fn reply(saved: Result<(), ConfigError>) -> (text: &'static str)
    ensures
        text@ == save_reply_text(saved, SYSTEM_SET_UP@),
{
    if saved.is_ok() {
        SYSTEM_SET_UP
    } else {
        SAVE_FAILED
    }
}

} // verus!
