//! `/reset-tickets-number`: restarts the numbering of ticket channels.

use vstd::prelude::*;
use crate::command::{command_spec, save_reply_text, CommandSpec, CommandSpecView, SAVE_FAILED};
use crate::config::guild::{config_of, ConfigError, ConfigStore, GuildConfig, GuildConfigView};

verus! {

/// Reply once the counter is saved.
pub const COUNTER_RESET: &'static str = "Tickets number has been reset correctly.";

/// How `/reset-tickets-number` is registered: no option, offered everywhere
/// to everyone.
pub open spec fn reset_tickets_number_spec() -> CommandSpecView {
    CommandSpecView {
        name: "reset-tickets-number"@,
        description: "Reset the tickets number."@,
        guild_only: false,
        admin_only: false,
        options: Seq::empty(),
    }
}

/// How `/reset-tickets-number` is registered.
pub fn register() -> (spec: CommandSpec)
    ensures
        spec@ == reset_tickets_number_spec(),
{
    let spec = command_spec(
        "reset-tickets-number",
        "Reset the tickets number.",
        false,
        false,
        Vec::new(),
    );
    assert(spec@.options =~= Seq::empty());
    spec
}

/// The guild's settings with the ticket counter back at zero; everything
/// else as stored.
pub fn updated_config(store: &ConfigStore, guild_id: u64) -> (config: GuildConfig)
    ensures
        config@ == (GuildConfigView { ticket_number: 0, ..config_of(store@, guild_id) }),
{
    let mut config = store.get_config(guild_id);
    config.ticket_number = 0;
    config
}

/// The reply once the new settings were or were not saved.
pub fn reply(saved: Result<(), ConfigError>) -> (text: &'static str)
    ensures
        text@ == save_reply_text(saved, COUNTER_RESET@),
{
    if saved.is_ok() {
        COUNTER_RESET
    } else {
        SAVE_FAILED
    }
}

} // verus!
