//! `/set-welcome-channel <channel>`: chooses where welcome messages go.

use vstd::prelude::*;
use crate::command::{
    command_spec, required_option, save_reply_text, CommandSpec, CommandSpecView, OptionKind,
    OptionSpecView, SAVE_FAILED,
};
use crate::config::guild::{config_of, ConfigError, ConfigStore, GuildConfig, GuildConfigView};

verus! {

/// Reply once the new channel is saved.
pub const CHANNEL_SET: &'static str = "New channel has been set to send welcome messages.";

/// How `/set-welcome-channel` is registered: one required channel option,
/// in guilds only, for administrators.
pub open spec fn set_welcome_channel_spec() -> CommandSpecView {
    CommandSpecView {
        name: "set-welcome-channel"@,
        description: "Change channel where welcome messages will be send."@,
        guild_only: true,
        admin_only: true,
        options: seq![
            OptionSpecView {
                kind: OptionKind::Channel,
                name: "channel"@,
                description: "Select a channel."@,
                required: true,
                choices: Seq::empty(),
            },
        ],
    }
}

/// How `/set-welcome-channel` is registered.
pub fn register() -> (spec: CommandSpec)
    ensures
        spec@ == set_welcome_channel_spec(),
{
    let mut options = Vec::new();
    options.push(required_option(OptionKind::Channel, "channel", "Select a channel."));
    let spec = command_spec(
        "set-welcome-channel",
        "Change channel where welcome messages will be send.",
        true,
        true,
        options,
    );
    assert(spec@.options =~= set_welcome_channel_spec().options);
    spec
}

/// The guild's settings with `channel_id` as the welcome channel;
/// everything else as stored.
pub fn updated_config(store: &ConfigStore, guild_id: u64, channel_id: u64) -> (config: GuildConfig)
    ensures
        config@ == (GuildConfigView {
            welcome_message_id: channel_id,
            ..config_of(store@, guild_id)
        }),
{
    let mut config = store.get_config(guild_id);
    config.welcome_message_id = channel_id;
    config
}

/// The reply once the new settings were or were not saved.
pub fn reply(saved: Result<(), ConfigError>) -> (text: &'static str)
    ensures
        text@ == save_reply_text(saved, CHANNEL_SET@),
{
    if saved.is_ok() {
        CHANNEL_SET
    } else {
        SAVE_FAILED
    }
}

} // verus!
