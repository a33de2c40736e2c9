//! `/set-auto-role <role>`: chooses the role given to members who join.

use vstd::prelude::*;
use crate::command::{
    command_spec, required_option, save_reply_text, CommandSpec, CommandSpecView, OptionKind,
    OptionSpecView, SAVE_FAILED,
};
use crate::config::guild::{config_of, ConfigError, ConfigStore, GuildConfig, GuildConfigView};

verus! {

/// Reply once the new role is saved.
pub const ROLE_SET: &'static str = "The new role has been set to be added automatically.";

/// How `/set-auto-role` is registered: one required role option, in guilds
/// only, for administrators.
pub open spec fn set_auto_role_spec() -> CommandSpecView {
    CommandSpecView {
        name: "set-auto-role"@,
        description: "Change role to be set automatically when a member join."@,
        guild_only: true,
        admin_only: true,
        options: seq![
            OptionSpecView {
                kind: OptionKind::Role,
                name: "role"@,
                description: "Role to set automatically when member join to the guild."@,
                required: true,
                choices: Seq::empty(),
            },
        ],
    }
}

/// How `/set-auto-role` is registered.
pub fn register() -> (spec: CommandSpec)
    ensures
        spec@ == set_auto_role_spec(),
{
    let mut options = Vec::new();
    options.push(
        required_option(
            OptionKind::Role,
            "role",
            "Role to set automatically when member join to the guild.",
        ),
    );
    let spec = command_spec(
        "set-auto-role",
        "Change role to be set automatically when a member join.",
        true,
        true,
        options,
    );
    assert(spec@.options =~= set_auto_role_spec().options);
    spec
}

/// The guild's settings with `role_id` as the role given to joining
/// members; everything else as stored.
pub fn updated_config(store: &ConfigStore, guild_id: u64, role_id: u64) -> (config: GuildConfig)
    ensures
        config@ == (GuildConfigView { auto_role_id: role_id, ..config_of(store@, guild_id) }),
{
    let mut config = store.get_config(guild_id);
    config.auto_role_id = role_id;
    config
}

/// The reply once the new settings were or were not saved.
pub fn reply(saved: Result<(), ConfigError>) -> (text: &'static str)
    ensures
        text@ == save_reply_text(saved, ROLE_SET@),
{
    if saved.is_ok() {
        ROLE_SET
    } else {
        SAVE_FAILED
    }
}

} // verus!
