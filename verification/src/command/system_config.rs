//! `/system-config <system> <enabled>`: switches the automatic role or the
//! welcome message on or off.

use vstd::prelude::*;
use crate::command::{
    command_spec, CommandSpec, CommandSpecView, OptionKind, OptionSpec, OptionSpecView,
    SAVE_FAILED,
};
use crate::config::guild::{config_of, ConfigError, ConfigStore, GuildConfig, GuildConfigView};
use crate::text::same_text;

verus! {

/// The system that hands out the automatic role.
pub const AUTO_ROLE: &'static str = "auto-role";

/// The system that sends welcome messages.
pub const WELCOME_MESSAGE: &'static str = "welcome-message";

/// How `/system-config` is registered: a required system option offering
/// the two systems and a required boolean, in guilds only, for
/// administrators.
pub open spec fn system_config_spec() -> CommandSpecView {
    CommandSpecView {
        name: "system-config"@,
        description: "Change channel where welcome messages will be send."@,
        guild_only: true,
        admin_only: true,
        options: seq![
            OptionSpecView {
                kind: OptionKind::Text,
                name: "system"@,
                description: "Select the system to enable or disable."@,
                required: true,
                choices: seq![AUTO_ROLE@, WELCOME_MESSAGE@],
            },
            OptionSpecView {
                kind: OptionKind::Boolean,
                name: "enabled"@,
                description: "Enable or disable."@,
                required: true,
                choices: Seq::empty(),
            },
        ],
    }
}

/// How `/system-config` is registered.
pub fn register() -> (spec: CommandSpec)
    ensures
        spec@ == system_config_spec(),
{
    let mut choices = Vec::new();
    choices.push(String::from_str(AUTO_ROLE));
    choices.push(String::from_str(WELCOME_MESSAGE));
    let system = OptionSpec {
        kind: OptionKind::Text,
        name: String::from_str("system"),
        description: String::from_str("Select the system to enable or disable."),
        required: true,
        choices,
    };
    assert(system@.choices =~= seq![AUTO_ROLE@, WELCOME_MESSAGE@]);
    let enabled = crate::command::required_option(
        OptionKind::Boolean,
        "enabled",
        "Enable or disable.",
    );
    let mut options = Vec::new();
    options.push(system);
    options.push(enabled);
    let spec = command_spec(
        "system-config",
        "Change channel where welcome messages will be send.",
        true,
        true,
        options,
    );
    assert(spec@.options =~= system_config_spec().options);
    spec
}

/// The settings of a guild with the named system switched on or off, or
/// none where `system` names neither system (the command then does nothing).
pub open spec fn switched(config: GuildConfigView, system: Seq<char>, enabled: bool) -> Option<
    GuildConfigView,
> {
    if system == AUTO_ROLE@ {
        Some(GuildConfigView { auto_role_system: enabled, ..config })
    } else if system == WELCOME_MESSAGE@ {
        Some(GuildConfigView { welcome_message_system: enabled, ..config })
    } else {
        None
    }
}

/// The guild's settings with the named system switched on or off, or none
/// where `system` names neither system.
pub fn updated_config(store: &ConfigStore, guild_id: u64, system: &str, enabled: bool) -> (config:
    Option<GuildConfig>)
    ensures
        match config {
            Some(c) => switched(config_of(store@, guild_id), system@, enabled) == Some(c@),
            None => switched(config_of(store@, guild_id), system@, enabled) is None,
        },
{
    let mut config = store.get_config(guild_id);
    if same_text(system, AUTO_ROLE) {
        config.auto_role_system = enabled;
        Some(config)
    } else if same_text(system, WELCOME_MESSAGE) {
        config.welcome_message_system = enabled;
        Some(config)
    } else {
        None
    }
}

/// The reply once a switch was saved: `System <system> has been
/// enabled.` or `... disabled.`; where it was not saved, the usual error.
pub open spec fn reply_text(system: Seq<char>, enabled: bool, saved: Result<(), ConfigError>) -> Seq<
    char,
> {
    if saved is Ok {
        "System "@ + system + " has been "@ + (if enabled {
            "enabled"@
        } else {
            "disabled"@
        }) + "."@
    } else {
        SAVE_FAILED@
    }
}

/// The reply once a switch was or was not saved.
pub fn reply(system: &str, enabled: bool, saved: Result<(), ConfigError>) -> (text: String)
    ensures
        text@ == reply_text(system@, enabled, saved),
{
    if saved.is_ok() {
        let mut text = String::from_str("System ");
        text.append(system);
        text.append(" has been ");
        if enabled {
            text.append("enabled");
        } else {
            text.append("disabled");
        }
        text.append(".");
        text
    } else {
        String::from_str(SAVE_FAILED)
    }
}

/// Switching a system sets that system's flag to exactly the value asked
/// for, whether it was on or off before, and changes no other setting;
/// a system name other than the two leaves the settings unswitched.
pub proof fn lemma_switch_sets_exactly_the_named_flag(
    config: GuildConfigView,
    system: Seq<char>,
    enabled: bool,
)
    ensures
        system == AUTO_ROLE@ ==> {
            &&& switched(config, system, enabled) matches Some(c)
            &&& c.auto_role_system == enabled
            &&& c.welcome_message_system == config.welcome_message_system
            &&& c.welcome_message_id == config.welcome_message_id
            &&& c.auto_role_id == config.auto_role_id
            &&& c.ticket_system == config.ticket_system
            &&& c.ticket_channel == config.ticket_channel
            &&& c.ticket_category == config.ticket_category
            &&& c.ticket_number == config.ticket_number
            &&& c.moderator_roles == config.moderator_roles
        },
        system == WELCOME_MESSAGE@ ==> {
            &&& switched(config, system, enabled) matches Some(c)
            &&& c.welcome_message_system == enabled
            &&& c.auto_role_system == config.auto_role_system
            &&& c.welcome_message_id == config.welcome_message_id
            &&& c.auto_role_id == config.auto_role_id
            &&& c.ticket_system == config.ticket_system
            &&& c.ticket_channel == config.ticket_channel
            &&& c.ticket_category == config.ticket_category
            &&& c.ticket_number == config.ticket_number
            &&& c.moderator_roles == config.moderator_roles
        },
        system != AUTO_ROLE@ && system != WELCOME_MESSAGE@ ==> switched(config, system, enabled)
            is None,
{
    reveal_strlit("auto-role");
    reveal_strlit("welcome-message");
    assert(AUTO_ROLE@.len() != WELCOME_MESSAGE@.len());
}

} // verus!
