//! The bot's slash commands: how each is registered with Discord and the
//! name it is dispatched by.

pub mod ping;
pub mod reset_tickets_number;
pub mod set_auto_role;
pub mod set_welcome_channel;
pub mod setup_ticket_system;
pub mod system_config;

use vstd::prelude::*;
use crate::config::guild::ConfigError;

verus! {

/// Reply to a command whose settings could not be written.
pub const SAVE_FAILED: &'static str = "Error saving configuration.";

/// The type of value a command option takes.
#[derive(Debug, Clone, Copy, PartialEq, Eq, Structural)]
pub enum OptionKind {
    Role,
    Channel,
    Text,
    Boolean,
}

/// One option of a slash command.
#[derive(Debug)]
pub struct OptionSpec {
    pub kind: OptionKind,
    pub name: String,
    pub description: String,
    pub required: bool,
    /// The fixed choices offered, each used as both its name and its value;
    /// empty where any value is accepted.
    pub choices: Vec<String>,
}

/// One option of a slash command, as a value.
pub struct OptionSpecView {
    pub kind: OptionKind,
    pub name: Seq<char>,
    pub description: Seq<char>,
    pub required: bool,
    pub choices: Seq<Seq<char>>,
}

impl View for OptionSpec {
    type V = OptionSpecView;

    open spec fn view(&self) -> OptionSpecView {
        OptionSpecView {
            kind: self.kind,
            name: self.name@,
            description: self.description@,
            required: self.required,
            choices: self.choices@.map_values(|c: String| c@),
        }
    }
}

/// How a slash command is registered with Discord.
#[derive(Debug)]
pub struct CommandSpec {
    pub name: String,
    pub description: String,
    /// Offered in guilds only.
    pub guild_only: bool,
    /// Offered by default to administrators only.
    pub admin_only: bool,
    pub options: Vec<OptionSpec>,
}

/// How a slash command is registered, as a value.
pub struct CommandSpecView {
    pub name: Seq<char>,
    pub description: Seq<char>,
    pub guild_only: bool,
    pub admin_only: bool,
    pub options: Seq<OptionSpecView>,
}

impl View for CommandSpec {
    type V = CommandSpecView;

    open spec fn view(&self) -> CommandSpecView {
        CommandSpecView {
            name: self.name@,
            description: self.description@,
            guild_only: self.guild_only,
            admin_only: self.admin_only,
            options: self.options@.map_values(|o: OptionSpec| o@),
        }
    }
}

/// A required option with no fixed choices.
pub fn required_option(kind: OptionKind, name: &str, description: &str) -> (option: OptionSpec)
    ensures
        option@ == (OptionSpecView {
            kind,
            name: name@,
            description: description@,
            required: true,
            choices: Seq::empty(),
        }),
{
    let option = OptionSpec {
        kind,
        name: String::from_str(name),
        description: String::from_str(description),
        required: true,
        choices: Vec::new(),
    };
    assert(option@.choices =~= Seq::<Seq<char>>::empty());
    option
}

/// A command registration with the given options.
pub fn command_spec(
    name: &str,
    description: &str,
    guild_only: bool,
    admin_only: bool,
    options: Vec<OptionSpec>,
) -> (spec: CommandSpec)
    ensures
        spec@ == (CommandSpecView {
            name: name@,
            description: description@,
            guild_only,
            admin_only,
            options: options@.map_values(|o: OptionSpec| o@),
        }),
{
    CommandSpec {
        name: String::from_str(name),
        description: String::from_str(description),
        guild_only,
        admin_only,
        options,
    }
}

/// The bot's slash commands.
#[derive(Debug, Clone, Copy, PartialEq, Eq, Structural)]
pub enum Command {
    Ping,
    SetAutoRole,
    SetWelcomeChannel,
    SystemConfig,
    SetupTicketSystem,
    ResetTicketsNumber,
}

/// The name a command is registered and invoked under.
pub open spec fn command_name(command: Command) -> Seq<char> {
    match command {
        Command::Ping => "ping"@,
        Command::SetAutoRole => "set-auto-role"@,
        Command::SetWelcomeChannel => "set-welcome-channel"@,
        Command::SystemConfig => "system-config"@,
        Command::SetupTicketSystem => "setup-ticket-system"@,
        Command::ResetTicketsNumber => "reset-tickets-number"@,
    }
}

/// The command invoked under a name, if any.
pub open spec fn command_named(name: Seq<char>) -> Option<Command> {
    if name == "ping"@ {
        Some(Command::Ping)
    } else if name == "set-auto-role"@ {
        Some(Command::SetAutoRole)
    } else if name == "set-welcome-channel"@ {
        Some(Command::SetWelcomeChannel)
    } else if name == "system-config"@ {
        Some(Command::SystemConfig)
    } else if name == "setup-ticket-system"@ {
        Some(Command::SetupTicketSystem)
    } else if name == "reset-tickets-number"@ {
        Some(Command::ResetTicketsNumber)
    } else {
        None
    }
}

/// Reply to a command whose new settings were or were not written.
pub open spec fn save_reply_text(saved: Result<(), ConfigError>, success: Seq<char>) -> Seq<char> {
    if saved is Ok {
        success
    } else {
        SAVE_FAILED@
    }
}

impl Command {
    /// The name the command is registered and invoked under.
    pub fn name(&self) -> (name: &'static str)
        ensures
            name@ == command_name(*self),
    {
        match self {
            Command::Ping => "ping",
            Command::SetAutoRole => "set-auto-role",
            Command::SetWelcomeChannel => "set-welcome-channel",
            Command::SystemConfig => "system-config",
            Command::SetupTicketSystem => "setup-ticket-system",
            Command::ResetTicketsNumber => "reset-tickets-number",
        }
    }

    /// The command invoked under `name`, if any.
    pub fn from_name(name: &str) -> (command: Option<Command>)
        ensures
            command == command_named(name@),
    {
        if crate::text::same_text(name, "ping") {
            Some(Command::Ping)
        } else if crate::text::same_text(name, "set-auto-role") {
            Some(Command::SetAutoRole)
        } else if crate::text::same_text(name, "set-welcome-channel") {
            Some(Command::SetWelcomeChannel)
        } else if crate::text::same_text(name, "system-config") {
            Some(Command::SystemConfig)
        } else if crate::text::same_text(name, "setup-ticket-system") {
            Some(Command::SetupTicketSystem)
        } else if crate::text::same_text(name, "reset-tickets-number") {
            Some(Command::ResetTicketsNumber)
        } else {
            None
        }
    }
}

/// Every command is found again under its own name.
pub proof fn lemma_name_finds_command(command: Command)
    ensures
        command_named(command_name(command)) == Some(command),
{
    reveal_strlit("ping");
    reveal_strlit("set-auto-role");
    reveal_strlit("set-welcome-channel");
    reveal_strlit("system-config");
    reveal_strlit("setup-ticket-system");
    reveal_strlit("reset-tickets-number");
    assert("ping"@.len() == 4);
    assert("set-auto-role"@.len() == 13);
    assert("set-welcome-channel"@.len() == 19);
    assert("system-config"@.len() == 13);
    assert("setup-ticket-system"@.len() == 19);
    assert("reset-tickets-number"@.len() == 20);
    assert("system-config"@[1] != "set-auto-role"@[1]);
    assert("setup-ticket-system"@[3] != "set-welcome-channel"@[3]);
}

} // verus!
