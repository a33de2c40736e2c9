//! Registers the slash commands when the bot is ready and dispatches each
//! invocation to its command.

use vstd::prelude::*;
use crate::command::{
    command_name, command_named, lemma_name_finds_command, ping, reset_tickets_number,
    set_auto_role, set_welcome_channel, setup_ticket_system, system_config, Command, CommandSpec,
    CommandSpecView,
};

verus! {

/// The order in which the commands are registered.
pub open spec fn registration_order() -> Seq<Command> {
    seq![
        Command::Ping,
        Command::SetAutoRole,
        Command::SetWelcomeChannel,
        Command::SystemConfig,
        Command::SetupTicketSystem,
        Command::ResetTicketsNumber,
    ]
}

/// How a command is registered.
pub open spec fn registration_of(command: Command) -> CommandSpecView {
    match command {
        Command::Ping => ping::ping_spec(),
        Command::SetAutoRole => set_auto_role::set_auto_role_spec(),
        Command::SetWelcomeChannel => set_welcome_channel::set_welcome_channel_spec(),
        Command::SystemConfig => system_config::system_config_spec(),
        Command::SetupTicketSystem => setup_ticket_system::setup_ticket_system_spec(),
        Command::ResetTicketsNumber => reset_tickets_number::reset_tickets_number_spec(),
    }
}

/// How a command is registered.
pub fn registration(command: Command) -> (spec: CommandSpec)
    ensures
        spec@ == registration_of(command),
{
    match command {
        Command::Ping => ping::register(),
        Command::SetAutoRole => set_auto_role::register(),
        Command::SetWelcomeChannel => set_welcome_channel::register(),
        Command::SystemConfig => system_config::register(),
        Command::SetupTicketSystem => setup_ticket_system::register(),
        Command::ResetTicketsNumber => reset_tickets_number::register(),
    }
}

/// The registrations of every command, in registration order.
pub fn registrations() -> (specs: Vec<CommandSpec>)
    ensures
        specs@.len() == registration_order().len(),
        forall|i: int|
            0 <= i < specs@.len() ==> #[trigger] specs@[i]@ == registration_of(
                registration_order()[i],
            ),
{
    let mut specs = Vec::new();
    specs.push(registration(Command::Ping));
    specs.push(registration(Command::SetAutoRole));
    specs.push(registration(Command::SetWelcomeChannel));
    specs.push(registration(Command::SystemConfig));
    specs.push(registration(Command::SetupTicketSystem));
    specs.push(registration(Command::ResetTicketsNumber));
    specs
}

/// The command an invocation under `name` runs, if any.
pub fn dispatch(name: &str) -> (command: Option<Command>)
    ensures
        command == command_named(name@),
{
    Command::from_name(name)
}

/// Every command is registered under the name it is dispatched by, so an
/// invocation of a registered command runs that command.
pub proof fn lemma_registered_name_dispatches(command: Command)
    ensures
        registration_of(command).name == command_name(command),
        command_named(registration_of(command).name) == Some(command),
{
    lemma_name_finds_command(command);
}

/// Every command is registered exactly once.
pub proof fn lemma_each_command_registered_once(command: Command)
    ensures
        exists|i: int|
            0 <= i < registration_order().len() && #[trigger] registration_order()[i] == command,
        forall|i: int, j: int|
            0 <= i < j < registration_order().len() ==> registration_order()[i]
                != registration_order()[j],
{
    let order = registration_order();
    match command {
        Command::Ping => assert(order[0] == command),
        Command::SetAutoRole => assert(order[1] == command),
        Command::SetWelcomeChannel => assert(order[2] == command),
        Command::SystemConfig => assert(order[3] == command),
        Command::SetupTicketSystem => assert(order[4] == command),
        Command::ResetTicketsNumber => assert(order[5] == command),
    }
}

/// Every option of every command is registered as required, so Discord
/// always sends the values that the command handlers read.
pub proof fn lemma_every_option_required(command: Command)
    ensures
        forall|i: int|
            0 <= i < registration_of(command).options.len() ==> (#[trigger] registration_of(
                command,
            ).options[i]).required,
{
}

} // verus!
