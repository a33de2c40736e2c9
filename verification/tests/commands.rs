use manager_bot::command::{
    ping, reset_tickets_number, set_auto_role, set_welcome_channel, setup_ticket_system,
    system_config, Command, OptionKind, SAVE_FAILED,
};
use manager_bot::config::guild::{ConfigError, ConfigStore, GuildConfig};
use manager_bot::listener::commands::{dispatch, registration, registrations};

const ALL: [Command; 6] = [
    Command::Ping,
    Command::SetAutoRole,
    Command::SetWelcomeChannel,
    Command::SystemConfig,
    Command::SetupTicketSystem,
    Command::ResetTicketsNumber,
];

fn stored() -> ConfigStore {
    let mut store = ConfigStore::new();
    let config = GuildConfig {
        welcome_message_system: true,
        welcome_message_id: 100,
        auto_role_system: false,
        auto_role_id: 200,
        ticket_system: false,
        ticket_channel: 300,
        ticket_category: 400,
        ticket_number: 17,
        moderator_roles: vec![1, 2, 3],
    };
    store.set_config(9, config, Ok(())).unwrap();
    store
}

#[test]
fn names_dispatch_to_their_commands() {
    for command in ALL {
        assert_eq!(dispatch(command.name()), Some(command));
        assert_eq!(Command::from_name(command.name()), Some(command));
    }
    assert_eq!(dispatch("pong"), None);
    assert_eq!(dispatch(""), None);
    assert_eq!(dispatch("Ping"), None);
}

#[test]
fn registered_names_dispatch() {
    let specs = registrations();
    assert_eq!(specs.len(), 6);
    for (spec, command) in specs.iter().zip(ALL) {
        assert_eq!(spec.name, command.name());
        assert_eq!(dispatch(&spec.name), Some(command));
        assert_eq!(registration(command).name, spec.name);
    }
}

#[test]
fn ping_registration() {
    let spec = ping::register();
    assert_eq!(spec.name, "ping");
    assert_eq!(spec.description, "Ping! Pong!");
    assert!(!spec.guild_only);
    assert!(!spec.admin_only);
    assert!(spec.options.is_empty());
}

#[test]
fn pong_with_time() {
    assert_eq!(ping::PONG, "Pong!");
    assert_eq!(ping::pong_message(0), "Pong! 0ms");
    assert_eq!(ping::pong_message(153), "Pong! 153ms");
}

#[test]
fn set_auto_role_registration_and_update() {
    let spec = set_auto_role::register();
    assert_eq!(spec.name, "set-auto-role");
    assert_eq!(spec.description, "Change role to be set automatically when a member join.");
    assert!(spec.guild_only && spec.admin_only);
    assert_eq!(spec.options.len(), 1);
    assert_eq!(spec.options[0].kind, OptionKind::Role);
    assert_eq!(spec.options[0].name, "role");
    assert_eq!(
        spec.options[0].description,
        "Role to set automatically when member join to the guild."
    );
    assert!(spec.options[0].required);
    assert!(spec.options[0].choices.is_empty());

    let store = stored();
    let config = set_auto_role::updated_config(&store, 9, 777);
    assert_eq!(config.auto_role_id, 777);
    assert!(!config.auto_role_system);
    assert_eq!(config.ticket_number, 17);
    assert_eq!(config.welcome_message_id, 100);
    assert_eq!(config.moderator_roles, vec![1, 2, 3]);
    let fresh = set_auto_role::updated_config(&store, 10, 5);
    assert_eq!(fresh.auto_role_id, 5);
    assert_eq!(fresh.ticket_number, 0);

    assert_eq!(
        set_auto_role::reply(Ok(())),
        "The new role has been set to be added automatically."
    );
    assert_eq!(set_auto_role::reply(Err(ConfigError::Io)), SAVE_FAILED);
}

#[test]
fn set_welcome_channel_registration_and_update() {
    let spec = set_welcome_channel::register();
    assert_eq!(spec.name, "set-welcome-channel");
    assert_eq!(spec.description, "Change channel where welcome messages will be send.");
    assert!(spec.guild_only && spec.admin_only);
    assert_eq!(spec.options.len(), 1);
    assert_eq!(spec.options[0].kind, OptionKind::Channel);
    assert_eq!(spec.options[0].name, "channel");
    assert_eq!(spec.options[0].description, "Select a channel.");

    let store = stored();
    let config = set_welcome_channel::updated_config(&store, 9, 555);
    assert_eq!(config.welcome_message_id, 555);
    assert!(config.welcome_message_system);
    assert_eq!(config.auto_role_id, 200);

    assert_eq!(
        set_welcome_channel::reply(Ok(())),
        "New channel has been set to send welcome messages."
    );
    assert_eq!(
        set_welcome_channel::reply(Err(ConfigError::Format)),
        "Error saving configuration."
    );
}

#[test]
fn reset_tickets_number_registration_and_update() {
    let spec = reset_tickets_number::register();
    assert_eq!(spec.name, "reset-tickets-number");
    assert_eq!(spec.description, "Reset the tickets number.");
    assert!(!spec.guild_only && !spec.admin_only);
    assert!(spec.options.is_empty());

    let store = stored();
    let config = reset_tickets_number::updated_config(&store, 9);
    assert_eq!(config.ticket_number, 0);
    assert_eq!(config.ticket_category, 400);
    assert!(!config.ticket_system);

    assert_eq!(reset_tickets_number::reply(Ok(())), "Tickets number has been reset correctly.");
    assert_eq!(reset_tickets_number::reply(Err(ConfigError::Io)), SAVE_FAILED);
}

#[test]
fn setup_ticket_system_registration_and_update() {
    let spec = setup_ticket_system::register();
    assert_eq!(spec.name, "setup-ticket-system");
    assert_eq!(spec.description, "Setup the ticket system.");
    assert!(spec.guild_only && spec.admin_only);
    assert_eq!(spec.options.len(), 2);
    assert_eq!(spec.options[0].name, "channel");
    assert_eq!(
        spec.options[0].description,
        "Select a channel to send the ticket panel message."
    );
    assert_eq!(spec.options[1].name, "category");
    assert_eq!(spec.options[1].description, "Add the tickets category id.");
    assert!(spec.options.iter().all(|o| o.kind == OptionKind::Channel && o.required));

    let store = stored();
    let config = setup_ticket_system::updated_config(&store, 9, 61, 62);
    assert!(config.ticket_system);
    assert_eq!(config.ticket_channel, 61);
    assert_eq!(config.ticket_category, 62);
    assert_eq!(config.ticket_number, 0);
    assert_eq!(config.moderator_roles, vec![1, 2, 3]);
    assert!(config.welcome_message_system);

    assert_eq!(
        setup_ticket_system::reply(Ok(())),
        "New channel has been set to send welcome messages."
    );
    assert_eq!(setup_ticket_system::reply(Err(ConfigError::Io)), SAVE_FAILED);
}

#[test]
fn system_config_registration() {
    let spec = system_config::register();
    assert_eq!(spec.name, "system-config");
    assert!(spec.guild_only && spec.admin_only);
    assert_eq!(spec.options.len(), 2);
    assert_eq!(spec.options[0].kind, OptionKind::Text);
    assert_eq!(spec.options[0].name, "system");
    assert_eq!(spec.options[0].choices, vec!["auto-role".to_string(), "welcome-message".to_string()]);
    assert_eq!(spec.options[1].kind, OptionKind::Boolean);
    assert_eq!(spec.options[1].name, "enabled");
    assert_eq!(spec.options[1].description, "Enable or disable.");
}

#[test]
fn system_config_switches_one_system() {
    let store = stored();
    let on = system_config::updated_config(&store, 9, "auto-role", true).unwrap();
    assert!(on.auto_role_system);
    assert!(on.welcome_message_system);
    assert_eq!(on.auto_role_id, 200);
    let off = system_config::updated_config(&store, 9, "welcome-message", false).unwrap();
    assert!(!off.welcome_message_system);
    assert!(!off.auto_role_system);
    assert!(system_config::updated_config(&store, 9, "tickets", true).is_none());
    assert!(system_config::updated_config(&store, 9, "auto-role ", true).is_none());
}

#[test]
fn system_config_replies() {
    assert_eq!(
        system_config::reply("auto-role", true, Ok(())),
        "System auto-role has been enabled."
    );
    assert_eq!(
        system_config::reply("welcome-message", false, Ok(())),
        "System welcome-message has been disabled."
    );
    assert_eq!(system_config::reply("auto-role", true, Err(ConfigError::Io)), SAVE_FAILED);
}
