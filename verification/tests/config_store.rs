use manager_bot::config::guild::{
    config_dir, config_path, default_config, ConfigError, ConfigFile, ConfigStore, GuildConfig,
};

fn sample(ticket_number: u64) -> GuildConfig {
    GuildConfig {
        welcome_message_system: true,
        welcome_message_id: 11,
        auto_role_system: true,
        auto_role_id: 22,
        ticket_system: true,
        ticket_channel: 33,
        ticket_category: 44,
        ticket_number,
        moderator_roles: vec![5, 6],
    }
}

fn same(a: &GuildConfig, b: &GuildConfig) -> bool {
    a.welcome_message_system == b.welcome_message_system
        && a.welcome_message_id == b.welcome_message_id
        && a.auto_role_system == b.auto_role_system
        && a.auto_role_id == b.auto_role_id
        && a.ticket_system == b.ticket_system
        && a.ticket_channel == b.ticket_channel
        && a.ticket_category == b.ticket_category
        && a.ticket_number == b.ticket_number
        && a.moderator_roles == b.moderator_roles
}

#[test]
fn default_config_has_everything_off() {
    let c = default_config();
    assert!(!c.welcome_message_system);
    assert_eq!(c.welcome_message_id, 0);
    assert!(!c.auto_role_system);
    assert_eq!(c.auto_role_id, 0);
    assert!(!c.ticket_system);
    assert_eq!(c.ticket_channel, 0);
    assert_eq!(c.ticket_category, 0);
    assert_eq!(c.ticket_number, 0);
    assert!(c.moderator_roles.is_empty());
}

#[test]
fn unknown_guild_reads_defaults() {
    let store = ConfigStore::new();
    assert!(same(&store.get_config(123), &default_config()));
    assert!(store.configs().is_empty());
}

#[test]
fn read_after_successful_write() {
    let mut store = ConfigStore::new();
    assert_eq!(store.set_config(7, sample(3), Ok(())), Ok(()));
    assert!(same(&store.get_config(7), &sample(3)));
    assert!(same(&store.get_config(8), &default_config()));
}

#[test]
fn later_write_wins() {
    let mut store = ConfigStore::new();
    store.set_config(7, sample(3), Ok(())).unwrap();
    store.set_config(7, sample(9), Ok(())).unwrap();
    assert_eq!(store.get_config(7).ticket_number, 9);
    assert_eq!(store.configs().len(), 1);
}

#[test]
fn failed_write_keeps_store() {
    let mut store = ConfigStore::new();
    store.set_config(7, sample(3), Ok(())).unwrap();
    assert_eq!(store.set_config(7, sample(9), Err(ConfigError::Io)), Err(ConfigError::Io));
    assert_eq!(store.get_config(7).ticket_number, 3);
    assert_eq!(
        store.set_config(8, sample(1), Err(ConfigError::Format)),
        Err(ConfigError::Format)
    );
    assert!(same(&store.get_config(8), &default_config()));
}

#[test]
fn write_leaves_other_guilds() {
    let mut store = ConfigStore::new();
    store.set_config(1, sample(1), Ok(())).unwrap();
    store.set_config(2, sample(2), Ok(())).unwrap();
    assert_eq!(store.get_config(1).ticket_number, 1);
    assert_eq!(store.get_config(2).ticket_number, 2);
}

#[test]
fn init_with_missing_file_asks_for_defaults() {
    let mut store = ConfigStore::new();
    let to_save = store.init_config_file(5, ConfigFile::Missing).expect("defaults to save");
    assert!(same(&to_save, &default_config()));
    assert!(store.configs().is_empty());
    store.set_config(5, to_save, Ok(())).unwrap();
    assert!(store.configs().contains_key(&5));
    assert!(same(&store.get_config(5), &default_config()));
}

#[test]
fn init_with_read_file_loads_it() {
    let mut store = ConfigStore::new();
    assert!(store.init_config_file(5, ConfigFile::Found(Ok(sample(4)))).is_none());
    assert!(same(&store.get_config(5), &sample(4)));
}

#[test]
fn init_with_unreadable_file_keeps_store() {
    let mut store = ConfigStore::new();
    store.set_config(5, sample(4), Ok(())).unwrap();
    assert!(store.init_config_file(5, ConfigFile::Found(Err(ConfigError::Format))).is_none());
    assert_eq!(store.get_config(5).ticket_number, 4);
    assert!(store.init_config_file(6, ConfigFile::Found(Err(ConfigError::Io))).is_none());
    assert!(!store.configs().contains_key(&6));
}

#[test]
fn duplicate_is_equal_and_independent() {
    let original = sample(12);
    let mut copy = original.duplicate();
    assert!(same(&copy, &original));
    copy.moderator_roles.push(9);
    assert_eq!(original.moderator_roles, vec![5, 6]);
}

#[test]
fn config_file_path() {
    assert_eq!(config_path(1323369443145027738), "config/1323369443145027738.json");
    assert_eq!(config_path(0), "config/0.json");
    assert_eq!(config_path(u64::MAX), "config/18446744073709551615.json");
}

#[test]
fn config_file_directory() {
    assert_eq!(config_dir("config/42.json").as_deref(), Some("config"));
    assert_eq!(config_dir("a/b/c.json").as_deref(), Some("a/b"));
    assert_eq!(config_dir("/root.json").as_deref(), Some(""));
    assert_eq!(config_dir("plain.json"), None);
    assert_eq!(config_dir(""), None);
}

#[test]
fn cloned_config_is_equal() {
    let original = sample(12);
    let copy = original.clone();
    assert!(same(&copy, &original));
}

#[test]
fn second_load_changes_nothing() {
    let mut store = ConfigStore::new();
    assert!(store.init_config_file(5, ConfigFile::Found(Ok(sample(4)))).is_none());
    assert!(store.init_config_file(5, ConfigFile::Found(Ok(sample(4)))).is_none());
    assert!(same(&store.get_config(5), &sample(4)));
    assert_eq!(store.configs().len(), 1);
}
