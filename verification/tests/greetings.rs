use manager_bot::config::guild::{default_config, ConfigStore};
use manager_bot::event;
use manager_bot::listener::{auto_role, member_addition, welcome_message};

#[test]
fn welcome_channel_needs_system_and_channel() {
    let mut store = ConfigStore::new();
    assert_eq!(welcome_message::welcome_channel(&store, 1), None);
    let mut config = default_config();
    config.welcome_message_system = true;
    store.set_config(1, config, Ok(())).unwrap();
    assert_eq!(welcome_message::welcome_channel(&store, 1), None);
    let mut config = default_config();
    config.welcome_message_system = true;
    config.welcome_message_id = 44;
    store.set_config(1, config, Ok(())).unwrap();
    assert_eq!(welcome_message::welcome_channel(&store, 1), Some(44));
    let mut config = default_config();
    config.welcome_message_id = 44;
    store.set_config(1, config, Ok(())).unwrap();
    assert_eq!(welcome_message::welcome_channel(&store, 1), None);
}

#[test]
fn welcome_texts() {
    assert_eq!(welcome_message::welcome_text(12, "Guild", 0), "Welcome <@12> to Guild!");
    assert_eq!(
        welcome_message::welcome_text(12, "Guild", 250),
        "Welcome <@12> to Guild! We are now: 250!"
    );
    assert_eq!(
        member_addition::welcome_text(3, 0),
        "Welcome <@3> to Ethene Hosting!"
    );
    assert_eq!(
        member_addition::welcome_text(3, 8),
        "Welcome <@3> to Ethene Hosting! We are now: 8!"
    );
    assert_eq!(
        event::welcome_text(3, 0),
        "Welcome <@3> to Ethene Hosting! We are now: 0!"
    );
    assert_eq!(event::WELCOME_CHANNEL_ID, 1323369443145027738);
    assert_eq!(event::ROLE_ID, 1323370508477005865);
}

#[test]
fn automatic_role() {
    let mut store = ConfigStore::new();
    assert_eq!(auto_role::auto_role(&store, 1), None);
    let mut config = default_config();
    config.auto_role_system = true;
    config.auto_role_id = 70;
    store.set_config(1, config, Ok(())).unwrap();
    assert_eq!(auto_role::auto_role(&store, 1), Some(70));
    let mut config = default_config();
    config.auto_role_system = true;
    store.set_config(1, config, Ok(())).unwrap();
    assert_eq!(auto_role::auto_role(&store, 1), None);
    let mut config = default_config();
    config.auto_role_id = 70;
    store.set_config(1, config, Ok(())).unwrap();
    assert_eq!(auto_role::auto_role(&store, 1), None);
}
