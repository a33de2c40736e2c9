use manager_bot::config::guild::{default_config, ConfigStore, GuildConfig};
use manager_bot::listener::ticket_system::{
    access_changes, close_reply, closed_by_message, closed_channel_name, controls_message_index,
    grant_view, may_delete, members_to_review, next_ticket, opened_by_message,
    reopened_channel_name, revoke_view, route_interaction, ticket_channel_name,
    ticket_created_message, ticket_overwrites, CloseReply, Overwrite, OverwriteTarget,
    TicketAction, CANCEL_CLOSE, CLOSE, CLOSE_CONFIRMATION, CONTROLS_DESCRIPTION, CREATE, DELETE,
    OPEN,
};

const ACTIONS: [TicketAction; 6] = [
    TicketAction::Create,
    TicketAction::Close,
    TicketAction::ConfirmClose,
    TicketAction::CancelClose,
    TicketAction::Open,
    TicketAction::Delete,
];

fn store_with_tickets(on: bool) -> ConfigStore {
    let mut store = ConfigStore::new();
    let mut config = default_config();
    config.ticket_system = on;
    store.set_config(1, config, Ok(())).unwrap();
    store
}

#[test]
fn custom_ids_lead_back_to_actions() {
    let ids = [CREATE, CLOSE, CLOSE_CONFIRMATION, CANCEL_CLOSE, OPEN, DELETE];
    for (action, id) in ACTIONS.iter().zip(ids) {
        assert_eq!(action.custom_id(), id);
        assert_eq!(TicketAction::from_custom_id(id), Some(*action));
    }
    assert_eq!(TicketAction::from_custom_id("manager-ticket"), None);
    assert_eq!(CREATE, "manager-ticket-create");
}

#[test]
fn routing() {
    let on = store_with_tickets(true);
    let off = store_with_tickets(false);
    assert_eq!(route_interaction(&on, Some(1), Some(CLOSE), true), Some(TicketAction::Close));
    assert_eq!(route_interaction(&on, Some(1), Some("other"), true), None);
    assert_eq!(route_interaction(&on, None, Some(CLOSE), true), None);
    assert_eq!(route_interaction(&on, Some(1), None, true), None);
    assert_eq!(route_interaction(&on, Some(1), Some(CLOSE), false), None);
    assert_eq!(route_interaction(&off, Some(1), Some(CLOSE), true), None);
    assert_eq!(route_interaction(&on, Some(2), Some(CREATE), true), None);
}

#[test]
fn ticket_names() {
    assert_eq!(ticket_channel_name(1), "ticket-0001");
    assert_eq!(ticket_channel_name(42), "ticket-0042");
    assert_eq!(ticket_channel_name(10000), "ticket-10000");
    assert_eq!(ticket_channel_name(0), "ticket-0000");
}

#[test]
fn next_ticket_advances_counter() {
    let mut config = default_config();
    config.ticket_number = 6;
    config.moderator_roles = vec![8];
    let (updated, name): (GuildConfig, String) = next_ticket(config);
    assert_eq!(updated.ticket_number, 7);
    assert_eq!(updated.moderator_roles, vec![8]);
    assert_eq!(name, "ticket-0007");
    let (again, second) = next_ticket(updated);
    assert_eq!(again.ticket_number, 8);
    assert_ne!(name, second);
}

#[test]
fn new_ticket_permissions() {
    let overwrites = ticket_overwrites(500, 900, &vec![31, 32]);
    assert_eq!(
        overwrites,
        vec![
            Overwrite { allow: 1024, deny: 0, target: OverwriteTarget::Member(500) },
            Overwrite { allow: 0, deny: 1024, target: OverwriteTarget::Role(900) },
            Overwrite { allow: 1024, deny: 0, target: OverwriteTarget::Role(31) },
            Overwrite { allow: 1024, deny: 0, target: OverwriteTarget::Role(32) },
        ]
    );
    assert_eq!(ticket_overwrites(500, 900, &vec![]).len(), 2);
    assert_eq!(grant_view(OverwriteTarget::Role(3)).allow, 1 << 10);
    assert_eq!(revoke_view(OverwriteTarget::Member(3)).deny, 1 << 10);
    assert_eq!(revoke_view(OverwriteTarget::Member(3)).allow, 0);
}

#[test]
fn ticket_created_reply() {
    assert_eq!(ticket_created_message(123456), "✔ Ticket Created <#123456>");
}

#[test]
fn closing() {
    assert_eq!(close_reply("ticket-0003"), CloseReply::AskConfirmation);
    assert_eq!(close_reply("closed-0003"), CloseReply::AlreadyClosed);
    assert_eq!(close_reply("general"), CloseReply::AskConfirmation);
    assert_eq!(closed_channel_name("ticket-0003"), "closed-0003");
    assert_eq!(closed_channel_name("support"), "closed-0000");
    assert_eq!(closed_channel_name("a-b-c"), "closed-b");
    assert_eq!(closed_by_message(77), "Ticket Closed by <@77>");
}

#[test]
fn reopening() {
    assert_eq!(reopened_channel_name("closed-0003"), "ticket-0003");
    assert_eq!(reopened_channel_name("closed"), "ticket-0000");
    assert_eq!(reopened_channel_name("closed-"), "ticket-");
    assert_eq!(opened_by_message(78), "Ticket Opened by <@78>");
}

#[test]
fn close_reopen_round_trip() {
    for n in [1u64, 9, 123, 4567, 89012] {
        let name = ticket_channel_name(n);
        let closed = closed_channel_name(&name);
        assert!(may_delete(&closed));
        assert_eq!(close_reply(&closed), CloseReply::AlreadyClosed);
        let reopened = reopened_channel_name(&closed);
        assert_eq!(reopened, name);
        assert!(!may_delete(&reopened));
    }
}

#[test]
fn deleting() {
    assert!(may_delete("closed-0001"));
    assert!(!may_delete("ticket-0001"));
    assert!(!may_delete("Closed-0001"));
}

#[test]
fn review_skips_owner_and_roles() {
    let targets = vec![
        OverwriteTarget::Member(5),
        OverwriteTarget::Role(1),
        OverwriteTarget::Member(99),
        OverwriteTarget::Other,
        OverwriteTarget::Member(6),
    ];
    assert_eq!(members_to_review(&targets, 99), vec![5, 6]);
    assert_eq!(members_to_review(&vec![], 99), Vec::<u64>::new());
}

#[test]
fn bots_keep_access() {
    assert!(access_changes(Some(false)));
    assert!(!access_changes(Some(true)));
    assert!(!access_changes(None));
}

#[test]
fn finding_the_controls() {
    let descriptions = vec![
        None,
        Some("Ticket Closed by <@1>".to_string()),
        Some(CONTROLS_DESCRIPTION.to_string()),
        Some(CONTROLS_DESCRIPTION.to_string()),
    ];
    assert_eq!(controls_message_index(&descriptions), Some(2));
    assert_eq!(controls_message_index(&vec![None, Some("x".to_string())]), None);
    assert_eq!(controls_message_index(&vec![]), None);
    assert_eq!(CONTROLS_DESCRIPTION, "```Support team ticket controls```");
}

#[test]
fn reset_then_next_ticket_is_number_one() {
    let mut store = ConfigStore::new();
    let mut config = default_config();
    config.ticket_system = true;
    config.ticket_number = 41;
    store.set_config(3, config, Ok(())).unwrap();
    let reset = manager_bot::command::reset_tickets_number::updated_config(&store, 3);
    store.set_config(3, reset, Ok(())).unwrap();
    let (advanced, name) = next_ticket(store.get_config(3));
    assert_eq!(name, "ticket-0001");
    assert_eq!(advanced.ticket_number, 1);
    assert!(advanced.ticket_system);
}
