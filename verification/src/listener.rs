//! What the bot does when Discord reports an event.

pub mod auto_role;
pub mod commands;
pub mod member_addition;
pub mod ticket_system;
pub mod welcome_message;
