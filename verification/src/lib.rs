//! Decision logic of a Discord server-management bot: per-guild
//! configuration, slash commands, welcome messages, automatic roles and a
//! ticket system.

pub mod text;
pub mod discord;
pub mod config;
pub mod command;
pub mod listener;
pub mod event;
