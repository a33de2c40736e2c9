//! Gives members who join a guild the guild's automatic role.

use vstd::prelude::*;
use crate::config::guild::{config_of, ConfigStore, GuildConfigView};

verus! {

/// The role a guild gives to members who join: none where the system is
/// off or no role is chosen (id zero).
pub open spec fn auto_role_of(config: GuildConfigView) -> Option<u64> {
    if config.auto_role_system && config.auto_role_id != 0 {
        Some(config.auto_role_id)
    } else {
        None
    }
}

/// The role to give a member who joined the guild, if any.
pub fn auto_role(store: &ConfigStore, guild_id: u64) -> (role: Option<u64>)
    ensures
        role == auto_role_of(config_of(store@, guild_id)),
{
    let config = store.get_config(guild_id);
    if !config.auto_role_system || config.auto_role_id == 0 {
        return None;
    }
    Some(config.auto_role_id)
}

} // verus!
