//! `/ping`: answers, then reports how long the answer took.

use vstd::prelude::*;
use crate::command::{command_spec, CommandSpec, CommandSpecView};
use crate::text::{decimal, push_decimal};

verus! {

/// The first answer.
pub const PONG: &'static str = "Pong!";

/// How `/ping` is registered: no option, offered everywhere to everyone.
pub open spec fn ping_spec() -> CommandSpecView {
    CommandSpecView {
        name: "ping"@,
        description: "Ping! Pong!"@,
        guild_only: false,
        admin_only: false,
        options: Seq::empty(),
    }
}

/// How `/ping` is registered.
pub fn register() -> (spec: CommandSpec)
    ensures
        spec@ == ping_spec(),
{
    let spec = command_spec("ping", "Ping! Pong!", false, false, Vec::new());
    assert(spec@.options =~= Seq::empty());
    spec
}

/// The answer once it is known to have taken `elapsed_ms` milliseconds.
pub open spec fn pong_text(elapsed_ms: u128) -> Seq<char> {
    "Pong! "@ + decimal(elapsed_ms as nat) + "ms"@
}

/// The answer once it is known to have taken `elapsed_ms` milliseconds:
/// `Pong! <ms>ms`.
pub fn pong_message(elapsed_ms: u128) -> (message: String)
    ensures
        message@ == pong_text(elapsed_ms),
{
    let mut message = String::from_str("Pong! ");
    push_decimal(&mut message, elapsed_ms);
    message.append("ms");
    message
}

} // verus!
