//! The text of the messages that clients and servers send each other.

use vstd::prelude::*;

use crate::decimal::{append_decimal, decimal};

verus! {

/// `head`, then `name`, then `middle`, then `n` in decimal, then `)`.
pub open spec fn counted_text(head: Seq<char>, name: Seq<char>, middle: Seq<char>, n: nat) -> Seq<char> {
    head + name + middle + decimal(n) + ")"@
}

/// The reply of the client runner for server `letter`: `Client B Message (4)`.
pub open spec fn runner_reply(letter: Seq<char>, count: nat) -> Seq<char> {
    counted_text("Client "@, letter, " Message ("@, count)
}

/// The reply of the named client plugin: `Client<Main> Message (4)`.
pub open spec fn named_reply(name: Seq<char>, count: nat) -> Seq<char> {
    counted_text("Client<"@, name, "> Message ("@, count)
}

/// What server `letter` sends each user on a tick: `Server B Message (7)`.
pub open spec fn server_text(letter: Seq<char>, tick: nat) -> Seq<char> {
    counted_text("Server "@, letter, " Message ("@, tick)
}

/// What the plugin server `letter` sends each user on a tick: `Server B Message(7)`.
pub open spec fn plugin_server_text(letter: Seq<char>, tick: nat) -> Seq<char> {
    counted_text("Server "@, letter, " Message("@, tick)
}

/// Builds `head`, `name`, `middle`, `n` in decimal, and `)`.
pub fn counted(head: &str, name: &str, middle: &str, n: u32) -> (s: String)
    ensures
        s@ == counted_text(head@, name@, middle@, n as nat),
{
    let mut s = String::from_str(head);
    s.append(name);
    s.append(middle);
    append_decimal(&mut s, n);
    let close = ")";
    s.append(close);
    s
}

/// The client runner's reply.
pub fn runner_reply_text(letter: &str, count: u32) -> (s: String)
    ensures
        s@ == runner_reply(letter@, count as nat),
{
    counted("Client ", letter, " Message (", count)
}

/// The named client's reply.
pub fn named_reply_text(name: &str, count: u32) -> (s: String)
    ensures
        s@ == named_reply(name@, count as nat),
{
    counted("Client<", name, "> Message (", count)
}

/// The server's tick message.
pub fn server_tick_text(letter: &str, tick: u32) -> (s: String)
    ensures
        s@ == server_text(letter@, tick as nat),
{
    counted("Server ", letter, " Message (", tick)
}

/// The plugin server's tick message.
pub fn plugin_server_tick_text(letter: &str, tick: u32) -> (s: String)
    ensures
        s@ == plugin_server_text(letter@, tick as nat),
{
    counted("Server ", letter, " Message(", tick)
}

} // verus!
