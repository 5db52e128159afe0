//! Messages of the duplex session protocol, and the derived replies the
//! supervisor sends: the one-time greeting and the echo of a text message.

use vstd::prelude::*;

verus! {

/// A message received from the peer over the duplex channel.
pub enum Inbound {
    Text(String),
    Binary(Vec<u8>),
    Close,
    Ping(Vec<u8>),
    Pong(Vec<u8>),
}

/// A message the supervisor sends over the duplex channel.
pub enum Outbound {
    Text(String),
    /// Liveness probe; carries no payload.
    Ping,
}

/// The greeting sent once, right after a successful upgrade.
pub open spec fn greeting_text() -> Seq<char> {
    "Connected to WebSocket server"@
}

/// The prefix an echo reply puts in front of the received text.
pub open spec fn echo_prefix() -> Seq<char> {
    "Echo: "@
}

/// The reply derived from a received text: the echo prefix, then the text.
pub open spec fn echo_text(m: Seq<char>) -> Seq<char> {
    echo_prefix() + m
}

/// Build the greeting message.
pub fn greeting() -> (r: String)
    ensures
        r@ == greeting_text(),
{
    String::from_str("Connected to WebSocket server")
}

/// Build the echo reply for a received text message.
pub fn echo_response(m: &str) -> (r: String)
    ensures
        r@ == echo_text(m@),
{
    String::from_str("Echo: ").concat(m)
}

/// The echo reply is a deterministic function of the received text and
/// embeds it whole: everything after the fixed prefix is the text itself.
pub proof fn lemma_echo_embeds_input(m: Seq<char>)
    ensures
        echo_text(m).len() == echo_prefix().len() + m.len(),
        echo_text(m).subrange(echo_prefix().len() as int, echo_text(m).len() as int) =~= m,
{
}

} // verus!
