//! Names and frames of the Pusher protocol as Kick's chat relay speaks it.
use vstd::prelude::*;

use crate::text::{has_prefix, is_prefix, same_text};

verus! {

/// Event that opens every connection to the relay.
pub const CONNECTION_ESTABLISHED: &'static str = "pusher:connection_established";

/// Event that acknowledges a subscription.
pub const SUBSCRIPTION_SUCCEEDED: &'static str = "pusher_internal:subscription_succeeded";

/// Keepalive ping of the Pusher protocol (not the WebSocket ping).
pub const KEEPALIVE_PING: &'static str = "pusher:ping";

/// Event that carries a chat message in its (JSON encoded) data.
pub const CHAT_MESSAGE_EVENT: &'static str = "App\\Events\\ChatMessageEvent";

/// Namespace of the protocol's own events.
pub const PUSHER_PREFIX: &'static str = "pusher:";

/// Namespace of the relay's internal events.
pub const INTERNAL_PREFIX: &'static str = "pusher_internal:";

pub open spec fn established_name() -> Seq<char> {
    "pusher:connection_established"@
}

pub open spec fn subscribed_name() -> Seq<char> {
    "pusher_internal:subscription_succeeded"@
}

pub open spec fn keepalive_ping_name() -> Seq<char> {
    "pusher:ping"@
}

pub open spec fn chat_event_name() -> Seq<char> {
    "App\\Events\\ChatMessageEvent"@
}

/// An event name in one of the two namespaces that the relay keeps for itself.
pub open spec fn is_reserved_name(name: Seq<char>) -> bool {
    is_prefix("pusher:"@, name) || is_prefix("pusher_internal:"@, name)
}

/// The decimal digit `d` (below ten) as a character.
pub open spec fn digit_char(d: nat) -> char {
    if d == 0 {
        '0'
    } else if d == 1 {
        '1'
    } else if d == 2 {
        '2'
    } else if d == 3 {
        '3'
    } else if d == 4 {
        '4'
    } else if d == 5 {
        '5'
    } else if d == 6 {
        '6'
    } else if d == 7 {
        '7'
    } else if d == 8 {
        '8'
    } else {
        '9'
    }
}

/// `n` written in decimal, without leading zeros.
pub open spec fn decimal(n: nat) -> Seq<char>
    decreases n,
{
    if n < 10 {
        seq![digit_char(n)]
    } else {
        decimal(n / 10).push(digit_char(n % 10))
    }
}

/// Name of the public channel of a chatroom.
pub open spec fn channel_name(chatroom_id: u64) -> Seq<char> {
    "chatrooms."@ + decimal(chatroom_id as nat) + ".v2"@
}

/// Text of the command that subscribes to `channel`.
pub open spec fn subscribe_frame(channel: Seq<char>) -> Seq<char> {
    "{\"data\":{\"auth\":\"\",\"channel\":\""@ + channel + "\"},\"event\":\"pusher:subscribe\"}"@
}

/// Text of the keepalive ping.
pub open spec fn ping_frame() -> Seq<char> {
    "{\"data\":{},\"event\":\"pusher:ping\"}"@
}

/// Text of the answer to a keepalive ping.
pub open spec fn pong_frame() -> Seq<char> {
    "{\"data\":{},\"event\":\"pusher:pong\"}"@
}

/// A subscribe command is never mistaken for a keepalive pong.
pub proof fn lemma_subscribe_is_not_pong(channel: Seq<char>)
    ensures
        subscribe_frame(channel) != pong_frame(),
{
    reveal_strlit("{\"data\":{\"auth\":\"\",\"channel\":\"");
    reveal_strlit("\"},\"event\":\"pusher:subscribe\"}");
    reveal_strlit("{\"data\":{},\"event\":\"pusher:pong\"}");
    let head = "{\"data\":{\"auth\":\"\",\"channel\":\""@;
    let tail = "\"},\"event\":\"pusher:subscribe\"}"@;
    assert(subscribe_frame(channel).len() == head.len() + channel.len() + tail.len());
}

fn digit_text(d: u64) -> (r: &'static str)
    requires
        d < 10,
    ensures
        r@ == seq![digit_char(d as nat)],
{
    if d == 0 {
        proof { reveal_strlit("0"); }
        "0"
    } else if d == 1 {
        proof { reveal_strlit("1"); }
        "1"
    } else if d == 2 {
        proof { reveal_strlit("2"); }
        "2"
    } else if d == 3 {
        proof { reveal_strlit("3"); }
        "3"
    } else if d == 4 {
        proof { reveal_strlit("4"); }
        "4"
    } else if d == 5 {
        proof { reveal_strlit("5"); }
        "5"
    } else if d == 6 {
        proof { reveal_strlit("6"); }
        "6"
    } else if d == 7 {
        proof { reveal_strlit("7"); }
        "7"
    } else if d == 8 {
        proof { reveal_strlit("8"); }
        "8"
    } else {
        proof { reveal_strlit("9"); }
        "9"
    }
}

/// Appends the decimal digits of `n` to `s`.
fn push_decimal(s: &mut String, n: u64)
    ensures
        final(s)@ == old(s)@ + decimal(n as nat),
    decreases n,
{
    if n >= 10 {
        push_decimal(s, n / 10);
    }
    s.append(digit_text(n % 10));
    assert(final(s)@ =~= old(s)@ + decimal(n as nat));
}

/// The name of the chatroom's public channel, `chatrooms.<id>.v2`.
pub fn chatroom_channel(chatroom_id: u64) -> (r: String)
    ensures
        r@ == channel_name(chatroom_id),
{
    let mut s = String::from_str("chatrooms.");
    push_decimal(&mut s, chatroom_id);
    s.append(".v2");
    s
}

/// Whether the event belongs to the protocol itself rather than to the channel.
pub fn is_reserved_event(name: &str) -> (r: bool)
    ensures
        r == is_reserved_name(name@),
{
    has_prefix(name, PUSHER_PREFIX) || has_prefix(name, INTERNAL_PREFIX)
}

/// Whether the event carries a chat message.
pub fn is_chat_event(name: &str) -> (r: bool)
    ensures
        r == (name@ == chat_event_name()),
{
    same_text(name, CHAT_MESSAGE_EVENT)
}

/// The command that subscribes to `channel`.
pub fn subscribe_command(channel: &str) -> (r: String)
    ensures
        r@ == subscribe_frame(channel@),
{
    let mut s = String::from_str("{\"data\":{\"auth\":\"\",\"channel\":\"");
    s.append(channel);
    s.append("\"},\"event\":\"pusher:subscribe\"}");
    s
}

/// The keepalive ping, for callers that keep the connection alive themselves.
pub fn keepalive_ping_command() -> (r: String)
    ensures
        r@ == ping_frame(),
{
    String::from_str("{\"data\":{},\"event\":\"pusher:ping\"}")
}

/// The answer to a keepalive ping.
pub fn keepalive_pong_command() -> (r: String)
    ensures
        r@ == pong_frame(),
{
    String::from_str("{\"data\":{},\"event\":\"pusher:pong\"}")
}

} // verus!
