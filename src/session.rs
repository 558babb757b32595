//! The live chat session as a state machine. The transport hands it each
//! inbound frame; it answers with what to do next, so it runs without a
//! socket and each step is checked against `transition`.
use vstd::prelude::*;

use crate::models::{LiveChatMessage, PusherEvent, PusherMessage};
use crate::protocol::{
    chat_event_name, chatroom_channel, channel_name, established_name, is_chat_event,
    is_reserved_event, is_reserved_name, keepalive_ping_name, keepalive_pong_command, pong_frame,
    subscribe_command, subscribe_frame, subscribed_name, CONNECTION_ESTABLISHED, KEEPALIVE_PING,
    SUBSCRIPTION_SUCCEEDED,
};
use crate::text::same_text;

verus! {

/// Where a session stands.
#[derive(Debug, Clone, Copy, PartialEq, Eq, Structural)]
pub enum Phase {
    /// Waiting for the relay to acknowledge the connection.
    Connecting,
    /// Subscribe command sent; waiting for its acknowledgement.
    Subscribing,
    /// Subscribed: events flow to the caller.
    Ready,
    /// The connection has ended; nothing more comes.
    Closed,
}

/// Why a session failed.
#[derive(Debug, Clone, Copy, PartialEq, Eq, Structural)]
pub enum SessionError {
    /// The connection closed before the relay acknowledged it.
    ClosedBeforeEstablished,
    /// The connection closed before the subscription was acknowledged.
    ClosedBeforeSubscribed,
    /// The transport failed to receive or to send.
    Transport,
}

/// An inbound frame, as the transport classifies it.
#[derive(Debug, Clone, PartialEq, Eq)]
pub enum Frame {
    /// A text frame: its envelope, where it decodes as one, and the
    /// envelope's data decoded as a chat message, where it decodes as one.
    Text { envelope: Option<PusherMessage>, chat: Option<LiveChatMessage> },
    /// A WebSocket ping with its payload.
    Ping(Vec<u8>),
    /// A WebSocket close frame.
    Close,
    /// Any other frame (binary, pong).
    Other,
    /// The stream ended.
    End,
    /// The transport reported an error.
    Failed,
}

/// What the transport is to do after a frame.
#[derive(Debug, Clone, PartialEq, Eq)]
pub enum Action {
    /// Nothing to send: receive the next frame.
    Receive,
    /// Send a WebSocket pong with this payload, then receive the next frame.
    SendPong(Vec<u8>),
    /// Send this text frame, then receive the next frame.
    SendText(String),
    /// The handshake is complete; the session is ready.
    Subscribed,
    /// Hand this event to the caller.
    Deliver(PusherEvent),
    /// Hand this chat message to the caller.
    DeliverMessage(LiveChatMessage),
    /// The stream has ended.
    EndOfStream,
    /// The session failed.
    Fail(SessionError),
}

/// The meaning of an [`Action`], with the texts and payloads as sequences.
pub enum Effect {
    /// Receive the next frame.
    Receive,
    /// Send a WebSocket pong with this payload.
    Pong(Seq<u8>),
    /// Send this text frame.
    Send(Seq<char>),
    /// The handshake is complete.
    Subscribed,
    /// An event for the caller.
    Event(PusherEvent),
    /// A chat message for the caller.
    Message(LiveChatMessage),
    /// The stream has ended.
    End,
    /// The session failed.
    Fail(SessionError),
}

impl View for Action {
    type V = Effect;

    open spec fn view(&self) -> Effect {
        match self {
            Action::Receive => Effect::Receive,
            Action::SendPong(p) => Effect::Pong(p@),
            Action::SendText(t) => Effect::Send(t@),
            Action::Subscribed => Effect::Subscribed,
            Action::Deliver(e) => Effect::Event(*e),
            Action::DeliverMessage(m) => Effect::Message(*m),
            Action::EndOfStream => Effect::End,
            Action::Fail(e) => Effect::Fail(*e),
        }
    }
}

/// The event that an envelope becomes for the caller.
pub open spec fn event_of(m: PusherMessage) -> PusherEvent {
    PusherEvent { event: m.event, channel: m.channel, data: m.data }
}

/// A text frame whose envelope is named `name`.
pub open spec fn is_named(f: Frame, name: Seq<char>) -> bool {
    f matches Frame::Text { envelope: Some(m), .. } && m.event@ == name
}

/// A keepalive ping of the protocol.
pub open spec fn is_keepalive_ping(f: Frame) -> bool {
    is_named(f, keepalive_ping_name())
}

/// A ping of either kind.
pub open spec fn is_ping(f: Frame) -> bool {
    f is Ping || is_keepalive_ping(f)
}

/// A frame that ends the connection.
pub open spec fn is_closing(f: Frame) -> bool {
    f is Close || f is End || f is Failed
}

/// The answer that a ping owes.
pub open spec fn pong_for(f: Frame) -> Effect {
    match f {
        Frame::Ping(p) => Effect::Pong(p@),
        _ => Effect::Send(pong_frame()),
    }
}

/// An answer to a ping of either kind.
pub open spec fn is_pong(e: Effect) -> bool {
    e is Pong || e == Effect::Send(pong_frame())
}

/// A step of the handshake: wait for `awaited`, answering pings meanwhile.
pub open spec fn handshake(
    phase: Phase,
    frame: Frame,
    awaited: Seq<char>,
    next: Phase,
    done: Effect,
    closed: SessionError,
) -> (Phase, Effect) {
    if is_named(frame, awaited) {
        (next, done)
    } else if is_keepalive_ping(frame) {
        (phase, Effect::Send(pong_frame()))
    } else {
        match frame {
            Frame::Ping(p) => (phase, Effect::Pong(p@)),
            Frame::Close => (Phase::Closed, Effect::Fail(closed)),
            Frame::End => (Phase::Closed, Effect::Fail(closed)),
            Frame::Failed => (Phase::Closed, Effect::Fail(SessionError::Transport)),
            _ => (phase, Effect::Receive),
        }
    }
}

/// A step of the ready session.
pub open spec fn pump(frame: Frame) -> (Phase, Effect) {
    match frame {
        Frame::Text { envelope: Some(m), .. } => {
            if m.event@ == keepalive_ping_name() {
                (Phase::Ready, Effect::Send(pong_frame()))
            } else if is_reserved_name(m.event@) {
                (Phase::Ready, Effect::Receive)
            } else {
                (Phase::Ready, Effect::Event(event_of(m)))
            }
        },
        Frame::Ping(p) => (Phase::Ready, Effect::Pong(p@)),
        Frame::Close => (Phase::Closed, Effect::End),
        Frame::End => (Phase::Closed, Effect::End),
        Frame::Failed => (Phase::Closed, Effect::Fail(SessionError::Transport)),
        _ => (Phase::Ready, Effect::Receive),
    }
}

/// What a session on `channel` in `phase` does with `frame`, and where it goes.
pub open spec fn transition(phase: Phase, channel: Seq<char>, frame: Frame) -> (Phase, Effect) {
    match phase {
        Phase::Connecting => handshake(
            phase,
            frame,
            established_name(),
            Phase::Subscribing,
            Effect::Send(subscribe_frame(channel)),
            SessionError::ClosedBeforeEstablished,
        ),
        Phase::Subscribing => handshake(
            phase,
            frame,
            subscribed_name(),
            Phase::Ready,
            Effect::Subscribed,
            SessionError::ClosedBeforeSubscribed,
        ),
        Phase::Ready => pump(frame),
        Phase::Closed => (Phase::Closed, Effect::End),
    }
}

/// The same step where the caller waits for chat messages: an event becomes
/// its chat message where it is one and its data decoded; else it is dropped.
pub open spec fn message_transition(phase: Phase, channel: Seq<char>, frame: Frame) -> (
    Phase,
    Effect,
) {
    let (next, effect) = transition(phase, channel, frame);
    match effect {
        Effect::Event(ev) => {
            if ev.event@ == chat_event_name() {
                match frame {
                    Frame::Text { chat: Some(m), .. } => (next, Effect::Message(m)),
                    _ => (next, Effect::Receive),
                }
            } else {
                (next, Effect::Receive)
            }
        },
        _ => (next, effect),
    }
}

/// The step of either kind.
pub open spec fn step(messages: bool, phase: Phase, channel: Seq<char>, frame: Frame) -> (
    Phase,
    Effect,
) {
    if messages {
        message_transition(phase, channel, frame)
    } else {
        transition(phase, channel, frame)
    }
}

/// Where a session in `phase` stands after `frames`.
pub open spec fn phase_after(phase: Phase, channel: Seq<char>, frames: Seq<Frame>) -> Phase
    decreases frames.len(),
{
    if frames.len() == 0 {
        phase
    } else {
        transition(phase_after(phase, channel, frames.drop_last()), channel, frames.last()).0
    }
}

/// What a session in `phase` does with each of `frames`, in order.
pub open spec fn run(messages: bool, phase: Phase, channel: Seq<char>, frames: Seq<Frame>) -> Seq<
    Effect,
>
    decreases frames.len(),
{
    if frames.len() == 0 {
        Seq::empty()
    } else {
        let before = frames.drop_last();
        run(messages, phase, channel, before).push(
            step(messages, phase_after(phase, channel, before), channel, frames.last()).1,
        )
    }
}

/// A session with the relay for one chatroom.
pub struct ChatSession {
    phase: Phase,
    channel: String,
}

impl ChatSession {
    /// Where the session stands.
    pub closed spec fn state(&self) -> Phase {
        self.phase
    }

    /// The channel that the session subscribes to.
    pub closed spec fn channel_view(&self) -> Seq<char> {
        self.channel@
    }

    /// A session for the chatroom, before the relay has said a word.
    pub fn new(chatroom_id: u64) -> (s: Self)
        ensures
            s.state() == Phase::Connecting,
            s.channel_view() == channel_name(chatroom_id),
    {
        ChatSession { phase: Phase::Connecting, channel: chatroom_channel(chatroom_id) }
    }

    /// Where the session stands.
    pub fn phase(&self) -> (r: Phase)
        ensures
            r == self.state(),
    {
        self.phase
    }

    /// The channel that the session subscribes to.
    pub fn channel(&self) -> (r: &str)
        ensures
            r@ == self.channel_view(),
    {
        self.channel.as_str()
    }

    /// Whether the session has ended.
    pub fn is_closed(&self) -> (r: bool)
        ensures
            r == (self.state() == Phase::Closed),
    {
        self.phase == Phase::Closed
    }

    /// Ends the session, as when the caller closes the connection.
    pub fn close(&mut self)
        ensures
            final(self).state() == Phase::Closed,
            final(self).channel_view() == old(self).channel_view(),
    {
        self.phase = Phase::Closed;
    }

    /// A handshake step: `done` is what to do when `awaited` arrives.
    fn await_event(
        &mut self,
        frame: Frame,
        awaited: &str,
        next: Phase,
        done: Action,
        closed: SessionError,
    ) -> (a: Action)
        requires
            old(self).state() == Phase::Connecting || old(self).state() == Phase::Subscribing,
        ensures
            (final(self).state(), a@) == handshake(
                old(self).state(),
                frame,
                awaited@,
                next,
                done@,
                closed,
            ),
            final(self).channel_view() == old(self).channel_view(),
    {
        match frame {
            Frame::Text { envelope: Some(m), .. } => {
                if same_text(m.event.as_str(), awaited) {
                    self.phase = next;
                    done
                } else if same_text(m.event.as_str(), KEEPALIVE_PING) {
                    Action::SendText(keepalive_pong_command())
                } else {
                    Action::Receive
                }
            },
            Frame::Ping(p) => Action::SendPong(p),
            Frame::Close => {
                self.phase = Phase::Closed;
                Action::Fail(closed)
            },
            Frame::End => {
                self.phase = Phase::Closed;
                Action::Fail(closed)
            },
            Frame::Failed => {
                self.phase = Phase::Closed;
                Action::Fail(SessionError::Transport)
            },
            _ => Action::Receive,
        }
    }

    /// A step of the ready session.
    fn pump_frame(&mut self, frame: Frame) -> (a: Action)
        requires
            old(self).state() == Phase::Ready,
        ensures
            (final(self).state(), a@) == pump(frame),
            final(self).channel_view() == old(self).channel_view(),
    {
        match frame {
            Frame::Text { envelope: Some(m), .. } => {
                if same_text(m.event.as_str(), KEEPALIVE_PING) {
                    Action::SendText(keepalive_pong_command())
                } else if is_reserved_event(m.event.as_str()) {
                    Action::Receive
                } else {
                    Action::Deliver(PusherEvent { event: m.event, channel: m.channel, data: m.data })
                }
            },
            Frame::Ping(p) => Action::SendPong(p),
            Frame::Close => {
                self.phase = Phase::Closed;
                Action::EndOfStream
            },
            Frame::End => {
                self.phase = Phase::Closed;
                Action::EndOfStream
            },
            Frame::Failed => {
                self.phase = Phase::Closed;
                Action::Fail(SessionError::Transport)
            },
            _ => Action::Receive,
        }
    }

    /// Takes one inbound frame and says what to do with it: the handshake
    /// until the subscription is acknowledged, then the events of the channel.
    pub fn on_frame(&mut self, frame: Frame) -> (a: Action)
        ensures
            (final(self).state(), a@) == transition(old(self).state(), old(self).channel_view(), frame),
            final(self).channel_view() == old(self).channel_view(),
    {
        match self.phase {
            Phase::Connecting => {
                let subscribe = Action::SendText(subscribe_command(self.channel.as_str()));
                self.await_event(
                    frame,
                    CONNECTION_ESTABLISHED,
                    Phase::Subscribing,
                    subscribe,
                    SessionError::ClosedBeforeEstablished,
                )
            },
            Phase::Subscribing => self.await_event(
                frame,
                SUBSCRIPTION_SUCCEEDED,
                Phase::Ready,
                Action::Subscribed,
                SessionError::ClosedBeforeSubscribed,
            ),
            Phase::Ready => self.pump_frame(frame),
            Phase::Closed => Action::EndOfStream,
        }
    }

    /// As [`ChatSession::on_frame`], for a caller that waits for chat
    /// messages: a chat event whose data decoded becomes that message, and
    /// every other event is dropped.
    pub fn on_frame_for_message(&mut self, frame: Frame) -> (a: Action)
        ensures
            (final(self).state(), a@) == message_transition(
                old(self).state(),
                old(self).channel_view(),
                frame,
            ),
            final(self).channel_view() == old(self).channel_view(),
    {
        match frame {
            Frame::Text { envelope, chat } => {
                let a = self.on_frame(Frame::Text { envelope, chat: None });
                match a {
                    Action::Deliver(ev) => {
                        if is_chat_event(ev.event.as_str()) {
                            match chat {
                                Some(m) => Action::DeliverMessage(m),
                                None => Action::Receive,
                            }
                        } else {
                            Action::Receive
                        }
                    },
                    other => other,
                }
            },
            other => self.on_frame(other),
        }
    }
}

} // verus!
