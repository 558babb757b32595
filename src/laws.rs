//! What holds of every sequence of frames that a session is handed.
use vstd::prelude::*;

use crate::models::{LiveChatMessage, PusherMessage};
use crate::protocol::{
    chat_event_name, established_name, is_reserved_name, keepalive_ping_name,
    lemma_subscribe_is_not_pong, subscribed_name,
};
use crate::session::{
    is_closing, is_named, is_ping, is_pong, message_transition, phase_after, pong_for, run, step,
    transition, Effect, Frame, Phase,
};

verus! {

/// The events and chat messages among `effects`, in order: what the caller sees.
pub open spec fn visible(effects: Seq<Effect>) -> Seq<Effect>
    decreases effects.len(),
{
    if effects.len() == 0 {
        Seq::empty()
    } else {
        let e = effects.last();
        if e is Event || e is Message {
            visible(effects.drop_last()).push(e)
        } else {
            visible(effects.drop_last())
        }
    }
}

/// `frames` without its pings of either kind.
pub open spec fn without_pings(frames: Seq<Frame>) -> Seq<Frame>
    decreases frames.len(),
{
    if frames.len() == 0 {
        Seq::empty()
    } else if is_ping(frames.last()) {
        without_pings(frames.drop_last())
    } else {
        without_pings(frames.drop_last()).push(frames.last())
    }
}

proof fn lemma_names_differ()
    ensures
        keepalive_ping_name() != established_name(),
        keepalive_ping_name() != subscribed_name(),
        !is_reserved_name(chat_event_name()),
        chat_event_name() != keepalive_ping_name(),
{
    reveal_strlit("pusher:ping");
    reveal_strlit("pusher:connection_established");
    reveal_strlit("pusher_internal:subscription_succeeded");
    reveal_strlit("App\\Events\\ChatMessageEvent");
    reveal_strlit("pusher:");
    reveal_strlit("pusher_internal:");
    assert(keepalive_ping_name().len() != established_name().len());
    assert(keepalive_ping_name().len() != subscribed_name().len());
    assert(chat_event_name()[0] != keepalive_ping_name()[0]);
    assert(chat_event_name().subrange(0, 7)[0] != "pusher:"@[0]);
    assert(chat_event_name().subrange(0, 16)[0] != "pusher_internal:"@[0]);
}

/// The effect at position `k` is the step from where the frames before it led.
proof fn lemma_run_at(messages: bool, phase: Phase, channel: Seq<char>, frames: Seq<Frame>, k: int)
    requires
        0 <= k < frames.len(),
    ensures
        run(messages, phase, channel, frames).len() == frames.len(),
        run(messages, phase, channel, frames)[k] == step(
            messages,
            phase_after(phase, channel, frames.take(k)),
            channel,
            frames[k],
        ).1,
    decreases frames.len(),
{
    lemma_run_len(messages, phase, channel, frames);
    let before = frames.drop_last();
    if k == frames.len() - 1 {
        assert(frames.take(k) =~= before);
    } else {
        lemma_run_at(messages, phase, channel, before, k);
        assert(before.take(k) =~= frames.take(k));
    }
}

proof fn lemma_run_len(messages: bool, phase: Phase, channel: Seq<char>, frames: Seq<Frame>)
    ensures
        run(messages, phase, channel, frames).len() == frames.len(),
    decreases frames.len(),
{
    if frames.len() > 0 {
        lemma_run_len(messages, phase, channel, frames.drop_last());
    }
}

/// Both kinds of step go to the same phase.
proof fn lemma_step_phase(messages: bool, phase: Phase, channel: Seq<char>, frame: Frame)
    ensures
        step(messages, phase, channel, frame).0 == transition(phase, channel, frame).0,
{
}

/// A session that was not closed closes only on a closing frame.
proof fn lemma_closed_by_closing(phase: Phase, channel: Seq<char>, frames: Seq<Frame>)
    requires
        phase != Phase::Closed,
        phase_after(phase, channel, frames) == Phase::Closed,
    ensures
        exists|i: int| 0 <= i < frames.len() && is_closing(#[trigger] frames[i]),
    decreases frames.len(),
{
    let before = frames.drop_last();
    if phase_after(phase, channel, before) == Phase::Closed {
        lemma_closed_by_closing(phase, channel, before);
        let i = choose|i: int| 0 <= i < before.len() && is_closing(#[trigger] before[i]);
        assert(frames[i] == before[i]);
    } else {
        assert(is_closing(frames[frames.len() - 1]));
    }
}

/// A closed session stays closed.
proof fn lemma_closed_stays(
    phase: Phase,
    channel: Seq<char>,
    frames: Seq<Frame>,
    k: int,
    j: int,
)
    requires
        0 <= k <= j <= frames.len(),
        phase_after(phase, channel, frames.take(k)) == Phase::Closed,
    ensures
        phase_after(phase, channel, frames.take(j)) == Phase::Closed,
    decreases j - k,
{
    if j > k {
        lemma_closed_stays(phase, channel, frames, k, j - 1);
        assert(frames.take(j).drop_last() =~= frames.take(j - 1));
    }
}

/// Where the handshake has got to, the acknowledgements it needs have arrived, in order.
proof fn lemma_handshake_phase(channel: Seq<char>, frames: Seq<Frame>)
    ensures
        phase_after(Phase::Connecting, channel, frames) == Phase::Subscribing ==> exists|i: int|
            0 <= i < frames.len() && is_named(#[trigger] frames[i], established_name()),
        phase_after(Phase::Connecting, channel, frames) == Phase::Ready ==> exists|i: int, j: int|
            0 <= i < j < frames.len() && is_named(#[trigger] frames[i], established_name())
                && is_named(#[trigger] frames[j], subscribed_name()),
    decreases frames.len(),
{
    if frames.len() > 0 {
        let before = frames.drop_last();
        let last = frames.len() - 1;
        lemma_handshake_phase(channel, before);
        let q = phase_after(Phase::Connecting, channel, before);
        if q == Phase::Subscribing {
            let i = choose|i: int|
                0 <= i < before.len() && is_named(#[trigger] before[i], established_name());
            assert(frames[i] == before[i]);
            if phase_after(Phase::Connecting, channel, frames) == Phase::Ready {
                assert(is_named(frames[last], subscribed_name()));
            }
        } else if q == Phase::Ready {
            let (i, j) = choose|i: int, j: int|
                0 <= i < j < before.len() && is_named(#[trigger] before[i], established_name())
                    && is_named(#[trigger] before[j], subscribed_name());
            assert(frames[i] == before[i] && frames[j] == before[j]);
        } else if q == Phase::Connecting {
            if phase_after(Phase::Connecting, channel, frames) == Phase::Subscribing {
                assert(is_named(frames[last], established_name()));
            }
        }
    }
}

/// A session yields no event, no chat message and no readiness before the
/// relay has acknowledged the connection and then the subscription; pings
/// in between change nothing of that.
pub proof fn handshake_precedes_events(
    messages: bool,
    channel: Seq<char>,
    frames: Seq<Frame>,
    k: int,
)
    requires
        0 <= k < frames.len(),
        ({
            let e = run(messages, Phase::Connecting, channel, frames)[k];
            e is Event || e is Message || e is Subscribed
        }),
    ensures
        exists|i: int, j: int|
            0 <= i < j <= k && is_named(#[trigger] frames[i], established_name()) && is_named(
                #[trigger] frames[j],
                subscribed_name(),
            ),
{
    lemma_run_at(messages, Phase::Connecting, channel, frames, k);
    let before = frames.take(k);
    lemma_handshake_phase(channel, before);
    lemma_subscribe_is_not_pong(channel);
    let q = phase_after(Phase::Connecting, channel, before);
    if q == Phase::Subscribing {
        let i = choose|i: int|
            0 <= i < before.len() && is_named(#[trigger] before[i], established_name());
        assert(frames[i] == before[i]);
        assert(is_named(frames[k], subscribed_name()));
    } else if q == Phase::Ready {
        let (i, j) = choose|i: int, j: int|
            0 <= i < j < before.len() && is_named(#[trigger] before[i], established_name())
                && is_named(#[trigger] before[j], subscribed_name());
        assert(frames[i] == before[i] && frames[j] == before[j]);
    }
}

/// A ping never moves a session, and shows the caller nothing.
proof fn lemma_ping_step(messages: bool, phase: Phase, channel: Seq<char>, frame: Frame)
    requires
        is_ping(frame),
    ensures
        step(messages, phase, channel, frame).0 == phase,
        !(step(messages, phase, channel, frame).1 is Event),
        !(step(messages, phase, channel, frame).1 is Message),
        phase != Phase::Closed ==> step(messages, phase, channel, frame).1 == pong_for(frame),
{
    lemma_names_differ();
}

/// The caller sees the same events and chat messages, and the session
/// ends where it would, whether or not the pings of either kind are there.
pub proof fn pings_are_invisible(
    messages: bool,
    phase: Phase,
    channel: Seq<char>,
    frames: Seq<Frame>,
)
    ensures
        visible(run(messages, phase, channel, frames)) == visible(
            run(messages, phase, channel, without_pings(frames)),
        ),
        phase_after(phase, channel, frames) == phase_after(phase, channel, without_pings(frames)),
    decreases frames.len(),
{
    if frames.len() > 0 {
        let before = frames.drop_last();
        let f = frames.last();
        pings_are_invisible(messages, phase, channel, before);
        let q = phase_after(phase, channel, before);
        lemma_step_phase(messages, q, channel, f);
        let e = step(messages, q, channel, f).1;
        let ran = run(messages, phase, channel, before);
        assert(ran.push(e).drop_last() =~= ran);
        if is_ping(f) {
            lemma_ping_step(messages, q, channel, f);
        } else {
            let kept = without_pings(before).push(f);
            assert(kept.drop_last() =~= without_pings(before));
            assert(kept.last() == f);
            let ran_kept = run(messages, phase, channel, without_pings(before));
            assert(ran_kept.push(e).drop_last() =~= ran_kept);
        }
    }
}

/// Each ping that arrives before the connection closes gets exactly its
/// answer: a WebSocket ping the pong with its payload, a keepalive ping the
/// keepalive pong.
pub proof fn ping_is_answered(
    messages: bool,
    phase: Phase,
    channel: Seq<char>,
    frames: Seq<Frame>,
    k: int,
)
    requires
        phase != Phase::Closed,
        0 <= k < frames.len(),
        is_ping(frames[k]),
        forall|i: int| 0 <= i < k ==> !is_closing(#[trigger] frames[i]),
    ensures
        run(messages, phase, channel, frames)[k] == pong_for(frames[k]),
{
    lemma_run_at(messages, phase, channel, frames, k);
    let before = frames.take(k);
    if phase_after(phase, channel, before) == Phase::Closed {
        lemma_closed_by_closing(phase, channel, before);
        let i = choose|i: int| 0 <= i < before.len() && is_closing(#[trigger] before[i]);
        assert(frames[i] == before[i]);
    }
    lemma_ping_step(messages, phase_after(phase, channel, before), channel, frames[k]);
}

/// No frame but a ping is ever answered with a pong.
pub proof fn only_pings_are_answered(
    messages: bool,
    phase: Phase,
    channel: Seq<char>,
    frames: Seq<Frame>,
    k: int,
)
    requires
        0 <= k < frames.len(),
        !is_ping(frames[k]),
    ensures
        !is_pong(run(messages, phase, channel, frames)[k]),
{
    lemma_run_at(messages, phase, channel, frames, k);
    lemma_subscribe_is_not_pong(channel);
}

/// No event of the protocol's own namespaces reaches the caller.
pub proof fn reserved_events_stay_inside(
    messages: bool,
    phase: Phase,
    channel: Seq<char>,
    frames: Seq<Frame>,
    k: int,
)
    requires
        0 <= k < frames.len(),
    ensures
        run(messages, phase, channel, frames)[k] matches Effect::Event(ev) ==> !is_reserved_name(
            ev.event@,
        ),
{
    lemma_run_at(messages, phase, channel, frames, k);
}

/// A ready session consumes an event of the protocol's own namespaces and
/// goes on waiting.
pub proof fn reserved_event_is_consumed(
    messages: bool,
    channel: Seq<char>,
    frame: Frame,
)
    requires
        frame matches Frame::Text { envelope: Some(m), .. } && is_reserved_name(m.event@),
    ensures
        step(messages, Phase::Ready, channel, frame).0 == Phase::Ready,
        !(step(messages, Phase::Ready, channel, frame).1 is Event),
        !(step(messages, Phase::Ready, channel, frame).1 is Message),
{
}

/// A chat message reaches the caller only from a chat event whose data
/// decoded, and is that decoded message.
pub proof fn messages_come_from_chat_events(
    phase: Phase,
    channel: Seq<char>,
    frames: Seq<Frame>,
    k: int,
)
    requires
        0 <= k < frames.len(),
    ensures
        run(true, phase, channel, frames)[k] matches Effect::Message(msg) ==> (frames[k] matches Frame::Text {
            envelope: Some(m),
            chat: Some(c),
        } && m.event@ == chat_event_name() && c == msg),
{
    lemma_run_at(true, phase, channel, frames, k);
}

/// A ready session hands out every chat event whose data decoded, and skips
/// every other text frame without failing or leaving the ready phase.
pub proof fn chat_filter_is_exact(
    channel: Seq<char>,
    envelope: Option<PusherMessage>,
    chat: Option<LiveChatMessage>,
)
    ensures
        ({
            let (next, effect) = message_transition(
                Phase::Ready,
                channel,
                Frame::Text { envelope, chat },
            );
            &&& next == Phase::Ready
            &&& !(effect is Fail)
            &&& !(effect is Event)
            &&& (effect is Message <==> (envelope matches Some(m) && m.event@ == chat_event_name()
                && chat is Some))
        }),
{
    lemma_names_differ();
}

/// A text frame that carries a chat event whose data decoded.
pub open spec fn is_chat_frame(f: Frame) -> bool {
    f matches Frame::Text { envelope: Some(m), chat: Some(c) } && m.event@ == chat_event_name()
}

/// The chat messages that `frames` carry, in order.
pub open spec fn chat_messages(frames: Seq<Frame>) -> Seq<Effect>
    decreases frames.len(),
{
    if frames.len() == 0 {
        Seq::empty()
    } else {
        let f = frames.last();
        match f {
            Frame::Text { envelope: Some(m), chat: Some(c) } => if m.event@ == chat_event_name() {
                chat_messages(frames.drop_last()).push(Effect::Message(c))
            } else {
                chat_messages(frames.drop_last())
            },
            _ => chat_messages(frames.drop_last()),
        }
    }
}

/// The frames among `frames` that carry a chat message.
pub open spec fn chat_frames(frames: Seq<Frame>) -> Seq<Frame>
    decreases frames.len(),
{
    if frames.len() == 0 {
        Seq::empty()
    } else if is_chat_frame(frames.last()) {
        chat_frames(frames.drop_last()).push(frames.last())
    } else {
        chat_frames(frames.drop_last())
    }
}

/// While the connection lasts, a ready session waiting for chat messages
/// hands out exactly the decoded chat events, in order, and stays ready.
pub proof fn ready_messages_are_chat_payloads(channel: Seq<char>, frames: Seq<Frame>)
    requires
        forall|i: int| 0 <= i < frames.len() ==> !is_closing(#[trigger] frames[i]),
    ensures
        visible(run(true, Phase::Ready, channel, frames)) == chat_messages(frames),
        phase_after(Phase::Ready, channel, frames) == Phase::Ready,
    decreases frames.len(),
{
    if frames.len() > 0 {
        let before = frames.drop_last();
        let f = frames.last();
        assert forall|i: int| 0 <= i < before.len() implies !is_closing(#[trigger] before[i]) by {
            assert(before[i] == frames[i]);
        }
        assert(!is_closing(frames[frames.len() - 1]));
        ready_messages_are_chat_payloads(channel, before);
        lemma_names_differ();
        let e = step(true, Phase::Ready, channel, f).1;
        let ran = run(true, Phase::Ready, channel, before);
        assert(ran.push(e).drop_last() =~= ran);
    }
}

/// Filtering is idempotent: a ready session handed only the frames that
/// carry chat messages hands out the same messages as from all the frames.
pub proof fn chat_filter_is_idempotent(channel: Seq<char>, frames: Seq<Frame>)
    requires
        forall|i: int| 0 <= i < frames.len() ==> !is_closing(#[trigger] frames[i]),
    ensures
        visible(run(true, Phase::Ready, channel, chat_frames(frames))) == visible(
            run(true, Phase::Ready, channel, frames),
        ),
{
    lemma_chat_frames(frames);
    let kept = chat_frames(frames);
    assert forall|i: int| 0 <= i < kept.len() implies !is_closing(#[trigger] kept[i]) by {
        assert(is_chat_frame(kept[i]));
    }
    ready_messages_are_chat_payloads(channel, frames);
    ready_messages_are_chat_payloads(channel, kept);
}

proof fn lemma_chat_frames(frames: Seq<Frame>)
    ensures
        chat_messages(chat_frames(frames)) == chat_messages(frames),
        forall|i: int| 0 <= i < chat_frames(frames).len() ==> is_chat_frame(
            #[trigger] chat_frames(frames)[i],
        ),
    decreases frames.len(),
{
    if frames.len() > 0 {
        let before = frames.drop_last();
        lemma_chat_frames(before);
        let f = frames.last();
        if is_chat_frame(f) {
            let kept = chat_frames(before).push(f);
            assert(kept.drop_last() =~= chat_frames(before));
            assert(kept.last() == f);
        }
    }
}

/// Once the stream has ended, or the session has failed, every later frame
/// yields the end of the stream.
pub proof fn end_is_final(
    messages: bool,
    phase: Phase,
    channel: Seq<char>,
    frames: Seq<Frame>,
    k: int,
    j: int,
)
    requires
        0 <= k < j < frames.len(),
        ({
            let e = run(messages, phase, channel, frames)[k];
            e is End || e is Fail
        }),
    ensures
        run(messages, phase, channel, frames)[j] is End,
{
    lemma_run_at(messages, phase, channel, frames, k);
    lemma_run_at(messages, phase, channel, frames, j);
    let q = phase_after(phase, channel, frames.take(k));
    lemma_step_phase(messages, q, channel, frames[k]);
    assert(frames.take(k + 1).drop_last() =~= frames.take(k));
    assert(frames.take(k + 1).last() == frames[k]);
    lemma_closed_stays(phase, channel, frames, k + 1, j);
}

/// A closed session, closed by the caller or by the relay, yields nothing but
/// the end of the stream.
pub proof fn closed_session_ends(
    messages: bool,
    channel: Seq<char>,
    frames: Seq<Frame>,
    k: int,
)
    requires
        0 <= k < frames.len(),
    ensures
        run(messages, Phase::Closed, channel, frames)[k] is End,
{
    lemma_run_at(messages, Phase::Closed, channel, frames, k);
    assert(frames.take(0) =~= Seq::<Frame>::empty());
    lemma_closed_stays(Phase::Closed, channel, frames, 0, k);
}

} // verus!
