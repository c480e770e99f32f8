//! The per-connection actor: one state machine for both ends.
//!
//! An actor owns one full-duplex, message-framed transport and turns it
//! into an outbound submission interface and an inbound stream. Its two
//! loops — read and write — suspend on outside work, so the decisions are
//! a plain function from state and event to next state and actions: the
//! caller waits for a frame or a queued request, hands it in as an
//! `ActorEvent`, and performs the actions handed back. The close
//! handshake is the `HandshakeState` machine: `Open → ClosingLocal →
//! Closed` when the caller closes first, `Open → ClosingRemote → Closed`
//! when the peer does; a transport failure is an implicit close straight
//! to `Closed`. Once an actor's handshake is closed it never writes
//! another frame.

use vstd::prelude::*;

verus! {

/// A frame that parsed into no known message; the payload stays on the
/// inbound stream as an error value, never fatal to the actor.
#[derive(Debug)]
pub struct DecodeError {
    pub description: String,
}

/// Where a connection stands in the close handshake.
#[derive(PartialEq, Eq, Structural, Clone, Copy, Debug)]
pub enum HandshakeState {
    /// Traffic flows in both directions.
    Open,
    /// The caller asked to close: our close frame is sent, the peer's is
    /// still awaited.
    ClosingLocal,
    /// The peer's close frame arrived first: our own reply is still owed.
    ClosingRemote,
    /// Both sides are done; nothing further is written.
    Closed,
}

/// An actor's whole state: the handshake position plus which of the two
/// loops has stopped. The actor ends when both loops have.
#[derive(PartialEq, Eq, Structural, Clone, Copy, Debug)]
pub struct ActorState {
    pub handshake: HandshakeState,
    pub reader_done: bool,
    pub writer_done: bool,
}

/// One frame as the read loop sees it, after the codec ran on a binary
/// frame's payload.
pub enum FrameEvent<In> {
    /// A binary frame: the decoded message, or the decode failure.
    Message(Result<In, DecodeError>),
    /// The peer's close frame.
    Close,
    /// Any other frame kind; ignored.
    Other,
}

/// Everything that can wake the actor.
pub enum ActorEvent<In, Out> {
    /// The transport produced a frame.
    FrameIn(FrameEvent<In>),
    /// The transport ended or failed: an implicit close.
    TransportEnded,
    /// The caller submitted an outbound message.
    SendRequest(Out),
    /// A close request reached the write loop: from the caller's
    /// `close()`, or the reply owed after the peer closed first.
    CloseRequested,
}

/// A frame the write loop must put on the transport.
pub enum OutFrame<Out> {
    /// One encoded message in a binary frame.
    Data(Out),
    /// The close control frame.
    Close,
}

/// What the caller must do after one step.
pub struct StepActions<In, Out> {
    /// Forward this on the inbound channel, in receipt order.
    pub deliver: Option<Result<In, DecodeError>>,
    /// Forward a close notification on the close-handshake channel.
    pub notify_close: bool,
    /// Write this frame to the transport.
    pub write: Option<OutFrame<Out>>,
}

impl ActorState {
    /// A freshly spawned actor on an open transport.
    pub fn new() -> (r: Self)
        ensures
            r == spec_initial_state(),
    {
        ActorState { handshake: HandshakeState::Open, reader_done: false, writer_done: false }
    }
}

/// The state an actor starts in.
pub open spec fn spec_initial_state() -> ActorState {
    ActorState { handshake: HandshakeState::Open, reader_done: false, writer_done: false }
}

/// No actions at all.
pub open spec fn spec_no_actions<In, Out>() -> StepActions<In, Out> {
    StepActions { deliver: None, notify_close: false, write: None }
}

/// The transition relation of the actor, one event at a time.
pub open spec fn spec_step<In, Out>(state: ActorState, event: ActorEvent<In, Out>) -> (
    ActorState,
    StepActions<In, Out>,
) {
    match event {
        ActorEvent::FrameIn(FrameEvent::Message(inbound)) => {
            if state.reader_done {
                (state, spec_no_actions())
            } else {
                // Data and decode failures alike go to the inbound stream;
                // neither stops the read loop.
                (state, StepActions { deliver: Some(inbound), notify_close: false, write: None })
            }
        },
        ActorEvent::FrameIn(FrameEvent::Close) => {
            if state.reader_done {
                (state, spec_no_actions())
            } else {
                let handshake = match state.handshake {
                    HandshakeState::Open => HandshakeState::ClosingRemote,
                    HandshakeState::ClosingLocal => HandshakeState::Closed,
                    HandshakeState::ClosingRemote => HandshakeState::ClosingRemote,
                    HandshakeState::Closed => HandshakeState::Closed,
                };
                (
                    ActorState { handshake, reader_done: true, ..state },
                    StepActions { deliver: None, notify_close: true, write: None },
                )
            }
        },
        ActorEvent::FrameIn(FrameEvent::Other) => (state, spec_no_actions()),
        ActorEvent::TransportEnded => {
            (
                ActorState { handshake: HandshakeState::Closed, reader_done: true, ..state },
                spec_no_actions(),
            )
        },
        ActorEvent::SendRequest(message) => {
            if state.handshake is Open && !state.writer_done {
                (
                    state,
                    StepActions {
                        deliver: None,
                        notify_close: false,
                        write: Some(OutFrame::Data(message)),
                    },
                )
            } else {
                // A send after shutdown began is silently dropped.
                (state, spec_no_actions())
            }
        },
        ActorEvent::CloseRequested => {
            if state.writer_done {
                (state, spec_no_actions())
            } else {
                match state.handshake {
                    HandshakeState::Open => (
                        ActorState {
                            handshake: HandshakeState::ClosingLocal,
                            writer_done: true,
                            ..state
                        },
                        StepActions {
                            deliver: None,
                            notify_close: false,
                            write: Some(OutFrame::Close),
                        },
                    ),
                    HandshakeState::ClosingRemote => (
                        ActorState {
                            handshake: HandshakeState::Closed,
                            writer_done: true,
                            ..state
                        },
                        StepActions {
                            deliver: None,
                            notify_close: false,
                            write: Some(OutFrame::Close),
                        },
                    ),
                    // A second close request after the handshake moved on
                    // is ignored.
                    HandshakeState::ClosingLocal => (state, spec_no_actions()),
                    HandshakeState::Closed => (state, spec_no_actions()),
                }
            }
        },
    }
}

/// Advances the actor by one event and says what to do.
pub fn actor_step<In, Out>(state: &mut ActorState, event: ActorEvent<In, Out>) -> (actions:
    StepActions<In, Out>)
    ensures
        (*final(state), actions) == spec_step(*old(state), event),
        old(state).handshake is Closed ==> actions.write is None && final(state).handshake
            is Closed,
        old(state).writer_done ==> actions.write is None,
{
    match event {
        ActorEvent::FrameIn(FrameEvent::Message(inbound)) => {
            if state.reader_done {
                StepActions { deliver: None, notify_close: false, write: None }
            } else {
                StepActions { deliver: Some(inbound), notify_close: false, write: None }
            }
        },
        ActorEvent::FrameIn(FrameEvent::Close) => {
            if state.reader_done {
                StepActions { deliver: None, notify_close: false, write: None }
            } else {
                state.handshake = match state.handshake {
                    HandshakeState::Open => HandshakeState::ClosingRemote,
                    HandshakeState::ClosingLocal => HandshakeState::Closed,
                    HandshakeState::ClosingRemote => HandshakeState::ClosingRemote,
                    HandshakeState::Closed => HandshakeState::Closed,
                };
                state.reader_done = true;
                StepActions { deliver: None, notify_close: true, write: None }
            }
        },
        ActorEvent::FrameIn(FrameEvent::Other) => {
            StepActions { deliver: None, notify_close: false, write: None }
        },
        ActorEvent::TransportEnded => {
            state.handshake = HandshakeState::Closed;
            state.reader_done = true;
            StepActions { deliver: None, notify_close: false, write: None }
        },
        ActorEvent::SendRequest(message) => {
            if matches!(state.handshake, HandshakeState::Open) && !state.writer_done {
                StepActions {
                    deliver: None,
                    notify_close: false,
                    write: Some(OutFrame::Data(message)),
                }
            } else {
                StepActions { deliver: None, notify_close: false, write: None }
            }
        },
        ActorEvent::CloseRequested => {
            if state.writer_done {
                StepActions { deliver: None, notify_close: false, write: None }
            } else {
                match state.handshake {
                    HandshakeState::Open => {
                        state.handshake = HandshakeState::ClosingLocal;
                        state.writer_done = true;
                        StepActions { deliver: None, notify_close: false, write: Some(OutFrame::Close) }
                    },
                    HandshakeState::ClosingRemote => {
                        state.handshake = HandshakeState::Closed;
                        state.writer_done = true;
                        StepActions { deliver: None, notify_close: false, write: Some(OutFrame::Close) }
                    },
                    HandshakeState::ClosingLocal => {
                        StepActions { deliver: None, notify_close: false, write: None }
                    },
                    HandshakeState::Closed => {
                        StepActions { deliver: None, notify_close: false, write: None }
                    },
                }
            }
        },
    }
}

/// The state after a whole sequence of events.
pub open spec fn spec_run<In, Out>(state: ActorState, events: Seq<ActorEvent<In, Out>>) -> ActorState
    decreases events.len(),
{
    if events.len() == 0 {
        state
    } else {
        spec_run(spec_step(state, events[0]).0, events.drop_first())
    }
}

/// Every frame the actor writes over a whole sequence of events, in
/// order.
pub open spec fn spec_run_writes<In, Out>(
    state: ActorState,
    events: Seq<ActorEvent<In, Out>>,
) -> Seq<OutFrame<Out>>
    decreases events.len(),
{
    if events.len() == 0 {
        Seq::empty()
    } else {
        let (next, actions) = spec_step(state, events[0]);
        let rest = spec_run_writes(next, events.drop_first());
        match actions.write {
            Some(frame) => seq![frame] + rest,
            None => rest,
        }
    }
}

/// Everything the actor delivers on the inbound stream over a whole
/// sequence of events, in receipt order.
pub open spec fn spec_run_deliveries<In, Out>(
    state: ActorState,
    events: Seq<ActorEvent<In, Out>>,
) -> Seq<Result<In, DecodeError>>
    decreases events.len(),
{
    if events.len() == 0 {
        Seq::empty()
    } else {
        let (next, actions) = spec_step(state, events[0]);
        let rest = spec_run_deliveries(next, events.drop_first());
        match actions.deliver {
            Some(inbound) => seq![inbound] + rest,
            None => rest,
        }
    }
}

/// A closed handshake is final: once `close()` has completed — the
/// handshake reached `Closed` — no sequence of further events makes the
/// actor write another frame, and the handshake stays closed.
pub proof fn lemma_no_writes_after_close<In, Out>(
    state: ActorState,
    events: Seq<ActorEvent<In, Out>>,
)
    requires
        state.handshake is Closed,
    ensures
        spec_run(state, events).handshake is Closed,
        spec_run_writes(state, events) =~= Seq::<OutFrame<Out>>::empty(),
    decreases events.len(),
{
    if events.len() > 0 {
        let (next, actions) = spec_step(state, events[0]);
        assert(next.handshake is Closed);
        assert(actions.write is None);
        lemma_no_writes_after_close(next, events.drop_first());
    }
}

/// A decode failure does not stop the read loop: any later decodable
/// frame is still delivered, provided no close frame or transport end
/// comes in between.
pub proof fn lemma_decode_failure_not_fatal<In, Out>(
    state: ActorState,
    events: Seq<ActorEvent<In, Out>>,
    k: int,
    inbound: Result<In, DecodeError>,
)
    requires
        !state.reader_done,
        0 <= k < events.len(),
        events[k] == ActorEvent::<In, Out>::FrameIn(FrameEvent::Message(inbound)),
        forall|j: int|
            0 <= j < k ==> !((#[trigger] events[j]) matches ActorEvent::FrameIn(FrameEvent::Close))
                && !(events[j] is TransportEnded),
    ensures
        spec_run_deliveries(state, events).contains(inbound),
    decreases k,
{
    let (next, actions) = spec_step(state, events[0]);
    let rest = spec_run_deliveries(next, events.drop_first());
    if k == 0 {
        assert(actions.deliver == Some(inbound));
        assert(spec_run_deliveries(state, events)[0] == inbound);
    } else {
        // The first event is neither a close frame nor a transport end,
        // so the reader stays alive whatever else it was.
        assert(!next.reader_done);
        assert(events.drop_first()[k - 1] == events[k]);
        assert forall|j: int| 0 <= j < k - 1 implies !((#[trigger] events.drop_first()[j]) matches
            ActorEvent::FrameIn(FrameEvent::Close)) && !(events.drop_first()[j]
            is TransportEnded) by {
            assert(events.drop_first()[j] == events[j + 1]);
        }
        lemma_decode_failure_not_fatal(next, events.drop_first(), k - 1, inbound);
        let i = choose|i: int| 0 <= i < rest.len() && rest[i] == inbound;
        match actions.deliver {
            Some(first) => {
                assert(spec_run_deliveries(state, events)[i + 1] == inbound);
            },
            None => {
                assert(spec_run_deliveries(state, events) == rest);
            },
        }
    }
}

/// What the inbound stream should carry for a sequence of events: every
/// decoded message or decode failure, in receipt order, up to the first
/// close frame or transport end.
pub open spec fn spec_expected_deliveries<In, Out>(events: Seq<ActorEvent<In, Out>>) -> Seq<
    Result<In, DecodeError>,
>
    decreases events.len(),
{
    if events.len() == 0 {
        Seq::empty()
    } else {
        match events[0] {
            ActorEvent::FrameIn(FrameEvent::Message(inbound)) => seq![inbound]
                + spec_expected_deliveries(events.drop_first()),
            ActorEvent::FrameIn(FrameEvent::Close) => Seq::empty(),
            ActorEvent::TransportEnded => Seq::empty(),
            _ => spec_expected_deliveries(events.drop_first()),
        }
    }
}

/// Once the read loop has stopped, nothing further reaches the inbound
/// stream.
pub proof fn lemma_no_deliveries_after_reader_stops<In, Out>(
    state: ActorState,
    events: Seq<ActorEvent<In, Out>>,
)
    requires
        state.reader_done,
    ensures
        spec_run_deliveries(state, events) =~= Seq::<Result<In, DecodeError>>::empty(),
    decreases events.len(),
{
    if events.len() > 0 {
        let (next, actions) = spec_step(state, events[0]);
        assert(next.reader_done);
        assert(actions.deliver is None);
        lemma_no_deliveries_after_reader_stops(next, events.drop_first());
    }
}

/// The inbound stream carries exactly the decoded messages and decode
/// failures, in receipt order, and ends at the first close frame or
/// transport end — whatever else the actor was asked to do in between.
pub proof fn lemma_deliveries_in_receipt_order<In, Out>(
    state: ActorState,
    events: Seq<ActorEvent<In, Out>>,
)
    requires
        !state.reader_done,
    ensures
        spec_run_deliveries(state, events) =~= spec_expected_deliveries(events),
    decreases events.len(),
{
    if events.len() > 0 {
        let (next, actions) = spec_step(state, events[0]);
        match events[0] {
            ActorEvent::FrameIn(FrameEvent::Close) => {
                lemma_no_deliveries_after_reader_stops(next, events.drop_first());
            },
            ActorEvent::TransportEnded => {
                lemma_no_deliveries_after_reader_stops(next, events.drop_first());
            },
            _ => {
                assert(!next.reader_done);
                lemma_deliveries_in_receipt_order(next, events.drop_first());
            },
        }
    }
}

/// A sequence of submissions, as the write loop receives them.
pub open spec fn spec_send_events<In, Out>(messages: Seq<Out>) -> Seq<ActorEvent<In, Out>> {
    Seq::new(messages.len(), |i: int| ActorEvent::SendRequest(messages[i]))
}

/// The data frames carrying `messages`, in order.
pub open spec fn spec_data_frames<Out>(messages: Seq<Out>) -> Seq<OutFrame<Out>> {
    Seq::new(messages.len(), |i: int| OutFrame::Data(messages[i]))
}

/// Within one connection, frames go out in submission order: while the
/// handshake is open, a sequence of submissions is written as exactly
/// the matching data frames, in the same order.
pub proof fn lemma_writes_follow_send_order<In, Out>(state: ActorState, messages: Seq<Out>)
    requires
        state.handshake is Open,
        !state.writer_done,
    ensures
        spec_run_writes(state, spec_send_events::<In, Out>(messages)) =~= spec_data_frames(
            messages,
        ),
    decreases messages.len(),
{
    let events = spec_send_events::<In, Out>(messages);
    if messages.len() > 0 {
        let (next, actions) = spec_step(state, events[0]);
        assert(actions.write == Some(OutFrame::Data(messages[0])));
        assert(next == state);
        assert(events.drop_first() =~= spec_send_events::<In, Out>(messages.drop_first()));
        lemma_writes_follow_send_order::<In, Out>(state, messages.drop_first());
        assert(spec_run_writes(state, events) =~= seq![OutFrame::Data(messages[0])]
            + spec_data_frames(messages.drop_first()));
        assert(seq![OutFrame::<Out>::Data(messages[0])] + spec_data_frames(messages.drop_first())
            =~= spec_data_frames(messages));
    }
}

} // verus!
