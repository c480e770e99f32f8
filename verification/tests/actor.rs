use chatcore::actor::{
    actor_step, ActorEvent, ActorState, DecodeError, FrameEvent, HandshakeState, OutFrame,
};
use chatcore::comms::ClientMessage;
use chatcore::dispatch::tag_inbound;

type Event = ActorEvent<u32, u32>;

fn decode_failure() -> DecodeError {
    DecodeError { description: "unknown frame".to_string() }
}

#[test]
fn caller_initiated_close_handshake() {
    let mut state = ActorState::new();
    assert_eq!(state.handshake, HandshakeState::Open);

    // The caller's close request: our close frame goes out.
    let actions = actor_step(&mut state, Event::CloseRequested);
    assert!(matches!(actions.write, Some(OutFrame::Close)));
    assert_eq!(state.handshake, HandshakeState::ClosingLocal);

    // The peer's close frame arrives: the handshake completes.
    let actions = actor_step(&mut state, Event::FrameIn(FrameEvent::Close));
    assert!(actions.notify_close);
    assert_eq!(state.handshake, HandshakeState::Closed);
    assert!(state.reader_done && state.writer_done);
}

#[test]
fn peer_initiated_close_handshake() {
    let mut state = ActorState::new();

    // The peer closes first; the read loop stops and notifies.
    let actions = actor_step(&mut state, Event::FrameIn(FrameEvent::Close));
    assert!(actions.notify_close);
    assert_eq!(state.handshake, HandshakeState::ClosingRemote);
    assert!(state.reader_done);

    // The owed reply: our close frame goes out and the handshake ends.
    let actions = actor_step(&mut state, Event::CloseRequested);
    assert!(matches!(actions.write, Some(OutFrame::Close)));
    assert_eq!(state.handshake, HandshakeState::Closed);
}

#[test]
fn no_frames_are_written_after_close_completed() {
    let mut state = ActorState::new();
    actor_step(&mut state, Event::CloseRequested);
    actor_step(&mut state, Event::FrameIn(FrameEvent::Close));
    assert_eq!(state.handshake, HandshakeState::Closed);

    let followups = [
        Event::SendRequest(7),
        Event::CloseRequested,
        Event::SendRequest(8),
        Event::TransportEnded,
        Event::SendRequest(9),
    ];
    for event in followups {
        let actions = actor_step(&mut state, event);
        assert!(actions.write.is_none());
        assert_eq!(state.handshake, HandshakeState::Closed);
    }
}

#[test]
fn sends_while_open_are_written_in_order() {
    let mut state = ActorState::new();
    let actions = actor_step(&mut state, Event::SendRequest(41));
    assert!(matches!(actions.write, Some(OutFrame::Data(41))));
    let actions = actor_step(&mut state, Event::SendRequest(42));
    assert!(matches!(actions.write, Some(OutFrame::Data(42))));
    assert_eq!(state.handshake, HandshakeState::Open);
}

#[test]
fn send_after_close_began_is_silently_dropped() {
    let mut state = ActorState::new();
    actor_step(&mut state, Event::CloseRequested);
    assert_eq!(state.handshake, HandshakeState::ClosingLocal);
    let actions = actor_step(&mut state, Event::SendRequest(1));
    assert!(actions.write.is_none());
    assert!(actions.deliver.is_none());
}

#[test]
fn decode_failure_does_not_stop_the_read_loop() {
    let mut state = ActorState::new();

    let actions = actor_step(&mut state, Event::FrameIn(FrameEvent::Message(Err(decode_failure()))));
    match actions.deliver {
        Some(Err(error)) => assert_eq!(error.description, "unknown frame"),
        _ => panic!("a decode failure is delivered as an error value"),
    }
    assert!(!state.reader_done);

    // The next valid frame is still delivered.
    let actions = actor_step(&mut state, Event::FrameIn(FrameEvent::Message(Ok(5))));
    assert!(matches!(actions.deliver, Some(Ok(5))));
    assert!(!state.reader_done);
}

#[test]
fn other_frame_kinds_are_ignored() {
    let mut state = ActorState::new();
    let actions = actor_step(&mut state, Event::FrameIn(FrameEvent::Other));
    assert!(actions.deliver.is_none() && actions.write.is_none() && !actions.notify_close);
    assert_eq!(state.handshake, HandshakeState::Open);
}

#[test]
fn transport_end_is_an_implicit_close() {
    let mut state = ActorState::new();
    let actions = actor_step(&mut state, Event::TransportEnded);
    assert!(actions.write.is_none());
    assert_eq!(state.handshake, HandshakeState::Closed);
    assert!(state.reader_done);

    // Nothing is written afterwards.
    let actions = actor_step(&mut state, Event::SendRequest(3));
    assert!(actions.write.is_none());
}

#[test]
fn duplicate_close_notifications_are_ignored() {
    let mut state = ActorState::new();
    actor_step(&mut state, Event::CloseRequested);
    actor_step(&mut state, Event::FrameIn(FrameEvent::Close));
    assert_eq!(state.handshake, HandshakeState::Closed);
    let actions = actor_step(&mut state, Event::CloseRequested);
    assert!(actions.write.is_none());
    assert_eq!(state.handshake, HandshakeState::Closed);
}

#[test]
fn tagging_attaches_the_sender_and_drops_failures() {
    let tagged = tag_inbound(
        9,
        Ok(ClientMessage::Post { username: "u".to_string(), content: "c".to_string() }),
    );
    match tagged {
        Some((identity, ClientMessage::Post { username, content })) => {
            assert_eq!(identity, 9);
            assert_eq!(username, "u");
            assert_eq!(content, "c");
        }
        _ => panic!("an ok message is tagged and queued"),
    }

    let dropped = tag_inbound(9, Err(decode_failure()));
    assert!(dropped.is_none());
}
