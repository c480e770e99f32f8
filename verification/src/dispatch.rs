//! The dispatcher: the single sequential consumer of every session's
//! inbound messages.
//!
//! It alone appends to the chat log, which gives the log its total order
//! without locking. For each inbound message it decides what to send and
//! to whom; performing the sends is the caller's job, so the decision is
//! a plain function from log, registry snapshot and message to a list of
//! `(identity, reply)` pairs.

use vstd::prelude::*;

use crate::chat::Entry;
use crate::chat_log::{spec_history, spec_requested_slot, FakeChatLog};
use crate::comms::{ClientMessage, ServerMessage};
use crate::registry::SessionRegistry;

verus! {

/// One copy of `message` addressed to every identity in `ids`, in order.
pub open spec fn spec_fan_out(ids: Seq<u64>, message: ServerMessage) -> Seq<(u64, ServerMessage)> {
    Seq::new(ids.len(), |i: int| (ids[i], message))
}

/// Applies one client message to the log and decides the replies.
///
/// A `Post` is appended to the log and the new entry is addressed to
/// every session in the registry snapshot, the poster included: the echo
/// is how a client learns its post was accepted. A `Request` is answered
/// with the matching history range, addressed to the sender alone; a
/// sender no longer registered gets nothing, and the reply is dropped.
pub fn handle_client_message<H>(
    log: &mut FakeChatLog,
    registry: &SessionRegistry<H>,
    sender: u64,
    message: ClientMessage,
) -> (replies: Vec<(u64, ServerMessage)>)
    requires
        old(log).wf(),
        old(log)@.len() < usize::MAX,
    ensures
        final(log).wf(),
        message matches ClientMessage::Post { username, content } ==> {
            &&& final(log)@.len() == old(log)@.len() + 1
            &&& final(log)@ == old(log)@.push(final(log)@.last())
            &&& final(log)@.last().slot_number == old(log)@.len()
            &&& final(log)@.last().metadata.username == username
            &&& final(log)@.last().content == crate::chat::Content::Original(
                crate::chat::MessageText(content),
            )
            &&& replies@ == spec_fan_out(
                registry.ids(),
                ServerMessage::NewEntry(final(log)@.last()),
            )
        },
        message matches ClientMessage::Request { count, up_to_slot_number } ==> {
            &&& final(log)@ == old(log)@
            &&& ({
                let history = spec_history(
                    old(log)@,
                    count as int,
                    spec_requested_slot(old(log)@, up_to_slot_number),
                );
                if registry.ids().contains(sender) {
                    &&& replies@.len() == 1
                    &&& replies@[0].0 == sender
                    &&& replies@[0].1 matches ServerMessage::EntryRange(range) && range@
                        == history
                } else {
                    replies@.len() == 0
                }
            })
        },
{
    match message {
        ClientMessage::Post { username, content } => {
            let entry = log.post(username, content);
            let mut replies: Vec<(u64, ServerMessage)> = Vec::new();
            let ghost fan = spec_fan_out(registry.ids(), ServerMessage::NewEntry(entry));
            let mut i: usize = 0;
            while i < registry.len()
                invariant
                    i <= registry.ids().len(),
                    fan == spec_fan_out(registry.ids(), ServerMessage::NewEntry(entry)),
                    replies@.len() == i,
                    forall|k: int| 0 <= k < i ==> replies@[k] == fan[k],
                decreases registry.ids().len() - i,
            {
                let id = registry.id_at(i);
                replies.push((id, ServerMessage::NewEntry(entry.clone())));
                i = i + 1;
            }
            proof {
                assert(log@.last() == entry);
                assert(replies@ =~= fan);
            }
            replies
        },
        ClientMessage::Request { count, up_to_slot_number } => {
            let history = log.entries(count, up_to_slot_number);
            let mut replies: Vec<(u64, ServerMessage)> = Vec::new();
            if registry.contains(sender) {
                replies.push((sender, ServerMessage::EntryRange(history)));
            }
            replies
        },
    }
}

/// Every session present in the registry snapshot at fan-out time is
/// addressed exactly once, and a session absent from the snapshot — for
/// instance one registered only after the fan-out began — is not
/// addressed at all.
pub proof fn lemma_fan_out_coverage(ids: Seq<u64>, message: ServerMessage)
    ensures
        spec_fan_out(ids, message).len() == ids.len(),
        forall|i: int|
            0 <= i < ids.len() ==> #[trigger] spec_fan_out(ids, message)[i] == (ids[i], message),
        forall|id: u64|
            ids.contains(id) ==> exists|i: int|
                0 <= i < ids.len() && #[trigger] spec_fan_out(ids, message)[i] == (id, message),
        forall|id: u64, addressed: ServerMessage|
            #[trigger] spec_fan_out(ids, message).contains((id, addressed)) ==> ids.contains(id),
{
    assert forall|id: u64| ids.contains(id) implies exists|i: int|
        0 <= i < ids.len() && #[trigger] spec_fan_out(ids, message)[i] == (id, message) by {
        let i = choose|i: int| 0 <= i < ids.len() && ids[i] == id;
        assert(spec_fan_out(ids, message)[i] == (id, message));
    }
    assert forall|id: u64, addressed: ServerMessage|
        #[trigger] spec_fan_out(ids, message).contains((id, addressed)) implies ids.contains(
        id,
    ) by {
        let i = choose|i: int|
            0 <= i < spec_fan_out(ids, message).len() && spec_fan_out(ids, message)[i] == (
            id,
            addressed,
            );
        assert(ids[i] == id);
    }
}

/// Tags one session's decoded inbound message with its sender identity
/// for the dispatcher's shared queue. A decode failure is logged by the
/// caller and queues nothing: it never reaches the dispatcher.
pub fn tag_inbound(identity: u64, inbound: Result<ClientMessage, crate::actor::DecodeError>) -> (r:
    Option<(u64, ClientMessage)>)
    ensures
        inbound matches Ok(message) ==> r == Some((identity, message)),
        inbound matches Err(_) ==> r is None,
{
    match inbound {
        Ok(message) => Some((identity, message)),
        Err(_) => None,
    }
}

} // verus!
