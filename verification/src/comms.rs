//! The wire message schema shared by client and server.
//!
//! Encoding these values to byte frames is the codec's job, an external
//! collaborator; the library only fixes the logical shape.

use vstd::prelude::*;

use crate::chat::Entry;

verus! {

/// Opaque unique-per-client identifier, taken from the wall clock.
pub struct ClientId {
    timestamp: i64,
}

impl ClientId {
    /// Guaranteed to be unique for each client but not necessarily
    /// between clients. Relies on the wall clock, so nothing further is
    /// promised of the value.
    pub fn new_unique_per_client() -> Self {
        Self { timestamp: crate::chat::now_timestamp_millis() }
    }
}

/// What a client sends: a new post, or a request for history ending at
/// `up_to_slot_number` (the newest entry when absent).
pub enum ClientMessage {
    Post { username: String, content: String },
    Request { count: usize, up_to_slot_number: Option<usize> },
}

/// What the server sends: a freshly appended entry broadcast to every
/// session, or the reply to one session's history request.
pub enum ServerMessage {
    NewEntry(Entry),
    EntryRange(Vec<Entry>),
}

impl Clone for ClientMessage {
    fn clone(&self) -> (r: Self)
        ensures
            r == *self,
    {
        match self {
            ClientMessage::Post { username, content } => ClientMessage::Post {
                username: username.clone(),
                content: content.clone(),
            },
            ClientMessage::Request { count, up_to_slot_number } => ClientMessage::Request {
                count: *count,
                up_to_slot_number: *up_to_slot_number,
            },
        }
    }
}

impl Clone for ServerMessage {
    fn clone(&self) -> (r: Self)
        ensures
            match *self {
                ServerMessage::NewEntry(entry) => r matches ServerMessage::NewEntry(copy)
                    && copy == entry,
                ServerMessage::EntryRange(entries) => r matches ServerMessage::EntryRange(copy)
                    && copy@ == entries@,
            },
    {
        match self {
            ServerMessage::NewEntry(entry) => ServerMessage::NewEntry(entry.clone()),
            ServerMessage::EntryRange(entries) => {
                let mut copied: Vec<Entry> = Vec::new();
                let mut i: usize = 0;
                while i < entries.len()
                    invariant
                        i <= entries.len(),
                        copied@ =~= entries@.subrange(0, i as int),
                    decreases entries.len() - i,
                {
                    copied.push(entries[i].clone());
                    assert(copied@ =~= entries@.subrange(0, i + 1 as int));
                    i = i + 1;
                }
                assert(copied@ =~= entries@);
                ServerMessage::EntryRange(copied)
            },
        }
    }
}

} // verus!
