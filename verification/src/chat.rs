//! Chat-log records: one `Entry` per accepted post.
//!
//! Timestamps are carried as milliseconds since the Unix epoch. The wall
//! clock itself is an external collaborator reached through one trusted
//! call; everything else here is plain verified data.

use vstd::prelude::*;

verus! {

/// Who wrote an entry and when the dispatcher accepted it.
pub struct Metadata {
    pub username: String,
    /// Milliseconds since the Unix epoch, assigned by the dispatcher.
    pub timestamp: i64,
}

/// The visible text of a message.
pub struct MessageText(pub String);

/// The payload of an entry: the original text, a replacement after an
/// edit, or the tombstone left by a deletion.
pub enum Content {
    Original(MessageText),
    Edited(MessageText),
    Deleted,
}

/// One chat-log record. `slot_number` is the entry's position in the log,
/// assigned at append time and never changed afterwards.
pub struct Entry {
    pub slot_number: usize,
    pub metadata: Metadata,
    pub content: Content,
}

/// Relies on `chrono::Utc::now` (and `DateTime::timestamp_millis`) for the
/// current wall-clock time. Nothing is assumed about the value returned.
#[verifier::external_body]
pub(crate) fn now_timestamp_millis() -> i64 {
    chrono::Utc::now().timestamp_millis()
}

impl Clone for Metadata {
    fn clone(&self) -> (r: Self)
        ensures
            r == *self,
    {
        Metadata { username: self.username.clone(), timestamp: self.timestamp }
    }
}

impl Clone for MessageText {
    fn clone(&self) -> (r: Self)
        ensures
            r == *self,
    {
        MessageText(self.0.clone())
    }
}

impl Clone for Content {
    fn clone(&self) -> (r: Self)
        ensures
            r == *self,
    {
        match self {
            Content::Original(text) => Content::Original(text.clone()),
            Content::Edited(text) => Content::Edited(text.clone()),
            Content::Deleted => Content::Deleted,
        }
    }
}

impl Clone for Entry {
    fn clone(&self) -> (r: Self)
        ensures
            r == *self,
    {
        Entry {
            slot_number: self.slot_number,
            metadata: self.metadata.clone(),
            content: self.content.clone(),
        }
    }
}

impl Entry {
    /// Builds an entry stamped with the current wall-clock time. All other
    /// fields are exactly the arguments given.
    pub fn new_timestamped_now(slot_number: usize, username: String, content: Content) -> (r: Self)
        ensures
            r.slot_number == slot_number,
            r.metadata.username == username,
            r.content == content,
    {
        Self { slot_number, metadata: Metadata { username, timestamp: now_timestamp_millis() }, content }
    }

    /// The visible text of the entry, or `None` for a deleted entry.
    pub fn text_content(&self) -> (r: Option<&str>)
        ensures
            match self.content {
                Content::Original(text) => r matches Some(s) && s@ == text.0@,
                Content::Edited(text) => r matches Some(s) && s@ == text.0@,
                Content::Deleted => r is None,
            },
    {
        match &self.content {
            Content::Original(message_text) | Content::Edited(message_text) => {
                Some(message_text.0.as_str())
            },
            Content::Deleted => None,
        }
    }
}

} // verus!
