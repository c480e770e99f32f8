//! A minimal framed-update schema kept alongside the main wire types.

use vstd::prelude::*;

verus! {

/// One framed chat message with its position in the stream.
pub struct Message {
    pub content: String,
    pub sequence_number: usize,
}

/// A client's request for everything after the last slot it has seen.
pub struct UpdateRequest {
    pub last_slot_number: usize,
}

} // verus!
