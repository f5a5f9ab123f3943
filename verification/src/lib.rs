//! A verified model of a channel record service.
//!
//! The library defines the rules of a create/read/update/delete surface over
//! channel records keyed by a 64-bit identifier: when a create is accepted or
//! rejected as a conflict, how a partial update merges with stored state, how
//! lookups fail, and how storage failures are classified for clients. The
//! `channel` module holds the record store and its operations, the `channels`
//! module an alternate route surface over the same store, and
//! `error_handling` the failure classifier.

use vstd::prelude::*;

pub mod channel;
pub mod channels;
pub mod error_handling;

verus! {

/// The client-visible error body: a message, and for constraint violations
/// the database-native error code.
#[derive(Debug, PartialEq)]
pub struct Message {
    pub message: String,
    pub sqlstate: Option<String>,
}

/// The mathematical content of a `Message`.
pub struct MessageModel {
    pub message: Seq<char>,
    pub sqlstate: Option<Seq<char>>,
}

impl View for Message {
    type V = MessageModel;

    open spec fn view(&self) -> MessageModel {
        MessageModel {
            message: self.message@,
            sqlstate: match self.sqlstate {
                Option::Some(s) => Option::Some(s@),
                Option::None => Option::None,
            },
        }
    }
}

} // verus!
