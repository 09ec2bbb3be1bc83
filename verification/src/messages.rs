//! The envelope that every message travels in, and its acknowledgment.

use vstd::prelude::*;
use crate::ident;
use crate::time::Timestamp;

verus! {

/// A message with the metadata of its delivery.
#[derive(Debug, Clone)]
pub struct Envelope<T> {
    /// Identifier of this message, by which it is acknowledged.
    pub id: String,
    /// When it was sent, in milliseconds since the Unix epoch.
    pub timestamp_ms: u64,
    /// Name of the sending service.
    pub source: String,
    /// Name of the receiving service.
    pub destination: String,
    /// The message itself.
    pub message: T,
}

/// Reply to a message: processed, or failed with a reason.
#[derive(Debug, Clone)]
pub struct Ack {
    /// Identifier of the message that is acknowledged.
    pub message_id: String,
    /// Whether the message was processed.
    pub success: bool,
    /// What went wrong, if the message was not processed.
    pub error: Option<String>,
}

impl Ack {
    /// Whether this acknowledgment names the message with identifier `id`.
    pub open spec fn answers(self, id: Seq<char>) -> bool {
        self.message_id@ == id
    }

    /// Acknowledges the message `message_id` as processed.
    pub fn success(message_id: &str) -> (ack: Self)
        ensures
            ack.answers(message_id@),
            ack.success,
            ack.error is None,
    {
        Ack { message_id: message_id.to_owned(), success: true, error: None }
    }

    /// Reports that the message `message_id` was not processed, and why.
    pub fn failure(message_id: &str, error: &str) -> (ack: Self)
        ensures
            ack.answers(message_id@),
            !ack.success,
            ack.error matches Some(e) && e@ == error@,
    {
        Ack { message_id: message_id.to_owned(), success: false, error: Some(error.to_owned()) }
    }
}

impl<T> Envelope<T> {
    /// What [`Envelope::new`] fixes: the routing names and the message.
    pub open spec fn carries(self, source: Seq<char>, destination: Seq<char>, message: T) -> bool {
        &&& self.source@ == source
        &&& self.destination@ == destination
        &&& self.message == message
    }

    /// Puts a message in an envelope with the given identifier and time.
    pub fn from_parts(
        id: String,
        timestamp_ms: u64,
        source: &str,
        destination: &str,
        message: T,
    ) -> (e: Self)
        ensures
            e.id == id,
            e.timestamp_ms == timestamp_ms,
            e.carries(source@, destination@, message),
    {
        Envelope {
            id,
            timestamp_ms,
            source: source.to_owned(),
            destination: destination.to_owned(),
            message,
        }
    }

    /// Puts a message in an envelope with a fresh identifier and the
    /// current time.
    ///
    /// The identifier is the hyphenated text of a randomly drawn 128-bit
    /// value.
    pub fn new(source: &str, destination: &str, message: T) -> (e: Self)
        ensures
            e.carries(source@, destination@, message),
            exists|bits: u128| ident::is_random(bits) && e.id@ == ident::hyphenated(bits),
            e.id@.len() == 36,
    {
        let bits: u128 = ident::fresh();
        let id = ident::to_text(bits);
        let timestamp_ms: u64 = Timestamp::now().unix_millis();
        Self::from_parts(id, timestamp_ms, source, destination, message)
    }

    /// Acknowledges this message as processed. The acknowledgment names
    /// this envelope's identifier.
    pub fn acknowledge(&self) -> (ack: Ack)
        ensures
            ack.answers(self.id@),
            ack.success,
            ack.error is None,
    {
        Ack::success(self.id.as_str())
    }

    /// Reports that this message was not processed, and why. The
    /// acknowledgment names this envelope's identifier.
    pub fn reject(&self, error: &str) -> (ack: Ack)
        ensures
            ack.answers(self.id@),
            !ack.success,
            ack.error matches Some(e) && e@ == error@,
    {
        Ack::failure(self.id.as_str(), error)
    }
}

} // verus!
