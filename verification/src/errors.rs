//! The two error taxonomies, one per direction.
//!
//! Each direction keeps stream faults apart from codec faults, so a caller
//! can treat a broken stream (reconnect, give up) differently from a
//! protocol violation (reject the peer's data).

use vstd::prelude::*;

verus! {

/// Declares `std::io::Error`, the fault a stream reports, so that error
/// variants can carry it through unchanged. The value stays opaque here.
#[verifier::external_type_specification]
#[verifier::external_body]
pub struct ExIoError(std::io::Error);

/// An error that occurred during the receiving of a message.
#[derive(Debug)]
pub enum RecvError {
    /// The underlying stream could not produce a line.
    Read(std::io::Error),
    /// A line was produced but is not valid JSON, or holds a number the
    /// message type cannot carry.
    Deserialize,
}

/// An error that occurred during the sending of a message.
#[derive(Debug)]
pub enum SendError {
    /// The underlying stream rejected the write.
    Write(std::io::Error),
    /// The value could not be turned into JSON text.
    Serialize,
}

impl RecvError {
    /// A short description of the error, by kind.
    pub fn describe(&self) -> (r: &'static str)
        ensures
            self is Read ==> r@ == "failed reading message data from source"@,
            self is Deserialize ==> r@ == "failed deserializing JSON"@,
    {
        proof {
            reveal_strlit("failed reading message data from source");
            reveal_strlit("failed deserializing JSON");
        }
        match self {
            RecvError::Read(_) => "failed reading message data from source",
            RecvError::Deserialize => "failed deserializing JSON",
        }
    }
}

impl SendError {
    /// A short description of the error, by kind.
    pub fn describe(&self) -> (r: &'static str)
        ensures
            self is Write ==> r@ == "failed writing message data to sink"@,
            self is Serialize ==> r@ == "failed serializing JSON"@,
    {
        proof {
            reveal_strlit("failed writing message data to sink");
            reveal_strlit("failed serializing JSON");
        }
        match self {
            SendError::Write(_) => "failed writing message data to sink",
            SendError::Serialize => "failed serializing JSON",
        }
    }
}

} // verus!
