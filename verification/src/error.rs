//! The failures that an operation of this library can end in.

use vstd::prelude::*;

verus! {

/// Why an operation failed. Each variant carries a message for the reader of a log.
#[derive(Debug, PartialEq)]
pub enum Error {
    /// A local file or byte stream could not be read.
    Io(String),
    /// The transport, the authentication or the remote execution failed.
    Remote(String),
    /// A reply did not have the shape that the algorithm's binding expects.
    Decode(String),
    /// The format of a byte stream could not be told from its content.
    Format(String),
}

impl Error {
    /// A decoding failure with the given message.
    pub fn decode(message: &str) -> (e: Error)
        ensures
            e is Decode,
            e->Decode_0@ == message@,
    {
        Error::Decode(message.to_owned())
    }

    /// The message that the failure carries.
    pub fn message(&self) -> (m: &String)
        ensures
            m == match *self {
                Error::Io(s) => s,
                Error::Remote(s) => s,
                Error::Decode(s) => s,
                Error::Format(s) => s,
            },
    {
        match self {
            Error::Io(s) => s,
            Error::Remote(s) => s,
            Error::Decode(s) => s,
            Error::Format(s) => s,
        }
    }
}

} // verus!
