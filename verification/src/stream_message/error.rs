//! What can go wrong while a message is read or written.

use vstd::prelude::*;
use vstd::string::StringExecFns;

verus! {

/// Why a message could not be read or written.
#[derive(Debug)]
pub enum Error {
    /// The body is not a message, or the message has no body.
    Serialization(String),
    /// The stream failed.
    Io(String),
    /// The stream ended where a message would begin.
    Eof,
}

impl Error {
    /// The error for a body that is no message; `detail` says why.
    pub fn serialization(detail: String) -> (mapped: Error)
        ensures
            mapped == Error::Serialization(detail),
    {
        Error::Serialization(detail)
    }

    /// The error for a failure of the stream while the body of a message
    /// was read or a message was written; `detail` says what failed.
    pub fn io(detail: String) -> (mapped: Error)
        ensures
            mapped == Error::Io(detail),
    {
        Error::Io(detail)
    }

    /// The error for a failure of the stream while the length of a
    /// message was read.  The end of the stream there is no failure but
    /// the end of the conversation.
    pub fn header(ended: bool, detail: String) -> (mapped: Error)
        ensures
            mapped == if ended {
                Error::Eof
            } else {
                Error::Io(detail)
            },
    {
        if ended {
            Error::Eof
        } else {
            Error::Io(detail)
        }
    }

    /// What the error says of itself.
    pub fn message(&self) -> (text: String)
        ensures
            text@ == match self {
                Error::Serialization(detail) => "serialization error: "@ + detail@,
                Error::Io(detail) => "i/o error: "@ + detail@,
                Error::Eof => "EOF"@,
            },
    {
        match self {
            Error::Serialization(detail) => {
                String::from_str("serialization error: ").concat(detail.as_str())
            },
            Error::Io(detail) => {
                String::from_str("i/o error: ").concat(detail.as_str())
            },
            Error::Eof => String::from_str("EOF"),
        }
    }
}

} // verus!
