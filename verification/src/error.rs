//! The closed error taxonomy of the client, and the structured SQL error
//! payload the server returns in place of a dataset.

use vstd::prelude::*;
use vstd::string::StringExecFns;

use crate::num::{int_seq, push_i32};

verus! {

/// The structured error object of a failed `/exec` request: the query text,
/// the server's message, and the character position of the fault.
#[derive(Debug)]
pub struct SQLError {
    pub query: String,
    pub error: String,
    pub position: i32,
}

/// Everything a client operation can fail with. Transport and file failures
/// carry the underlying error's text; a SQL failure carries the server's
/// structured payload.
#[derive(Debug)]
pub enum Error {
    /// The HTTP call itself failed.
    ExecError(String),
    /// A response body could not be decoded into the expected shape.
    DeserializeError(String),
    /// Reading the local import file failed, before any network request.
    FileError(String),
    /// The server executed the request and reported a SQL failure.
    SQLError(SQLError),
}

impl Error {
    /// The human-readable rendering of this error.
    pub open spec fn message_spec(self) -> Seq<char> {
        match self {
            Error::ExecError(e) => "Error executing query: "@ + e@,
            Error::DeserializeError(e) => "Error deserializing json: "@ + e@,
            Error::SQLError(e) => "Error '"@ + e.error@ + "' with '"@ + e.query@
                + "' at position '"@ + int_seq(e.position as int) + "'"@,
            Error::FileError(e) => "Failed to open file: "@ + e@,
        }
    }

    /// Renders the error as text, exactly as `message_spec` states.
    pub fn message(&self) -> (r: String)
        ensures
            r@ == self.message_spec(),
    {
        match self {
            Error::ExecError(e) => {
                let mut s = String::from_str("Error executing query: ");
                s.append(e.as_str());
                s
            },
            Error::DeserializeError(e) => {
                let mut s = String::from_str("Error deserializing json: ");
                s.append(e.as_str());
                s
            },
            Error::SQLError(e) => {
                let mut s = String::from_str("Error '");
                s.append(e.error.as_str());
                s.append("' with '");
                s.append(e.query.as_str());
                s.append("' at position '");
                push_i32(&mut s, e.position);
                s.append("'");
                proof {
                    assert(s@ =~= self.message_spec());
                }
                s
            },
            Error::FileError(e) => {
                let mut s = String::from_str("Failed to open file: ");
                s.append(e.as_str());
                s
            },
        }
    }
}

} // verus!
