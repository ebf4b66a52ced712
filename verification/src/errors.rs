//! Errors in buffer access, with their exact diagnostic texts.

use vstd::prelude::*;
use vstd::string::StringExecFns;

use crate::decimal::{decimal_of, push_decimal};
use crate::memory::{ErrorText, ExternalMemory};

verus! {

/// Errors in buffer access.
#[derive(Debug, PartialEq, Eq)]
pub enum BufferError<E: ExternalMemory> {
    /// The start position is valid, but the requested run overruns the end.
    DataTooShort { position: usize, minimal_length: usize },
    /// The external-memory backend itself failed; its error is passed
    /// through without reinterpretation.
    External(E::ExternalMemoryError),
    /// The start position itself exceeds the buffer length.
    OutOfRange { position: usize, total_length: usize },
}

impl<E: ExternalMemory> BufferError<E> {
    /// The diagnostic text of this error, as a character sequence.
    pub open spec fn spec_error_text(&self) -> Seq<char> {
        match self {
            BufferError::DataTooShort { position, minimal_length } => (
            "Data is too short for expected content. Expected at least "@
                + decimal_of(*minimal_length as nat) + " element(s) after position "@ + decimal_of(
                *position as nat,
            ) + "."@),
            BufferError::External(e) => "Error accessing external memory. "@ + e.spec_text(),
            BufferError::OutOfRange { position, total_length } => ("Position "@ + decimal_of(
                *position as nat,
            ) + " is out of range for data length "@ + decimal_of(*total_length as nat) + "."@),
        }
    }

    /// Renders the diagnostic text of this error.
    pub fn error_text(&self) -> (r: String)
        ensures
            r@ == self.spec_error_text(),
    {
        match self {
            BufferError::DataTooShort { position, minimal_length } => {
                let mut s =
                    "Data is too short for expected content. Expected at least ".to_owned();
                push_decimal(&mut s, *minimal_length);
                s.append(" element(s) after position ");
                push_decimal(&mut s, *position);
                s.append(".");
                proof {
                    assert(s@ =~= self.spec_error_text());
                }
                s
            },
            BufferError::External(e) => {
                let mut s = "Error accessing external memory. ".to_owned();
                let t = e.text();
                s.append(t.as_str());
                proof {
                    assert(s@ =~= self.spec_error_text());
                }
                s
            },
            BufferError::OutOfRange { position, total_length } => {
                let mut s = "Position ".to_owned();
                push_decimal(&mut s, *position);
                s.append(" is out of range for data length ");
                push_decimal(&mut s, *total_length);
                s.append(".");
                proof {
                    assert(s@ =~= self.spec_error_text());
                }
                s
            },
        }
    }
}

} // verus!
