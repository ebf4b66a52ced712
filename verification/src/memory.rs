//! The external-memory capability and its fault-free instantiation.

use vstd::prelude::*;

verus! {

/// Human-readable text of an error value, with its mathematical statement.
///
/// Error types of external-memory backends implement this so that
/// [`crate::BufferError`] can render the backend's own diagnostic text.
pub trait ErrorText {
    /// The text as a character sequence.
    spec fn spec_text(&self) -> Seq<char>;

    /// The text, rendered.
    fn text(&self) -> (r: String)
        ensures
            r@ == self.spec_text(),
    ;
}

/// External addressable memory.
///
/// A backend is represented purely by its error type, so that buffers can be
/// generic over failure modes without depending on any particular access
/// interface.
pub trait ExternalMemory {
    /// Errors specific to memory accessing.
    type ExternalMemoryError: ErrorText + PartialEq + Eq;
}

/// `ExternalMemory` could also be applied to regular RAM.
impl ExternalMemory for () {
    type ExternalMemoryError = NoEntries;
}

/// Error type with no entries, for cases with fault-free memory access.
///
/// It has a private field and no constructor, so no value of it is ever
/// made: an error path carrying it is unreachable.
#[derive(Debug, PartialEq, Eq)]
pub struct NoEntries {
    unreachable: (),
}

impl ErrorText for NoEntries {
    /// Renders as empty text (never actually invoked: no value exists).
    open spec fn spec_text(&self) -> Seq<char> {
        Seq::empty()
    }

    fn text(&self) -> (r: String) {
        String::new()
    }
}

} // verus!
