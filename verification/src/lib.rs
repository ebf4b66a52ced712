//! Traits for handling bytes data from external memory.
//!
//! Currently only read functionality is supported.

mod buffer;
mod decimal;
mod errors;
mod memory;

pub use buffer::{
    lemma_limited_buffer_view, lemma_read_byte_matches_read_slice, lemma_zero_length_read,
    read_byte_post, read_slice_post, AddressableBuffer, ByteView,
};
pub use decimal::{decimal_digit_char, decimal_of};
pub use errors::BufferError;
pub use memory::{ErrorText, ExternalMemory, NoEntries};
