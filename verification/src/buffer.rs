//! Bytes access through external memory.

use vstd::prelude::*;
use vstd::slice::{slice_index_get, slice_subrange};

use crate::errors::BufferError;
use crate::memory::ExternalMemory;

verus! {

/// Read-only access to a run of bytes, with its mathematical view.
///
/// Stands for the bytes a buffer read returns, however they are owned.
pub trait ByteView {
    /// The byte sequence this value holds.
    spec fn bytes(&self) -> Seq<u8>;

    /// Number of bytes held.
    fn byte_len(&self) -> (r: usize)
        ensures
            r == self.bytes().len(),
    ;

    /// The byte at index `i`.
    fn byte_at(&self, i: usize) -> (r: u8)
        requires
            i < self.bytes().len(),
        ensures
            r == self.bytes()[i as int],
    ;
}

impl<'a> ByteView for &'a [u8] {
    open spec fn bytes(&self) -> Seq<u8> {
        (*self)@
    }

    fn byte_len(&self) -> (r: usize) {
        let s: &[u8] = *self;
        s.len()
    }

    fn byte_at(&self, i: usize) -> (r: u8) {
        *slice_index_get(*self, i)
    }
}

/// What a slice read returns, over the buffer's byte sequence `data`.
///
/// A start position past the end fails as out of range, whatever the
/// requested length; a valid start whose requested run overruns the end
/// fails as too short; an in-bounds request yields exactly the addressed
/// run, or the backend's own error passed through, and is owed success
/// when access cannot fail.
pub open spec fn read_slice_post<RB: ByteView, E: ExternalMemory>(
    data: Seq<u8>,
    access_may_fail: bool,
    position: usize,
    slice_len: usize,
    r: Result<RB, BufferError<E>>,
) -> bool {
    &&& position > data.len() ==> r == Err::<RB, BufferError<E>>(
        (BufferError::OutOfRange { position, total_length: data.len() as usize }),
    )
    &&& position <= data.len() && position + slice_len > data.len() ==> r == Err::<
        RB,
        BufferError<E>,
    >((BufferError::DataTooShort { position, minimal_length: slice_len }))
    &&& position + slice_len <= data.len() ==> (r matches Ok(b) ==> b.bytes() == data.subrange(
        position as int,
        position + slice_len,
    ))
    &&& position + slice_len <= data.len() ==> (r matches Err(e) ==> e is External)
    &&& position + slice_len <= data.len() && !access_may_fail ==> r is Ok
}

/// What a single-byte read returns, over the buffer's byte sequence `data`:
/// the byte addressed by `position`, with the same error policy as a slice
/// read of length one.
pub open spec fn read_byte_post<E: ExternalMemory>(
    data: Seq<u8>,
    access_may_fail: bool,
    position: usize,
    r: Result<u8, BufferError<E>>,
) -> bool {
    &&& position > data.len() ==> r == Err::<u8, BufferError<E>>(
        (BufferError::OutOfRange { position, total_length: data.len() as usize }),
    )
    &&& position == data.len() ==> r == Err::<u8, BufferError<E>>(
        (BufferError::DataTooShort { position, minimal_length: 1 }),
    )
    &&& position < data.len() ==> (r matches Ok(b) ==> b == data[position as int])
    &&& position < data.len() ==> (r matches Err(e) ==> e is External)
    &&& position < data.len() && !access_may_fail ==> r is Ok
}

/// Bytes access through [`ExternalMemory`].
///
/// Could be implemented, for example, for a combination of an address in
/// external memory and corresponding bytes slice length.
pub trait AddressableBuffer<E: ExternalMemory>: Sized {
    /// Bytes read from buffer.
    type ReadBuffer: ByteView;

    /// The bytes the buffer addresses, as a mathematical sequence.
    spec fn data(&self) -> Seq<u8>;

    /// Whether reads may fail for reasons of the backend itself, never
    /// because of bounds. A buffer in ordinary memory makes this `false`,
    /// and its in-bounds reads are then owed success.
    spec fn access_may_fail(&self) -> bool;

    /// Total length of the addressable buffer.
    fn total_len(&self) -> (r: usize)
        ensures
            r == self.data().len(),
    ;

    /// Read bytes slice of known length at known relative position.
    ///
    /// Important to keep `read_slice`, **not `read_byte`** as a basic reader
    /// tool, because of commonly occurring pages in memory.
    fn read_slice(&self, ext_memory: &mut E, position: usize, slice_len: usize) -> (r: Result<
        Self::ReadBuffer,
        BufferError<E>,
    >)
        ensures
            read_slice_post(self.data(), self.access_may_fail(), position, slice_len, r),
    ;

    /// Read single byte at known position.
    ///
    /// Reads a slice of length one and takes its only byte, so it succeeds
    /// and fails exactly as that slice read does.
    fn read_byte(&self, ext_memory: &mut E, position: usize) -> (r: Result<u8, BufferError<E>>)
        ensures
            read_byte_post(self.data(), self.access_may_fail(), position, r),
    {
        match self.read_slice(ext_memory, position, 1) {
            Ok(byte_slice) => Ok(byte_slice.byte_at(0)),
            Err(e) => Err(e),
        }
    }

    /// Restrict the length of the addressable buffer.
    ///
    /// Fallible truncation: a requested length over the current total
    /// length is refused as too short, never cut silently.
    fn limit_length(&self, new_len: usize) -> (r: Result<Self, BufferError<E>>)
        ensures
            new_len <= self.data().len() ==> (r matches Ok(b) && b.data() == self.data().subrange(
                0,
                new_len as int,
            )),
            new_len > self.data().len() ==> r == Err::<Self, BufferError<E>>(
                (BufferError::DataTooShort { position: 0, minimal_length: new_len }),
            ),
    ;
}

/// A read of length zero at any valid position is owed success, and its
/// view is empty.
pub proof fn lemma_zero_length_read<RB: ByteView, E: ExternalMemory>(
    data: Seq<u8>,
    position: usize,
    r: Result<RB, BufferError<E>>,
)
    requires
        position <= data.len(),
        read_slice_post(data, false, position, 0, r),
    ensures
        r is Ok,
        r matches Ok(b) ==> b.bytes() =~= Seq::<u8>::empty(),
{
}

/// A single-byte read agrees with a slice read of length one: any result
/// allowed of `read_slice` at slice length one, its `Ok` view taken to its
/// only byte and its error kept as it is, is a result allowed of
/// `read_byte`.
pub proof fn lemma_read_byte_matches_read_slice<RB: ByteView, E: ExternalMemory>(
    data: Seq<u8>,
    access_may_fail: bool,
    position: usize,
    slice_r: Result<RB, BufferError<E>>,
    byte_r: Result<u8, BufferError<E>>,
)
    requires
        read_slice_post(data, access_may_fail, position, 1, slice_r),
        slice_r matches Ok(b) ==> byte_r matches Ok(x) && x == b.bytes()[0],
        slice_r matches Err(e) ==> byte_r == Err::<u8, BufferError<E>>(e),
    ensures
        read_byte_post(data, access_may_fail, position, byte_r),
{
}

/// A buffer limited to a valid length `new_len` addresses exactly the
/// first `new_len` bytes: its total length is `new_len`, and its byte at
/// any position below `new_len` is the original's.
pub proof fn lemma_limited_buffer_view(data: Seq<u8>, new_len: usize, limited: Seq<u8>)
    requires
        new_len <= data.len(),
        limited == data.subrange(0, new_len as int),
    ensures
        limited.len() == new_len,
        forall|p: int| 0 <= p < new_len ==> limited[p] == data[p],
{
}

/// `AddressableBuffer` could be also implemented for regular bytes slices.
impl<'a, E: ExternalMemory> AddressableBuffer<E> for &'a [u8] {
    type ReadBuffer = &'a [u8];

    open spec fn data(&self) -> Seq<u8> {
        (*self)@
    }

    open spec fn access_may_fail(&self) -> bool {
        false
    }

    fn total_len(&self) -> (r: usize) {
        let s: &[u8] = *self;
        s.len()
    }

    fn read_slice(&self, _ext_memory: &mut E, position: usize, slice_len: usize) -> (r: Result<
        &'a [u8],
        BufferError<E>,
    >) {
        let s: &'a [u8] = *self;
        if position > s.len() {
            return Err(BufferError::OutOfRange { position, total_length: s.len() });
        }
        if slice_len > s.len() - position {
            return Err(BufferError::DataTooShort { position, minimal_length: slice_len });
        }
        let out = slice_subrange(s, position, position + slice_len);
        proof {
            assert(out.bytes() == s@.subrange(position as int, position + slice_len));
        }
        Ok(out)
    }

    fn limit_length(&self, new_len: usize) -> (r: Result<&'a [u8], BufferError<E>>) {
        let s: &'a [u8] = *self;
        if new_len > s.len() {
            Err(BufferError::DataTooShort { position: 0, minimal_length: new_len })
        } else {
            Ok(slice_subrange(s, 0, new_len))
        }
    }
}

} // verus!
