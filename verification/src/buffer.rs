//! Read buffers of a download, `bytes::BytesMut`.

use bytes::BytesMut;
use vstd::prelude::*;

verus! {

/// `bytes::BytesMut`, a growable byte buffer. The verifier sees none of
/// its fields.
#[verifier::external_type_specification]
#[verifier::external_body]
pub struct ExBytesMut(BytesMut);

/// The bytes that a buffer contains, first to last.
pub uninterp spec fn buffer_bytes(buffer: BytesMut) -> Seq<u8>;

/// `BytesMut::with_capacity` returns a buffer that contains no bytes. It
/// allocates through `Vec::with_capacity`, which panics on a capacity above
/// `isize::MAX`.
pub assume_specification[ BytesMut::with_capacity ](capacity: usize) -> (buffer: BytesMut)
    requires
        capacity <= isize::MAX,
    ensures
        buffer_bytes(buffer) == Seq::<u8>::empty(),
;

/// `<BytesMut as Deref>::deref` gives the slice of the bytes that the
/// buffer contains; the result is a copy of that slice.
#[verifier::external_body]
pub(crate) fn copy_of_buffer(buffer: &BytesMut) -> (bytes: Vec<u8>)
    ensures
        bytes@ == buffer_bytes(*buffer),
{
    buffer.to_vec()
}

} // verus!
