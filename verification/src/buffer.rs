//! `bytes::BytesMut`, the byte buffer that payloads travel in, seen by its
//! contents.

use bytes::BytesMut;
use vstd::prelude::*;

verus! {

#[verifier::external_type_specification]
#[verifier::external_body]
pub struct ExBytesMut(bytes::BytesMut);

/// The bytes that a `BytesMut` holds, in order.
pub uninterp spec fn bytes_of(b: BytesMut) -> Seq<u8>;

/// `BytesMut::new`: an empty buffer.
#[verifier::external_body]
pub(crate) fn buffer_new() -> (b: BytesMut)
    ensures
        bytes_of(b) == Seq::<u8>::empty(),
{
    BytesMut::new()
}

/// `BytesMut::with_capacity`: an empty buffer; the capacity is a hint that
/// the contract does not follow. The allocation panics above `isize::MAX`
/// bytes, which `requires` leaves out.
#[verifier::external_body]
pub(crate) fn buffer_with_capacity(capacity: usize) -> (b: BytesMut)
    requires
        capacity <= isize::MAX,
    ensures
        bytes_of(b) == Seq::<u8>::empty(),
{
    BytesMut::with_capacity(capacity)
}

/// `BytesMut::from(&[u8])`: a buffer holding a copy of `src`.
#[verifier::external_body]
pub(crate) fn buffer_from_slice(src: &[u8]) -> (b: BytesMut)
    ensures
        bytes_of(b) == src@,
{
    BytesMut::from(src)
}

/// `BytesMut::extend_from_slice`: appends `extend` to the buffer. The crate
/// panics when the length would pass `isize::MAX`, which `requires` leaves
/// out.
#[verifier::external_body]
pub(crate) fn buffer_extend(b: &mut BytesMut, extend: &[u8])
    requires
        bytes_of(*old(b)).len() + extend@.len() <= isize::MAX,
    ensures
        bytes_of(*final(b)) == bytes_of(*old(b)) + extend@,
{
    b.extend_from_slice(extend)
}

/// `BytesMut::len`: the number of bytes held.
#[verifier::external_body]
pub(crate) fn buffer_len(b: &BytesMut) -> (n: usize)
    ensures
        n == bytes_of(*b).len(),
{
    b.len()
}

/// `<BytesMut as AsRef<[u8]>>::as_ref`: the held bytes as a slice.
#[verifier::external_body]
pub(crate) fn buffer_as_slice(b: &BytesMut) -> (s: &[u8])
    ensures
        s@ == bytes_of(*b),
{
    b.as_ref()
}

} // verus!
