//! Byte buffers of the `bytes` crate.
use bytes::Buf;
use bytes::Bytes;
use bytes::BytesMut;
use vstd::prelude::*;

verus! {

/// `bytes::Bytes`: a shared byte buffer.
#[verifier::external_type_specification]
#[verifier::external_body]
pub struct ExBytes(bytes::Bytes);

/// `bytes::BytesMut`: a growing byte buffer.
#[verifier::external_type_specification]
#[verifier::external_body]
pub struct ExBytesMut(bytes::BytesMut);

/// The bytes that a `Bytes` holds.
pub uninterp spec fn bytes_of(b: Bytes) -> Seq<u8>;

/// The bytes that a `BytesMut` holds.
pub uninterp spec fn bytes_mut_of(b: BytesMut) -> Seq<u8>;

/// `Bytes::new`: an empty buffer.
pub assume_specification[ Bytes::new ]() -> (r: Bytes)
    ensures
        bytes_of(r) == Seq::<u8>::empty(),
;

/// `Bytes::len`: the number of bytes held.
pub assume_specification[ Bytes::len ](b: &Bytes) -> (n: usize)
    ensures
        n == bytes_of(*b).len(),
;

/// `Bytes::is_empty`: whether no byte is held.
pub assume_specification[ Bytes::is_empty ](b: &Bytes) -> (r: bool)
    ensures
        r == (bytes_of(*b).len() == 0),
;

/// `Bytes::deref`: the held bytes as a slice.
#[verifier::external_body]
pub(crate) fn bytes_as_slice(b: &Bytes) -> (r: &[u8])
    ensures
        r@ == bytes_of(*b),
{
    &b[..]
}

/// `Bytes::slice` with a range that is open to the right: the bytes from
/// position `from` on. It panics when `from` lies behind the end.
#[verifier::external_body]
pub(crate) fn bytes_slice_from(b: &Bytes, from: usize) -> (r: Bytes)
    requires
        from <= bytes_of(*b).len(),
    ensures
        bytes_of(r) == bytes_of(*b).skip(from as int),
{
    b.slice(from..)
}

/// `Buf::advance` on a `Bytes`: drops the first `n` bytes. It panics when
/// fewer are held.
#[verifier::external_body]
pub(crate) fn bytes_advance(b: &mut Bytes, n: usize)
    requires
        n <= bytes_of(*old(b)).len(),
    ensures
        bytes_of(*final(b)) == bytes_of(*old(b)).skip(n as int),
{
    b.advance(n)
}

/// `BytesMut::with_capacity`: an empty buffer. It panics when the capacity
/// exceeds what an allocation may hold.
pub assume_specification[ BytesMut::with_capacity ](capacity: usize) -> (r: BytesMut)
    requires
        capacity <= isize::MAX,
    ensures
        bytes_mut_of(r) == Seq::<u8>::empty(),
;

/// `BytesMut::extend_from_slice`: appends the bytes of `extend`. It panics
/// when the result exceeds what an allocation may hold.
pub assume_specification[ BytesMut::extend_from_slice ](b: &mut BytesMut, extend: &[u8])
    requires
        bytes_mut_of(*old(b)).len() + extend@.len() <= isize::MAX,
    ensures
        bytes_mut_of(*final(b)) == bytes_mut_of(*old(b)) + extend@,
;

/// `BytesMut::freeze`: the same bytes, no longer writable.
pub assume_specification[ BytesMut::freeze ](b: BytesMut) -> (r: Bytes)
    ensures
        bytes_of(r) == bytes_mut_of(b),
;

} // verus!
