//! Byte buffers of the `bytes` crate, and what each call does to their octets.
use vstd::prelude::*;

verus! {

/// A shared, immutable byte buffer.
#[verifier::external_type_specification]
#[verifier::external_body]
pub struct ExBytes(bytes::Bytes);

/// A growable byte buffer.
#[verifier::external_type_specification]
#[verifier::external_body]
pub struct ExBytesMut(bytes::BytesMut);

/// The octets of a shared buffer, in order.
pub uninterp spec fn of(b: bytes::Bytes) -> Seq<u8>;

/// The octets written to a growable buffer so far, in order.
pub uninterp spec fn written(b: bytes::BytesMut) -> Seq<u8>;

/// `bytes::Bytes::len`: the number of octets. They can be had as one slice, and no slice
/// takes more than `isize::MAX` octets.
#[verifier::external_body]
pub(crate) fn octet_count(b: &bytes::Bytes) -> (n: usize)
    ensures
        n == of(*b).len(),
        n <= isize::MAX,
{
    b.len()
}

/// `<bytes::Bytes as Deref>::deref`: the octets as a slice.
#[verifier::external_body]
pub(crate) fn octet_slice(b: &bytes::Bytes) -> (s: &[u8])
    ensures
        s@ == of(*b),
{
    b
}

/// `<bytes::Bytes as Clone>::clone`: another handle to the same octets.
#[verifier::external_body]
pub(crate) fn share(b: &bytes::Bytes) -> (c: bytes::Bytes)
    ensures
        of(c) == of(*b),
{
    b.clone()
}

/// `bytes::Bytes::slice` from `at` to the end: the octets from `at` on. It
/// panics beyond the end.
#[verifier::external_body]
pub(crate) fn tail_from(b: &bytes::Bytes, at: usize) -> (t: bytes::Bytes)
    requires
        at <= of(*b).len(),
    ensures
        of(t) == of(*b).skip(at as int),
{
    b.slice(at..)
}

/// `<bytes::Bytes as From<Vec<u8>>>::from`: the vector's octets, unchanged.
#[verifier::external_body]
pub(crate) fn shared_octets(v: Vec<u8>) -> (b: bytes::Bytes)
    ensures
        of(b) == v@,
{
    bytes::Bytes::from(v)
}

/// `bytes::BytesMut::with_capacity`: an empty buffer. It allocates at once and
/// panics where the capacity is more than `isize::MAX` octets.
#[verifier::external_body]
pub(crate) fn buffer_with_capacity(capacity: usize) -> (b: bytes::BytesMut)
    requires
        capacity <= isize::MAX,
    ensures
        written(b) == Seq::<u8>::empty(),
{
    bytes::BytesMut::with_capacity(capacity)
}

/// `bytes::BytesMut::extend_from_slice`: appends the octets. It panics where the
/// buffer would hold more than `isize::MAX` octets.
#[verifier::external_body]
pub(crate) fn extend_buffer(b: &mut bytes::BytesMut, more: &[u8])
    requires
        written(*old(b)).len() + more@.len() <= isize::MAX,
    ensures
        written(*final(b)) == written(*old(b)) + more@,
{
    b.extend_from_slice(more)
}

/// `bytes::BytesMut::freeze`: the octets written, as a shared buffer.
#[verifier::external_body]
pub(crate) fn freeze_buffer(b: bytes::BytesMut) -> (s: bytes::Bytes)
    ensures
        of(s) == written(b),
{
    b.freeze()
}

}
