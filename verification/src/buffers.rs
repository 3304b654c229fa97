//! The byte buffers of the `bytes` crate, as the library sees them: each
//! is a sequence of bytes.
use bytes::{BufMut, Bytes, BytesMut};
use vstd::prelude::*;

verus! {

#[verifier::external_type_specification]
#[verifier::external_body]
pub struct ExBytes(bytes::Bytes);

#[verifier::external_type_specification]
#[verifier::external_body]
pub struct ExBytesMut(bytes::BytesMut);

/// The bytes that a `Bytes` holds.
pub uninterp spec fn bytes_contents(b: Bytes) -> Seq<u8>;

/// The bytes that a `BytesMut` holds (its initialized part).
pub uninterp spec fn bytes_mut_contents(b: BytesMut) -> Seq<u8>;

/// `Bytes::copy_from_slice`: a `Bytes` holding a copy of `data`.
#[verifier::external_body]
pub(crate) fn bytes_copy_from_slice(data: &[u8]) -> (b: Bytes)
    ensures
        bytes_contents(b) == data@,
{
    Bytes::copy_from_slice(data)
}

/// `<Bytes as AsRef<[u8]>>::as_ref`: the bytes held, as a slice.
#[verifier::external_body]
pub(crate) fn bytes_as_slice(b: &Bytes) -> (s: &[u8])
    ensures
        s@ == bytes_contents(*b),
{
    b.as_ref()
}

/// `Vec::<u8>::from(Bytes)`: the bytes held, moved into a vector.
#[verifier::external_body]
pub(crate) fn bytes_into_vec(b: Bytes) -> (v: Vec<u8>)
    ensures
        v@ == bytes_contents(b),
{
    Vec::from(b)
}

/// `BytesMut::len`: the number of bytes held.
#[verifier::external_body]
pub(crate) fn bytes_mut_len(b: &BytesMut) -> (n: usize)
    ensures
        n == bytes_mut_contents(*b).len(),
{
    b.len()
}

/// `BytesMut::is_empty`: whether no byte is held.
#[verifier::external_body]
pub(crate) fn bytes_mut_is_empty(b: &BytesMut) -> (e: bool)
    ensures
        e == (bytes_mut_contents(*b).len() == 0),
{
    b.is_empty()
}

/// `BytesMut::split_to`: hands out the first `at` bytes and keeps the rest.
/// It panics where `at` exceeds the length.
#[verifier::external_body]
pub(crate) fn bytes_mut_split_to(b: &mut BytesMut, at: usize) -> (front: BytesMut)
    requires
        at <= bytes_mut_contents(*old(b)).len(),
    ensures
        bytes_mut_contents(front) == bytes_mut_contents(*old(b)).take(at as int),
        bytes_mut_contents(*final(b)) == bytes_mut_contents(*old(b)).skip(at as int),
{
    b.split_to(at)
}

/// `BytesMut::freeze`: the same bytes, made immutable.
#[verifier::external_body]
pub(crate) fn bytes_mut_freeze(b: BytesMut) -> (f: Bytes)
    ensures
        bytes_contents(f) == bytes_mut_contents(b),
{
    b.freeze()
}

/// `BytesMut::reserve`: makes room for more bytes; the bytes held do not
/// change. It panics where the new capacity would exceed `isize::MAX`, which
/// the requirement leaves out.
#[verifier::external_body]
pub(crate) fn bytes_mut_reserve(b: &mut BytesMut, additional: usize)
    requires
        bytes_mut_contents(*old(b)).len() + additional <= isize::MAX,
    ensures
        bytes_mut_contents(*final(b)) == bytes_mut_contents(*old(b)),
{
    b.reserve(additional)
}

/// `<BytesMut as BufMut>::put` of a byte slice: appends the slice.
#[verifier::external_body]
pub(crate) fn bytes_mut_put(b: &mut BytesMut, src: &[u8])
    requires
        bytes_mut_contents(*old(b)).len() + src@.len() <= isize::MAX,
    ensures
        bytes_mut_contents(*final(b)) == bytes_mut_contents(*old(b)) + src@,
{
    b.put(src)
}

/// `<Vec<u8> as BufMut>::remaining_mut`: how many more bytes the vector
/// can take, `isize::MAX` less its length.
#[verifier::external_body]
pub(crate) fn vec_remaining_mut(v: &Vec<u8>) -> (n: usize)
    ensures
        n == isize::MAX - v@.len(),
{
    BufMut::remaining_mut(v)
}

} // verus!
