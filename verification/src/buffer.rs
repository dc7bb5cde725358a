//! The byte buffers of the `bytes` crate, as the codec uses them.
//!
//! Each buffer is known to Verus by the sequence of bytes it holds; the
//! contracts below state what each method of the crate does to that sequence.
use bytes::{BufMut, Bytes, BytesMut};
use std::ops::Deref;
use vstd::prelude::*;

verus! {

/// The growable buffer of the `bytes` crate.
#[verifier::external_type_specification]
#[verifier::external_body]
pub struct ExBytesMut(BytesMut);

/// The shared, immutable buffer of the `bytes` crate.
#[verifier::external_type_specification]
#[verifier::external_body]
pub struct ExBytes(Bytes);

/// The bytes that a `BytesMut` holds, from its first to its last.
pub uninterp spec fn bytes_mut_view(buf: BytesMut) -> Seq<u8>;

/// The bytes that a `Bytes` holds, from its first to its last.
pub uninterp spec fn bytes_view(buf: Bytes) -> Seq<u8>;

/// `BytesMut::new` makes a buffer that holds no bytes (it allocates nothing).
pub assume_specification[ BytesMut::new ]() -> (buf: BytesMut)
    ensures
        bytes_mut_view(buf) == Seq::<u8>::empty(),
;

/// `BytesMut::len` is the number of bytes the buffer holds.
pub assume_specification[ BytesMut::len ](buf: &BytesMut) -> (n: usize)
    ensures
        n == bytes_mut_view(*buf).len(),
;

/// `BytesMut::is_empty` tells whether the buffer holds no byte.
pub assume_specification[ BytesMut::is_empty ](buf: &BytesMut) -> (b: bool)
    ensures
        b == (bytes_mut_view(*buf).len() == 0),
;

/// `BytesMut` dereferences to the slice of the bytes it holds.
pub assume_specification[ <BytesMut as Deref>::deref ](buf: &BytesMut) -> (s: &[u8])
    ensures
        s@ == bytes_mut_view(*buf),
;

/// `Bytes` dereferences to the slice of the bytes it holds.
pub assume_specification[ <Bytes as Deref>::deref ](buf: &Bytes) -> (s: &[u8])
    ensures
        s@ == bytes_view(*buf),
;

/// `BytesMut::split_off(at)` leaves the first `at` bytes in the buffer and
/// returns the rest. It panics only when `at` exceeds the capacity, which is
/// never below the length.
pub assume_specification[ BytesMut::split_off ](buf: &mut BytesMut, at: usize) -> (tail: BytesMut)
    requires
        at <= bytes_mut_view(*old(buf)).len(),
    ensures
        bytes_mut_view(*final(buf)) == bytes_mut_view(*old(buf)).take(at as int),
        bytes_mut_view(tail) == bytes_mut_view(*old(buf)).skip(at as int),
;

/// `BytesMut::clear` removes every byte and keeps the capacity.
pub assume_specification[ BytesMut::clear ](buf: &mut BytesMut)
    ensures
        bytes_mut_view(*final(buf)) == Seq::<u8>::empty(),
;

/// `put_slice` appends the bytes of the slice (it calls `extend_from_slice`).
/// The crate panics only when the capacity it grows to overflows. That
/// capacity also counts bytes that the buffer keeps before the ones it holds
/// (left there by earlier splits), which no view here shows: the bound below
/// is on the bytes it holds and those added, and the case of a large hidden
/// prefix is left unsaid.
pub assume_specification[ <BytesMut as BufMut>::put_slice ](buf: &mut BytesMut, src: &[u8])
    requires
        bytes_mut_view(*old(buf)).len() + src@.len() <= isize::MAX / 4,
    ensures
        bytes_mut_view(*final(buf)) == bytes_mut_view(*old(buf)) + src@,
;

} // verus!
