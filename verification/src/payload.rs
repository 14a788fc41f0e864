//! Payload buffers. The cache stores payloads as `bytes::BytesMut` and never
//! looks inside them itself; what it states about a buffer it states over the
//! sequence of bytes the buffer holds.

use bytes::BytesMut;
use vstd::prelude::*;

verus! {

/// `bytes::BytesMut`, taken as it is: a buffer whose inside is not looked at.
#[verifier::external_type_specification]
#[verifier::external_body]
pub struct ExBytesMut(bytes::BytesMut);

/// The bytes a buffer holds, first to last.
pub uninterp spec fn bytes_of(buf: BytesMut) -> Seq<u8>;

/// `BytesMut::new` returns a buffer that holds no bytes.
pub assume_specification[ BytesMut::new ]() -> (buf: BytesMut)
    ensures
        bytes_of(buf) == Seq::<u8>::empty(),
;

/// `BytesMut::is_empty` tells whether the buffer's length is zero.
pub assume_specification[ BytesMut::is_empty ](buf: &BytesMut) -> (empty: bool)
    ensures
        empty == (bytes_of(*buf).len() == 0),
;

/// `BytesMut::clone` copies the bytes into a fresh buffer: the copy holds the
/// same bytes in the same order.
pub assume_specification[ <BytesMut as Clone>::clone ](buf: &BytesMut) -> (copy: BytesMut)
    ensures
        bytes_of(copy) == bytes_of(*buf),
;

} // verus!
