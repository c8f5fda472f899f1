//! The byte buffer that payloads are stored in: `bytes::Bytes`, a handle that
//! is copied in constant time and may be shared between threads.
//!
//! Verus cannot look inside a `Bytes`. Its contents are named by
//! [`bytes_view`], and each operation on it that the library uses is listed
//! here with what is taken on trust about it.

use bytes::Bytes;
use vstd::prelude::*;

verus! {

/// `bytes::Bytes`, taken as it is.
#[verifier::external_type_specification]
#[verifier::external_body]
pub struct ExBytes(Bytes);

/// The bytes that a `Bytes` handle currently gives access to, in order.
pub uninterp spec fn bytes_view(b: Bytes) -> Seq<u8>;

/// `Bytes::len`: the number of bytes the handle gives access to.
pub assume_specification[ bytes::Bytes::len ](b: &bytes::Bytes) -> (n: usize)
    ensures
        n == bytes_view(*b).len(),
;

/// `Bytes::is_empty`: whether the handle gives access to no byte at all.
pub assume_specification[ bytes::Bytes::is_empty ](b: &bytes::Bytes) -> (empty: bool)
    ensures
        empty == (bytes_view(*b).len() == 0),
;

/// `Bytes::from_static`: a handle onto a static slice, holding exactly its
/// bytes.
pub assume_specification[ bytes::Bytes::from_static ](src: &'static [u8]) -> (b: bytes::Bytes)
    ensures
        bytes_view(b) == src@,
;

/// `<Bytes as Clone>::clone`: a second handle onto the same bytes.
pub assume_specification[ <bytes::Bytes as Clone>::clone ](b: &bytes::Bytes) -> (copy: bytes::Bytes)
    ensures
        bytes_view(copy) == bytes_view(*b),
;

/// `<Bytes as AsRef<[u8]>>::as_ref`: the bytes of the handle as a slice.
#[verifier::external_body]
pub(crate) fn bytes_as_slice(b: &Bytes) -> (s: &[u8])
    ensures
        s@ == bytes_view(*b),
{
    b.as_ref()
}

/// `<Bytes as From<Vec<u8>>>::from`: a handle that takes over the vector's
/// bytes.
#[verifier::external_body]
pub(crate) fn bytes_from_vec(v: Vec<u8>) -> (b: Bytes)
    ensures
        bytes_view(b) == v@,
{
    Bytes::from(v)
}

/// `<Bytes as Buf>::advance`: drops the first `cnt` bytes from the handle. The
/// outside function panics when asked to drop more than there are.
#[verifier::external_body]
pub(crate) fn bytes_advance(b: &mut Bytes, cnt: usize)
    requires
        cnt <= bytes_view(*old(b)).len(),
    ensures
        bytes_view(*final(b)) == bytes_view(*old(b)).skip(cnt as int),
{
    bytes::Buf::advance(b, cnt)
}

} // verus!
