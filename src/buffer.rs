//! The byte buffers that chunks share, and the outside conversions from bytes
//! to text.
use bytes::Buf;
use bytes::Bytes;
use vstd::prelude::*;
use vstd::utf8::*;

verus! {

/// The shared byte buffer of the `bytes` crate, opaque to proofs: what it
/// holds is `bytes_view`.
#[verifier::external_type_specification]
#[verifier::external_body]
pub struct ExBytes(Bytes);

/// The bytes that a shared buffer holds, in order.
pub uninterp spec fn bytes_view(b: Bytes) -> Seq<u8>;

/// Relies on `Bytes` dereferencing to the slice of the bytes it holds.
#[verifier::external_body]
pub(crate) fn as_slice(b: &Bytes) -> (r: &[u8])
    ensures
        r@ == bytes_view(*b),
{
    b.as_ref()
}

/// Relies on `Bytes::split_to`: the first `at` bytes are handed out, the rest
/// stay (it panics when `at` exceeds the length).
#[verifier::external_body]
pub(crate) fn split_to(b: &mut Bytes, at: usize) -> (r: Bytes)
    requires
        at <= bytes_view(*old(b)).len(),
    ensures
        bytes_view(r) == bytes_view(*old(b)).take(at as int),
        bytes_view(*final(b)) == bytes_view(*old(b)).skip(at as int),
{
    b.split_to(at)
}

/// Relies on `<Bytes as Buf>::advance`: the first `n` bytes are dropped (it
/// panics when `n` exceeds the length).
#[verifier::external_body]
pub(crate) fn advance(b: &mut Bytes, n: usize)
    requires
        n <= bytes_view(*old(b)).len(),
    ensures
        bytes_view(*final(b)) == bytes_view(*old(b)).skip(n as int),
{
    b.advance(n)
}

/// Relies on `<Bytes as Clone>::clone`: a second handle on the same bytes.
#[verifier::external_body]
pub(crate) fn share(b: &Bytes) -> (r: Bytes)
    ensures
        bytes_view(r) == bytes_view(*b),
{
    b.clone()
}

/// Every byte is below 128.
pub open spec fn is_ascii_bytes(b: Seq<u8>) -> bool {
    forall|i: int| 0 <= i < b.len() ==> b[i] < 128
}

/// The characters whose code points are the bytes, one for one.
pub open spec fn chars_of(b: Seq<u8>) -> Seq<char> {
    b.map_values(|x: u8| x as char)
}

/// Relies on `ascii::AsciiString::from_ascii`, which accepts exactly the byte
/// sequences with every byte below 128, and on its `Display`, which writes one
/// character per byte.
#[verifier::external_body]
pub(crate) fn ascii_text(b: &[u8]) -> (r: Option<String>)
    ensures
        r is Some <==> is_ascii_bytes(b@),
        r matches Some(s) ==> s@ == chars_of(b@),
{
    ascii::AsciiString::from_ascii(b).ok().map(|s| s.to_string())
}

/// Relies on `std::str::from_utf8`, which accepts exactly the well-formed
/// UTF-8 byte sequences and decodes them.
#[verifier::external_body]
pub(crate) fn utf8_text(b: &[u8]) -> (r: Option<String>)
    ensures
        r is Some <==> valid_utf8(b@),
        r matches Some(s) ==> s@ == decode_utf8(b@),
{
    std::str::from_utf8(b).ok().map(|s| s.to_string())
}

} // verus!
