use bytes::Bytes;
use vstd::prelude::*;

verus! {

#[verifier::external_type_specification]
#[verifier::external_body]
pub struct ExBytes(Bytes);

/// The bytes that a buffer holds, in order.
pub uninterp spec fn bytes_content(buffer: Bytes) -> Seq<u8>;

/// `Bytes::len` of bytes: the number of bytes in the buffer.
#[verifier::external_body]
pub(crate) fn bytes_len(buffer: &Bytes) -> (len: usize)
    ensures
        len == bytes_content(*buffer).len(),
{
    buffer.len()
}

/// `Bytes::from` of bytes, on a vector: a buffer that holds the vector's bytes.
#[verifier::external_body]
pub(crate) fn bytes_from(bytes: Vec<u8>) -> (buffer: Bytes)
    ensures
        bytes_content(buffer) == bytes@,
{
    Bytes::from(bytes)
}

/// `Bytes::clone` of bytes: another handle on the same bytes.
pub assume_specification[ <Bytes as Clone>::clone ](buffer: &Bytes) -> (clone: Bytes)
    ensures
        bytes_content(clone) == bytes_content(*buffer),
;

} // verus!
