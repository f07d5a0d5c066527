//! Raw deflate streams.
use super::WireError;
use vstd::prelude::*;

verus! {

/// The error of a deflate stream that does not inflate.
#[verifier::external_type_specification]
#[verifier::external_body]
pub struct ExDecompressError(miniz_oxide::inflate::DecompressError);

/// The deflate stream of some bytes at a compression level.
pub uninterp spec fn deflated(bytes: Seq<u8>, level: u8) -> Seq<u8>;

/// The bytes that a deflate stream holds, when it is valid and they are no
/// more than a limit.
pub uninterp spec fn inflated(stream: Seq<u8>, limit: usize) -> Option<Seq<u8>>;

/// `miniz_oxide::deflate::compress_to_vec`: the raw deflate stream of the
/// bytes, for a level of 0 to 10. The stream inflates to the same bytes under
/// every limit that is at least their number.
#[verifier::external_body]
pub(crate) fn compress_to_vec(bytes: &[u8], level: u8) -> (r: Vec<u8>)
    requires
        level <= 10,
    ensures
        r@ == deflated(bytes@, level),
        forall|limit: usize|
            bytes@.len() <= limit ==> #[trigger] inflated(r@, limit) == Some(bytes@),
{
    miniz_oxide::deflate::compress_to_vec(bytes, level)
}

/// `miniz_oxide::inflate::decompress_to_vec_with_limit`: the bytes that a raw
/// deflate stream holds. It fails on a stream that is not valid and on one
/// that holds more than `limit` bytes.
#[verifier::external_body]
fn decompress_to_vec_with_limit(stream: &[u8], limit: usize) -> (r: Result<
    Vec<u8>,
    miniz_oxide::inflate::DecompressError,
>)
    ensures
        match r {
            Ok(bytes) => inflated(stream@, limit) == Some(bytes@) && bytes@.len() <= limit,
            Err(_) => inflated(stream@, limit) is None,
        },
{
    miniz_oxide::inflate::decompress_to_vec_with_limit(stream, limit)
}

/// Inflate a stream that holds at most `limit` bytes.
pub fn unpack(stream: &[u8], limit: usize) -> (r: Result<Vec<u8>, WireError>)
    ensures
        match r {
            Ok(bytes) => inflated(stream@, limit) == Some(bytes@) && bytes@.len() <= limit,
            Err(error) => inflated(stream@, limit) is None && error == WireError::Inflate,
        },
{
    match decompress_to_vec_with_limit(stream, limit) {
        Ok(bytes) => Ok(bytes),
        Err(_) => Err(WireError::Inflate),
    }
}

/// Deflate bytes at the fastest level.
pub fn pack(bytes: &[u8]) -> (r: Vec<u8>)
    ensures
        r@ == deflated(bytes@, 1),
        forall|limit: usize|
            bytes@.len() <= limit ==> #[trigger] inflated(r@, limit) == Some(bytes@),
{
    compress_to_vec(bytes, 1)
}

} // verus!
