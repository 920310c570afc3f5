use vstd::prelude::*;

verus! {

/// `std::io::Error`, the error `zstd::bulk::decompress` reports.
#[verifier::external_type_specification]
#[verifier::external_body]
pub struct ExIoError(std::io::Error);

/// `lz4_flex::block::DecompressError`, the error LZ4 block decompression reports.
#[verifier::external_type_specification]
#[verifier::external_body]
pub struct ExLz4DecompressError(lz4_flex::block::DecompressError);

/// What `zstd::bulk::decompress(data, capacity)` yields: the decompressed
/// bytes, or `None` where it fails.
pub uninterp spec fn zstd_decompressed(data: Seq<u8>, capacity: usize) -> Option<Seq<u8>>;

/// What `lz4_flex::block::decompress(data, min_uncompressed_size)` yields: the
/// decompressed bytes, or `None` where it fails.
pub uninterp spec fn lz4_decompressed(data: Seq<u8>, min_uncompressed_size: usize) -> Option<Seq<u8>>;

/// Calls `zstd::bulk::decompress`.
///
/// The contract claims only that the outcome is a function of the input bytes
/// and the capacity, named `zstd_decompressed`; what those bytes are is left
/// to the zstd format and not stated.
#[verifier::external_body]
pub(crate) fn zstd_decompress(data: &[u8], capacity: usize) -> (res: Result<Vec<u8>, std::io::Error>)
    ensures
        match res {
            Ok(v) => zstd_decompressed(data@, capacity) == Some(v@),
            Err(_) => zstd_decompressed(data@, capacity) is None,
        },
{
    zstd::bulk::decompress(data, capacity)
}

/// Calls `lz4_flex::block::decompress`.
///
/// The contract claims only that the outcome is a function of the input bytes
/// and the size bound, named `lz4_decompressed`; what those bytes are is left
/// to the LZ4 block format and not stated. The crate's documentation says the
/// call may panic when the bound is below the real size; with the crate's
/// default features (`safe-decode`, `checked-decode`) its source checks every
/// write against the output length and returns `OutputTooSmall` instead.
#[verifier::external_body]
pub(crate) fn lz4_decompress(data: &[u8], min_uncompressed_size: usize) -> (res: Result<Vec<u8>, lz4_flex::block::DecompressError>)
    ensures
        match res {
            Ok(v) => lz4_decompressed(data@, min_uncompressed_size) == Some(v@),
            Err(_) => lz4_decompressed(data@, min_uncompressed_size) is None,
        },
{
    lz4_flex::block::decompress(data, min_uncompressed_size)
}

} // verus!
