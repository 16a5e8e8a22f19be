//! The payload codec: a lossless byte-stream compressor.
//!
//! The archive serializer turns the staging tree into a single byte stream;
//! this module compresses that stream for embedding in the bundle and
//! decompresses it again at launch.  The compressor itself is zstd, reached
//! through trusted wrappers; its one property the rest of the library
//! relies on is that decompression inverts compression.

use vstd::prelude::*;

use crate::BundleError;

verus! {

/// What zstd decompression yields on a byte sequence: the decompressed
/// bytes when the input is a well-formed compressed stream, nothing
/// otherwise.  Decompression is a function of the input bytes alone.
pub uninterp spec fn zstd_decompressed(data: Seq<u8>) -> Option<Seq<u8>>;

/// Relies on zstd's stream `Encoder` (here with long-distance matching
/// switched on, which helps on large, redundant library payloads): at a
/// level in the accepted range, encoding to an in-memory buffer has no
/// error return, and the stream it produces decompresses to exactly the
/// input bytes.
#[verifier::external_body]
fn zstd_compress(data: &Vec<u8>, level: i32) -> (r: Result<Vec<u8>, BundleError>)
    requires
        1 <= level <= 22,
    ensures
        r is Ok,
        r matches Ok(c) ==> zstd_decompressed(c@) == Some(data@),
{
    let mut enc = match zstd::stream::write::Encoder::new(Vec::new(), level) {
        Ok(enc) => enc,
        Err(_) => return Err(BundleError::CodecFailed),
    };
    if enc.long_distance_matching(true).is_err() {
        return Err(BundleError::CodecFailed);
    }
    if std::io::Write::write_all(&mut enc, data.as_slice()).is_err() {
        return Err(BundleError::CodecFailed);
    }
    enc.finish().map_err(|_| BundleError::CodecFailed)
}

/// Relies on zstd's stream decoder (`zstd::stream::decode_all`): it returns
/// the decompressed bytes of a well-formed compressed stream and fails on
/// any other input.
#[verifier::external_body]
fn zstd_decompress(data: &Vec<u8>) -> (r: Result<Vec<u8>, BundleError>)
    ensures
        r matches Ok(d) ==> zstd_decompressed(data@) == Some(d@),
        r is Err <==> zstd_decompressed(data@) is None,
        r matches Err(e) ==> e == BundleError::CodecFailed,
{
    zstd::stream::decode_all(data.as_slice()).map_err(|_| BundleError::CodecFailed)
}

/// Compresses a serialized staging tree at the given level (the accepted
/// range is 1 to 22).  It succeeds, and the result is a stream that
/// [`unpack_payload`] turns back into exactly `archive`.
pub fn pack_payload(archive: &Vec<u8>, level: i32) -> (r: Result<Vec<u8>, BundleError>)
    requires
        1 <= level <= 22,
    ensures
        r is Ok,
        r matches Ok(c) ==> zstd_decompressed(c@) == Some(archive@),
{
    zstd_compress(archive, level)
}

/// Decompresses an embedded payload back into the serialized staging tree.
/// It succeeds exactly on well-formed compressed streams, and on the output
/// of [`pack_payload`] it returns the bytes that were packed.
pub fn unpack_payload(compressed: &Vec<u8>) -> (r: Result<Vec<u8>, BundleError>)
    ensures
        r matches Ok(d) ==> zstd_decompressed(compressed@) == Some(d@),
        r is Err <==> zstd_decompressed(compressed@) is None,
        r matches Err(e) ==> e == BundleError::CodecFailed,
{
    zstd_decompress(compressed)
}

} // verus!
