//! Archive extractor, compute half: decompresses a cached archive's bytes.
//! The decompressed bytes form a tar stream; unpacking that stream onto the
//! filesystem is the shell's side of the operation.
use vstd::prelude::*;

use crate::errors::VmError;

verus! {

/// What gzip decompression yields for a byte stream: the decompressed bytes,
/// or nothing when the stream is not a well-formed gzip member. The result
/// depends on the input bytes alone.
pub uninterp spec fn gunzip_of(s: Seq<u8>) -> Option<Seq<u8>>;

/// Relies on flate2's `bufread::GzDecoder` read to the end over an in-memory
/// buffer: it decodes the gzip member that the bytes hold, deterministically,
/// and reports corrupt or truncated input as an error.
#[verifier::external_body]
fn gunzip(archive: &Vec<u8>) -> (r: Result<Vec<u8>, ()>)
    ensures
        (match r {
            Ok(v) => gunzip_of(archive@) == Option::Some(v@),
            Err(_) => gunzip_of(archive@) is None,
        }),
{
    let mut decoder = flate2::bufread::GzDecoder::new(archive.as_slice());
    let mut out: Vec<u8> = Vec::new();
    match std::io::Read::read_to_end(&mut decoder, &mut out) {
        Ok(_) => Ok(out),
        Err(_) => Err(()),
    }
}

/// Decompresses a cached archive. The result is the archive's tar stream;
/// input that is not a well-formed gzip stream is an extraction failure.
pub fn decompress(archive: &Vec<u8>) -> (r: Result<Vec<u8>, VmError>)
    ensures
        (match r {
            Ok(v) => gunzip_of(archive@) == Option::Some(v@),
            Err(e) => e is ExtractFailed && gunzip_of(archive@) is None,
        }),
{
    match gunzip(archive) {
        Ok(v) => Ok(v),
        Err(_) => Err(VmError::ExtractFailed),
    }
}

} // verus!
