//! Unpacking the compressed bundles in which the tables are shipped.
//!
//! A bundle is one gzip member. Turning the unpacked bytes into rows is the
//! caller's business; the rows then go to `BlockRegistry::new`.

use flate2::bufread::GzDecoder;
use std::io::Read;
use vstd::prelude::*;

verus! {

/// Why a bundle could not be unpacked.
#[derive(Clone, Copy, Debug, PartialEq, Eq, Structural)]
pub enum BundleError {
    /// The bytes are not one well-formed gzip member.
    MalformedArchive,
}

/// What decoding `data` as one gzip member yields: the uncompressed bytes, or
/// `None` where the header, the compressed stream or the checksum is wrong.
pub uninterp spec fn gzip_payload(data: Seq<u8>) -> Option<Seq<u8>>;

/// `flate2::bufread::GzDecoder`, read to its end: the member's uncompressed
/// bytes, or `None` where the decoder reports an error. The decoder reads
/// one member and ignores what follows it.
#[verifier::external_body]
fn gunzip(data: &[u8]) -> (r: Option<Vec<u8>>)
    ensures
        r is Some <==> gzip_payload(data@) is Some,
        r matches Some(bytes) ==> gzip_payload(data@) == Some(bytes@),
{
    let mut out = Vec::new();
    match GzDecoder::new(data).read_to_end(&mut out) {
        Ok(_) => Some(out),
        Err(_) => None,
    }
}

/// Unpacks one compressed bundle.
pub fn unpack_bundle(data: &[u8]) -> (r: Result<Vec<u8>, BundleError>)
    ensures
        r is Ok <==> gzip_payload(data@) is Some,
        r matches Ok(bytes) ==> gzip_payload(data@) == Some(bytes@),
        r matches Err(fault) ==> fault == BundleError::MalformedArchive,
{
    match gunzip(data) {
        Some(bytes) => Ok(bytes),
        None => Err(BundleError::MalformedArchive),
    }
}

} // verus!
