//! The decompression stage and the layer extraction pipeline.
//!
//! A layer blob travels inside a synthetic OCI-archive tar, stored at
//! `blobs/sha256/<blobid>`, and is itself a gzip-compressed tar stream.
//! Extraction locates that one entry, takes its exact content bytes, and
//! hands the decompressed result onward, byte for byte.

use vstd::prelude::*;

use crate::errors::ImportError;
use crate::tardemux::{demux, spec_blob_path, spec_demux, spec_find_entry, take_blob_entry};

verus! {

/// What gzip decompression yields on a given compressed stream.  The
/// decoding is carried out by an outside library; the name stands for
/// its result, which depends on the input bytes alone.
pub uninterp spec fn gunzip_of(compressed: Seq<u8>) -> Seq<u8>;

/// Whether a byte sequence is a complete, well-formed gzip stream that
/// decompression accepts.  Acceptance, like the result, is a function of
/// the input bytes alone; the name stands for it.
pub uninterp spec fn gunzip_ok(compressed: Seq<u8>) -> bool;

/// Relies on flate2's `GzDecoder` over an in-memory slice: reading it to
/// the end is deterministic in the input bytes — it yields the
/// decompressed bytes exactly when the input is a complete, well-formed
/// gzip stream, and fails exactly otherwise.
#[verifier::external_body]
fn gunzip(compressed: &[u8]) -> (r: Option<Vec<u8>>)
    ensures
        r is Some <==> gunzip_ok(compressed@),
        r is Some ==> r.unwrap()@ == gunzip_of(compressed@),
{
    let mut decoder = flate2::read::GzDecoder::new(compressed);
    let mut out: Vec<u8> = Vec::new();
    match std::io::Read::read_to_end(&mut decoder, &mut out) {
        Ok(_) => Some(out),
        Err(_) => None,
    }
}

/// The blob stored under `blobid` in a synthetic OCI-archive stream:
/// the exact content bytes of the first entry at `blobs/sha256/<blobid>`,
/// or the first fault met on the way there.
pub open spec fn spec_extract_blob(s: Seq<u8>, blobid: Seq<u8>) -> Result<Seq<u8>, ImportError> {
    match spec_demux(s) {
        Err(e) => Err(e),
        Ok(es) => match spec_find_entry(es, spec_blob_path(blobid)) {
            None => Err(ImportError::BlobNotFound),
            Some(i) => match es[i].content {
                Some(c) => Ok(c),
                None => Err(ImportError::NotRegularFile),
            },
        },
    }
}

/// Locates the blob entry `blobs/sha256/<blobid>` in a synthetic
/// OCI-archive tar stream and returns its exact content bytes.
pub fn extract_blob(archive: &[u8], blobid: &[u8]) -> (r: Result<Vec<u8>, ImportError>)
    ensures
        match r {
            Ok(v) => spec_extract_blob(archive@, blobid@) == Ok::<Seq<u8>, ImportError>(v@),
            Err(e) => spec_extract_blob(archive@, blobid@) == Err::<Seq<u8>, ImportError>(e),
        },
{
    let entries = match demux(archive) {
        Ok(es) => es,
        Err(e) => {
            return Err(e);
        },
    };
    let entry = match take_blob_entry(entries, blobid) {
        Ok(e) => e,
        Err(e) => {
            return Err(e);
        },
    };
    match entry.content {
        Some(c) => Ok(c),
        None => Err(ImportError::NotRegularFile),
    }
}

/// Extracts the layer blob under `blobid` and decompresses it.  Success
/// is owed: the call returns `Ok` exactly when the blob entry is
/// present, regular, and a well-formed gzip stream, and then the result
/// is exactly the decompressed content of the blob entry, byte for
/// byte.
pub fn extract_layer(archive: &[u8], blobid: &[u8]) -> (r: Result<Vec<u8>, ImportError>)
    ensures
        r is Ok <==> spec_extract_blob(archive@, blobid@) is Ok && gunzip_ok(
            spec_extract_blob(archive@, blobid@)->Ok_0,
        ),
        r is Ok ==> r->Ok_0@ == gunzip_of(spec_extract_blob(archive@, blobid@)->Ok_0),
        r is Err ==> (match spec_extract_blob(archive@, blobid@) {
            Err(e) => r == Result::<Vec<u8>, ImportError>::Err(e),
            Ok(c) => !gunzip_ok(c) && r == Result::<Vec<u8>, ImportError>::Err(
                ImportError::DecompressFailed,
            ),
        }),
{
    let blob = match extract_blob(archive, blobid) {
        Ok(v) => v,
        Err(e) => {
            return Err(e);
        },
    };
    match gunzip(blob.as_slice()) {
        Some(v) => Ok(v),
        None => Err(ImportError::DecompressFailed),
    }
}

} // verus!
