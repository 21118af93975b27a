//! The pipeline's error taxonomy.
//!
//! Every stage reports a typed failure.  `ImportError::message` renders the
//! descriptive text of each failure; its contract pins the text down
//! exactly, so that callers can rely on a process failure carrying the
//! captured standard-error bytes verbatim.

use vstd::prelude::*;

use crate::util::{decimal_bytes, push_all, spec_decimal};

verus! {

/// ASCII "Failed to parse image reference".
pub const MSG_REFERENCE_PARSE: [u8; 31] = [70u8, 97u8, 105u8, 108u8, 101u8, 100u8, 32u8, 116u8, 111u8, 32u8, 112u8, 97u8, 114u8, 115u8, 101u8, 32u8, 105u8, 109u8, 97u8, 103u8, 101u8, 32u8, 114u8, 101u8, 102u8, 101u8, 114u8, 101u8, 110u8, 99u8, 101u8];

/// ASCII "Failed to exec skopeo".
pub const MSG_SPAWN: [u8; 21] = [70u8, 97u8, 105u8, 108u8, 101u8, 100u8, 32u8, 116u8, 111u8, 32u8, 101u8, 120u8, 101u8, 99u8, 32u8, 115u8, 107u8, 111u8, 112u8, 101u8, 111u8];

/// ASCII "skopeo failed" followed by a newline.
pub const MSG_PROCESS_FAILED: [u8; 14] = [115u8, 107u8, 111u8, 112u8, 101u8, 111u8, 32u8, 102u8, 97u8, 105u8, 108u8, 101u8, 100u8, 10u8];

/// ASCII "skopeo inspect failed" followed by a newline.
pub const MSG_INSPECT_FAILED: [u8; 22] = [115u8, 107u8, 111u8, 112u8, 101u8, 111u8, 32u8, 105u8, 110u8, 115u8, 112u8, 101u8, 99u8, 116u8, 32u8, 102u8, 97u8, 105u8, 108u8, 101u8, 100u8, 10u8];

/// ASCII "Failed to parse image manifest".
pub const MSG_MANIFEST_PARSE: [u8; 30] = [70u8, 97u8, 105u8, 108u8, 101u8, 100u8, 32u8, 116u8, 111u8, 32u8, 112u8, 97u8, 114u8, 115u8, 101u8, 32u8, 105u8, 109u8, 97u8, 103u8, 101u8, 32u8, 109u8, 97u8, 110u8, 105u8, 102u8, 101u8, 115u8, 116u8];

/// ASCII "No layers found (orig: ".
pub const MSG_NO_LAYERS: [u8; 23] = [78u8, 111u8, 32u8, 108u8, 97u8, 121u8, 101u8, 114u8, 115u8, 32u8, 102u8, 111u8, 117u8, 110u8, 100u8, 32u8, 40u8, 111u8, 114u8, 105u8, 103u8, 58u8, 32u8];

/// ASCII "Expected 1 layer, found ".
pub const MSG_AMBIGUOUS: [u8; 24] = [69u8, 120u8, 112u8, 101u8, 99u8, 116u8, 101u8, 100u8, 32u8, 49u8, 32u8, 108u8, 97u8, 121u8, 101u8, 114u8, 44u8, 32u8, 102u8, 111u8, 117u8, 110u8, 100u8, 32u8];

/// ASCII "Expected sha256: in digest: ".
pub const MSG_BAD_DIGEST: [u8; 28] = [69u8, 120u8, 112u8, 101u8, 99u8, 116u8, 101u8, 100u8, 32u8, 115u8, 104u8, 97u8, 50u8, 53u8, 54u8, 58u8, 32u8, 105u8, 110u8, 32u8, 100u8, 105u8, 103u8, 101u8, 115u8, 116u8, 58u8, 32u8];

/// ASCII "Malformed tar header".
pub const MSG_MALFORMED_HEADER: [u8; 20] = [77u8, 97u8, 108u8, 102u8, 111u8, 114u8, 109u8, 101u8, 100u8, 32u8, 116u8, 97u8, 114u8, 32u8, 104u8, 101u8, 97u8, 100u8, 101u8, 114u8];

/// ASCII "Unexpected EOF in tar archive".
pub const MSG_TRUNCATED: [u8; 29] = [85u8, 110u8, 101u8, 120u8, 112u8, 101u8, 99u8, 116u8, 101u8, 100u8, 32u8, 69u8, 79u8, 70u8, 32u8, 105u8, 110u8, 32u8, 116u8, 97u8, 114u8, 32u8, 97u8, 114u8, 99u8, 104u8, 105u8, 118u8, 101u8];

/// ASCII "Couldn't find entry".
pub const MSG_BLOB_NOT_FOUND: [u8; 19] = [67u8, 111u8, 117u8, 108u8, 100u8, 110u8, 39u8, 116u8, 32u8, 102u8, 105u8, 110u8, 100u8, 32u8, 101u8, 110u8, 116u8, 114u8, 121u8];

/// ASCII "Blob layer is not a regular file".
pub const MSG_NOT_REGULAR: [u8; 32] = [66u8, 108u8, 111u8, 98u8, 32u8, 108u8, 97u8, 121u8, 101u8, 114u8, 32u8, 105u8, 115u8, 32u8, 110u8, 111u8, 116u8, 32u8, 97u8, 32u8, 114u8, 101u8, 103u8, 117u8, 108u8, 97u8, 114u8, 32u8, 102u8, 105u8, 108u8, 101u8];

/// ASCII "Failed to compute digest".
pub const MSG_DIGEST_FAILED: [u8; 24] = [70u8, 97u8, 105u8, 108u8, 101u8, 100u8, 32u8, 116u8, 111u8, 32u8, 99u8, 111u8, 109u8, 112u8, 117u8, 116u8, 101u8, 32u8, 100u8, 105u8, 103u8, 101u8, 115u8, 116u8];

/// ASCII "Failed to decompress layer".
pub const MSG_DECOMPRESS: [u8; 26] = [70u8, 97u8, 105u8, 108u8, 101u8, 100u8, 32u8, 116u8, 111u8, 32u8, 100u8, 101u8, 99u8, 111u8, 109u8, 112u8, 114u8, 101u8, 115u8, 115u8, 32u8, 108u8, 97u8, 121u8, 101u8, 114u8];

/// ASCII "I/O error: ".
pub const MSG_IO: [u8; 11] = [73u8, 47u8, 79u8, 32u8, 101u8, 114u8, 114u8, 111u8, 114u8, 58u8, 32u8];

/// One failure of the import pipeline.  Each stage reports a typed error;
/// the orchestration surfaces the first one observed.
#[derive(Debug)]
pub enum ImportError {
    /// The image reference string is malformed.
    ReferenceParse,
    /// The external helper program could not be started.
    Spawn,
    /// The external helper exited with a failure; `stderr` holds its
    /// captured diagnostic output.
    ProcessFailed { stderr: Vec<u8> },
    /// The manifest-inspection run of the external helper exited with a
    /// failure; `stderr` holds its captured diagnostic output.
    InspectFailed { stderr: Vec<u8> },
    /// The raw manifest bytes are not a manifest.
    ManifestParse,
    /// No layer of a recognized media type is present; `total` is the
    /// number of layers the manifest listed.
    NoLayersFound { total: usize },
    /// More than one layer of a recognized media type is present.
    AmbiguousLayers { count: usize },
    /// The selected layer's digest does not carry the expected algorithm
    /// prefix.
    BadLayerDigest { digest: Vec<u8> },
    /// A tar header block could not be understood.
    MalformedHeader,
    /// The tar stream ended in the middle of a header or of entry data.
    TruncatedArchive,
    /// The synthetic archive holds no entry for the wanted blob.
    BlobNotFound,
    /// The wanted blob entry is not a regular file and so carries no
    /// content.
    NotRegularFile,
    /// The digest of the raw manifest bytes could not be computed.
    DigestFailed,
    /// The layer blob is not a readable gzip stream.
    DecompressFailed,
    /// The repository import collaborator failed; its text is passed
    /// through verbatim.
    ImportFailed { detail: Vec<u8> },
    /// An operating-system I/O failure outside any other category.
    Io { detail: Vec<u8> },
}

/// The descriptive text of each failure, as bytes.
pub open spec fn spec_message(e: ImportError) -> Seq<u8> {
    match e {
        ImportError::ReferenceParse => MSG_REFERENCE_PARSE@,
        ImportError::Spawn => MSG_SPAWN@,
        ImportError::ProcessFailed { stderr } => MSG_PROCESS_FAILED@ + stderr@,
        ImportError::InspectFailed { stderr } => MSG_INSPECT_FAILED@ + stderr@,
        ImportError::ManifestParse => MSG_MANIFEST_PARSE@,
        ImportError::NoLayersFound { total } => MSG_NO_LAYERS@ + spec_decimal(total as nat)
            + seq![41u8],
        ImportError::AmbiguousLayers { count } => MSG_AMBIGUOUS@ + spec_decimal(count as nat),
        ImportError::BadLayerDigest { digest } => MSG_BAD_DIGEST@ + digest@,
        ImportError::MalformedHeader => MSG_MALFORMED_HEADER@,
        ImportError::TruncatedArchive => MSG_TRUNCATED@,
        ImportError::BlobNotFound => MSG_BLOB_NOT_FOUND@,
        ImportError::NotRegularFile => MSG_NOT_REGULAR@,
        ImportError::DigestFailed => MSG_DIGEST_FAILED@,
        ImportError::DecompressFailed => MSG_DECOMPRESS@,
        ImportError::ImportFailed { detail } => detail@,
        ImportError::Io { detail } => MSG_IO@ + detail@,
    }
}

impl ImportError {
    /// Renders the failure's descriptive text.
    pub fn message(&self) -> (r: Vec<u8>)
        ensures
            r@ == spec_message(*self),
    {
        let mut v: Vec<u8> = Vec::new();
        match self {
            ImportError::ReferenceParse => {
                push_all(&mut v, MSG_REFERENCE_PARSE.as_slice());
            },
            ImportError::Spawn => {
                push_all(&mut v, MSG_SPAWN.as_slice());
            },
            ImportError::ProcessFailed { stderr } => {
                push_all(&mut v, MSG_PROCESS_FAILED.as_slice());
                push_all(&mut v, stderr.as_slice());
            },
            ImportError::InspectFailed { stderr } => {
                push_all(&mut v, MSG_INSPECT_FAILED.as_slice());
                push_all(&mut v, stderr.as_slice());
            },
            ImportError::ManifestParse => {
                push_all(&mut v, MSG_MANIFEST_PARSE.as_slice());
            },
            ImportError::NoLayersFound { total } => {
                push_all(&mut v, MSG_NO_LAYERS.as_slice());
                let d = decimal_bytes(*total as u64);
                push_all(&mut v, d.as_slice());
                v.push(41u8);
            },
            ImportError::AmbiguousLayers { count } => {
                push_all(&mut v, MSG_AMBIGUOUS.as_slice());
                let d = decimal_bytes(*count as u64);
                push_all(&mut v, d.as_slice());
            },
            ImportError::BadLayerDigest { digest } => {
                push_all(&mut v, MSG_BAD_DIGEST.as_slice());
                push_all(&mut v, digest.as_slice());
            },
            ImportError::MalformedHeader => {
                push_all(&mut v, MSG_MALFORMED_HEADER.as_slice());
            },
            ImportError::TruncatedArchive => {
                push_all(&mut v, MSG_TRUNCATED.as_slice());
            },
            ImportError::BlobNotFound => {
                push_all(&mut v, MSG_BLOB_NOT_FOUND.as_slice());
            },
            ImportError::NotRegularFile => {
                push_all(&mut v, MSG_NOT_REGULAR.as_slice());
            },
            ImportError::DigestFailed => {
                push_all(&mut v, MSG_DIGEST_FAILED.as_slice());
            },
            ImportError::DecompressFailed => {
                push_all(&mut v, MSG_DECOMPRESS.as_slice());
            },
            ImportError::ImportFailed { detail } => {
                push_all(&mut v, detail.as_slice());
            },
            ImportError::Io { detail } => {
                push_all(&mut v, MSG_IO.as_slice());
                push_all(&mut v, detail.as_slice());
            },
        }
        v
    }
}

/// A process failure's message carries the captured standard-error bytes
/// verbatim: the text is exactly the fixed prefix followed by those bytes,
/// whatever they hold.
pub proof fn lemma_process_failed_message_verbatim(stderr: Vec<u8>)
    ensures
        spec_message(ImportError::ProcessFailed { stderr }) == MSG_PROCESS_FAILED@ + stderr@,
        spec_message(ImportError::ProcessFailed { stderr }).skip(MSG_PROCESS_FAILED@.len() as int)
            =~= stderr@,
{
}

/// An inspection failure's message names the inspect stage and carries
/// the captured standard-error bytes verbatim as its suffix.
pub proof fn lemma_inspect_failed_message_verbatim(stderr: Vec<u8>)
    ensures
        spec_message(ImportError::InspectFailed { stderr }) == MSG_INSPECT_FAILED@ + stderr@,
        spec_message(ImportError::InspectFailed { stderr }).skip(MSG_INSPECT_FAILED@.len() as int)
            =~= stderr@,
{
}

} // verus!
