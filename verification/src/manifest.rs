//! The manifest model and the layer selector.
//!
//! An image manifest lists layer blobs; the pipeline must pick the one
//! blob that carries the filesystem content.  Selection never guesses:
//! zero recognized layers and more than one recognized layer are both
//! hard errors.

use vstd::prelude::*;

use crate::errors::ImportError;
use crate::util::bytes_eq;

verus! {

/// ASCII "application/vnd.docker.image.rootfs.diff.tar.gzip".
pub const DOCKER_TYPE_LAYER: [u8; 49] = [97u8, 112u8, 112u8, 108u8, 105u8, 99u8, 97u8, 116u8, 105u8, 111u8, 110u8, 47u8, 118u8, 110u8, 100u8, 46u8, 100u8, 111u8, 99u8, 107u8, 101u8, 114u8, 46u8, 105u8, 109u8, 97u8, 103u8, 101u8, 46u8, 114u8, 111u8, 111u8, 116u8, 102u8, 115u8, 46u8, 100u8, 105u8, 102u8, 102u8, 46u8, 116u8, 97u8, 114u8, 46u8, 103u8, 122u8, 105u8, 112u8];

/// ASCII "application/vnd.oci.image.layer.v1.tar+gzip".
pub const OCI_TYPE_LAYER: [u8; 43] = [97u8, 112u8, 112u8, 108u8, 105u8, 99u8, 97u8, 116u8, 105u8, 111u8, 110u8, 47u8, 118u8, 110u8, 100u8, 46u8, 111u8, 99u8, 105u8, 46u8, 105u8, 109u8, 97u8, 103u8, 101u8, 46u8, 108u8, 97u8, 121u8, 101u8, 114u8, 46u8, 118u8, 49u8, 46u8, 116u8, 97u8, 114u8, 43u8, 103u8, 122u8, 105u8, 112u8];

/// ASCII "sha256:".
pub const SHA256_PREFIX: [u8; 7] = [115u8, 104u8, 97u8, 50u8, 53u8, 54u8, 58u8];

/// One layer listed by an image manifest.
#[derive(Debug)]
pub struct ManifestLayerDescriptor {
    /// The blob's content type.
    pub media_type: Vec<u8>,
    /// The blob's content address, normally `sha256:` followed by hex
    /// digits.
    pub digest: Vec<u8>,
    /// The blob's size in bytes.
    pub size: u64,
}

/// The mathematical image of one layer descriptor.
pub struct SpecLayerDescriptor {
    pub media_type: Seq<u8>,
    pub digest: Seq<u8>,
    pub size: u64,
}

impl View for ManifestLayerDescriptor {
    type V = SpecLayerDescriptor;

    open spec fn view(&self) -> SpecLayerDescriptor {
        SpecLayerDescriptor {
            media_type: self.media_type@,
            digest: self.digest@,
            size: self.size,
        }
    }
}

/// The part of an image manifest the pipeline reads: the ordered list of
/// its layers.
#[derive(Debug)]
pub struct Manifest {
    pub layers: Vec<ManifestLayerDescriptor>,
}

impl View for Manifest {
    type V = Seq<SpecLayerDescriptor>;

    open spec fn view(&self) -> Seq<SpecLayerDescriptor> {
        self.layers@.map_values(|l: ManifestLayerDescriptor| l@)
    }
}

/// A media type that marks a layer as filesystem content: exactly the
/// Docker layer type and the OCI layer type.
pub open spec fn spec_is_layer_type(media_type: Seq<u8>) -> bool {
    media_type == DOCKER_TYPE_LAYER@ || media_type == OCI_TYPE_LAYER@
}

/// The layers of recognized media type, in manifest order.
pub open spec fn spec_matching_layers(layers: Seq<SpecLayerDescriptor>) -> Seq<
    SpecLayerDescriptor,
>
    decreases layers.len(),
{
    if layers.len() == 0 {
        Seq::empty()
    } else {
        let rest = spec_matching_layers(layers.drop_last());
        if spec_is_layer_type(layers.last().media_type) {
            rest.push(layers.last())
        } else {
            rest
        }
    }
}

/// The blob id of a digest of the form `sha256:` + id; `None` for any
/// other form.
pub open spec fn spec_strip_sha256(digest: Seq<u8>) -> Option<Seq<u8>> {
    if digest.len() >= 7 && digest.take(7) == SHA256_PREFIX@ {
        Some(digest.skip(7))
    } else {
        None
    }
}

/// Holds when `r` is the bad-digest failure carrying exactly `digest`.
pub open spec fn is_bad_digest_err(r: Result<Vec<u8>, ImportError>, digest: Seq<u8>) -> bool {
    match r {
        Err(ImportError::BadLayerDigest { digest: d }) => d@ == digest,
        _ => false,
    }
}

/// True exactly when the media type is one of the two recognized layer
/// content types.
pub fn is_layer_media_type(media_type: &[u8]) -> (r: bool)
    ensures
        r == spec_is_layer_type(media_type@),
{
    bytes_eq(media_type, DOCKER_TYPE_LAYER.as_slice()) || bytes_eq(
        media_type,
        OCI_TYPE_LAYER.as_slice(),
    )
}

/// Selects the single filesystem layer of a manifest and returns its blob
/// id: the digest of the one layer of recognized media type, with the
/// `sha256:` prefix removed.
///
/// Zero recognized layers, more than one recognized layer, and a digest
/// without the `sha256:` prefix are each a distinct hard error.
pub fn find_layer_blobid(manifest: &Manifest) -> (r: Result<Vec<u8>, ImportError>)
    ensures
        r is Ok <==> spec_matching_layers(manifest@).len() == 1 && spec_strip_sha256(
            spec_matching_layers(manifest@)[0].digest,
        ) is Some,
        r is Ok ==> r->Ok_0@ == spec_strip_sha256(spec_matching_layers(manifest@)[0].digest)->0,
        spec_matching_layers(manifest@).len() == 0 ==> r == Result::<Vec<u8>, ImportError>::Err(
            ImportError::NoLayersFound { total: manifest.layers.len() },
        ),
        spec_matching_layers(manifest@).len() > 1 ==> r == Result::<Vec<u8>, ImportError>::Err(
            ImportError::AmbiguousLayers { count: spec_matching_layers(manifest@).len() as usize },
        ),
        spec_matching_layers(manifest@).len() == 1 && spec_strip_sha256(
            spec_matching_layers(manifest@)[0].digest,
        ) is None ==> is_bad_digest_err(r, spec_matching_layers(manifest@)[0].digest),
{
    let mut count: usize = 0;
    let mut first: usize = 0;
    let mut i: usize = 0;
    while i < manifest.layers.len()
        invariant
            i <= manifest.layers@.len(),
            manifest@.len() == manifest.layers@.len(),
            count == spec_matching_layers(manifest@.take(i as int)).len(),
            count <= i,
            count > 0 ==> first < i && spec_is_layer_type(manifest@[first as int].media_type)
                && spec_matching_layers(
                manifest@.take(i as int),
            )[0] == manifest@[first as int],
        decreases manifest.layers@.len() - i,
    {
        let ghost s = manifest@;
        let ghost iprev = i as int;
        proof {
            assert(s.take(iprev + 1).drop_last() =~= s.take(iprev));
            assert(s.take(iprev + 1).last() == s[iprev]);
        }
        if is_layer_media_type(manifest.layers[i].media_type.as_slice()) {
            if count == 0 {
                first = i;
            }
            count = count + 1;
        }
        proof {
            let a = s.take(iprev + 1);
            assert(a.len() == iprev + 1);
            assert(a.drop_last() =~= s.take(iprev));
            assert(a.last() == s[iprev]);
            if spec_is_layer_type(s[iprev].media_type) {
                assert(spec_matching_layers(a) =~= spec_matching_layers(s.take(iprev)).push(
                    s[iprev],
                ));
            } else {
                assert(spec_matching_layers(a) =~= spec_matching_layers(s.take(iprev)));
            }
        }
        i = i + 1;
    }
    proof {
        assert(manifest@.take(manifest@.len() as int) =~= manifest@);
    }
    if count == 0 {
        Err(ImportError::NoLayersFound { total: manifest.layers.len() })
    } else if count > 1 {
        Err(ImportError::AmbiguousLayers { count })
    } else {
        let digest: &Vec<u8> = &manifest.layers[first].digest;
        if digest.len() >= 7 {
            let head = vstd::slice::slice_subrange(digest.as_slice(), 0, 7);
            if bytes_eq(head, SHA256_PREFIX.as_slice()) {
                let tail = vstd::slice::slice_subrange(digest.as_slice(), 7, digest.len());
                return Ok(vstd::slice::slice_to_vec(tail));
            }
        }
        Err(ImportError::BadLayerDigest { digest: vstd::slice::slice_to_vec(digest.as_slice()) })
    }
}

} // verus!
