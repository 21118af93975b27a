use container_import::errors::ImportError;
use container_import::manifest::{
    find_layer_blobid, Manifest, ManifestLayerDescriptor, DOCKER_TYPE_LAYER, OCI_TYPE_LAYER,
};

fn layer(media_type: &[u8], digest: &[u8], size: u64) -> ManifestLayerDescriptor {
    ManifestLayerDescriptor {
        media_type: media_type.to_vec(),
        digest: digest.to_vec(),
        size,
    }
}

#[test]
fn test_select_zero_layers() {
    let manifest = Manifest {
        layers: vec![layer(b"application/vnd.oci.image.config.v1+json", b"sha256:aa", 7)],
    };
    let err = find_layer_blobid(&manifest).unwrap_err();
    assert!(matches!(err, ImportError::NoLayersFound { total: 1 }));
    assert_eq!(err.message(), b"No layers found (orig: 1)".to_vec());
}

#[test]
fn test_select_empty_manifest() {
    let manifest = Manifest { layers: Vec::new() };
    let err = find_layer_blobid(&manifest).unwrap_err();
    assert!(matches!(err, ImportError::NoLayersFound { total: 0 }));
    assert_eq!(err.message(), b"No layers found (orig: 0)".to_vec());
}

#[test]
fn test_select_two_layers() {
    let manifest = Manifest {
        layers: vec![
            layer(&DOCKER_TYPE_LAYER, b"sha256:aa", 1),
            layer(&OCI_TYPE_LAYER, b"sha256:bb", 2),
        ],
    };
    let err = find_layer_blobid(&manifest).unwrap_err();
    assert!(matches!(err, ImportError::AmbiguousLayers { count: 2 }));
    assert_eq!(err.message(), b"Expected 1 layer, found 2".to_vec());
}

#[test]
fn test_select_one_docker_layer() {
    let manifest = Manifest {
        layers: vec![
            layer(b"application/vnd.oci.image.config.v1+json", b"sha256:cfg", 7),
            layer(&DOCKER_TYPE_LAYER, b"sha256:0123abcd", 42),
        ],
    };
    let blobid = find_layer_blobid(&manifest).unwrap();
    assert_eq!(blobid, b"0123abcd".to_vec());
}

#[test]
fn test_select_one_oci_layer() {
    let manifest = Manifest {
        layers: vec![layer(&OCI_TYPE_LAYER, b"sha256:feedface", 9)],
    };
    let blobid = find_layer_blobid(&manifest).unwrap();
    assert_eq!(blobid, b"feedface".to_vec());
}

#[test]
fn test_select_bad_digest_prefix() {
    let manifest = Manifest {
        layers: vec![layer(&DOCKER_TYPE_LAYER, b"md5:0123", 42)],
    };
    let err = find_layer_blobid(&manifest).unwrap_err();
    match &err {
        ImportError::BadLayerDigest { digest } => assert_eq!(digest, &b"md5:0123".to_vec()),
        other => panic!("unexpected error: {:?}", other),
    }
    assert_eq!(err.message(), b"Expected sha256: in digest: md5:0123".to_vec());
}
