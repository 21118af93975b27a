use std::io::Write;

use container_import::errors::ImportError;
use container_import::gzip::{extract_blob, extract_layer};
use container_import::orchestrate::{join_pipeline_results, Import};
use container_import::reference::{docker_reference_arg, oci_archive_fd_arg, parse_reference};

fn gzip_bytes(data: &[u8]) -> Vec<u8> {
    let mut enc = flate2::write::GzEncoder::new(Vec::new(), flate2::Compression::default());
    enc.write_all(data).unwrap();
    enc.finish().unwrap()
}

fn oci_archive_with_blob(blobid: &str, blob: &[u8]) -> Vec<u8> {
    let mut builder = tar::Builder::new(Vec::new());
    let mut index = tar::Header::new_ustar();
    index.set_entry_type(tar::EntryType::Regular);
    index.set_size(2);
    index.set_mode(0o644);
    builder.append_data(&mut index, "index.json", &b"{}"[..]).unwrap();
    let mut header = tar::Header::new_ustar();
    header.set_entry_type(tar::EntryType::Regular);
    header.set_size(blob.len() as u64);
    header.set_mode(0o644);
    builder
        .append_data(&mut header, format!("blobs/sha256/{}", blobid), blob)
        .unwrap();
    builder.into_inner().unwrap()
}

#[test]
fn test_extract_layer_exact_bytes() {
    // The end of the extraction pipeline receives exactly the bytes that
    // were compressed into the blob, byte for byte.
    let payload = b"inner tar stream stand-in, byte for byte".to_vec();
    let blob = gzip_bytes(&payload);
    let archive = oci_archive_with_blob("0123abcd", &blob);

    let raw = extract_blob(&archive, b"0123abcd").unwrap();
    assert_eq!(raw, blob);

    let out = extract_layer(&archive, b"0123abcd").unwrap();
    assert_eq!(out, payload);
}

#[test]
fn test_extract_layer_blob_missing() {
    let blob = gzip_bytes(b"payload");
    let archive = oci_archive_with_blob("0123abcd", &blob);
    let err = extract_layer(&archive, b"ffff0000").unwrap_err();
    assert!(matches!(err, ImportError::BlobNotFound));
    assert_eq!(err.message(), b"Couldn't find entry".to_vec());
}

#[test]
fn test_extract_layer_not_gzip() {
    let archive = oci_archive_with_blob("0123abcd", b"definitely not gzip");
    let err = extract_layer(&archive, b"0123abcd").unwrap_err();
    assert!(matches!(err, ImportError::DecompressFailed));
}

#[test]
fn test_process_failure_keeps_stderr_verbatim() {
    let stderr = b"time=\"now\" level=fatal msg=\"registry down\"\n".to_vec();
    let err = ImportError::ProcessFailed {
        stderr: stderr.clone(),
    };
    let msg = err.message();
    assert!(msg.ends_with(&stderr));
    let mut expected = b"skopeo failed\n".to_vec();
    expected.extend_from_slice(&stderr);
    assert_eq!(msg, expected);
}

#[test]
fn test_inspect_failure_names_the_stage() {
    let stderr = b"manifest unknown\n".to_vec();
    let err = ImportError::InspectFailed {
        stderr: stderr.clone(),
    };
    let msg = err.message();
    assert!(msg.ends_with(&stderr));
    let mut expected = b"skopeo inspect failed\n".to_vec();
    expected.extend_from_slice(&stderr);
    assert_eq!(msg, expected);
}

#[test]
fn test_parse_reference_with_tag() {
    let r = parse_reference(b"quay.io/exampleos/os:stable").unwrap();
    assert_eq!(r.registry, b"quay.io".to_vec());
    assert_eq!(r.repository, b"exampleos/os".to_vec());
    assert_eq!(r.tag, b"stable".to_vec());
}

#[test]
fn test_parse_reference_default_tag() {
    let r = parse_reference(b"quay.io/exampleos/os").unwrap();
    assert_eq!(r.registry, b"quay.io".to_vec());
    assert_eq!(r.repository, b"exampleos/os".to_vec());
    assert_eq!(r.tag, b"latest".to_vec());
}

#[test]
fn test_parse_reference_rejects_malformed() {
    for bad in [
        &b"nodelimiter"[..],
        &b"/repo:tag"[..],
        &b"registry.example/"[..],
        &b"registry.example/repo:"[..],
        &b"registry.example/:tag"[..],
    ] {
        let err = parse_reference(bad).unwrap_err();
        assert!(matches!(err, ImportError::ReferenceParse));
    }
}

#[test]
fn test_docker_reference_arg_spelling() {
    let r = parse_reference(b"quay.io/exampleos/os").unwrap();
    assert_eq!(
        docker_reference_arg(&r),
        b"docker://quay.io/exampleos/os:latest".to_vec()
    );
}

#[test]
fn test_oci_archive_fd_arg_spelling() {
    assert_eq!(
        oci_archive_fd_arg(5),
        b"oci-archive:///proc/self/fd/5".to_vec()
    );
}

#[test]
fn test_join_success() {
    let imported: Import = join_pipeline_results(
        Ok(()),
        Ok(()),
        Ok(()),
        Ok("commit123".to_string()),
        "sha256:abc".to_string(),
    )
    .unwrap();
    assert_eq!(imported.ostree_commit, "commit123");
    assert_eq!(imported.image_digest, "sha256:abc");
}

#[test]
fn test_join_first_error_wins() {
    let r = join_pipeline_results(
        Err(ImportError::ProcessFailed {
            stderr: b"fetch broke".to_vec(),
        }),
        Err(ImportError::MalformedHeader),
        Ok(()),
        Err(ImportError::ImportFailed {
            detail: b"import broke".to_vec(),
        }),
        "sha256:abc".to_string(),
    );
    match r.unwrap_err() {
        ImportError::ProcessFailed { stderr } => assert_eq!(stderr, b"fetch broke".to_vec()),
        other => panic!("unexpected error: {:?}", other),
    }
}

#[test]
fn test_join_import_error_surfaces_last() {
    let r = join_pipeline_results(
        Ok(()),
        Ok(()),
        Ok(()),
        Err(ImportError::ImportFailed {
            detail: b"repository said no".to_vec(),
        }),
        "sha256:abc".to_string(),
    );
    let err = r.unwrap_err();
    assert_eq!(err.message(), b"repository said no".to_vec());
}
