use container_import::digest::manifest_digest;

#[test]
fn test_digest_empty_input() {
    let d = manifest_digest(b"").unwrap();
    assert_eq!(
        d,
        "sha256:e3b0c44298fc1c149afbf4c8996fb92427ae41e4649b934ca495991b7852b855"
    );
}

#[test]
fn test_digest_exact_bytes() {
    let d = manifest_digest(b"{}").unwrap();
    assert_eq!(
        d,
        "sha256:44136fa355b3678a1146ad16f7e8649e94fb4fc21fe77e8310c060f61caaff8a"
    );
}

#[test]
fn test_digest_sensitive_to_field_order() {
    // The identity is computed over the exact raw bytes, not over the JSON
    // value those bytes spell: reordering fields changes the digest.
    let a = manifest_digest(b"{\"a\":1,\"b\":2}").unwrap();
    let b = manifest_digest(b"{\"b\":2,\"a\":1}").unwrap();
    assert_eq!(
        a,
        "sha256:43258cff783fe7036d8a43033f830adfc60ec037382473548ac742b888292777"
    );
    assert_eq!(
        b,
        "sha256:3fb75453225c732a76b7899ea2096dda1455189c89817239732182f73fe5a09f"
    );
    assert_ne!(a, b);
}

#[test]
fn test_digest_repeatable() {
    let raw = b"{\"layers\":[]}";
    assert_eq!(manifest_digest(raw).unwrap(), manifest_digest(raw).unwrap());
}
