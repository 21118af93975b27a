use container_import::errors::ImportError;
use container_import::tardemux::{demux, demux_limited, TarEntry};

fn regular_entry(builder: &mut tar::Builder<Vec<u8>>, path: &str, data: &[u8]) {
    let mut header = tar::Header::new_ustar();
    header.set_entry_type(tar::EntryType::Regular);
    header.set_size(data.len() as u64);
    header.set_mode(0o644);
    builder.append_data(&mut header, path, data).unwrap();
}

fn directory_entry(builder: &mut tar::Builder<Vec<u8>>, path: &str) {
    let mut header = tar::Header::new_ustar();
    header.set_entry_type(tar::EntryType::dir());
    header.set_size(0);
    header.set_mode(0o755);
    builder.append_data(&mut header, path, &b""[..]).unwrap();
}

fn content_total(entries: &[TarEntry]) -> usize {
    entries
        .iter()
        .map(|e| e.content.as_ref().map(|c| c.len()).unwrap_or(0))
        .sum()
}

#[test]
fn test_import() {
    // A small tree whose regular-file contents sum to exactly 35 bytes.
    let mut builder = tar::Builder::new(Vec::new());
    directory_entry(&mut builder, "usr");
    regular_entry(&mut builder, "usr/lib/release", b"exampleos 42\n");
    regular_entry(&mut builder, "usr/bin/hello", b"hello world, from tar\n");
    let bytes = builder.into_inner().unwrap();

    let entries = demux(&bytes).unwrap();
    assert_eq!(entries.len(), 3);
    assert_eq!(content_total(&entries), 35usize);
}

#[test]
fn test_demux_exact_content_in_order() {
    let mut builder = tar::Builder::new(Vec::new());
    regular_entry(&mut builder, "a.txt", b"first");
    regular_entry(&mut builder, "b.txt", b"second entry content");
    let bytes = builder.into_inner().unwrap();

    let entries = demux(&bytes).unwrap();
    assert_eq!(entries.len(), 2);
    assert_eq!(entries[0].header.path, b"a.txt".to_vec());
    assert_eq!(entries[0].header.size, 5);
    assert_eq!(entries[0].content.as_ref().unwrap(), &b"first".to_vec());
    assert_eq!(entries[1].header.path, b"b.txt".to_vec());
    assert_eq!(
        entries[1].content.as_ref().unwrap(),
        &b"second entry content".to_vec()
    );
}

#[test]
fn test_demux_directory_has_no_content() {
    let mut builder = tar::Builder::new(Vec::new());
    directory_entry(&mut builder, "etc");
    let bytes = builder.into_inner().unwrap();

    let entries = demux(&bytes).unwrap();
    assert_eq!(entries.len(), 1);
    assert!(entries[0].header.path.starts_with(b"etc"));
    assert!(entries[0].content.is_none());
}

#[test]
fn test_demux_empty_stream() {
    let entries = demux(&[]).unwrap();
    assert!(entries.is_empty());
}

#[test]
fn test_demux_truncated_stream() {
    let mut builder = tar::Builder::new(Vec::new());
    regular_entry(&mut builder, "a.txt", b"some file content here");
    let bytes = builder.into_inner().unwrap();

    // Cut the stream in the middle of the entry's data region.
    let err = demux(&bytes[..600]).unwrap_err();
    assert!(matches!(err, ImportError::TruncatedArchive));
    assert_eq!(err.message(), b"Unexpected EOF in tar archive".to_vec());
}

#[test]
fn test_demux_malformed_header() {
    // A full block that is neither zero nor carries a readable size field.
    let block = [b'x'; 512];
    let err = demux(&block).unwrap_err();
    assert!(matches!(err, ImportError::MalformedHeader));
    assert_eq!(err.message(), b"Malformed tar header".to_vec());
}

#[test]
fn test_early_stop_ignores_the_rest() {
    let mut builder = tar::Builder::new(Vec::new());
    regular_entry(&mut builder, "wanted.txt", b"the one entry we pull");
    let mut bytes = builder.into_inner().unwrap();
    // Wreck everything after the first entry: a stopped consumer never
    // reads it, so the early result is still a success.
    let tail = bytes.len() - 1024;
    for b in bytes[tail..].iter_mut() {
        *b = 0xff;
    }
    assert!(demux(&bytes).is_err());

    let entries = demux_limited(&bytes, 1).unwrap();
    assert_eq!(entries.len(), 1);
    assert_eq!(
        entries[0].content.as_ref().unwrap(),
        &b"the one entry we pull".to_vec()
    );
}

fn raw_header(path: &[u8], size_field: &[u8], entry_type: u8) -> [u8; 512] {
    let mut b = [0u8; 512];
    b[..path.len()].copy_from_slice(path);
    b[124..124 + size_field.len()].copy_from_slice(size_field);
    b[156] = entry_type;
    let sum: u32 = b
        .iter()
        .enumerate()
        .map(|(i, &x)| if (148..156).contains(&i) { 32u32 } else { x as u32 })
        .sum();
    let cksum = format!("{:06o}\0 ", sum);
    b[148..156].copy_from_slice(cksum.as_bytes());
    b
}

#[test]
fn test_demux_space_padded_size_field() {
    // An old-style header whose size field is space-padded octal: ten
    // spaces, then octal 10 (eight bytes of content).
    let mut bytes = Vec::new();
    bytes.extend_from_slice(&raw_header(b"old.txt", b"          10", b'0'));
    bytes.extend_from_slice(b"12345678");
    bytes.extend_from_slice(&[0u8; 504]);
    bytes.extend_from_slice(&[0u8; 1024]);

    let entries = demux(&bytes).unwrap();
    assert_eq!(entries.len(), 1);
    assert_eq!(entries[0].header.path, b"old.txt".to_vec());
    assert_eq!(entries[0].header.size, 8);
    assert_eq!(entries[0].content.as_ref().unwrap(), &b"12345678".to_vec());
}

#[test]
fn test_demux_rejects_corrupt_checksum() {
    let mut builder = tar::Builder::new(Vec::new());
    regular_entry(&mut builder, "a.txt", b"abc");
    let mut bytes = builder.into_inner().unwrap();
    // Flip one name byte without refreshing the checksum field.
    bytes[0] ^= 0x01;
    let err = demux(&bytes).unwrap_err();
    assert!(matches!(err, ImportError::MalformedHeader));
}

#[test]
fn test_limit_zero_reads_nothing() {
    let entries = demux_limited(&[b'x'; 512], 0).unwrap();
    assert!(entries.is_empty());
}

#[test]
fn test_limit_above_entry_count_reads_all() {
    let mut builder = tar::Builder::new(Vec::new());
    regular_entry(&mut builder, "a.txt", b"abc");
    let bytes = builder.into_inner().unwrap();
    let entries = demux_limited(&bytes, 100).unwrap();
    assert_eq!(entries.len(), 1);
}
