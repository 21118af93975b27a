//! The archive demultiplexer's structural core.
//!
//! A tar stream is a run of 512-byte blocks: each entry is one header
//! block followed by its content, zero-padded up to a block boundary; an
//! all-zero header block marks the end of the archive.  The demultiplexer
//! turns such a stream into its ordered sequence of entries, where a
//! regular-file entry carries its exact content bytes and every other
//! entry carries none.
//!
//! The specification functions in this module are the library's
//! definition of a well-formed stream; `demux` is proved to produce
//! exactly the entries they describe, and to fail exactly where they
//! reject the stream.

use vstd::prelude::*;

use crate::errors::ImportError;
use crate::reference::{lemma_find_first, spec_find_first};
use crate::util::{bytes_eq, push_all};

verus! {

/// One parsed tar header: the fields the demultiplexer reads.
#[derive(Debug)]
pub struct TarHeader {
    /// The entry path: the name field up to its first NUL byte.
    pub path: Vec<u8>,
    /// The raw type-flag byte.
    pub entry_type: u8,
    /// The entry's content size in bytes.
    pub size: u64,
}

/// The mathematical image of one header.
pub struct SpecTarHeader {
    pub path: Seq<u8>,
    pub entry_type: u8,
    pub size: u64,
}

impl View for TarHeader {
    type V = SpecTarHeader;

    open spec fn view(&self) -> SpecTarHeader {
        SpecTarHeader { path: self.path@, entry_type: self.entry_type, size: self.size }
    }
}

/// One demultiplexed entry: its header and, for a regular file, its
/// content bytes.  Entries are produced in archive order.
#[derive(Debug)]
pub struct TarEntry {
    pub header: TarHeader,
    pub content: Option<Vec<u8>>,
}

/// The mathematical image of one entry.
pub struct SpecTarEntry {
    pub header: SpecTarHeader,
    pub content: Option<Seq<u8>>,
}

impl View for TarEntry {
    type V = SpecTarEntry;

    open spec fn view(&self) -> SpecTarEntry {
        SpecTarEntry {
            header: self.header@,
            content: match self.content {
                Some(c) => Some(c@),
                None => None,
            },
        }
    }
}

/// The entries of a vector, viewed mathematically.
pub open spec fn spec_entries_view(es: Seq<TarEntry>) -> Seq<SpecTarEntry> {
    es.map_values(|e: TarEntry| e@)
}

/// An all-zero block: the end-of-archive marker.
pub open spec fn spec_is_zero_block(b: Seq<u8>) -> bool {
    forall|i: int| 0 <= i < b.len() ==> b[i] == 0
}

/// A type flag marking a regular file: the classic NUL flag or ASCII `0`.
pub open spec fn spec_is_regular(t: u8) -> bool {
    t == 0 || t == 48
}

/// An ASCII octal digit.
pub open spec fn spec_is_octal(b: u8) -> bool {
    48 <= b <= 55
}

/// The length of the longest octal-digit prefix of `s`.
pub open spec fn spec_digit_run(s: Seq<u8>) -> int
    decreases s.len(),
{
    if s.len() == 0 || !spec_is_octal(s[0]) {
        0
    } else {
        1 + spec_digit_run(s.drop_first())
    }
}

/// The value of a string of octal digits, most significant first.
pub open spec fn spec_octal_val(s: Seq<u8>) -> nat
    decreases s.len(),
{
    if s.len() == 0 {
        0
    } else {
        (spec_octal_val(s.drop_last()) * 8 + (s.last() - 48)) as nat
    }
}

/// `8 ^ n`.
pub open spec fn pow8(n: nat) -> nat
    decreases n,
{
    if n == 0 {
        1
    } else {
        8 * pow8((n - 1) as nat)
    }
}

/// The length of the longest space prefix of `s`.
pub open spec fn spec_space_run(s: Seq<u8>) -> int
    decreases s.len(),
{
    if s.len() == 0 || s[0] != 32 {
        0
    } else {
        1 + spec_space_run(s.drop_first())
    }
}

/// The reading of an octal number field: leading spaces, then a
/// non-empty run of octal digits, then only NULs and spaces to the end.
/// Any other shape is malformed.
pub open spec fn spec_size_field(f: Seq<u8>) -> Option<nat> {
    let rest = f.skip(spec_space_run(f));
    let d = spec_digit_run(rest);
    if d == 0 {
        None
    } else if exists|i: int| d <= i < rest.len() && rest[i] != 0 && rest[i] != 32 {
        None
    } else {
        Some(spec_octal_val(rest.take(d)))
    }
}

/// The byte at `i` as the header checksum counts it: the checksum field
/// itself (bytes 148 to 155) is read as ASCII spaces.
pub open spec fn spec_cksum_byte(b: Seq<u8>, i: int) -> int {
    if 148 <= i < 156 {
        32
    } else {
        b[i] as int
    }
}

/// The sum of the first `n` counted bytes of a header block.
pub open spec fn spec_cksum_partial(b: Seq<u8>, n: int) -> int
    decreases n,
{
    if n <= 0 {
        0
    } else {
        spec_cksum_partial(b, n - 1) + spec_cksum_byte(b, n - 1)
    }
}

/// The header checksum: the sum of all 512 block bytes, with the
/// checksum field read as spaces.
pub open spec fn spec_checksum(b: Seq<u8>) -> int {
    spec_cksum_partial(b, 512)
}

/// The path spelled by the 100-byte name field: its bytes up to the
/// first NUL.
pub open spec fn spec_name_path(name: Seq<u8>) -> Seq<u8> {
    match spec_find_first(name, 0u8) {
        Some(i) => name.take(i),
        None => name,
    }
}

/// The reading of one non-zero 512-byte header block: the checksum
/// field must spell the block's checksum, and the size field must be
/// readable.
pub open spec fn spec_parse_header(b: Seq<u8>) -> Option<SpecTarHeader> {
    match spec_size_field(b.subrange(148, 156)) {
        None => None,
        Some(ck) => if ck as int != spec_checksum(b) {
            None
        } else {
            match spec_size_field(b.subrange(124, 136)) {
                None => None,
                Some(sz) => Some(
                    SpecTarHeader {
                        path: spec_name_path(b.subrange(0, 100)),
                        entry_type: b[156],
                        size: sz as u64,
                    },
                ),
            }
        },
    }
}

/// What `spec_digit_run` measures: every byte before the run's end is an
/// octal digit and the byte at its end (if any) is not.
pub proof fn lemma_digit_run(s: Seq<u8>)
    ensures
        0 <= spec_digit_run(s) <= s.len(),
        forall|j: int| 0 <= j < spec_digit_run(s) ==> spec_is_octal(s[j]),
        spec_digit_run(s) < s.len() ==> !spec_is_octal(s[spec_digit_run(s)]),
    decreases s.len(),
{
    if s.len() > 0 && spec_is_octal(s[0]) {
        lemma_digit_run(s.drop_first());
        let t = s.drop_first();
        let d = spec_digit_run(s);
        assert(forall|j: int| 1 <= j < s.len() ==> s[j] == t[j - 1]);
        assert forall|j: int| 0 <= j < d implies spec_is_octal(s[j]) by {
            if j > 0 {
                assert(spec_is_octal(t[j - 1]));
            }
        }
    }
}

/// What `spec_space_run` measures: every byte before the run's end is a
/// space and the byte at its end (if any) is not.
pub proof fn lemma_space_run(s: Seq<u8>)
    ensures
        0 <= spec_space_run(s) <= s.len(),
        forall|j: int| 0 <= j < spec_space_run(s) ==> s[j] == 32,
        spec_space_run(s) < s.len() ==> s[spec_space_run(s)] != 32,
    decreases s.len(),
{
    if s.len() > 0 && s[0] == 32 {
        lemma_space_run(s.drop_first());
        let t = s.drop_first();
        let d = spec_space_run(s);
        assert(forall|j: int| 1 <= j < s.len() ==> s[j] == t[j - 1]);
        assert forall|j: int| 0 <= j < d implies s[j] == 32 by {
            if j > 0 {
                assert(t[j - 1] == 32);
            }
        }
    }
}

/// An octal-digit string's value is below `8 ^ length`.
pub proof fn lemma_octal_val_bound(s: Seq<u8>)
    requires
        forall|i: int| 0 <= i < s.len() ==> spec_is_octal(s[i]),
    ensures
        spec_octal_val(s) < pow8(s.len() as nat),
    decreases s.len(),
{
    if s.len() > 0 {
        lemma_octal_val_bound(s.drop_last());
    }
}

/// `8 ^ n` grows with `n`.
pub proof fn lemma_pow8_increases(a: nat, b: nat)
    requires
        a <= b,
    ensures
        pow8(a) <= pow8(b),
    decreases b,
{
    if a < b {
        lemma_pow8_increases(a, (b - 1) as nat);
        assert(pow8(b) == 8 * pow8((b - 1) as nat));
        assert(pow8((b - 1) as nat) >= 1) by {
            lemma_pow8_positive((b - 1) as nat);
        }
    }
}

/// `8 ^ n` is positive.
pub proof fn lemma_pow8_positive(n: nat)
    ensures
        pow8(n) >= 1,
    decreases n,
{
    if n > 0 {
        lemma_pow8_positive((n - 1) as nat);
    }
}

/// True exactly when the block holds only zero bytes.
fn is_zero_block(block: &[u8]) -> (r: bool)
    ensures
        r == spec_is_zero_block(block@),
{
    let mut i: usize = 0;
    while i < block.len()
        invariant
            i <= block@.len(),
            forall|j: int| 0 <= j < i ==> block@[j] == 0,
        decreases block@.len() - i,
    {
        if block[i] != 0 {
            return false;
        }
        i += 1;
    }
    true
}

/// Reads an octal number field of up to 12 bytes (the size field, and
/// the 8-byte checksum field); `None` exactly where the field is
/// malformed.  A well-formed value is below `8 ^ 12`.
#[verifier::loop_isolation(false)]
fn parse_size_field(f: &[u8]) -> (r: Option<u64>)
    requires
        1 <= f@.len() <= 12,
    ensures
        match r {
            Some(v) => spec_size_field(f@) == Some(v as nat) && v < 0x1000000000u64,
            None => spec_size_field(f@) is None,
        },
{
    proof {
        lemma_space_run(f@);
    }
    let n = f.len();
    let mut sp: usize = 0;
    while sp < n && f[sp] == 32
        invariant
            sp <= n,
            forall|j: int| 0 <= j < sp ==> f@[j] == 32,
        decreases n - sp,
    {
        sp += 1;
    }
    proof {
        assert(sp as int == spec_space_run(f@)) by {
            let ss = spec_space_run(f@);
            if ss < sp {
                assert(f@[ss] == 32);
            }
            if (sp as int) < ss {
                assert(f@[sp as int] == 32);
            }
        }
    }
    let rest = vstd::slice::slice_subrange(f, sp, n);
    let m = rest.len();
    let ghost rs = f@.skip(spec_space_run(f@));
    proof {
        assert(rest@ =~= rs);
        lemma_digit_run(rs);
    }
    let mut d: usize = 0;
    while d < m && 48 <= rest[d] && rest[d] <= 55
        invariant
            d <= m,
            forall|j: int| 0 <= j < d ==> spec_is_octal(rs[j]),
        decreases m - d,
    {
        d += 1;
    }
    proof {
        assert(d as int == spec_digit_run(rs)) by {
            let sd = spec_digit_run(rs);
            if sd < d {
                assert(spec_is_octal(rs[sd]));
            }
            if (d as int) < sd {
                assert(spec_is_octal(rs[d as int]));
            }
        }
    }
    if d == 0 {
        return None;
    }
    let mut j: usize = d;
    while j < m
        invariant
            d <= j <= m,
            forall|k: int| d <= k < j ==> rs[k] == 0 || rs[k] == 32,
        decreases m - j,
    {
        if rest[j] != 0 && rest[j] != 32 {
            proof {
                assert(exists|i: int|
                    spec_digit_run(rs) <= i < rs.len() && rs[i] != 0 && rs[i] != 32) by {
                    assert(spec_digit_run(rs) <= (j as int) < rs.len() && rs[j as int] != 0
                        && rs[j as int] != 32);
                }
                assert(spec_size_field(f@) is None);
            }
            return None;
        }
        j += 1;
    }
    let ghost t = rs.take(d as int);
    proof {
        lemma_octal_val_bound(t);
        lemma_pow8_increases(t.len() as nat, 12nat);
        reveal_with_fuel(pow8, 13);
        assert(pow8(12nat) == 0x1000000000);
    }
    let mut acc: u64 = 0;
    let mut k: usize = 0;
    while k < d
        invariant
            k <= d,
            acc as nat == spec_octal_val(t.take(k as int)),
            (acc as nat) < pow8(k as nat),
        decreases d - k,
    {
        proof {
            assert(t.take(k + 1).drop_last() =~= t.take(k as int));
            assert(t.take(k + 1).last() == rs[k as int]);
            lemma_pow8_increases(k as nat, 11nat);
            reveal_with_fuel(pow8, 13);
            assert(pow8(11nat) == 0x200000000);
        }
        acc = acc * 8 + (rest[k] - 48) as u64;
        k += 1;
    }
    proof {
        assert(t.take(d as int) =~= t);
    }
    Some(acc)
}

/// Computes a header block's checksum: the sum of its bytes with the
/// checksum field read as spaces.
fn checksum_sum(block: &[u8]) -> (r: u64)
    requires
        block@.len() == 512,
    ensures
        r as int == spec_checksum(block@),
{
    let mut acc: u64 = 0;
    let mut i: usize = 0;
    while i < 512
        invariant
            i <= 512,
            block@.len() == 512,
            acc as int == spec_cksum_partial(block@, i as int),
            acc <= 255 * (i as u64),
        decreases 512 - i,
    {
        let c: u8 = if 148 <= i && i < 156 {
            32
        } else {
            block[i]
        };
        acc = acc + (c as u64);
        i += 1;
    }
    acc
}

/// Reads one 512-byte header block.  `Ok(None)` is the end-of-archive
/// marker; a block whose checksum does not add up, or whose size field
/// cannot be read, is a malformed header.
pub fn parse_header(block: &[u8]) -> (r: Result<Option<TarHeader>, ImportError>)
    requires
        block@.len() == 512,
    ensures
        match r {
            Ok(opt) => match opt {
                None => spec_is_zero_block(block@),
                Some(h) => !spec_is_zero_block(block@) && spec_parse_header(block@) == Some(h@)
                    && h.size < 0x1000000000u64,
            },
            Err(e) => !spec_is_zero_block(block@) && spec_parse_header(block@) is None && e
                == ImportError::MalformedHeader,
        },
{
    if is_zero_block(block) {
        return Ok(None);
    }
    let cksum_field = vstd::slice::slice_subrange(block, 148, 156);
    let ck = match parse_size_field(cksum_field) {
        None => {
            return Err(ImportError::MalformedHeader);
        },
        Some(v) => v,
    };
    let sum = checksum_sum(block);
    if ck != sum {
        return Err(ImportError::MalformedHeader);
    }
    let size_field = vstd::slice::slice_subrange(block, 124, 136);
    let size = match parse_size_field(size_field) {
        None => {
            return Err(ImportError::MalformedHeader);
        },
        Some(v) => v,
    };
    let name = vstd::slice::slice_subrange(block, 0, 100);
    let path: Vec<u8> = match find_nul(name) {
        Some(i) => vstd::slice::slice_to_vec(vstd::slice::slice_subrange(name, 0, i)),
        None => vstd::slice::slice_to_vec(name),
    };
    let entry_type: u8 = block[156];
    Ok(Some(TarHeader { path, entry_type, size }))
}

/// The padded length of `size` content bytes: rounded up to whole
/// 512-byte blocks.
pub open spec fn spec_data_len(size: nat) -> nat {
    ((size + 511) / 512) * 512
}

/// The entry headed at byte `pos` of the stream: its header, and for a
/// regular file exactly the `size` content bytes that follow the header
/// block.
pub open spec fn spec_entry_at(s: Seq<u8>, pos: int, h: SpecTarHeader) -> SpecTarEntry {
    SpecTarEntry {
        header: h,
        content: if spec_is_regular(h.entry_type) {
            Some(s.subrange(pos + 512, pos + 512 + h.size as int))
        } else {
            None
        },
    }
}

/// The reading of the stream from byte `pos` on: its entries in order,
/// up to the end-of-archive marker or a clean end of the stream, or the
/// first structural fault.
pub open spec fn spec_demux_from(s: Seq<u8>, pos: int) -> Result<Seq<SpecTarEntry>, ImportError>
    decreases s.len() - pos,
    when 0 <= pos <= s.len()
{
    if pos == s.len() {
        Ok(Seq::empty())
    } else if s.len() - pos < 512 {
        Err(ImportError::TruncatedArchive)
    } else if spec_is_zero_block(s.subrange(pos, pos + 512)) {
        Ok(Seq::empty())
    } else {
        match spec_parse_header(s.subrange(pos, pos + 512)) {
            None => Err(ImportError::MalformedHeader),
            Some(h) => {
                let dl = spec_data_len(h.size as nat);
                if s.len() - pos - 512 < dl {
                    Err(ImportError::TruncatedArchive)
                } else {
                    match spec_demux_from(s, pos + 512 + dl) {
                        Err(e) => Err(e),
                        Ok(rest) => Ok(seq![spec_entry_at(s, pos, h)] + rest),
                    }
                }
            },
        }
    }
}

/// The reading of a complete tar byte stream.
pub open spec fn spec_demux(s: Seq<u8>) -> Result<Seq<SpecTarEntry>, ImportError> {
    spec_demux_from(s, 0)
}

/// Demultiplexes a complete tar byte stream into its ordered entries.
///
/// The result is exactly the reading that `spec_demux` gives: every
/// regular-file entry carries precisely the content bytes that follow
/// its header block in the stream, in archive order, and the first
/// structural fault of the stream is the error returned.
pub fn demux(bytes: &[u8]) -> (r: Result<Vec<TarEntry>, ImportError>)
    ensures
        match r {
            Ok(es) => spec_demux(bytes@) == Ok::<Seq<SpecTarEntry>, ImportError>(
                spec_entries_view(es@),
            ),
            Err(e) => spec_demux(bytes@) == Err::<Seq<SpecTarEntry>, ImportError>(e),
        },
{
    let n = bytes.len();
    let mut out: Vec<TarEntry> = Vec::new();
    let mut pos: usize = 0;
    loop
        invariant
            pos <= n,
            n == bytes@.len(),
            spec_demux(bytes@) == (match spec_demux_from(bytes@, pos as int) {
                Ok(rest) => Ok::<Seq<SpecTarEntry>, ImportError>(spec_entries_view(out@) + rest),
                Err(e) => Err::<Seq<SpecTarEntry>, ImportError>(e),
            }),
        decreases n - pos,
    {
        if n - pos == 0 {
            proof {
                assert(spec_entries_view(out@) + Seq::<SpecTarEntry>::empty() =~= spec_entries_view(
                    out@,
                ));
            }
            return Ok(out);
        }
        if n - pos < 512 {
            return Err(ImportError::TruncatedArchive);
        }
        let block = vstd::slice::slice_subrange(bytes, pos, pos + 512);
        match parse_header(block) {
            Err(e) => {
                return Err(e);
            },
            Ok(None) => {
                proof {
                    assert(spec_entries_view(out@) + Seq::<SpecTarEntry>::empty()
                        =~= spec_entries_view(out@));
                }
                return Ok(out);
            },
            Ok(Some(h)) => {
                let dl64: u64 = ((h.size + 511) / 512) * 512;
                let rem: usize = n - pos - 512;
                if (rem as u64) < dl64 {
                    return Err(ImportError::TruncatedArchive);
                }
                let dl: usize = dl64 as usize;
                let sz: usize = h.size as usize;
                let content: Option<Vec<u8>> = if h.entry_type == 0 || h.entry_type == 48 {
                    Some(
                        vstd::slice::slice_to_vec(
                            vstd::slice::slice_subrange(bytes, pos + 512, pos + 512 + sz),
                        ),
                    )
                } else {
                    None
                };
                let ghost hview = h@;
                let ghost out_prev = out@;
                let entry = TarEntry { header: h, content };
                proof {
                    assert(entry@ == spec_entry_at(bytes@, pos as int, hview));
                }
                out.push(entry);
                proof {
                    let s = bytes@;
                    let p = pos as int;
                    let pnext = p + 512 + (dl as int);
                    assert(s.subrange(p, p + 512) == block@);
                    assert((dl as int) == spec_data_len(hview.size as nat));
                    assert(spec_demux_from(s, p) == (match spec_demux_from(s, pnext) {
                        Err(e) => Err::<Seq<SpecTarEntry>, ImportError>(e),
                        Ok(rest) => Ok::<Seq<SpecTarEntry>, ImportError>(
                            seq![spec_entry_at(s, p, hview)] + rest,
                        ),
                    }));
                    assert(spec_entries_view(out@) =~= spec_entries_view(out_prev) + seq![
                        entry@,
                    ]);
                    match spec_demux_from(s, pnext) {
                        Ok(rest) => {
                            assert(spec_entries_view(out_prev) + (seq![entry@] + rest)
                                =~= spec_entries_view(out@) + rest);
                        },
                        Err(e) => {},
                    }
                }
                pos = pos + 512 + dl;
            },
        }
    }
}

/// ASCII "blobs/sha256/".
pub const BLOB_PATH_PREFIX: [u8; 13] = [98u8, 108u8, 111u8, 98u8, 115u8, 47u8, 115u8, 104u8, 97u8, 50u8, 53u8, 54u8, 47u8];

/// The path at which a blob is stored inside a synthetic OCI-archive
/// tar: `blobs/sha256/` followed by the blob id.
pub open spec fn spec_blob_path(blobid: Seq<u8>) -> Seq<u8> {
    BLOB_PATH_PREFIX@ + blobid
}

/// Builds the archive path of a blob.
pub fn blob_path(blobid: &[u8]) -> (v: Vec<u8>)
    ensures
        v@ == spec_blob_path(blobid@),
{
    let mut v: Vec<u8> = Vec::new();
    push_all(&mut v, BLOB_PATH_PREFIX.as_slice());
    push_all(&mut v, blobid);
    v
}

/// The position of the first entry bearing `path`.
pub open spec fn spec_find_entry(es: Seq<SpecTarEntry>, path: Seq<u8>) -> Option<int>
    decreases es.len(),
{
    if es.len() == 0 {
        None
    } else if es[0].header.path == path {
        Some(0int)
    } else {
        match spec_find_entry(es.drop_first(), path) {
            None => None,
            Some(k) => Some(k + 1),
        }
    }
}

/// What `spec_find_entry` finds: the first position whose entry bears
/// `path`, if any does.
pub proof fn lemma_find_entry(es: Seq<SpecTarEntry>, path: Seq<u8>)
    ensures
        match spec_find_entry(es, path) {
            Some(i) => 0 <= i < es.len() && es[i].header.path == path && forall|j: int|
                0 <= j < i ==> es[j].header.path != path,
            None => forall|j: int| 0 <= j < es.len() ==> es[j].header.path != path,
        },
    decreases es.len(),
{
    if es.len() > 0 && es[0].header.path != path {
        lemma_find_entry(es.drop_first(), path);
        let t = es.drop_first();
        match spec_find_entry(t, path) {
            Some(k) => {
                assert(es[k + 1] == t[k]);
                assert forall|j: int| 0 <= j < k + 1 implies es[j].header.path != path by {
                    if j > 0 {
                        assert(es[j] == t[j - 1]);
                    }
                }
            },
            None => {
                assert forall|j: int| 0 <= j < es.len() implies es[j].header.path != path by {
                    if j > 0 {
                        assert(es[j] == t[j - 1]);
                    }
                }
            },
        }
    }
}

/// Picks the first entry stored at the blob path of `blobid`, in archive
/// order; the remaining entries are discarded.  Fails with the
/// not-found error exactly when no entry bears that path.
#[verifier::loop_isolation(false)]
pub fn take_blob_entry(entries: Vec<TarEntry>, blobid: &[u8]) -> (r: Result<
    TarEntry,
    ImportError,
>)
    ensures
        r is Ok <==> spec_find_entry(spec_entries_view(entries@), spec_blob_path(blobid@))
            is Some,
        r is Ok ==> r->Ok_0@ == spec_entries_view(entries@)[spec_find_entry(
            spec_entries_view(entries@),
            spec_blob_path(blobid@),
        ).unwrap()],
        r is Err ==> r == Result::<TarEntry, ImportError>::Err(ImportError::BlobNotFound),
{
    let ghost es = spec_entries_view(entries@);
    let ghost p = spec_blob_path(blobid@);
    proof {
        lemma_find_entry(es, p);
    }
    let path = blob_path(blobid);
    let mut entries = entries;
    let mut i: usize = 0;
    while i < entries.len()
        invariant
            i <= entries@.len(),
            es == spec_entries_view(entries@),
            p == path@,
            forall|j: int| 0 <= j < i ==> es[j].header.path != p,
            match spec_find_entry(es, p) {
                Some(k) => 0 <= k < es.len() && es[k].header.path == p && forall|j: int|
                    0 <= j < k ==> es[j].header.path != p,
                None => forall|j: int| 0 <= j < es.len() ==> es[j].header.path != p,
            },
        decreases entries@.len() - i,
    {
        if bytes_eq(entries[i].header.path.as_slice(), path.as_slice()) {
            proof {
                assert(entries@[i as int]@ == es[i as int]);
                assert(es[i as int].header.path == p);
                match spec_find_entry(es, p) {
                    Some(k) => {
                        if k < i as int {
                            assert(es[k].header.path != p);
                        } else if k > i as int {
                            assert(es[i as int].header.path != p);
                        }
                    },
                    None => {
                        assert(es[i as int].header.path != p);
                    },
                }
                assert(spec_find_entry(es, p) == Some(i as int));
            }
            let ghost pre = entries@;
            let e = entries.remove(i);
            proof {
                assert(e == pre[i as int]);
                assert(e@ == es[i as int]);
                assert(spec_find_entry(es, p).unwrap() == i as int);
            }
            return Ok(e);
        }
        i += 1;
    }
    Err(ImportError::BlobNotFound)
}

/// The content bytes of the stream from byte `pos` on, in stream order:
/// the concatenation of every regular-file entry's data, read straight
/// off the well-formed part of the stream.
pub open spec fn spec_data_bytes(s: Seq<u8>, pos: int) -> Seq<u8>
    decreases s.len() - pos,
    when 0 <= pos <= s.len()
{
    if s.len() - pos < 512 {
        Seq::empty()
    } else if spec_is_zero_block(s.subrange(pos, pos + 512)) {
        Seq::empty()
    } else {
        match spec_parse_header(s.subrange(pos, pos + 512)) {
            None => Seq::empty(),
            Some(h) => {
                let dl = spec_data_len(h.size as nat);
                if s.len() - pos - 512 < dl {
                    Seq::empty()
                } else {
                    (if spec_is_regular(h.entry_type) {
                        s.subrange(pos + 512, pos + 512 + h.size as int)
                    } else {
                        Seq::empty()
                    }) + spec_data_bytes(s, pos + 512 + dl)
                }
            },
        }
    }
}

/// The concatenation of the content carried by a sequence of entries,
/// in order.
pub open spec fn spec_contents_concat(es: Seq<SpecTarEntry>) -> Seq<u8>
    decreases es.len(),
{
    if es.len() == 0 {
        Seq::empty()
    } else {
        (match es[0].content {
            Some(c) => c,
            None => Seq::empty(),
        }) + spec_contents_concat(es.drop_first())
    }
}

/// Demultiplexing loses and duplicates nothing: over a well-formed
/// stream, the entries' content bytes, concatenated in the order the
/// entries are produced, are exactly the stream's regular-file data
/// bytes in stream order — every such byte once, and no other byte.
pub proof fn lemma_demux_accounts_for_content(s: Seq<u8>, pos: int)
    requires
        0 <= pos <= s.len(),
        spec_demux_from(s, pos) is Ok,
    ensures
        spec_contents_concat(
            match spec_demux_from(s, pos) {
                Ok(es) => es,
                Err(_) => Seq::empty(),
            },
        ) == spec_data_bytes(s, pos),
    decreases s.len() - pos,
{
    if pos == s.len() {
    } else if s.len() - pos < 512 {
    } else if spec_is_zero_block(s.subrange(pos, pos + 512)) {
    } else {
        match spec_parse_header(s.subrange(pos, pos + 512)) {
            None => {},
            Some(h) => {
                let dl = spec_data_len(h.size as nat);
                if s.len() - pos - 512 >= dl {
                    let pnext = pos + 512 + dl;
                    lemma_demux_accounts_for_content(s, pnext);
                    let e = spec_entry_at(s, pos, h);
                    let rest = match spec_demux_from(s, pnext) {
                        Ok(es) => es,
                        Err(_) => Seq::empty(),
                    };
                    let all = seq![e] + rest;
                    assert(all[0] == e);
                    assert(all.drop_first() =~= rest);
                    assert(spec_contents_concat(all) == (match e.content {
                        Some(c) => c,
                        None => Seq::empty(),
                    }) + spec_contents_concat(rest));
                }
            },
        }
    }
}

/// The reading of at most `k` entries from byte `pos` on: like
/// `spec_demux_from`, but the reading stops successfully once `k`
/// entries have been produced, whatever bytes follow them.
pub open spec fn spec_demux_limited_from(s: Seq<u8>, pos: int, k: nat) -> Result<
    Seq<SpecTarEntry>,
    ImportError,
>
    decreases s.len() - pos,
    when 0 <= pos <= s.len()
{
    if k == 0 {
        Ok(Seq::empty())
    } else if pos == s.len() {
        Ok(Seq::empty())
    } else if s.len() - pos < 512 {
        Err(ImportError::TruncatedArchive)
    } else if spec_is_zero_block(s.subrange(pos, pos + 512)) {
        Ok(Seq::empty())
    } else {
        match spec_parse_header(s.subrange(pos, pos + 512)) {
            None => Err(ImportError::MalformedHeader),
            Some(h) => {
                let dl = spec_data_len(h.size as nat);
                if s.len() - pos - 512 < dl {
                    Err(ImportError::TruncatedArchive)
                } else {
                    match spec_demux_limited_from(s, pos + 512 + dl, (k - 1) as nat) {
                        Err(e) => Err(e),
                        Ok(rest) => Ok(seq![spec_entry_at(s, pos, h)] + rest),
                    }
                }
            },
        }
    }
}

/// The reading of at most `k` entries of a stream.
pub open spec fn spec_demux_limited(s: Seq<u8>, k: nat) -> Result<Seq<SpecTarEntry>, ImportError> {
    spec_demux_limited_from(s, 0, k)
}

/// Stopping early never turns a good stream into an error: over a
/// stream whose full reading succeeds, reading at most `k` entries also
/// succeeds, and yields exactly the first `k` entries of the full
/// reading (all of them when fewer than `k` exist).
pub proof fn lemma_early_stop_succeeds(s: Seq<u8>, pos: int, k: nat)
    requires
        0 <= pos <= s.len(),
        spec_demux_from(s, pos) is Ok,
    ensures
        spec_demux_limited_from(s, pos, k) is Ok,
        ({
            let full = match spec_demux_from(s, pos) {
                Ok(es) => es,
                Err(_) => Seq::empty(),
            };
            let lim = match spec_demux_limited_from(s, pos, k) {
                Ok(es) => es,
                Err(_) => Seq::empty(),
            };
            lim == if k >= full.len() {
                full
            } else {
                full.take(k as int)
            }
        }),
    decreases s.len() - pos,
{
    let full = match spec_demux_from(s, pos) {
        Ok(es) => es,
        Err(_) => Seq::empty(),
    };
    if k == 0 {
        assert(full.take(0) =~= Seq::<SpecTarEntry>::empty());
    } else if pos == s.len() {
    } else if spec_is_zero_block(s.subrange(pos, pos + 512)) {
    } else {
        match spec_parse_header(s.subrange(pos, pos + 512)) {
            None => {},
            Some(h) => {
                let dl = spec_data_len(h.size as nat);
                let pnext = pos + 512 + dl;
                lemma_early_stop_succeeds(s, pnext, (k - 1) as nat);
                let e = spec_entry_at(s, pos, h);
                let rest_full = match spec_demux_from(s, pnext) {
                    Ok(es) => es,
                    Err(_) => Seq::empty(),
                };
                let rest_lim = match spec_demux_limited_from(s, pnext, (k - 1) as nat) {
                    Ok(es) => es,
                    Err(_) => Seq::empty(),
                };
                assert(full == seq![e] + rest_full);
                if k - 1 >= rest_full.len() {
                    assert(k >= full.len());
                } else {
                    assert(seq![e] + rest_full.take(k - 1) =~= (seq![e] + rest_full).take(
                        k as int,
                    ));
                }
            },
        }
    }
}

/// Demultiplexes at most `limit` entries from the head of a tar byte
/// stream, succeeding as soon as that many entries have been produced:
/// a consumer that stops early neither reads nor judges the rest of the
/// stream.
pub fn demux_limited(bytes: &[u8], limit: usize) -> (r: Result<Vec<TarEntry>, ImportError>)
    ensures
        match r {
            Ok(es) => spec_demux_limited(bytes@, limit as nat) == Ok::<
                Seq<SpecTarEntry>,
                ImportError,
            >(spec_entries_view(es@)),
            Err(e) => spec_demux_limited(bytes@, limit as nat) == Err::<
                Seq<SpecTarEntry>,
                ImportError,
            >(e),
        },
{
    let n = bytes.len();
    let mut out: Vec<TarEntry> = Vec::new();
    let mut pos: usize = 0;
    loop
        invariant
            pos <= n,
            n == bytes@.len(),
            out@.len() <= limit,
            spec_demux_limited(bytes@, limit as nat) == (match spec_demux_limited_from(
                bytes@,
                pos as int,
                (limit - out@.len()) as nat,
            ) {
                Ok(rest) => Ok::<Seq<SpecTarEntry>, ImportError>(spec_entries_view(out@) + rest),
                Err(e) => Err::<Seq<SpecTarEntry>, ImportError>(e),
            }),
        decreases n - pos,
    {
        if out.len() == limit {
            proof {
                assert(spec_entries_view(out@) + Seq::<SpecTarEntry>::empty() =~= spec_entries_view(
                    out@,
                ));
            }
            return Ok(out);
        }
        if n - pos == 0 {
            proof {
                assert(spec_entries_view(out@) + Seq::<SpecTarEntry>::empty() =~= spec_entries_view(
                    out@,
                ));
            }
            return Ok(out);
        }
        if n - pos < 512 {
            return Err(ImportError::TruncatedArchive);
        }
        let block = vstd::slice::slice_subrange(bytes, pos, pos + 512);
        match parse_header(block) {
            Err(e) => {
                return Err(e);
            },
            Ok(None) => {
                proof {
                    assert(spec_entries_view(out@) + Seq::<SpecTarEntry>::empty()
                        =~= spec_entries_view(out@));
                }
                return Ok(out);
            },
            Ok(Some(h)) => {
                let dl64: u64 = ((h.size + 511) / 512) * 512;
                let rem: usize = n - pos - 512;
                if (rem as u64) < dl64 {
                    return Err(ImportError::TruncatedArchive);
                }
                let dl: usize = dl64 as usize;
                let sz: usize = h.size as usize;
                let content: Option<Vec<u8>> = if h.entry_type == 0 || h.entry_type == 48 {
                    Some(
                        vstd::slice::slice_to_vec(
                            vstd::slice::slice_subrange(bytes, pos + 512, pos + 512 + sz),
                        ),
                    )
                } else {
                    None
                };
                let ghost hview = h@;
                let ghost out_prev = out@;
                let entry = TarEntry { header: h, content };
                proof {
                    assert(entry@ == spec_entry_at(bytes@, pos as int, hview));
                }
                out.push(entry);
                proof {
                    let s = bytes@;
                    let p = pos as int;
                    let pnext = p + 512 + (dl as int);
                    let kprev = (limit - out_prev.len()) as nat;
                    assert(s.subrange(p, p + 512) == block@);
                    assert((dl as int) == spec_data_len(hview.size as nat));
                    assert(spec_demux_limited_from(s, p, kprev) == (match spec_demux_limited_from(
                        s,
                        pnext,
                        (kprev - 1) as nat,
                    ) {
                        Err(e) => Err::<Seq<SpecTarEntry>, ImportError>(e),
                        Ok(rest) => Ok::<Seq<SpecTarEntry>, ImportError>(
                            seq![spec_entry_at(s, p, hview)] + rest,
                        ),
                    }));
                    assert(spec_entries_view(out@) =~= spec_entries_view(out_prev) + seq![
                        entry@,
                    ]);
                    match spec_demux_limited_from(s, pnext, (kprev - 1) as nat) {
                        Ok(rest) => {
                            assert(spec_entries_view(out_prev) + (seq![entry@] + rest)
                                =~= spec_entries_view(out@) + rest);
                        },
                        Err(e) => {},
                    }
                }
                pos = pos + 512 + dl;
            },
        }
    }
}

/// Finds the first NUL byte of the name field.
fn find_nul(s: &[u8]) -> (r: Option<usize>)
    ensures
        match r {
            Some(i) => spec_find_first(s@, 0u8) == Some(i as int) && i < s@.len(),
            None => spec_find_first(s@, 0u8) is None,
        },
{
    proof {
        lemma_find_first(s@, 0u8);
    }
    let mut i: usize = 0;
    while i < s.len()
        invariant
            i <= s@.len(),
            forall|j: int| 0 <= j < i ==> s@[j] != 0,
            match spec_find_first(s@, 0u8) {
                Some(k) => 0 <= k < s@.len() && s@[k] == 0 && forall|j: int|
                    0 <= j < k ==> s@[j] != 0,
                None => forall|j: int| 0 <= j < s@.len() ==> s@[j] != 0,
            },
        decreases s@.len() - i,
    {
        if s[i] == 0 {
            return Some(i);
        }
        i += 1;
    }
    None
}

} // verus!
