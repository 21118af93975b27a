//! Image references and the strings handed to the external copy helper.
//!
//! A reference is a string of the form `registry/repository[:tag]`; the
//! tag defaults to `latest`.  Parsing is deterministic: the registry ends
//! at the first slash, the tag begins after the last colon of the
//! remainder, and any form that leaves a part empty or puts a slash into
//! the tag is rejected outright.

use vstd::prelude::*;

use crate::errors::ImportError;
use crate::util::{decimal_bytes, push_all, spec_decimal};

verus! {

/// ASCII "docker://".
pub const DOCKER_SCHEME: [u8; 9] = [100u8, 111u8, 99u8, 107u8, 101u8, 114u8, 58u8, 47u8, 47u8];

/// ASCII "oci-archive:///proc/self/fd/".
pub const OCI_ARCHIVE_FD_PREFIX: [u8; 28] = [111u8, 99u8, 105u8, 45u8, 97u8, 114u8, 99u8, 104u8, 105u8, 118u8, 101u8, 58u8, 47u8, 47u8, 47u8, 112u8, 114u8, 111u8, 99u8, 47u8, 115u8, 101u8, 108u8, 102u8, 47u8, 102u8, 100u8, 47u8];

/// ASCII "latest".
pub const DEFAULT_TAG: [u8; 6] = [108u8, 97u8, 116u8, 101u8, 115u8, 116u8];

/// A parsed image reference.
#[derive(Debug)]
pub struct ImageReference {
    /// The registry host (never empty, never holds a slash).
    pub registry: Vec<u8>,
    /// The repository path (never empty).
    pub repository: Vec<u8>,
    /// The tag (never empty, never holds a colon or a slash).
    pub tag: Vec<u8>,
}

/// The mathematical image of a parsed reference.
pub struct SpecImageReference {
    pub registry: Seq<u8>,
    pub repository: Seq<u8>,
    pub tag: Seq<u8>,
}

impl View for ImageReference {
    type V = SpecImageReference;

    open spec fn view(&self) -> SpecImageReference {
        SpecImageReference {
            registry: self.registry@,
            repository: self.repository@,
            tag: self.tag@,
        }
    }
}

/// The position of the first occurrence of `b` in `s`.
pub open spec fn spec_find_first(s: Seq<u8>, b: u8) -> Option<int>
    decreases s.len(),
{
    if s.len() == 0 {
        None
    } else if s[0] == b {
        Some(0int)
    } else {
        match spec_find_first(s.drop_first(), b) {
            None => None,
            Some(k) => Some(k + 1),
        }
    }
}

/// The position of the last occurrence of `b` in `s`.
pub open spec fn spec_find_last(s: Seq<u8>, b: u8) -> Option<int>
    decreases s.len(),
{
    if s.len() == 0 {
        None
    } else if s.last() == b {
        Some(s.len() - 1)
    } else {
        spec_find_last(s.drop_last(), b)
    }
}

/// What `spec_find_first` finds: the leftmost position holding `b`, if
/// any position does.
pub proof fn lemma_find_first(s: Seq<u8>, b: u8)
    ensures
        match spec_find_first(s, b) {
            Some(i) => 0 <= i < s.len() && s[i] == b && forall|j: int| 0 <= j < i ==> s[j] != b,
            None => forall|j: int| 0 <= j < s.len() ==> s[j] != b,
        },
    decreases s.len(),
{
    if s.len() > 0 && s[0] != b {
        lemma_find_first(s.drop_first(), b);
        let t = s.drop_first();
        match spec_find_first(t, b) {
            Some(k) => {
                assert(spec_find_first(s, b) == Some(k + 1));
                assert(s[k + 1] == t[k]);
                assert forall|j: int| 0 <= j < k + 1 implies s[j] != b by {
                    if j > 0 {
                        assert(s[j] == t[j - 1]);
                    }
                }
            },
            None => {
                assert forall|j: int| 0 <= j < s.len() implies s[j] != b by {
                    if j > 0 {
                        assert(s[j] == t[j - 1]);
                    }
                }
            },
        }
    }
}

/// What `spec_find_last` finds: the rightmost position holding `b`, if
/// any position does.
pub proof fn lemma_find_last(s: Seq<u8>, b: u8)
    ensures
        match spec_find_last(s, b) {
            Some(i) => 0 <= i < s.len() && s[i] == b && forall|j: int| i < j < s.len() ==> s[j]
                != b,
            None => forall|j: int| 0 <= j < s.len() ==> s[j] != b,
        },
    decreases s.len(),
{
    if s.len() > 0 && s.last() != b {
        lemma_find_last(s.drop_last(), b);
        assert(forall|j: int| 0 <= j < s.len() - 1 ==> s.drop_last()[j] == s[j]);
    }
}

/// The deterministic reading of a reference string: registry before the
/// first slash, tag after the last colon of the remainder (defaulting to
/// `latest` when no colon is present), and rejection whenever a part
/// comes out empty or the tag holds a slash.
pub open spec fn spec_parse_reference(s: Seq<u8>) -> Option<SpecImageReference> {
    match spec_find_first(s, 47u8) {
        None => None,
        Some(i) => if i == 0 {
            None
        } else {
            let registry = s.take(i);
            let rest = s.skip(i + 1);
            match spec_find_last(rest, 58u8) {
                None => if rest.len() == 0 {
                    None
                } else {
                    Some(
                        SpecImageReference {
                            registry,
                            repository: rest,
                            tag: DEFAULT_TAG@,
                        },
                    )
                },
                Some(j) => {
                    let repository = rest.take(j);
                    let tag = rest.skip(j + 1);
                    if repository.len() == 0 || tag.len() == 0 || spec_find_first(tag, 47u8)
                        is Some {
                        None
                    } else {
                        Some(SpecImageReference { registry, repository, tag })
                    }
                },
            }
        },
    }
}

/// The canonical spelling of a parsed reference:
/// `registry/repository:tag`.
pub open spec fn spec_ref_string(r: SpecImageReference) -> Seq<u8> {
    r.registry + seq![47u8] + r.repository + seq![58u8] + r.tag
}

/// Finds the position of the first occurrence of `b` in `s`.
fn find_first(s: &[u8], b: u8) -> (r: Option<usize>)
    ensures
        match r {
            Some(i) => spec_find_first(s@, b) == Some(i as int),
            None => spec_find_first(s@, b) is None,
        },
{
    proof {
        lemma_find_first(s@, b);
    }
    let mut i: usize = 0;
    while i < s.len()
        invariant
            i <= s@.len(),
            forall|j: int| 0 <= j < i ==> s@[j] != b,
            match spec_find_first(s@, b) {
                Some(k) => 0 <= k < s@.len() && s@[k] == b && forall|j: int|
                    0 <= j < k ==> s@[j] != b,
                None => forall|j: int| 0 <= j < s@.len() ==> s@[j] != b,
            },
        decreases s@.len() - i,
    {
        if s[i] == b {
            return Some(i);
        }
        i += 1;
    }
    None
}

/// Finds the position of the last occurrence of `b` in `s`.
fn find_last(s: &[u8], b: u8) -> (r: Option<usize>)
    ensures
        match r {
            Some(i) => spec_find_last(s@, b) == Some(i as int),
            None => spec_find_last(s@, b) is None,
        },
{
    proof {
        lemma_find_last(s@, b);
    }
    let mut i: usize = s.len();
    while i > 0
        invariant
            i <= s@.len(),
            forall|j: int| i <= j < s@.len() ==> s@[j] != b,
            match spec_find_last(s@, b) {
                Some(k) => 0 <= k < s@.len() && s@[k] == b && forall|j: int|
                    k < j < s@.len() ==> s@[j] != b,
                None => forall|j: int| 0 <= j < s@.len() ==> s@[j] != b,
            },
        decreases i,
    {
        i -= 1;
        if s[i] == b {
            return Some(i);
        }
    }
    None
}

/// Parses an image reference string, rejecting every string that the
/// reference grammar does not generate.
pub fn parse_reference(s: &[u8]) -> (r: Result<ImageReference, ImportError>)
    ensures
        r is Ok <==> spec_parse_reference(s@) is Some,
        r is Ok ==> r->Ok_0@ == spec_parse_reference(s@).unwrap(),
        r is Err ==> r == Result::<ImageReference, ImportError>::Err(ImportError::ReferenceParse),
{
    let slash = match find_first(s, 47u8) {
        None => {
            return Err(ImportError::ReferenceParse);
        },
        Some(i) => i,
    };
    if slash == 0 {
        return Err(ImportError::ReferenceParse);
    }
    proof {
        lemma_find_first(s@, 47u8);
        assert(spec_find_first(s@, 47u8) == Some(slash as int));
        assert(slash < s@.len());
    }
    let registry = vstd::slice::slice_to_vec(vstd::slice::slice_subrange(s, 0, slash));
    let n = s.len();
    let rest = vstd::slice::slice_subrange(s, slash + 1, n);
    match find_last(rest, 58u8) {
        None => {
            if rest.len() == 0 {
                Err(ImportError::ReferenceParse)
            } else {
                let mut tag: Vec<u8> = Vec::new();
                push_all(&mut tag, DEFAULT_TAG.as_slice());
                Ok(
                    ImageReference {
                        registry,
                        repository: vstd::slice::slice_to_vec(rest),
                        tag,
                    },
                )
            }
        },
        Some(j) => {
            proof {
                lemma_find_last(rest@, 58u8);
            }
            let repository = vstd::slice::slice_to_vec(
                vstd::slice::slice_subrange(rest, 0, j),
            );
            let tag = vstd::slice::slice_to_vec(
                vstd::slice::slice_subrange(rest, j + 1, rest.len()),
            );
            if repository.len() == 0 || tag.len() == 0 {
                return Err(ImportError::ReferenceParse);
            }
            if find_first(tag.as_slice(), 47u8).is_some() {
                return Err(ImportError::ReferenceParse);
            }
            Ok(ImageReference { registry, repository, tag })
        },
    }
}

/// The source argument handed to the copy helper: `docker://` followed by
/// the canonical reference spelling.
pub fn docker_reference_arg(r: &ImageReference) -> (v: Vec<u8>)
    ensures
        v@ == DOCKER_SCHEME@ + spec_ref_string(r@),
{
    let mut v: Vec<u8> = Vec::new();
    push_all(&mut v, DOCKER_SCHEME.as_slice());
    push_all(&mut v, r.registry.as_slice());
    v.push(47u8);
    push_all(&mut v, r.repository.as_slice());
    v.push(58u8);
    push_all(&mut v, r.tag.as_slice());
    proof {
        assert(v@ =~= DOCKER_SCHEME@ + spec_ref_string(r@));
    }
    v
}

/// The destination argument handed to the copy helper: an OCI-archive
/// target writing through the child's file descriptor `fd`.
pub fn oci_archive_fd_arg(fd: u64) -> (v: Vec<u8>)
    ensures
        v@ == OCI_ARCHIVE_FD_PREFIX@ + spec_decimal(fd as nat),
{
    let mut v: Vec<u8> = Vec::new();
    push_all(&mut v, OCI_ARCHIVE_FD_PREFIX.as_slice());
    let d = decimal_bytes(fd);
    push_all(&mut v, d.as_slice());
    v
}

} // verus!
