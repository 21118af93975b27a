//! Small byte-string helpers shared across the library.
//!
//! The library keeps its data as plain byte strings, so the helpers here are
//! the few primitives the rest of the crate builds text from: comparison,
//! concatenation, decimal spelling of counters, and conversion of ASCII
//! bytes into an owned `String`.

use vstd::prelude::*;

verus! {

/// Every byte is seven-bit ASCII.
pub open spec fn ascii_bytes(s: Seq<u8>) -> bool {
    forall|i: int| 0 <= i < s.len() ==> s[i] < 128
}

/// The character sequence spelled by a byte sequence, one character per byte.
pub open spec fn chars_of_bytes(s: Seq<u8>) -> Seq<char> {
    s.map_values(|b: u8| b as char)
}

/// True exactly when two byte slices hold the same bytes.
pub fn bytes_eq(a: &[u8], b: &[u8]) -> (r: bool)
    ensures
        r == (a@ == b@),
{
    if a.len() != b.len() {
        return false;
    }
    let mut i: usize = 0;
    while i < a.len()
        invariant
            i <= a@.len(),
            a@.len() == b@.len(),
            forall|j: int| 0 <= j < i ==> a@[j] == b@[j],
        decreases a@.len() - i,
    {
        if a[i] != b[i] {
            return false;
        }
        i += 1;
    }
    proof {
        assert(a@ =~= b@);
    }
    true
}

/// Appends every byte of `s` to `v`, in order.
pub fn push_all(v: &mut Vec<u8>, s: &[u8])
    ensures
        final(v)@ == old(v)@ + s@,
{
    let mut i: usize = 0;
    while i < s.len()
        invariant
            i <= s@.len(),
            v@ =~= old(v)@ + s@.take(i as int),
        decreases s@.len() - i,
    {
        let b = s[i];
        v.push(b);
        i += 1;
        proof {
            assert(v@ =~= old(v)@ + s@.take(i as int));
        }
    }
    proof {
        assert(s@.take(s@.len() as int) =~= s@);
    }
}

/// The shortest decimal spelling of `n`, as ASCII digit bytes.
pub open spec fn spec_decimal(n: nat) -> Seq<u8>
    decreases n,
{
    if n < 10 {
        seq![(48 + n) as u8]
    } else {
        spec_decimal(n / 10).push((48 + n % 10) as u8)
    }
}

/// Spells `n` in decimal, most significant digit first, no sign and no
/// leading zeroes (a lone zero for `n == 0`).
pub fn decimal_bytes(n: u64) -> (r: Vec<u8>)
    ensures
        r@ == spec_decimal(n as nat),
{
    let mut rev: Vec<u8> = Vec::new();
    let mut m: u64 = n;
    loop
        invariant_except_break
            spec_decimal(n as nat) =~= spec_decimal(m as nat) + rev@.reverse(),
        ensures
            spec_decimal(n as nat) =~= rev@.reverse(),
        decreases m,
    {
        let d: u8 = 48 + (m % 10) as u8;
        rev.push(d);
        proof {
            assert(rev@.reverse() =~= seq![d] + rev@.drop_last().reverse());
        }
        if m < 10 {
            proof {
                assert(spec_decimal(m as nat) =~= seq![d]);
                assert(spec_decimal(n as nat) =~= rev@.reverse());
            }
            break;
        }
        proof {
            assert(spec_decimal(m as nat) =~= spec_decimal((m / 10) as nat) + seq![d]);
            assert(spec_decimal((m / 10) as nat) + (seq![d] + rev@.drop_last().reverse())
                =~= (spec_decimal((m / 10) as nat) + seq![d]) + rev@.drop_last().reverse());
        }
        m = m / 10;
    }
    proof {
        assert(spec_decimal(n as nat) =~= rev@.reverse());
    }
    let mut r: Vec<u8> = Vec::new();
    let mut i: usize = rev.len();
    while i > 0
        invariant
            i <= rev@.len(),
            r@ =~= rev@.skip(i as int).reverse(),
        decreases i,
    {
        i -= 1;
        let b = rev[i];
        r.push(b);
        proof {
            assert(r@ =~= rev@.skip(i as int).reverse());
        }
    }
    proof {
        assert(rev@.skip(0) =~= rev@);
    }
    r
}

/// Relies on std's `String::from_utf8`: ASCII bytes are valid UTF-8 and
/// decode to exactly one character per byte.
#[verifier::external_body]
pub fn string_from_ascii(b: Vec<u8>) -> (r: String)
    requires
        ascii_bytes(b@),
    ensures
        r@ == chars_of_bytes(b@),
{
    match String::from_utf8(b) {
        Ok(s) => s,
        Err(_) => String::new(),
    }
}

} // verus!
