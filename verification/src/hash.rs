//! Content hashing for clipboard change detection.
//!
//! The monitor compares 64-bit hashes of successive clipboard reads to
//! detect changes. The hash is FNV-1a over the UTF-8 bytes of the text; it
//! is a pure function of the content, so equal content always hashes
//! equally.

use vstd::prelude::*;
use vstd::string::StringSliceAdditionalSpecFns;
use vstd::wrapping::u64_specs;

verus! {

/// The FNV-1a offset basis for 64-bit hashes.
pub const FNV_OFFSET: u64 = 14695981039346656037;

/// The FNV-1a prime for 64-bit hashes.
pub const FNV_PRIME: u64 = 1099511628211;

/// One FNV-1a step: fold a byte into the running hash.
pub open spec fn fnv1a_step(h: u64, b: u8) -> u64 {
    u64_specs::wrapping_mul(h ^ (b as u64), FNV_PRIME)
}

/// The FNV-1a hash continued from a running value over the given bytes.
pub open spec fn fnv1a_from(h: u64, s: Seq<u8>) -> u64
    decreases s.len(),
{
    if s.len() == 0 {
        h
    } else {
        fnv1a_from(fnv1a_step(h, s[0]), s.skip(1))
    }
}

/// The FNV-1a hash of a byte sequence.
pub open spec fn fnv1a(s: Seq<u8>) -> u64 {
    fnv1a_from(FNV_OFFSET, s)
}

/// The 64-bit content hash of a text, over its UTF-8 bytes.
pub open spec fn spec_content_hash(s: Seq<char>) -> u64 {
    fnv1a(vstd::utf8::encode_utf8(s))
}

/// Hash clipboard content for change detection.
pub fn content_hash(content: &str) -> (r: u64)
    ensures
        r == spec_content_hash(content@),
{
    fnv1a_bytes(content.as_bytes())
}

/// The FNV-1a hash of a byte slice.
pub fn fnv1a_bytes(bytes: &[u8]) -> (r: u64)
    ensures
        r == fnv1a(bytes@),
{
    let mut h: u64 = FNV_OFFSET;
    let mut i: usize = 0;
    proof {
        assert(bytes@.skip(0) =~= bytes@);
    }
    while i < bytes.len()
        invariant
            i <= bytes@.len(),
            fnv1a(bytes@) == fnv1a_from(h, bytes@.skip(i as int)),
        decreases bytes@.len() - i,
    {
        proof {
            assert(bytes@.skip(i as int)[0] == bytes@[i as int]);
            assert(bytes@.skip(i as int).skip(1) =~= bytes@.skip(i + 1));
        }
        h = (h ^ (bytes[i] as u64)).wrapping_mul(FNV_PRIME);
        i = i + 1;
    }
    h
}

/// Hashing is a function of the content alone: equal content, equal hash.
pub proof fn lemma_hash_deterministic(a: Seq<char>, b: Seq<char>)
    requires
        a == b,
    ensures
        spec_content_hash(a) == spec_content_hash(b),
{
}

/// Whether two byte slices hold the same bytes.
pub fn bytes_eq(a: &[u8], b: &[u8]) -> (r: bool)
    ensures
        r == (a@ == b@),
{
    if a.len() != b.len() {
        proof {
            assert(a@.len() != b@.len());
        }
        return false;
    }
    let mut i: usize = 0;
    while i < a.len()
        invariant
            i <= a@.len(),
            a@.len() == b@.len(),
            forall|j: int| 0 <= j < i ==> a@[j] == b@[j],
        decreases a@.len() - i,
    {
        if a[i] != b[i] {
            return false;
        }
        i = i + 1;
    }
    proof {
        assert(a@ =~= b@);
    }
    true
}

/// Whether two texts hold the same characters.
pub fn str_eq(a: &str, b: &str) -> (r: bool)
    ensures
        r == (a@ == b@),
{
    let r = bytes_eq(a.as_bytes(), b.as_bytes());
    proof {
        if vstd::utf8::encode_utf8(a@) == vstd::utf8::encode_utf8(b@) {
            vstd::utf8::encode_utf8_decode_utf8(a@);
            vstd::utf8::encode_utf8_decode_utf8(b@);
            assert(a@ == b@);
        }
    }
    r
}

/// The hexadecimal digit for a value below sixteen.
pub open spec fn hex_digit(v: int) -> char {
    if v < 10 {
        ((48 + v) as u8) as char
    } else {
        ((87 + v) as u8) as char
    }
}

/// The lowest `k` hexadecimal digits of a number, least significant first.
pub open spec fn hex_rev(n: int, k: nat) -> Seq<char>
    decreases k,
{
    if k == 0 {
        Seq::empty()
    } else {
        seq![hex_digit(n % 16)] + hex_rev(n / 16, (k - 1) as nat)
    }
}

/// A number as sixteen hexadecimal digits, most significant first.
pub open spec fn hex16(n: u64) -> Seq<char> {
    hex_rev(n as int, 16).reverse()
}

/// The hexadecimal digit character for a value below sixteen.
fn hex_digit_of(v: u8) -> (c: char)
    requires
        v < 16,
    ensures
        c == hex_digit(v as int),
{
    if v < 10 {
        (48 + v) as char
    } else {
        (87 + v) as char
    }
}

/// Format a 64-bit value as sixteen lower-case hexadecimal digits.
pub fn to_hex16(n: u64) -> (r: String)
    ensures
        r@ == hex16(n),
{
    let mut digits: Vec<char> = Vec::new();
    let mut m = n;
    let mut j: usize = 0;
    while j < 16
        invariant
            j <= 16,
            digits@.len() == j,
            digits@ + hex_rev(m as int, (16 - j) as nat) == hex_rev(n as int, 16),
        decreases 16 - j,
    {
        let ghost before = digits@;
        digits.push(hex_digit_of((m % 16) as u8));
        m = m / 16;
        proof {
            assert(before + (seq![digits@.last()] + hex_rev(m as int, (15 - j) as nat)) =~= (
            before + seq![digits@.last()]) + hex_rev(m as int, (15 - j) as nat));
            assert(before + seq![digits@.last()] =~= digits@);
        }
        j = j + 1;
    }
    proof {
        assert(hex_rev(m as int, 0) =~= Seq::<char>::empty());
        assert(digits@ + Seq::<char>::empty() =~= digits@);
        assert(digits@ == hex_rev(n as int, 16));
    }
    let mut r = String::new();
    let mut i: usize = 0;
    while i < 16
        invariant
            i <= 16,
            digits@ == hex_rev(n as int, 16),
            digits@.len() == 16,
            r@ =~= hex16(n).take(i as int),
        decreases 16 - i,
    {
        crate::base64::push_char(&mut r, digits[16 - 1 - i]);
        proof {
            assert(hex16(n)[i as int] == digits@[15 - i]);
            assert(r@ =~= hex16(n).take(i + 1));
        }
        i = i + 1;
    }
    proof {
        assert(hex16(n).take(16) =~= hex16(n));
    }
    r
}

} // verus!
