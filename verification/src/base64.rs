//! Base64 encoding and decoding for the clipboard surrogate format.
//!
//! The surrogate written to the system clipboard is the Base64 encoding of
//! `nonce || ciphertext`; this module defines that encoding exactly and
//! proves that decoding inverts encoding.

use vstd::arithmetic::div_mod::lemma_fundamental_div_mod_converse;
use vstd::prelude::*;
use vstd::string::StrSliceExecFns;

verus! {

/// Each byte of a group's 24-bit value is recovered by division and
/// remainder.
proof fn lemma_group_value_bytes(b1: u8, b2: u8, b3: u8)
    ensures
        (b1 as int * 65536 + b2 as int * 256 + b3 as int) / 65536 % 256 == b1 as int,
        (b1 as int * 65536 + b2 as int * 256 + b3 as int) / 256 % 256 == b2 as int,
        (b1 as int * 65536 + b2 as int * 256 + b3 as int) % 256 == b3 as int,
{
    let n = b1 as int * 65536 + b2 as int * 256 + b3 as int;
    lemma_fundamental_div_mod_converse(n, 65536, b1 as int, b2 as int * 256 + b3 as int);
    lemma_fundamental_div_mod_converse(n, 256, b1 as int * 256 + b2 as int, b3 as int);
    lemma_fundamental_div_mod_converse(b1 as int * 256 + b2 as int, 256, b1 as int, b2 as int);
    lemma_fundamental_div_mod_converse(b1 as int, 256, 0, b1 as int);
}

/// The Base64 alphabet character for a 6-bit value.
pub open spec fn b64_char(v: int) -> char {
    if v < 26 {
        ((65 + v) as u8) as char
    } else if v < 52 {
        ((97 + (v - 26)) as u8) as char
    } else if v < 62 {
        ((48 + (v - 52)) as u8) as char
    } else if v == 62 {
        '+'
    } else {
        '/'
    }
}

/// The 6-bit value of a Base64 alphabet character, if it has one.
/// A padding character decodes as zero, as the decoder treats it.
pub open spec fn b64_value(c: char) -> Option<u32> {
    let n = c as int;
    if 65 <= n <= 90 {
        Some((n - 65) as u32)
    } else if 97 <= n <= 122 {
        Some((n - 97 + 26) as u32)
    } else if 48 <= n <= 57 {
        Some((n - 48 + 52) as u32)
    } else if c == '+' {
        Some(62u32)
    } else if c == '/' {
        Some(63u32)
    } else if c == '=' {
        Some(0u32)
    } else {
        None
    }
}

/// The four characters that encode a full group of three bytes.
pub open spec fn b64_group3(b1: u8, b2: u8, b3: u8) -> Seq<char> {
    seq![
        b64_char(b1 as int / 4),
        b64_char((b1 as int % 4) * 16 + b2 as int / 16),
        b64_char((b2 as int % 16) * 4 + b3 as int / 64),
        b64_char(b3 as int % 64),
    ]
}

/// The four characters that encode a final group of two bytes.
pub open spec fn b64_group2(b1: u8, b2: u8) -> Seq<char> {
    seq![
        b64_char(b1 as int / 4),
        b64_char((b1 as int % 4) * 16 + b2 as int / 16),
        b64_char((b2 as int % 16) * 4),
        '=',
    ]
}

/// The four characters that encode a final group of one byte.
pub open spec fn b64_group1(b1: u8) -> Seq<char> {
    seq![b64_char(b1 as int / 4), b64_char((b1 as int % 4) * 16), '=', '=']
}

/// Base64 encoding of a byte sequence, with `=` padding.
pub open spec fn b64_encode(s: Seq<u8>) -> Seq<char>
    decreases s.len(),
{
    if s.len() == 0 {
        Seq::empty()
    } else if s.len() == 1 {
        b64_group1(s[0])
    } else if s.len() == 2 {
        b64_group2(s[0], s[1])
    } else {
        b64_group3(s[0], s[1], s[2]) + b64_encode(s.skip(3))
    }
}

/// The text with all trailing `=` characters removed.
pub open spec fn b64_trim(s: Seq<char>) -> Seq<char>
    decreases s.len(),
{
    if s.len() > 0 && s.last() == '=' {
        b64_trim(s.drop_last())
    } else {
        s
    }
}

/// The text extended with `=` characters to a multiple of four.
pub open spec fn b64_pad(s: Seq<char>) -> Seq<char>
    decreases (4 - s.len() % 4) % 4,
{
    if s.len() % 4 == 0 {
        s
    } else {
        b64_pad(s.push('='))
    }
}

/// The bytes recovered from one group of four characters, if all four are
/// in the alphabet. A `=` in the third or fourth position suppresses the
/// corresponding output byte.
#[verifier::opaque]
pub open spec fn b64_group_bytes(c1: char, c2: char, c3: char, c4: char) -> Option<Seq<u8>> {
    if b64_value(c1) is None || b64_value(c2) is None || b64_value(c3) is None || b64_value(c4)
        is None {
        None
    } else {
        let v1 = b64_value(c1)->Some_0 as int;
        let v2 = b64_value(c2)->Some_0 as int;
        let v3 = b64_value(c3)->Some_0 as int;
        let v4 = b64_value(c4)->Some_0 as int;
        let n = v1 * 262144 + v2 * 4096 + v3 * 64 + v4;
        let one = seq![((n / 65536) % 256) as u8];
        let two = if c3 != '=' {
            one.push(((n / 256) % 256) as u8)
        } else {
            one
        };
        let three = if c4 != '=' {
            two.push((n % 256) as u8)
        } else {
            two
        };
        Some(three)
    }
}

/// The bytes recovered from trimmed-and-padded Base64 text, group by group.
pub open spec fn b64_decode_groups(s: Seq<char>) -> Option<Seq<u8>>
    decreases s.len(),
{
    if s.len() < 4 {
        Some(Seq::empty())
    } else {
        match b64_group_bytes(s[0], s[1], s[2], s[3]) {
            Option::None => None,
            Option::Some(bs) => match b64_decode_groups(s.skip(4)) {
                Option::None => None,
                Option::Some(rest) => Some(bs + rest),
            },
        }
    }
}

/// The decoding of Base64 text: trailing padding is dropped, the text is
/// re-padded to a multiple of four, and the groups are decoded.
pub open spec fn b64_decode(s: Seq<char>) -> Option<Seq<u8>> {
    b64_decode_groups(b64_pad(b64_trim(s)))
}

/// Relies on std's `String::push`: appends exactly the one character.
#[verifier::external_body]
pub(crate) fn push_char(s: &mut String, c: char)
    ensures
        final(s)@ == old(s)@.push(c),
{
    s.push(c);
}

/// The Base64 alphabet character for a 6-bit value.
fn b64_char_of(v: u8) -> (c: char)
    requires
        v < 64,
    ensures
        c == b64_char(v as int),
{
    if v < 26 {
        (65 + v) as char
    } else if v < 52 {
        (97 + (v - 26)) as char
    } else if v < 62 {
        (48 + (v - 52)) as char
    } else if v == 62 {
        '+'
    } else {
        '/'
    }
}

/// Encode a byte slice as Base64 text with `=` padding.
pub fn base64_encode(input: &[u8]) -> (r: String)
    ensures
        r@ == b64_encode(input@),
{
    let mut r = String::new();
    let mut i: usize = 0;
    proof {
        assert(input@.skip(0) =~= input@);
    }
    while input.len() - i >= 3
        invariant
            i <= input.len(),
            i % 3 == 0,
            b64_encode(input@) == r@ + b64_encode(input@.skip(i as int)),
        decreases input.len() - i,
    {
        let b1 = input[i];
        let b2 = input[i + 1];
        let b3 = input[i + 2];
        push_char(&mut r, b64_char_of(b1 / 4));
        push_char(&mut r, b64_char_of((b1 % 4) * 16 + b2 / 16));
        push_char(&mut r, b64_char_of((b2 % 16) * 4 + b3 / 64));
        push_char(&mut r, b64_char_of(b3 % 64));
        proof {
            assert(input@.skip(i as int).skip(3) =~= input@.skip(i + 3));
            assert(b64_encode(input@.skip(i as int)) == b64_group3(b1, b2, b3) + b64_encode(
                input@.skip(i + 3),
            ));
            assert(b64_encode(input@) == r@ + b64_encode(input@.skip(i + 3)));
        }
        i = i + 3;
    }
    let ghost head = r@;
    if input.len() - i == 1 {
        let b1 = input[i];
        push_char(&mut r, b64_char_of(b1 / 4));
        push_char(&mut r, b64_char_of((b1 % 4) * 16));
        push_char(&mut r, '=');
        push_char(&mut r, '=');
        proof {
            assert(b64_encode(input@.skip(i as int)) == b64_group1(b1));
            assert(r@ =~= head + b64_group1(b1));
        }
    } else if input.len() - i == 2 {
        let b1 = input[i];
        let b2 = input[i + 1];
        push_char(&mut r, b64_char_of(b1 / 4));
        push_char(&mut r, b64_char_of((b1 % 4) * 16 + b2 / 16));
        push_char(&mut r, b64_char_of((b2 % 16) * 4));
        push_char(&mut r, '=');
        proof {
            assert(b64_encode(input@.skip(i as int)) == b64_group2(b1, b2));
            assert(r@ =~= head + b64_group2(b1, b2));
        }
    } else {
        proof {
            assert(input@.skip(i as int) =~= Seq::<u8>::empty());
            assert(r@ =~= head + b64_encode(input@.skip(i as int)));
        }
    }
    r
}

/// The 6-bit value of one Base64 character; `=` counts as zero, anything
/// outside the alphabet is rejected.
pub fn char_to_base64_value(c: char) -> (r: Result<u32, String>)
    ensures
        r is Ok <==> b64_value(c) is Some,
        r is Ok ==> r->Ok_0 == b64_value(c)->Some_0,
{
    let n = c as u32;
    if 65 <= n && n <= 90 {
        Ok(n - 65)
    } else if 97 <= n && n <= 122 {
        Ok(n - 97 + 26)
    } else if 48 <= n && n <= 57 {
        Ok(n - 48 + 52)
    } else if c == '+' {
        Ok(62)
    } else if c == '/' {
        Ok(63)
    } else if c == '=' {
        Ok(0)
    } else {
        Err("invalid base64 character".to_owned())
    }
}

/// Decode one group of four characters, appending its bytes.
#[verifier::rlimit(60)]
fn decode_group(c1: char, c2: char, c3: char, c4: char, out: &mut Vec<u8>) -> (r: Result<
    (),
    String,
>)
    ensures
        r is Ok <==> b64_group_bytes(c1, c2, c3, c4) is Some,
        r is Ok ==> final(out)@ == old(out)@ + b64_group_bytes(c1, c2, c3, c4)->Some_0,
        r is Err ==> final(out)@ == old(out)@,
{
    proof {
        reveal(b64_group_bytes);
    }
    let v1 = char_to_base64_value(c1)?;
    let v2 = char_to_base64_value(c2)?;
    let v3 = char_to_base64_value(c3)?;
    let v4 = char_to_base64_value(c4)?;
    let n32: u32 = v1 * 262144 + v2 * 4096 + v3 * 64 + v4;
    let ghost bs = b64_group_bytes(c1, c2, c3, c4)->Some_0;
    let ghost done = out@;
    out.push(((n32 / 65536) % 256) as u8);
    if c3 != '=' {
        out.push(((n32 / 256) % 256) as u8);
    }
    if c4 != '=' {
        out.push((n32 % 256) as u8);
    }
    proof {
        assert(out@ =~= done + bs);
    }
    Ok(())
}

/// Decode Base64 text to bytes; fails exactly when a character outside the
/// alphabet occurs.
#[verifier::rlimit(60)]
pub fn base64_decode(input: &str) -> (r: Result<Vec<u8>, String>)
    ensures
        r is Ok <==> b64_decode(input@) is Some,
        r is Ok ==> r->Ok_0@ == b64_decode(input@)->Some_0,
{
    let n = input.unicode_len();
    let mut chars: Vec<char> = Vec::new();
    let mut j: usize = 0;
    while j < n
        invariant
            n == input@.len(),
            j <= n,
            chars@ =~= input@.subrange(0, j as int),
        decreases n - j,
    {
        chars.push(input.get_char(j));
        j = j + 1;
    }
    proof {
        assert(chars@ =~= input@);
    }
    // Strip the trailing padding, as the decoder re-derives it.
    while chars.len() > 0 && chars[chars.len() - 1] == '='
        invariant
            b64_trim(chars@) == b64_trim(input@),
        decreases chars.len(),
    {
        proof {
            assert(chars@.drop_last() =~= chars@.subrange(0, chars@.len() - 1));
        }
        chars.pop();
    }
    proof {
        assert(b64_trim(chars@) == chars@);
    }
    // Pad back to a whole number of groups.
    while chars.len() % 4 != 0
        invariant
            b64_pad(chars@) == b64_pad(b64_trim(input@)),
        decreases (4 - chars@.len() % 4) % 4,
    {
        chars.push('=');
    }
    proof {
        assert(b64_pad(chars@) == chars@);
        assert(b64_decode(input@) == b64_decode_groups(chars@));
    }
    let mut result: Vec<u8> = Vec::new();
    let mut i: usize = 0;
    proof {
        assert(chars@.skip(0) =~= chars@);
    }
    while i < chars.len()
        invariant
            i <= chars@.len(),
            i % 4 == 0,
            chars@.len() % 4 == 0,
            b64_decode(input@) == b64_decode_groups(chars@),
            match b64_decode_groups(chars@.skip(i as int)) {
                Option::Some(rest) => b64_decode_groups(chars@) == Some(result@ + rest),
                Option::None => b64_decode_groups(chars@) is None,
            },
        decreases chars@.len() - i,
    {
        let c1 = chars[i];
        let c2 = chars[i + 1];
        let c3 = chars[i + 2];
        let c4 = chars[i + 3];
        proof {
            assert(chars@.skip(i as int)[0] == c1);
            assert(chars@.skip(i as int)[1] == c2);
            assert(chars@.skip(i as int)[2] == c3);
            assert(chars@.skip(i as int)[3] == c4);
        }
        let ghost bs = b64_group_bytes(c1, c2, c3, c4)->Some_0;
        let ghost done = result@;
        decode_group(c1, c2, c3, c4, &mut result)?;
        proof {
            assert(chars@.skip(i as int).skip(4) =~= chars@.skip(i + 4));
            assert(b64_decode_groups(chars@.skip(i as int)) == (match b64_decode_groups(
                chars@.skip(i + 4),
            ) {
                Option::None => Option::<Seq<u8>>::None,
                Option::Some(rest) => Option::Some(bs + rest),
            }));
            if b64_decode_groups(chars@.skip(i + 4)) is Some {
                let rest = b64_decode_groups(chars@.skip(i + 4))->Some_0;
                assert((done + bs) + rest =~= done + (bs + rest));
            }
        }
        i = i + 4;
    }
    proof {
        assert(chars@.skip(chars@.len() as int) =~= Seq::<char>::empty());
        assert(b64_decode_groups(chars@) == Some(result@ + Seq::<u8>::empty()));
        assert(result@ + Seq::<u8>::empty() =~= result@);
    }
    Ok(result)
}

/// Every alphabet character decodes to the value it encodes, and none of
/// them is the padding character.
proof fn lemma_b64_char_value(v: int)
    requires
        0 <= v < 64,
    ensures
        b64_value(b64_char(v)) == Some(v as u32),
        b64_char(v) != '=',
{
}

/// A full group of three bytes decodes to exactly those bytes.
proof fn lemma_group3_round_trip(b1: u8, b2: u8, b3: u8)
    ensures
        b64_group_bytes(
            b64_char(b1 as int / 4),
            b64_char((b1 as int % 4) * 16 + b2 as int / 16),
            b64_char((b2 as int % 16) * 4 + b3 as int / 64),
            b64_char(b3 as int % 64),
        ) == Some(seq![b1, b2, b3]),
{
    reveal(b64_group_bytes);
    lemma_b64_char_value(b1 as int / 4);
    lemma_b64_char_value((b1 as int % 4) * 16 + b2 as int / 16);
    lemma_b64_char_value((b2 as int % 16) * 4 + b3 as int / 64);
    lemma_b64_char_value(b3 as int % 64);
    lemma_group_value_bytes(b1, b2, b3);
    let v1 = b1 as int / 4;
    let v2 = (b1 as int % 4) * 16 + b2 as int / 16;
    let v3 = (b2 as int % 16) * 4 + b3 as int / 64;
    let v4 = b3 as int % 64;
    let n = v1 * 262144 + v2 * 4096 + v3 * 64 + v4;
    assert(n == b1 as int * 65536 + b2 as int * 256 + b3 as int);
    assert(b64_group_bytes(
        b64_char(b1 as int / 4),
        b64_char((b1 as int % 4) * 16 + b2 as int / 16),
        b64_char((b2 as int % 16) * 4 + b3 as int / 64),
        b64_char(b3 as int % 64),
    )->Some_0 =~= seq![b1, b2, b3]);
}

/// A final group of two bytes decodes to exactly those bytes.
proof fn lemma_group2_round_trip(b1: u8, b2: u8)
    ensures
        b64_group_bytes(
            b64_char(b1 as int / 4),
            b64_char((b1 as int % 4) * 16 + b2 as int / 16),
            b64_char((b2 as int % 16) * 4),
            '=',
        ) == Some(seq![b1, b2]),
{
    reveal(b64_group_bytes);
    lemma_b64_char_value(b1 as int / 4);
    lemma_b64_char_value((b1 as int % 4) * 16 + b2 as int / 16);
    lemma_b64_char_value((b2 as int % 16) * 4);
    lemma_group_value_bytes(b1, b2, 0);
    let v1 = b1 as int / 4;
    let v2 = (b1 as int % 4) * 16 + b2 as int / 16;
    let v3 = (b2 as int % 16) * 4;
    let n = v1 * 262144 + v2 * 4096 + v3 * 64;
    assert(n == b1 as int * 65536 + b2 as int * 256);
    assert(b64_group_bytes(
        b64_char(b1 as int / 4),
        b64_char((b1 as int % 4) * 16 + b2 as int / 16),
        b64_char((b2 as int % 16) * 4),
        '=',
    )->Some_0 =~= seq![b1, b2]);
}

/// A final group of one byte decodes to exactly that byte.
proof fn lemma_group1_round_trip(b1: u8)
    ensures
        b64_group_bytes(b64_char(b1 as int / 4), b64_char((b1 as int % 4) * 16), '=', '=')
            == Some(seq![b1]),
{
    reveal(b64_group_bytes);
    lemma_b64_char_value(b1 as int / 4);
    lemma_b64_char_value((b1 as int % 4) * 16);
    lemma_group_value_bytes(b1, 0, 0);
    let v1 = b1 as int / 4;
    let v2 = (b1 as int % 4) * 16;
    let n = v1 * 262144 + v2 * 4096;
    assert(n == b1 as int * 65536);
    assert(b64_group_bytes(b64_char(b1 as int / 4), b64_char((b1 as int % 4) * 16), '=', '=')
        ->Some_0 =~= seq![b1]);
}

/// The encoding of a byte sequence is one character group per started
/// three-byte group.
pub proof fn lemma_encode_len(s: Seq<u8>)
    ensures
        b64_encode(s).len() == 4 * ((s.len() + 2) / 3),
    decreases s.len(),
{
    if s.len() >= 3 {
        lemma_encode_len(s.skip(3));
    }
}

/// Decoding the groups of an encoding recovers the bytes.
proof fn lemma_groups_encode(s: Seq<u8>)
    ensures
        b64_decode_groups(b64_encode(s)) == Some(s),
    decreases s.len(),
{
    let e = b64_encode(s);
    lemma_encode_len(s);
    if s.len() == 0 {
        assert(Seq::<u8>::empty() =~= s);
    } else if s.len() == 1 {
        lemma_group1_round_trip(s[0]);
        assert(b64_group_bytes(e[0], e[1], e[2], e[3]) == Some(seq![s[0]]));
        assert(e.skip(4) =~= Seq::<char>::empty());
        assert(b64_decode_groups(e.skip(4)) == Some(Seq::<u8>::empty()));
        assert(seq![s[0]] + Seq::<u8>::empty() =~= s);
    } else if s.len() == 2 {
        lemma_group2_round_trip(s[0], s[1]);
        assert(b64_group_bytes(e[0], e[1], e[2], e[3]) == Some(seq![s[0], s[1]]));
        assert(e.skip(4) =~= Seq::<char>::empty());
        assert(b64_decode_groups(e.skip(4)) == Some(Seq::<u8>::empty()));
        assert(seq![s[0], s[1]] + Seq::<u8>::empty() =~= s);
    } else {
        lemma_group3_round_trip(s[0], s[1], s[2]);
        lemma_groups_encode(s.skip(3));
        assert(b64_group_bytes(e[0], e[1], e[2], e[3]) == Some(seq![s[0], s[1], s[2]]));
        assert(e.skip(4) =~= b64_encode(s.skip(3)));
        assert(b64_decode_groups(e.skip(4)) == Some(s.skip(3)));
        assert(seq![s[0], s[1], s[2]] + s.skip(3) =~= s);
    }
}

/// Trimming from the right of a concatenation stops inside the right part
/// as long as something survives there.
proof fn lemma_trim_concat(a: Seq<char>, b: Seq<char>)
    requires
        b64_trim(b).len() > 0,
    ensures
        b64_trim(a + b) == a + b64_trim(b),
    decreases b.len(),
{
    if b.len() > 0 && b.last() == '=' {
        assert((a + b).last() == '=');
        assert((a + b).drop_last() =~= a + b.drop_last());
        lemma_trim_concat(a, b.drop_last());
    } else {
        assert(a + b =~= a + b64_trim(b));
    }
}

/// How trimming acts on an encoding: it removes exactly the padding, whose
/// amount the length of the input determines.
proof fn lemma_trim_encode(s: Seq<u8>)
    ensures
        s.len() % 3 == 0 ==> b64_trim(b64_encode(s)) == b64_encode(s),
        s.len() % 3 == 1 ==> b64_trim(b64_encode(s)) == b64_encode(s).drop_last().drop_last()
            && b64_encode(s).last() == '=' && b64_encode(s).drop_last().last() == '=',
        s.len() % 3 == 2 ==> b64_trim(b64_encode(s)) == b64_encode(s).drop_last() && b64_encode(
            s,
        ).last() == '=',
    decreases s.len(),
{
    let e = b64_encode(s);
    lemma_encode_len(s);
    if s.len() == 0 {
    } else if s.len() == 1 {
        lemma_b64_char_value((s[0] as int % 4) * 16);
        assert(e.drop_last().drop_last() =~= seq![
            b64_char(s[0] as int / 4),
            b64_char((s[0] as int % 4) * 16),
        ]);
        assert(b64_trim(e) == b64_trim(e.drop_last()));
        assert(b64_trim(e.drop_last()) == b64_trim(e.drop_last().drop_last()));
        assert(b64_trim(e.drop_last().drop_last()) == e.drop_last().drop_last());
    } else if s.len() == 2 {
        lemma_b64_char_value((s[1] as int % 16) * 4);
        assert(e.drop_last() =~= seq![
            b64_char(s[0] as int / 4),
            b64_char((s[0] as int % 4) * 16 + s[1] as int / 16),
            b64_char((s[1] as int % 16) * 4),
        ]);
        assert(b64_trim(e) == b64_trim(e.drop_last()));
        assert(b64_trim(e.drop_last()) == e.drop_last());
    } else {
        let g = b64_group3(s[0], s[1], s[2]);
        let rest = b64_encode(s.skip(3));
        lemma_trim_encode(s.skip(3));
        lemma_encode_len(s.skip(3));
        if s.len() % 3 == 0 {
            if s.skip(3).len() == 0 {
                lemma_b64_char_value(s[2] as int % 64);
                assert(e =~= g);
                assert(b64_trim(g) == g);
            } else {
                lemma_trim_concat(g, rest);
                assert(e =~= g + rest);
            }
        } else if s.len() % 3 == 1 {
            lemma_trim_concat(g, rest);
            assert(e =~= g + rest);
            assert(g + rest.drop_last().drop_last() =~= (g + rest).drop_last().drop_last());
            assert((g + rest).last() == rest.last());
            assert((g + rest).drop_last() =~= g + rest.drop_last());
        } else {
            lemma_trim_concat(g, rest);
            assert(e =~= g + rest);
            assert(g + rest.drop_last() =~= (g + rest).drop_last());
            assert((g + rest).last() == rest.last());
        }
    }
}

/// Decoding inverts encoding.
#[verifier::rlimit(100)]
pub proof fn lemma_b64_round_trip(s: Seq<u8>)
    ensures
        b64_decode(b64_encode(s)) == Some(s),
{
    let e = b64_encode(s);
    lemma_encode_len(s);
    lemma_trim_encode(s);
    lemma_groups_encode(s);
    if s.len() % 3 == 0 {
        assert(b64_pad(e) == e);
    } else if s.len() % 3 == 1 {
        let t = e.drop_last().drop_last();
        assert(t.len() % 4 == 2);
        assert(b64_pad(t) == b64_pad(t.push('=')));
        assert(b64_pad(t.push('=')) == b64_pad(t.push('=').push('=')));
        assert(t.push('=').push('=').len() % 4 == 0);
        assert(t.push('=').push('=') =~= e);
    } else {
        let t = e.drop_last();
        assert(t.len() % 4 == 3);
        assert(b64_pad(t) == b64_pad(t.push('=')));
        assert(t.push('=').len() % 4 == 0);
        assert(t.push('=') =~= e);
    }
}

} // verus!
