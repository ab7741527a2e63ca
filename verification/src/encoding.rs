//! Percent-encoding of file names for the `Content-Disposition` header.
//!
//! A file name is carried in the header as an RFC 5987 extended value, so
//! every octet outside the RFC 3986 unreserved set is written as `%XX` with
//! upper-case hexadecimal digits. Encoding is injective: a decoder that
//! resolves every `%XX` escape recovers the original name exactly.

use vstd::prelude::*;

verus! {

/// A byte the encoder passes through unchanged: the RFC 3986 unreserved
/// characters (ASCII letters, digits, `-`, `.`, `_`, `~`). Every other
/// octet, in particular controls, space, quotes and non-ASCII bytes, is
/// escaped, so the output is always safe in an HTTP header value.
pub open spec fn is_unreserved(b: u8) -> bool {
    ||| (97 <= b && b <= 122)
    ||| (65 <= b && b <= 90)
    ||| (48 <= b && b <= 57)
    ||| b == 45
    ||| b == 46
    ||| b == 95
    ||| b == 126
}

/// The upper-case hexadecimal digit for a value below 16.
pub open spec fn hex_digit(n: u8) -> u8
    recommends
        n < 16,
{
    if n < 10 {
        (n + 48) as u8
    } else {
        ((n - 10) + 65) as u8
    }
}

/// The value of one hexadecimal digit; 0 for a byte that is no such digit.
pub open spec fn hex_value(d: u8) -> u8 {
    if 48 <= d && d <= 57 {
        (d - 48) as u8
    } else if 65 <= d && d <= 70 {
        ((d - 65) + 10) as u8
    } else {
        0
    }
}

/// How one byte of a file name appears in the header: itself when
/// unreserved, otherwise a three-byte `%XX` escape.
pub open spec fn encode_byte(b: u8) -> Seq<u8> {
    if is_unreserved(b) {
        seq![b]
    } else {
        seq![37, hex_digit((b / 16) as u8), hex_digit((b % 16) as u8)]
    }
}

/// The percent-encoding of a whole byte sequence.
pub open spec fn encode_bytes(s: Seq<u8>) -> Seq<u8>
    decreases s.len(),
{
    if s.len() == 0 {
        Seq::empty()
    } else {
        encode_byte(s[0]) + encode_bytes(s.drop_first())
    }
}

/// A decoder that resolves every well-formed `%XX` escape and copies any
/// other byte unchanged.
pub open spec fn decode_bytes(s: Seq<u8>) -> Seq<u8>
    decreases s.len(),
{
    if s.len() == 0 {
        Seq::empty()
    } else if s[0] == 37 && s.len() >= 3 {
        seq![((hex_value(s[1]) * 16 + hex_value(s[2])) as u8)] + decode_bytes(s.skip(3))
    } else {
        seq![s[0]] + decode_bytes(s.skip(1))
    }
}

/// Every byte of the sequence may stand in an HTTP header value: it is
/// either unreserved or the `%` of an escape.
pub open spec fn header_safe(s: Seq<u8>) -> bool {
    forall|i: int| 0 <= i < s.len() ==> is_unreserved(#[trigger] s[i]) || s[i] == 37
}

proof fn lemma_encode_bytes_append(a: Seq<u8>, b: Seq<u8>)
    ensures
        encode_bytes(a + b) == encode_bytes(a) + encode_bytes(b),
    decreases a.len(),
{
    if a.len() == 0 {
        assert(a + b =~= b);
        assert(encode_bytes(a) + encode_bytes(b) =~= encode_bytes(b));
    } else {
        assert((a + b).drop_first() =~= a.drop_first() + b);
        lemma_encode_bytes_append(a.drop_first(), b);
        assert(encode_byte(a[0]) + (encode_bytes(a.drop_first()) + encode_bytes(b)) =~= (
        encode_byte(a[0]) + encode_bytes(a.drop_first())) + encode_bytes(b));
        assert((a + b)[0] == a[0]);
    }
}

proof fn lemma_encode_bytes_one(b: u8)
    ensures
        encode_bytes(seq![b]) == encode_byte(b),
{
    assert(seq![b].drop_first() =~= Seq::<u8>::empty());
    assert(encode_bytes(seq![b]) == encode_byte(b) + encode_bytes(Seq::<u8>::empty()));
    assert(encode_byte(b) + Seq::<u8>::empty() =~= encode_byte(b));
}

/// The escape of a non-unreserved byte decodes back to that byte.
proof fn lemma_hex_digits_invert(b: u8)
    ensures
        hex_value(hex_digit((b / 16) as u8)) == b / 16,
        hex_value(hex_digit((b % 16) as u8)) == b % 16,
        hex_value(hex_digit((b / 16) as u8)) * 16 + hex_value(hex_digit((b % 16) as u8)) == b,
{
    assert(b / 16 < 16 && b % 16 < 16) by (nonlinear_arith);
    assert((b / 16) * 16 + (b % 16) == b) by (nonlinear_arith);
}

/// Percent-decoding inverts percent-encoding: the encoded form of any byte
/// sequence decodes back to that sequence exactly.
pub proof fn lemma_encode_decode(s: Seq<u8>)
    ensures
        decode_bytes(encode_bytes(s)) == s,
    decreases s.len(),
{
    if s.len() == 0 {
        assert(decode_bytes(encode_bytes(s)) =~= s);
    } else {
        let b = s[0];
        let e = encode_byte(b);
        let rest = encode_bytes(s.drop_first());
        lemma_encode_decode(s.drop_first());
        if is_unreserved(b) {
            assert(b != 37);
            assert((e + rest)[0] == b);
            assert((e + rest).skip(1) =~= rest);
            assert(decode_bytes(e + rest) == seq![b] + decode_bytes(rest));
        } else {
            lemma_hex_digits_invert(b);
            assert((e + rest)[0] == 37);
            assert((e + rest)[1] == hex_digit((b / 16) as u8));
            assert((e + rest)[2] == hex_digit((b % 16) as u8));
            assert((e + rest).skip(3) =~= rest);
            assert(decode_bytes(e + rest) == seq![b] + decode_bytes(rest));
        }
        assert(seq![b] + s.drop_first() =~= s);
    }
}

/// The encoder's output never holds a byte that is unsafe in an HTTP
/// header value.
pub proof fn lemma_encode_header_safe(s: Seq<u8>)
    ensures
        header_safe(encode_bytes(s)),
    decreases s.len(),
{
    if s.len() > 0 {
        let b = s[0];
        let e = encode_byte(b);
        let rest = encode_bytes(s.drop_first());
        lemma_encode_header_safe(s.drop_first());
        assert forall|i: int| 0 <= i < encode_bytes(s).len() implies is_unreserved(
            #[trigger] encode_bytes(s)[i],
        ) || encode_bytes(s)[i] == 37 by {
            if i < e.len() {
                assert(encode_bytes(s)[i] == e[i]);
            } else {
                assert(encode_bytes(s)[i] == rest[i - e.len()]);
            }
        }
    }
}

/// For a non-empty visible file name, the disposition value is the
/// `attachment; filename*=UTF-8''` prefix followed by the percent-encoded
/// name; the encoded part holds only header-safe bytes, and
/// percent-decoding it yields the original name exactly.
pub proof fn lemma_disposition_round_trip(name: Seq<u8>)
    requires
        name.len() > 0,
    ensures
        disposition_value_spec(name) == disposition_prefix() + encode_bytes(name),
        header_safe(encode_bytes(name)),
        decode_bytes(encode_bytes(name)) == name,
{
    lemma_encode_header_safe(name);
    lemma_encode_decode(name);
}

fn unreserved(b: u8) -> (r: bool)
    ensures
        r == is_unreserved(b),
{
    (97 <= b && b <= 122) || (65 <= b && b <= 90) || (48 <= b && b <= 57) || b == 45
        || b == 46 || b == 95 || b == 126
}

fn hex_digit_byte(n: u8) -> (r: u8)
    requires
        n < 16,
    ensures
        r == hex_digit(n),
{
    if n < 10 {
        n + 48
    } else {
        (n - 10) + 65
    }
}

/// Percent-encode a file name for use in an HTTP header: every byte outside
/// the unreserved set becomes a `%XX` escape with upper-case digits.
pub fn encode_component(input: &[u8]) -> (r: Vec<u8>)
    ensures
        r@ == encode_bytes(input@),
{
    let mut r: Vec<u8> = Vec::new();
    let mut i: usize = 0;
    while i < input.len()
        invariant
            i <= input.len(),
            r@ == encode_bytes(input@.subrange(0, i as int)),
        decreases input.len() - i,
    {
        let b = input[i];
        proof {
            assert(input@.subrange(0, i + 1) =~= input@.subrange(0, i as int) + seq![input@[i as int]]);
            lemma_encode_bytes_append(input@.subrange(0, i as int), seq![input@[i as int]]);
            lemma_encode_bytes_one(input@[i as int]);
        }
        if unreserved(b) {
            r.push(b);
        } else {
            proof {
                assert(b / 16 < 16 && b % 16 < 16) by (nonlinear_arith);
            }
            r.push(37);
            r.push(hex_digit_byte(b / 16));
            r.push(hex_digit_byte(b % 16));
        }
        i += 1;
    }
    proof {
        assert(input@.subrange(0, input.len() as int) =~= input@);
    }
    r
}

/// The bytes of `attachment`.
pub open spec fn attachment_bytes() -> Seq<u8> {
    seq![97u8, 116, 116, 97, 99, 104, 109, 101, 110, 116]
}

/// The bytes of `attachment; filename*=UTF-8''`, the prefix of a
/// disposition that names the file.
pub open spec fn disposition_prefix() -> Seq<u8> {
    attachment_bytes() + seq![
        59u8,
        32,
        102,
        105,
        108,
        101,
        110,
        97,
        109,
        101,
        42,
        61,
        85,
        84,
        70,
        45,
        56,
        39,
        39,
    ]
}

/// The `Content-Disposition` value for a visible file name: the bare
/// `attachment` when the name is empty, otherwise the RFC 5987 extended
/// parameter carrying the percent-encoded name.
pub open spec fn disposition_value_spec(name: Seq<u8>) -> Seq<u8> {
    if name.len() == 0 {
        attachment_bytes()
    } else {
        disposition_prefix() + encode_bytes(name)
    }
}

/// Build the `Content-Disposition` value for a visible file name.
pub fn content_disposition_value(name: &[u8]) -> (r: Vec<u8>)
    ensures
        r@ == disposition_value_spec(name@),
{
    let mut r: Vec<u8> = Vec::new();
    r.push(97);  // a
    r.push(116);  // t
    r.push(116);  // t
    r.push(97);  // a
    r.push(99);  // c
    r.push(104);  // h
    r.push(109);  // m
    r.push(101);  // e
    r.push(110);  // n
    r.push(116);  // t
    if name.len() == 0 {
        proof {
            assert(r@ =~= attachment_bytes());
        }
        return r;
    }
    r.push(59);  // ;
    r.push(32);  // space
    r.push(102);  // f
    r.push(105);  // i
    r.push(108);  // l
    r.push(101);  // e
    r.push(110);  // n
    r.push(97);  // a
    r.push(109);  // m
    r.push(101);  // e
    r.push(42);  // *
    r.push(61);  // =
    r.push(85);  // U
    r.push(84);  // T
    r.push(70);  // F
    r.push(45);  // -
    r.push(56);  // 8
    r.push(39);  // '
    r.push(39);  // '
    proof {
        assert(r@ =~= disposition_prefix());
    }
    let mut enc = encode_component(name);
    r.append(&mut enc);
    r
}

} // verus!
