use vstd::prelude::*;

verus! {

/// An ASCII letter or digit.
pub open spec fn is_alphanumeric(c: char) -> bool {
    ('A' <= c <= 'Z') || ('a' <= c <= 'z') || ('0' <= c <= '9')
}

/// A character of the URL-safe base64 alphabet.
pub open spec fn is_url_safe_base64(c: char) -> bool {
    is_alphanumeric(c) || c == '-' || c == '_'
}

/// The length of the unpadded base64 encoding of `n` bytes.
pub open spec fn unpadded_len(n: nat) -> nat {
    (n / 3) * 4 + (if n % 3 == 0 {
        0nat
    } else if n % 3 == 1 {
        2nat
    } else {
        3nat
    })
}

/// The URL-safe base64 symbol of a 6-bit value: `A`-`Z`, `a`-`z`, `0`-`9`,
/// `-`, `_`.
pub open spec fn b64_symbol(v: u8) -> char {
    if v < 26 {
        (65 + v) as char
    } else if v < 52 {
        (97 + v - 26) as char
    } else if v < 62 {
        (48 + v - 52) as char
    } else if v == 62 {
        '-'
    } else {
        '_'
    }
}

/// The 6-bit value of a URL-safe base64 symbol.
pub open spec fn b64_value(c: char) -> u8 {
    if 'A' <= c <= 'Z' {
        (c as int - 65) as u8
    } else if 'a' <= c <= 'z' {
        (c as int - 97 + 26) as u8
    } else if '0' <= c <= '9' {
        (c as int - 48 + 52) as u8
    } else if c == '-' {
        62
    } else {
        63
    }
}

/// The four symbols of three bytes.
pub open spec fn encode_group(b0: u8, b1: u8, b2: u8) -> Seq<char> {
    seq![
        b64_symbol(b0 >> 2),
        b64_symbol(((b0 & 3) << 4) | (b1 >> 4)),
        b64_symbol(((b1 & 15) << 2) | (b2 >> 6)),
        b64_symbol(b2 & 63),
    ]
}

/// The unpadded URL-safe base64 encoding of `data`: four symbols for each
/// group of three bytes, then three symbols for two leftover bytes or two
/// symbols for one.
pub open spec fn base64_url_unpadded(data: Seq<u8>) -> Seq<char>
    decreases data.len(),
{
    if data.len() >= 3 {
        encode_group(data[0], data[1], data[2]) + base64_url_unpadded(data.subrange(3, data.len() as int))
    } else if data.len() == 2 {
        seq![
            b64_symbol(data[0] >> 2),
            b64_symbol(((data[0] & 3) << 4) | (data[1] >> 4)),
            b64_symbol((data[1] & 15) << 2),
        ]
    } else if data.len() == 1 {
        seq![b64_symbol(data[0] >> 2), b64_symbol((data[0] & 3) << 4)]
    } else {
        Seq::empty()
    }
}

/// The three bytes of four symbol values.
pub open spec fn decode_group(c0: u8, c1: u8, c2: u8, c3: u8) -> Seq<u8> {
    seq![(c0 << 2) | (c1 >> 4), ((c1 & 15) << 4) | (c2 >> 2), ((c2 & 3) << 6) | c3]
}

/// The bytes that an unpadded URL-safe base64 text stands for.
pub open spec fn base64_url_unpadded_decode(s: Seq<char>) -> Seq<u8>
    decreases s.len(),
{
    if s.len() >= 4 {
        decode_group(b64_value(s[0]), b64_value(s[1]), b64_value(s[2]), b64_value(s[3]))
            + base64_url_unpadded_decode(s.subrange(4, s.len() as int))
    } else if s.len() == 3 {
        decode_group(b64_value(s[0]), b64_value(s[1]), b64_value(s[2]), 0).subrange(0, 2)
    } else if s.len() == 2 {
        decode_group(b64_value(s[0]), b64_value(s[1]), 0, 0).subrange(0, 1)
    } else {
        Seq::empty()
    }
}

proof fn lemma_symbol_value(v: u8)
    requires
        v < 64,
    ensures
        b64_value(b64_symbol(v)) == v,
        is_url_safe_base64(b64_symbol(v)),
{
}

proof fn lemma_group_bits(b0: u8, b1: u8, b2: u8)
    ensures
        (b0 >> 2) < 64,
        (((b0 & 3) << 4) | (b1 >> 4)) < 64,
        (((b1 & 15) << 2) | (b2 >> 6)) < 64,
        (b2 & 63) < 64,
        ((b0 & 3) << 4) < 64,
        ((b1 & 15) << 2) < 64,
        ((b0 >> 2) << 2) | ((((b0 & 3) << 4) | (b1 >> 4)) >> 4) == b0,
        (((((b0 & 3) << 4) | (b1 >> 4)) & 15) << 4) | ((((b1 & 15) << 2) | (b2 >> 6)) >> 2) == b1,
        (((((b1 & 15) << 2) | (b2 >> 6)) & 3) << 6) | (b2 & 63) == b2,
        (((((b0 & 3) << 4) | (b1 >> 4)) & 15) << 4) | (((b1 & 15) << 2) >> 2) == b1,
        ((b0 >> 2) << 2) | (((b0 & 3) << 4) >> 4) == b0,
{
    assert((b0 >> 2) < 64) by (bit_vector);
    assert((((b0 & 3) << 4) | (b1 >> 4)) < 64) by (bit_vector);
    assert((((b1 & 15) << 2) | (b2 >> 6)) < 64) by (bit_vector);
    assert((b2 & 63) < 64) by (bit_vector);
    assert(((b0 & 3) << 4) < 64) by (bit_vector);
    assert(((b1 & 15) << 2) < 64) by (bit_vector);
    assert(((b0 >> 2) << 2) | ((((b0 & 3) << 4) | (b1 >> 4)) >> 4) == b0) by (bit_vector);
    assert((((((b0 & 3) << 4) | (b1 >> 4)) & 15) << 4) | ((((b1 & 15) << 2) | (b2 >> 6)) >> 2) == b1)
        by (bit_vector);
    assert((((((b1 & 15) << 2) | (b2 >> 6)) & 3) << 6) | (b2 & 63) == b2) by (bit_vector);
    assert((((((b0 & 3) << 4) | (b1 >> 4)) & 15) << 4) | (((b1 & 15) << 2) >> 2) == b1) by (bit_vector);
    assert(((b0 >> 2) << 2) | (((b0 & 3) << 4) >> 4) == b0) by (bit_vector);
}

/// Law: the encoding has the documented length and uses only URL-safe
/// symbols.
pub proof fn lemma_encoding_shape(data: Seq<u8>)
    ensures
        base64_url_unpadded(data).len() == unpadded_len(data.len()),
        forall|i: int|
            0 <= i < base64_url_unpadded(data).len() ==> is_url_safe_base64(#[trigger] base64_url_unpadded(data)[i]),
    decreases data.len(),
{
    let e = base64_url_unpadded(data);
    if data.len() >= 3 {
        let rest = data.subrange(3, data.len() as int);
        lemma_encoding_shape(rest);
        lemma_group_bits(data[0], data[1], data[2]);
        lemma_symbol_value(data[0] >> 2);
        lemma_symbol_value(((data[0] & 3) << 4) | (data[1] >> 4));
        lemma_symbol_value(((data[1] & 15) << 2) | (data[2] >> 6));
        lemma_symbol_value(data[2] & 63);
        let g = encode_group(data[0], data[1], data[2]);
        assert(e == g + base64_url_unpadded(rest));
        assert forall|i: int| 0 <= i < e.len() implies is_url_safe_base64(#[trigger] e[i]) by {
            if i >= 4 {
                assert(e[i] == base64_url_unpadded(rest)[i - 4]);
            }
        }
        assert(unpadded_len(data.len()) == 4 + unpadded_len(rest.len()));
    } else if data.len() == 2 {
        lemma_group_bits(data[0], data[1], 0);
        lemma_symbol_value(data[0] >> 2);
        lemma_symbol_value(((data[0] & 3) << 4) | (data[1] >> 4));
        lemma_symbol_value((data[1] & 15) << 2);
    } else if data.len() == 1 {
        lemma_group_bits(data[0], 0, 0);
        lemma_symbol_value(data[0] >> 2);
        lemma_symbol_value((data[0] & 3) << 4);
    }
}

/// Law: decoding the unpadded URL-safe base64 encoding of `data` gives
/// `data` back.
pub proof fn lemma_decode_encode(data: Seq<u8>)
    ensures
        base64_url_unpadded_decode(base64_url_unpadded(data)) == data,
    decreases data.len(),
{
    let e = base64_url_unpadded(data);
    if data.len() >= 3 {
        let rest = data.subrange(3, data.len() as int);
        lemma_decode_encode(rest);
        lemma_encoding_shape(rest);
        let (b0, b1, b2) = (data[0], data[1], data[2]);
        lemma_group_bits(b0, b1, b2);
        lemma_symbol_value(b0 >> 2);
        lemma_symbol_value(((b0 & 3) << 4) | (b1 >> 4));
        lemma_symbol_value(((b1 & 15) << 2) | (b2 >> 6));
        lemma_symbol_value(b2 & 63);
        let g = encode_group(b0, b1, b2);
        assert(e == g + base64_url_unpadded(rest));
        assert(e.subrange(4, e.len() as int) =~= base64_url_unpadded(rest));
        assert(e[0] == g[0] && e[1] == g[1] && e[2] == g[2] && e[3] == g[3]);
        assert(decode_group(b64_value(e[0]), b64_value(e[1]), b64_value(e[2]), b64_value(e[3])) =~= seq![b0, b1, b2]);
        assert(data =~= seq![b0, b1, b2] + rest);
    } else if data.len() == 2 {
        lemma_group_bits(data[0], data[1], 0);
        lemma_symbol_value(data[0] >> 2);
        lemma_symbol_value(((data[0] & 3) << 4) | (data[1] >> 4));
        lemma_symbol_value((data[1] & 15) << 2);
        assert(base64_url_unpadded_decode(e) =~= data);
    } else if data.len() == 1 {
        lemma_group_bits(data[0], 0, 0);
        lemma_symbol_value(data[0] >> 2);
        lemma_symbol_value((data[0] & 3) << 4);
        assert(base64_url_unpadded_decode(e) =~= data);
    } else {
        assert(data =~= Seq::<u8>::empty());
    }
}

} // verus!
