use vstd::prelude::*;

verus! {

/// The upper-case hexadecimal digit of a value below 16.
pub open spec fn hex_digit(n: int) -> char {
    if n < 10 {
        ('0' as int + n) as char
    } else {
        ('A' as int + n - 10) as char
    }
}

/// The upper-case hexadecimal text of `bytes`: two digits per byte, the
/// high half first.
pub open spec fn hex_upper(bytes: Seq<u8>) -> Seq<char> {
    Seq::new(
        2 * bytes.len(),
        |k: int| if k % 2 == 0 {
            hex_digit(bytes[k / 2] as int / 16)
        } else {
            hex_digit(bytes[k / 2] as int % 16)
        },
    )
}

/// The digits, in order of value.
pub const HEX_DIGITS: &'static str = "0123456789ABCDEF";

/// The text of the single digit of `n`.
fn digit_text(n: u8) -> (r: &'static str)
    requires
        n < 16,
    ensures
        r@ == seq![hex_digit(n as int)],
{
    proof {
        reveal_strlit("0123456789ABCDEF");
    }
    let d: usize = n as usize;
    let r = HEX_DIGITS.substring_char(d, d + 1);
    assert(r@ =~= seq![hex_digit(n as int)]);
    r
}

/// The upper-case hexadecimal text of the bytes `data[from..to]`.
pub fn hex_of_range(data: &[u8], from: usize, to: usize) -> (r: String)
    requires
        from <= to <= data@.len(),
    ensures
        r@ == hex_upper(data@.subrange(from as int, to as int)),
{
    let ghost part = data@.subrange(from as int, to as int);
    let mut out: String = "".to_owned();
    proof {
        reveal_strlit("");
    }
    let mut i: usize = from;
    while i < to
        invariant
            from <= i <= to <= data@.len(),
            part == data@.subrange(from as int, to as int),
            out@ == hex_upper(data@.subrange(from as int, i as int)),
        decreases to - i,
    {
        let b: u8 = data[i];
        let hi = digit_text(b / 16);
        let lo = digit_text(b % 16);
        out.append(hi);
        out.append(lo);
        assert(out@ =~= hex_upper(data@.subrange(from as int, i + 1)));
        i = i + 1;
    }
    out
}

/// The upper-case hexadecimal text of `data`.
pub fn to_hex_upper(data: &[u8]) -> (r: String)
    ensures
        r@ == hex_upper(data@),
{
    let r = hex_of_range(data, 0, data.len());
    assert(data@.subrange(0, data@.len() as int) =~= data@);
    r
}

/// Law: the digit of each value below 16 is the entry of that value in the
/// digit table "0123456789ABCDEF": a decimal digit below 10, an upper-case
/// letter from `A` on above; the digits rise with the value.
pub proof fn lemma_hex_digit_is_table_entry(n: int)
    requires
        0 <= n < 16,
    ensures
        hex_digit(n) == HEX_DIGITS@[n],
        n < 10 ==> '0' <= hex_digit(n) <= '9',
        n >= 10 ==> 'A' <= hex_digit(n) <= 'F',
        forall|m: int| 0 <= m < n ==> hex_digit(m) < hex_digit(n),
{
    reveal_strlit("0123456789ABCDEF");
    assert(HEX_DIGITS@ == "0123456789ABCDEF"@);
    assert(HEX_DIGITS@[n] == seq!['0', '1', '2', '3', '4', '5', '6', '7', '8', '9', 'A', 'B', 'C', 'D', 'E', 'F'][n]);
}

/// Law: each byte of the text's bytes is written as two table digits, the
/// high half first: the hexadecimal text of `bytes` has twice their length,
/// and its characters at `2 * i` and `2 * i + 1` are the table entries of the
/// high and low halves of byte `i`.
pub proof fn lemma_hex_upper_digits(bytes: Seq<u8>)
    ensures
        hex_upper(bytes).len() == 2 * bytes.len(),
        forall|i: int| #![trigger bytes[i]] 0 <= i < bytes.len() ==> {
            &&& hex_upper(bytes)[2 * i] == HEX_DIGITS@[bytes[i] as int / 16]
            &&& hex_upper(bytes)[2 * i + 1] == HEX_DIGITS@[bytes[i] as int % 16]
        },
{
    assert forall|i: int| #![trigger bytes[i]] 0 <= i < bytes.len() implies {
        &&& hex_upper(bytes)[2 * i] == HEX_DIGITS@[bytes[i] as int / 16]
        &&& hex_upper(bytes)[2 * i + 1] == HEX_DIGITS@[bytes[i] as int % 16]
    } by {
        assert((2 * i) / 2 == i && (2 * i + 1) / 2 == i && (2 * i) % 2 == 0 && (2 * i + 1) % 2 == 1);
        lemma_hex_digit_is_table_entry(bytes[i] as int / 16);
        lemma_hex_digit_is_table_entry(bytes[i] as int % 16);
    }
}

/// Law: distinct digit values give distinct digits.
pub proof fn lemma_hex_digit_injective(x: int, y: int)
    requires
        0 <= x < 16,
        0 <= y < 16,
        hex_digit(x) == hex_digit(y),
    ensures
        x == y,
{
}

/// Law: the hexadecimal text determines the bytes it was made from.
pub proof fn lemma_hex_upper_injective(a: Seq<u8>, b: Seq<u8>)
    requires
        hex_upper(a) == hex_upper(b),
    ensures
        a == b,
{
    assert(hex_upper(a).len() == 2 * a.len());
    assert(hex_upper(b).len() == 2 * b.len());
    assert(a.len() == b.len());
    assert forall|i: int| 0 <= i < a.len() implies a[i] == b[i] by {
        let k = 2 * i;
        assert(hex_upper(a)[k] == hex_upper(b)[k]);
        assert(hex_upper(a)[k + 1] == hex_upper(b)[k + 1]);
        assert(k / 2 == i && (k + 1) / 2 == i && k % 2 == 0 && (k + 1) % 2 == 1);
        assert(hex_upper(a)[k] == hex_digit(a[i] as int / 16));
        assert(hex_upper(b)[k] == hex_digit(b[i] as int / 16));
        assert(hex_upper(a)[k + 1] == hex_digit(a[i] as int % 16));
        assert(hex_upper(b)[k + 1] == hex_digit(b[i] as int % 16));
        lemma_hex_digit_injective(a[i] as int / 16, b[i] as int / 16);
        lemma_hex_digit_injective(a[i] as int % 16, b[i] as int % 16);
        assert(a[i] as int == 16 * (a[i] as int / 16) + a[i] as int % 16);
        assert(b[i] as int == 16 * (b[i] as int / 16) + b[i] as int % 16);
    }
    assert(a =~= b);
}

} // verus!
