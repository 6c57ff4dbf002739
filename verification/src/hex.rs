//! Bytes in hexadecimal.

use vstd::prelude::*;

verus! {

/// The sixteen digits, in order.
pub const DIGITS: &'static str = "0123456789abcdef";

/// The text of `bytes`: two lower-case digits for each byte, the higher one first.
pub open spec fn hex_text(bytes: Seq<u8>) -> Seq<char> {
    Seq::new(
        2 * bytes.len(),
        |i: int| DIGITS@[if i % 2 == 0 { bytes[i / 2] as int / 16 } else { bytes[i / 2] as int % 16 }],
    )
}

/// Writes `bytes` in hexadecimal, two lower-case digits for each byte.
pub fn hex_encode(bytes: &[u8]) -> (r: String)
    ensures
        r@ == hex_text(bytes@),
{
    proof {
        reveal_strlit("0123456789abcdef");
    }
    let mut r = String::new();
    let mut k: usize = 0;
    assert(r@ =~= hex_text(bytes@.take(0)));
    while k < bytes.len()
        invariant
            k <= bytes.len(),
            DIGITS@.len() == 16,
            r@ == hex_text(bytes@.take(k as int)),
        decreases bytes.len() - k,
    {
        let ghost before = r@;
        let high = (bytes[k] / 16) as usize;
        let low = (bytes[k] % 16) as usize;
        r.append(DIGITS.substring_char(high, high + 1));
        r.append(DIGITS.substring_char(low, low + 1));
        assert(r@ =~= hex_text(bytes@.take(k + 1)));
        k += 1;
    }
    assert(bytes@.take(k as int) =~= bytes@);
    r
}

/// The text has two digits for each byte, all of them among `0`-`9` and `a`-`f`.
pub proof fn hex_text_is_hexadecimal(bytes: Seq<u8>)
    ensures
        hex_text(bytes).len() == 2 * bytes.len(),
        forall|i: int|
            0 <= i < hex_text(bytes).len() ==> {
                ||| '0' <= #[trigger] hex_text(bytes)[i] <= '9'
                ||| 'a' <= hex_text(bytes)[i] <= 'f'
            },
{
    reveal_strlit("0123456789abcdef");
}

/// Where a digit stands can be read off the digit.
proof fn lemma_digit_value(n: int)
    requires
        0 <= n < 16,
    ensures
        DIGITS@[n] as int == if n < 10 { 48 + n } else { 87 + n },
{
    reveal_strlit("0123456789abcdef");
    let d = DIGITS@;
    assert(d[0] == '0' && d[1] == '1' && d[2] == '2' && d[3] == '3');
    assert(d[4] == '4' && d[5] == '5' && d[6] == '6' && d[7] == '7');
    assert(d[8] == '8' && d[9] == '9' && d[10] == 'a' && d[11] == 'b');
    assert(d[12] == 'c' && d[13] == 'd' && d[14] == 'e' && d[15] == 'f');
}

/// No two byte strings have the same text: the bytes can be read back.
pub proof fn hex_text_tells_bytes_apart(a: Seq<u8>, b: Seq<u8>)
    requires
        hex_text(a) == hex_text(b),
    ensures
        a == b,
{
    assert(hex_text(a).len() == 2 * a.len());
    assert(hex_text(b).len() == 2 * b.len());
    assert forall|k: int| 0 <= k < a.len() implies a[k] == b[k] by {
        assert((2 * k) / 2 == k && (2 * k) % 2 == 0);
        assert((2 * k + 1) / 2 == k && (2 * k + 1) % 2 == 1);
        assert(hex_text(a)[2 * k] == DIGITS@[a[k] as int / 16]);
        assert(hex_text(b)[2 * k] == DIGITS@[b[k] as int / 16]);
        assert(hex_text(a)[2 * k + 1] == DIGITS@[a[k] as int % 16]);
        assert(hex_text(b)[2 * k + 1] == DIGITS@[b[k] as int % 16]);
        lemma_digit_value(a[k] as int / 16);
        lemma_digit_value(b[k] as int / 16);
        lemma_digit_value(a[k] as int % 16);
        lemma_digit_value(b[k] as int % 16);
    }
    assert(a =~= b);
}

/// What a hexadecimal digit is worth.
pub open spec fn digit_value(c: char) -> int {
    if '0' <= c <= '9' {
        c as int - '0' as int
    } else {
        c as int - 'a' as int + 10
    }
}

/// Reading the text two digits at a time gives back the bytes, each in its place.
pub proof fn hex_text_spells_the_bytes(bytes: Seq<u8>, k: int)
    requires
        0 <= k < bytes.len(),
    ensures
        16 * digit_value(hex_text(bytes)[2 * k]) + digit_value(hex_text(bytes)[2 * k + 1])
            == bytes[k],
{
    assert((2 * k) / 2 == k && (2 * k) % 2 == 0);
    assert((2 * k + 1) / 2 == k && (2 * k + 1) % 2 == 1);
    lemma_digit_value(bytes[k] as int / 16);
    lemma_digit_value(bytes[k] as int % 16);
}

} // verus!
