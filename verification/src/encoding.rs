//! Text encodings of numbers: lower-case hexadecimal for byte strings and
//! decimal for small integers.

use vstd::prelude::*;

verus! {

/// The lower-case hexadecimal digit for a value below 16.
pub open spec fn hex_digit(n: int) -> char {
    if n < 10 {
        (48 + n) as char
    } else {
        (87 + n) as char
    }
}

/// The decimal digit for a value below 10.
pub open spec fn decimal_digit(n: int) -> char {
    (48 + n) as char
}

/// Lower-case hexadecimal of a byte string: two digits per byte, high nibble
/// first.
pub open spec fn lower_hex(bytes: Seq<u8>) -> Seq<char> {
    Seq::new(
        (2 * bytes.len()) as nat,
        |i: int|
            hex_digit(
                if i % 2 == 0 {
                    bytes[i / 2] / 16
                } else {
                    bytes[i / 2] % 16
                } as int,
            ),
    )
}

/// The hexadecimal of two byte strings joined is the two hexadecimals joined.
pub proof fn lemma_lower_hex_concat(a: Seq<u8>, b: Seq<u8>)
    ensures
        lower_hex(a + b) =~= lower_hex(a) + lower_hex(b),
{
    let l = lower_hex(a + b);
    let r = lower_hex(a) + lower_hex(b);
    assert forall|i: int| 0 <= i < l.len() implies l[i] == r[i] by {
        if i >= 2 * a.len() {
            let j = i - 2 * a.len();
            assert(j / 2 == i / 2 - a.len());
            assert(j % 2 == i % 2);
        }
    }
}

/// The decimal digits of a natural number, without leading zeros.
pub open spec fn decimal(n: nat) -> Seq<char>
    decreases n,
{
    if n < 10 {
        seq![decimal_digit(n as int)]
    } else {
        decimal(n / 10).push(decimal_digit((n % 10) as int))
    }
}

/// The one-character text of a hexadecimal digit.
fn hex_digit_text(n: u8) -> (r: &'static str)
    requires
        n < 16,
    ensures
        r@ == seq![hex_digit(n as int)],
{
    let digits = "0123456789abcdef";
    proof {
        reveal_strlit("0123456789abcdef");
    }
    digits.substring_ascii(n as usize, n as usize + 1)
}

/// The one-character text of a decimal digit.
fn decimal_digit_text(n: u8) -> (r: &'static str)
    requires
        n < 10,
    ensures
        r@ == seq![decimal_digit(n as int)],
{
    let digits = "0123456789";
    proof {
        reveal_strlit("0123456789");
    }
    digits.substring_ascii(n as usize, n as usize + 1)
}

/// Encodes bytes as lower-case hexadecimal.
pub fn to_lower_hex(bytes: &[u8]) -> (r: String)
    ensures
        r@ == lower_hex(bytes@),
{
    let mut out = String::new();
    let n = bytes.len();
    for i in 0..n
        invariant
            n == bytes@.len(),
            out@ == lower_hex(bytes@.take(i as int)),
    {
        let b = bytes[i];
        out.append(hex_digit_text(b / 16));
        out.append(hex_digit_text(b % 16));
        assert(out@ =~= lower_hex(bytes@.take(i + 1)));
    }
    assert(bytes@.take(n as int) =~= bytes@);
    out
}

/// Writes a byte in decimal.
pub fn to_decimal(n: u8) -> (r: String)
    ensures
        r@ == decimal(n as nat),
{
    let mut out = String::new();
    if n >= 100 {
        out.append(decimal_digit_text(n / 100));
    }
    if n >= 10 {
        out.append(decimal_digit_text((n / 10) % 10));
    }
    out.append(decimal_digit_text(n % 10));
    proof {
        reveal_with_fuel(decimal, 3);
        if n >= 100 {
            assert(decimal((n / 100) as nat) == seq![decimal_digit((n / 100) as int)]);
        }
    }
    assert(out@ =~= decimal(n as nat));
    out
}

} // verus!
