//! Decimal formatting of unsigned integers as ASCII bytes, used by the
//! cursor-positioning sequence and the score line.

use vstd::prelude::*;

verus! {

/// The decimal digits of `n`, most significant first, as ASCII bytes.
/// A single `0` for zero; no leading zeros otherwise.
pub open spec fn dec_digits(n: nat) -> Seq<u8>
    decreases n,
{
    if n < 10 {
        seq![(n + 48) as u8]
    } else {
        dec_digits(n / 10).push((n % 10 + 48) as u8)
    }
}

/// `10^k`, used to bound the digit count of a machine integer.
pub open spec fn pow10(k: nat) -> nat
    decreases k,
{
    if k == 0 {
        1
    } else {
        10 * pow10((k - 1) as nat)
    }
}

/// A positive power bound gives a digit-count bound: below `10^k`
/// there are at most `k` decimal digits.
pub proof fn lemma_dec_digits_len(n: nat, k: nat)
    requires
        n < pow10(k),
        1 <= k,
    ensures
        1 <= dec_digits(n).len() <= k,
    decreases k,
{
    if n < 10 {
    } else {
        assert(pow10(k) == 10 * pow10((k - 1) as nat));
        assert(n / 10 < pow10((k - 1) as nat));
        lemma_dec_digits_len(n / 10, (k - 1) as nat);
    }
}

/// Every `usize` value has at most 20 decimal digits.
pub proof fn lemma_usize_digits_len(n: usize)
    ensures
        1 <= dec_digits(n as nat).len() <= 20,
{
    reveal_with_fuel(pow10, 21);
    assert(pow10(20) == 100000000000000000000);
    lemma_dec_digits_len(n as nat, 20);
}

/// Formats `n` in decimal, most significant digit first.
pub fn to_decimal(n: usize) -> (r: Vec<u8>)
    ensures
        r@ == dec_digits(n as nat),
{
    let mut buf: Vec<u8> = Vec::new();
    let mut m: usize = n;
    while m >= 10
        invariant
            dec_digits(n as nat) == dec_digits(m as nat) + buf@,
        decreases m,
    {
        let ghost prev = buf@;
        let d: u8 = (m % 10) as u8 + 48;
        buf.insert(0, d);
        proof {
            assert(buf@ =~= seq![d] + prev);
            assert(dec_digits(m as nat) =~= dec_digits(m as nat / 10) + seq![d]);
            assert(dec_digits(m as nat / 10) + seq![d] + prev =~= dec_digits(m as nat / 10)
                + (seq![d] + prev));
        }
        m = m / 10;
    }
    let ghost prev = buf@;
    let d: u8 = m as u8 + 48;
    buf.insert(0, d);
    proof {
        assert(buf@ =~= seq![d] + prev);
        assert(dec_digits(m as nat) =~= seq![d]);
    }
    buf
}

} // verus!
