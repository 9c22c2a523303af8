//! Decimal numerals as character sequences: the canonical digit string of an
//! unsigned value, and zero-padding to a requested width. The report module
//! builds its texts from these.

use vstd::prelude::*;

verus! {

/// The character for one decimal digit.
pub open spec fn digit_char(d: nat) -> char {
    if d == 0 {
        '0'
    } else if d == 1 {
        '1'
    } else if d == 2 {
        '2'
    } else if d == 3 {
        '3'
    } else if d == 4 {
        '4'
    } else if d == 5 {
        '5'
    } else if d == 6 {
        '6'
    } else if d == 7 {
        '7'
    } else if d == 8 {
        '8'
    } else {
        '9'
    }
}

/// The canonical decimal numeral of `n`: most significant digit first, no
/// leading zeros except for the single digit of zero itself.
pub open spec fn spec_digits(n: nat) -> Seq<char>
    decreases n,
{
    if n < 10 {
        seq![digit_char(n)]
    } else {
        spec_digits(n / 10).push(digit_char(n % 10))
    }
}

/// Powers of ten.
pub open spec fn pow10(k: nat) -> nat
    decreases k,
{
    if k == 0 {
        1
    } else {
        10 * pow10((k - 1) as nat)
    }
}

/// A value below the `k`-th power of ten has at most `k` digits.
pub proof fn lemma_digits_len_le(n: nat, k: nat)
    requires
        k >= 1,
        n < pow10(k),
    ensures
        spec_digits(n).len() <= k,
    decreases k,
{
    if n >= 10 {
        assert(pow10(k) == 10 * pow10((k - 1) as nat));
        assert(n / 10 < pow10((k - 1) as nat)) by (nonlinear_arith)
            requires
                n < 10 * pow10((k - 1) as nat),
        ;
        lemma_digits_len_le(n / 10, (k - 1) as nat);
    }
}

/// Every `u128` value has at most 39 decimal digits.
pub proof fn lemma_digits_len_u128(n: u128)
    ensures
        spec_digits(n as nat).len() <= 39,
{
    assert(pow10(39) == 1000000000000000000000000000000000000000) by {
        reveal_with_fuel(pow10, 40);
    }
    lemma_digits_len_le(n as nat, 39);
}

/// The number of digits in the decimal numeral of `n`.
pub fn count_digits(n: u128) -> (c: usize)
    ensures
        c == spec_digits(n as nat).len(),
        c <= 39,
    decreases n,
{
    proof {
        lemma_digits_len_u128(n);
    }
    if n < 10 {
        1
    } else {
        let rest = count_digits(n / 10);
        rest + 1
    }
}

/// The one-character string for a decimal digit.
pub fn digit_str(d: u128) -> (s: &'static str)
    requires
        d < 10,
    ensures
        s@ == seq![digit_char(d as nat)],
{
    let s: &'static str = if d == 0 {
        "0"
    } else if d == 1 {
        "1"
    } else if d == 2 {
        "2"
    } else if d == 3 {
        "3"
    } else if d == 4 {
        "4"
    } else if d == 5 {
        "5"
    } else if d == 6 {
        "6"
    } else if d == 7 {
        "7"
    } else if d == 8 {
        "8"
    } else {
        "9"
    };
    proof {
        reveal_strlit("0");
        reveal_strlit("1");
        reveal_strlit("2");
        reveal_strlit("3");
        reveal_strlit("4");
        reveal_strlit("5");
        reveal_strlit("6");
        reveal_strlit("7");
        reveal_strlit("8");
        reveal_strlit("9");
        assert(s@ =~= seq![digit_char(d as nat)]);
    }
    s
}

/// The decimal numeral of `n` as a string.
pub fn u128_digits(n: u128) -> (r: String)
    ensures
        r@ == spec_digits(n as nat),
    decreases n,
{
    if n < 10 {
        String::from_str(digit_str(n))
    } else {
        let mut r = u128_digits(n / 10);
        r.append(digit_str(n % 10));
        proof {
            assert(r@ =~= spec_digits(n as nat));
        }
        r
    }
}

/// The numeral of `n`, left-padded with zeros to width `w` when it is
/// shorter; a numeral already at least `w` long stands unchanged.
pub open spec fn spec_zero_pad(n: nat, w: nat) -> Seq<char> {
    if spec_digits(n).len() >= w {
        spec_digits(n)
    } else {
        Seq::new((w - spec_digits(n).len()) as nat, |i: int| '0') + spec_digits(n)
    }
}

/// The decimal numeral of `n`, left-padded with zeros to at least `width`
/// characters.
pub fn zero_padded(n: u128, width: usize) -> (r: String)
    ensures
        r@ == spec_zero_pad(n as nat, width as nat),
{
    let count = count_digits(n);
    let mut r = String::new();
    let mut filled: usize = count;
    proof {
        reveal_strlit("0");
    }
    while filled < width
        invariant
            count == spec_digits(n as nat).len(),
            count <= filled,
            filled <= width || filled == count,
            r@ =~= Seq::new((filled - count) as nat, |i: int| '0'),
        decreases width - filled,
    {
        r.append("0");
        filled = filled + 1;
        proof {
            reveal_strlit("0");
            assert(r@ =~= Seq::new((filled - count) as nat, |i: int| '0'));
        }
    }
    let digits = u128_digits(n);
    r.append(digits.as_str());
    proof {
        assert(r@ =~= spec_zero_pad(n as nat, width as nat));
    }
    r
}

} // verus!
