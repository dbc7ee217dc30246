//! Verified decimal rendering of the numbers that appear in filenames and
//! in the generation request: unsigned and signed integers, and the
//! thousandths-based tempo written with three fractional digits.

use vstd::prelude::*;
use vstd::string::*;

verus! {

/// The character for one decimal digit.
pub open spec fn digit_char(d: int) -> char {
    if d == 0 {
        '0'
    } else if d == 1 {
        '1'
    } else if d == 2 {
        '2'
    } else if d == 3 {
        '3'
    } else if d == 4 {
        '4'
    } else if d == 5 {
        '5'
    } else if d == 6 {
        '6'
    } else if d == 7 {
        '7'
    } else if d == 8 {
        '8'
    } else {
        '9'
    }
}

/// The decimal digits of `n`, most significant first, with no leading
/// zeroes (`0` itself is the single digit `0`).
pub open spec fn spec_dec_digits(n: nat) -> Seq<char>
    decreases n,
{
    if n < 10 {
        seq![digit_char(n as int)]
    } else {
        spec_dec_digits(n / 10) + seq![digit_char((n % 10) as int)]
    }
}

/// The decimal digits of a signed value: a minus sign before the digits of
/// its magnitude when it is negative.
pub open spec fn spec_signed_digits(n: int) -> Seq<char> {
    if n < 0 {
        seq!['-'] + spec_dec_digits((-n) as nat)
    } else {
        spec_dec_digits(n as nat)
    }
}

/// A tempo in thousandths of a beat per minute, written as a decimal
/// number with exactly three fractional digits.
pub open spec fn spec_milli_digits(milli: nat) -> Seq<char> {
    spec_dec_digits(milli / 1000) + seq!['.'] + seq![
        digit_char((milli / 100) as int % 10),
        digit_char((milli / 10) as int % 10),
        digit_char(milli as int % 10),
    ]
}

/// Append one decimal digit's character.
fn append_digit(out: &mut String, d: u64)
    requires
        d < 10,
    ensures
        final(out)@ == old(out)@ + seq![digit_char(d as int)],
{
    proof {
        reveal_strlit("0");
        reveal_strlit("1");
        reveal_strlit("2");
        reveal_strlit("3");
        reveal_strlit("4");
        reveal_strlit("5");
        reveal_strlit("6");
        reveal_strlit("7");
        reveal_strlit("8");
        reveal_strlit("9");
        assert("0"@ =~= seq![digit_char(0)]);
        assert("1"@ =~= seq![digit_char(1)]);
        assert("2"@ =~= seq![digit_char(2)]);
        assert("3"@ =~= seq![digit_char(3)]);
        assert("4"@ =~= seq![digit_char(4)]);
        assert("5"@ =~= seq![digit_char(5)]);
        assert("6"@ =~= seq![digit_char(6)]);
        assert("7"@ =~= seq![digit_char(7)]);
        assert("8"@ =~= seq![digit_char(8)]);
        assert("9"@ =~= seq![digit_char(9)]);
    }
    match d {
        0 => out.append("0"),
        1 => out.append("1"),
        2 => out.append("2"),
        3 => out.append("3"),
        4 => out.append("4"),
        5 => out.append("5"),
        6 => out.append("6"),
        7 => out.append("7"),
        8 => out.append("8"),
        _ => out.append("9"),
    }
}

/// Append the decimal digits of `n`, most significant first.
pub fn append_u64(out: &mut String, n: u64)
    ensures
        final(out)@ == old(out)@ + spec_dec_digits(n as nat),
{
    let mut digits: Vec<u64> = Vec::new();
    let mut m: u64 = n;
    loop
        invariant_except_break
            spec_dec_digits(n as nat) == spec_dec_digits(m as nat) + Seq::new(
                digits@.len(),
                |i: int| digit_char(digits@[digits@.len() - 1 - i] as int),
            ),
        invariant
            forall|i: int| 0 <= i < digits@.len() ==> digits@[i] < 10,
        ensures
            forall|i: int| 0 <= i < digits@.len() ==> digits@[i] < 10,
            spec_dec_digits(n as nat) == Seq::new(
                digits@.len(),
                |i: int| digit_char(digits@[digits@.len() - 1 - i] as int),
            ),
        decreases m,
    {
        let d: u64 = m % 10;
        let next: u64 = m / 10;
        digits.push(d);
        proof {
            let rev_old = Seq::new(
                digits@.drop_last().len(),
                |i: int| digit_char(
                    digits@.drop_last()[digits@.drop_last().len() - 1 - i] as int,
                ),
            );
            let rev_new = Seq::new(
                digits@.len(),
                |i: int| digit_char(digits@[digits@.len() - 1 - i] as int),
            );
            assert(rev_new =~= seq![digit_char(d as int)] + rev_old);
            if m >= 10 {
                assert(spec_dec_digits(m as nat) == spec_dec_digits((m / 10) as nat) + seq![
                    digit_char((m % 10) as int),
                ]);
                assert(spec_dec_digits(n as nat) =~= spec_dec_digits(next as nat) + rev_new);
            } else {
                assert(spec_dec_digits(m as nat) =~= seq![digit_char(d as int)]);
                assert(spec_dec_digits(n as nat) =~= rev_new);
            }
        }
        if next == 0 {
            break;
        }
        m = next;
    }
    let ghost rev_all = Seq::new(
        digits@.len(),
        |i: int| digit_char(digits@[digits@.len() - 1 - i] as int),
    );
    let mut k: usize = digits.len();
    while k > 0
        invariant
            k <= digits@.len(),
            forall|i: int| 0 <= i < digits@.len() ==> digits@[i] < 10,
            rev_all == Seq::new(
                digits@.len(),
                |i: int| digit_char(digits@[digits@.len() - 1 - i] as int),
            ),
            out@ == old(out)@ + rev_all.take(digits@.len() - k),
        decreases k,
    {
        k = k - 1;
        append_digit(out, digits[k]);
        proof {
            assert(rev_all.take(digits@.len() - k) =~= rev_all.take(digits@.len() - (k + 1))
                + seq![digit_char(digits@[k as int] as int)]);
        }
    }
    proof {
        assert(rev_all.take(digits@.len() as int) =~= rev_all);
        assert(out@ =~= old(out)@ + spec_dec_digits(n as nat));
    }
}

/// The decimal digits of `n`, as a fresh string.
pub fn u64_to_string(n: u64) -> (s: String)
    ensures
        s@ == spec_dec_digits(n as nat),
{
    let mut out = String::new();
    append_u64(&mut out, n);
    proof {
        assert(out@ =~= spec_dec_digits(n as nat));
    }
    out
}

/// Append the decimal digits of a signed value, minus sign included.
pub fn append_i32(out: &mut String, n: i32)
    ensures
        final(out)@ == old(out)@ + spec_signed_digits(n as int),
{
    proof {
        reveal_strlit("-");
    }
    if n < 0 {
        out.append("-");
        let magnitude: u64 = (-(n as i64)) as u64;
        append_u64(out, magnitude);
        proof {
            assert("-"@ =~= seq!['-']);
            assert(magnitude as int == -(n as int));
            assert(old(out)@ + "-"@ + spec_dec_digits(magnitude as nat) =~= old(out)@
                + spec_signed_digits(n as int));
        }
    } else {
        append_u64(out, n as u64);
    }
}

/// Append a tempo held in thousandths of a beat per minute as a decimal
/// number with three fractional digits.
pub fn append_milli(out: &mut String, milli: u64)
    ensures
        final(out)@ == old(out)@ + spec_milli_digits(milli as nat),
{
    proof {
        reveal_strlit(".");
    }
    append_u64(out, milli / 1000);
    out.append(".");
    append_digit(out, (milli / 100) % 10);
    append_digit(out, (milli / 10) % 10);
    append_digit(out, milli % 10);
    proof {
        assert("."@ =~= seq!['.']);
        assert(final(out)@ =~= old(out)@ + spec_milli_digits(milli as nat));
    }
}

} // verus!
