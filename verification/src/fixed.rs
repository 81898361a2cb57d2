//! Fixed-point decimal numbers with four fractional digits.
//!
//! Percentages, rates, sizes and durations that are not whole numbers are held
//! as a count of ten-thousandths. Arithmetic rounds towards zero and saturates
//! at the largest value instead of overflowing.

use crate::text::{
    all_digits, char_of_digit, decimal_digits, digit_char, digit_value, digits_value, find_char,
    first_index_of, is_digit, is_digit_char, lemma_decimal_digits, lemma_first_index_is,
    render_u64,
};
use vstd::prelude::*;

verus! {

/// The number of units in one whole.
pub const SCALE: u64 = 10_000;

/// A non-negative decimal number, counted in units of one ten-thousandth.
#[derive(Clone, Copy, Debug, PartialEq, Eq, Structural)]
pub struct Fixed {
    pub units: u64,
}

/// `n`, or the largest `u64` where `n` exceeds it.
pub open spec fn saturate(n: nat) -> u64 {
    if n > u64::MAX {
        u64::MAX
    } else {
        n as u64
    }
}

/// The units of `num / den`, rounded towards zero; zero where `den` is zero.
pub open spec fn ratio_units(num: nat, den: nat) -> nat {
    if den == 0 {
        0
    } else {
        (num * 10_000) / den
    }
}

/// The digit at position `i` of a fraction, zero beyond its end.
pub open spec fn fraction_digit(frac: Seq<char>, i: int) -> nat {
    if 0 <= i < frac.len() {
        digit_value(frac[i])
    } else {
        0
    }
}

/// The units that the digits after a decimal point stand for. Digits beyond
/// the fourth are dropped.
pub open spec fn fraction_units(frac: Seq<char>) -> nat {
    fraction_digit(frac, 0) * 1000 + fraction_digit(frac, 1) * 100 + fraction_digit(frac, 2) * 10
        + fraction_digit(frac, 3)
}

/// Whether `s` is a decimal number: digits, then optionally a point and more
/// digits, with at least one digit on each side of the point.
pub open spec fn is_decimal(s: Seq<char>) -> bool {
    let dot = first_index_of(s, '.');
    if dot >= s.len() {
        s.len() > 0 && all_digits(s)
    } else {
        dot > 0 && all_digits(s.take(dot)) && dot + 1 < s.len() && all_digits(s.skip(dot + 1))
    }
}

/// The units that the decimal number `s` stands for.
pub open spec fn decimal_units(s: Seq<char>) -> nat {
    let dot = first_index_of(s, '.');
    if dot >= s.len() {
        digits_value(s) * 10_000
    } else {
        digits_value(s.take(dot)) * 10_000 + fraction_units(s.skip(dot + 1))
    }
}

/// The four digits that write a number below ten thousand, zeros in front.
pub open spec fn four_digits(n: nat) -> Seq<char> {
    seq![
        digit_char(n / 1000 % 10),
        digit_char(n / 100 % 10),
        digit_char(n / 10 % 10),
        digit_char(n % 10),
    ]
}

/// `units` written as a decimal number with exactly four fractional digits.
pub open spec fn rendered(units: nat) -> Seq<char> {
    decimal_digits(units / 10_000) + seq!['.'] + four_digits(units % 10_000)
}

/// A longer run of digits writes a number that is no smaller than any of its
/// prefixes.
proof fn lemma_digits_value_grows(s: Seq<char>, i: int)
    requires
        0 <= i <= s.len(),
    ensures
        digits_value(s.take(i)) <= digits_value(s),
    decreases s.len() - i,
{
    if i == s.len() {
        assert(s.take(i) =~= s);
    } else {
        lemma_digits_value_grows(s, i + 1);
        assert(s.take(i + 1).drop_last() =~= s.take(i));
        assert(digits_value(s.take(i + 1)) == digits_value(s.take(i)) * 10 + digit_value(
            s.take(i + 1).last(),
        ));
    }
}

/// A digit's character is a digit and stands for that digit.
proof fn lemma_digit_char(d: nat)
    requires
        d < 10,
    ensures
        is_digit(digit_char(d)),
        digit_value(digit_char(d)) == d,
{
}

/// The four digits of a number below ten thousand stand for that number.
proof fn lemma_four_digits(n: nat)
    requires
        n < 10_000,
    ensures
        four_digits(n).len() == 4,
        all_digits(four_digits(n)),
        fraction_units(four_digits(n)) == n,
{
    let d0 = n / 1000 % 10;
    let d1 = n / 100 % 10;
    let d2 = n / 10 % 10;
    let d3 = n % 10;
    lemma_digit_char(d0);
    lemma_digit_char(d1);
    lemma_digit_char(d2);
    lemma_digit_char(d3);
    let s = four_digits(n);
    assert(s[0] == digit_char(d0) && s[1] == digit_char(d1) && s[2] == digit_char(d2) && s[3]
        == digit_char(d3));
    assert(d0 * 1000 + d1 * 100 + d2 * 10 + d3 == n);
}

/// In the text that `rendered` writes, the point stands directly after the
/// digits of the whole part.
proof fn lemma_rendered_point(units: nat)
    ensures
        first_index_of(rendered(units), '.') == decimal_digits(units / 10_000).len(),
        rendered(units).len() == decimal_digits(units / 10_000).len() + 5,
{
    let head = decimal_digits(units / 10_000);
    let text = rendered(units);
    lemma_decimal_digits(units / 10_000);
    let dot = head.len() as int;
    assert forall|i: int| 0 <= i < dot implies text[i] != '.' by {
        assert(is_digit(head[i]));
    }
    lemma_first_index_is(text, '.', dot);
}

/// Reading what `rendered` wrote gives the number back: the text is a decimal
/// number, and it stands for the same units.
pub proof fn lemma_render_then_parse(units: u64)
    ensures
        is_decimal(rendered(units as nat)),
        decimal_units(rendered(units as nat)) == units,
{
    let whole = (units / 10_000) as nat;
    let frac = (units % 10_000) as nat;
    let head = decimal_digits(whole);
    let tail = four_digits(frac);
    let text = rendered(units as nat);
    lemma_decimal_digits(whole);
    lemma_four_digits(frac);
    lemma_rendered_point(units as nat);
    let dot = head.len() as int;
    assert(text.take(dot) =~= head);
}

/// Reads a run of digits at `start..end`. The result is the number they write,
/// or `None` where that number exceeds `u64::MAX`.
fn read_digits(chars: &Vec<char>, start: usize, end: usize) -> (r: Option<u64>)
    requires
        start <= end <= chars.len(),
        all_digits(chars@.subrange(start as int, end as int)),
    ensures
        match r {
            Some(n) => n == digits_value(chars@.subrange(start as int, end as int)),
            None => digits_value(chars@.subrange(start as int, end as int)) > u64::MAX,
        },
{
    let ghost run = chars@.subrange(start as int, end as int);
    let mut acc: u64 = 0;
    let mut i: usize = start;
    while i < end
        invariant
            start <= i <= end <= chars.len(),
            run == chars@.subrange(start as int, end as int),
            all_digits(run),
            acc == digits_value(run.take(i - start)),
        decreases end - i,
    {
        let c = chars[i];
        assert(run[i - start] == c);
        let d: u64 = (c as u32 - 0x30) as u64;
        proof {
            assert(run.take(i - start + 1).drop_last() =~= run.take(i - start));
        }
        if acc > (u64::MAX - d) / 10 {
            proof {
                lemma_digits_value_grows(run, i - start + 1);
            }
            return None;
        }
        acc = acc * 10 + d;
        i += 1;
    }
    assert(run.take(end - start) =~= run);
    Some(acc)
}

/// Tests whether every character at `start..end` is a digit.
fn digits_only(chars: &Vec<char>, start: usize, end: usize) -> (b: bool)
    requires
        start <= end <= chars.len(),
    ensures
        b == all_digits(chars@.subrange(start as int, end as int)),
{
    let ghost run = chars@.subrange(start as int, end as int);
    let mut i: usize = start;
    while i < end
        invariant
            start <= i <= end <= chars.len(),
            run == chars@.subrange(start as int, end as int),
            forall|j: int| 0 <= j < i - start ==> is_digit(#[trigger] run[j]),
        decreases end - i,
    {
        if !is_digit_char(chars[i]) {
            assert(run[i - start] == chars@[i as int]);
            return false;
        }
        i += 1;
    }
    true
}

/// The digit at position `i` of the digits that begin at `start`; zero beyond
/// the end of the text.
fn digit_after(chars: &Vec<char>, start: usize, i: usize) -> (d: u64)
    requires
        start <= chars.len(),
        i < 4,
        all_digits(chars@.skip(start as int)),
    ensures
        d == fraction_digit(chars@.skip(start as int), i as int),
        d < 10,
{
    if i < chars.len() - start {
        let c = chars[start + i];
        assert(chars@.skip(start as int)[i as int] == c);
        (c as u32 - 0x30) as u64
    } else {
        0
    }
}

impl Fixed {
    /// The number zero.
    pub fn zero() -> (r: Fixed)
        ensures
            r.units == 0,
    {
        Fixed { units: 0 }
    }

    /// The number of `units` ten-thousandths.
    pub fn from_units(units: u64) -> (r: Fixed)
        ensures
            r.units == units,
    {
        Fixed { units }
    }

    /// `num / den`, rounded towards zero and saturated; zero where `den` is zero.
    pub fn from_ratio(num: u128, den: u64) -> (r: Fixed)
        ensures
            r.units == saturate(ratio_units(num as nat, den as nat)),
    {
        if den == 0 {
            return Fixed { units: 0 };
        }
        match num.checked_mul(10_000) {
            Some(scaled) => {
                let q: u128 = scaled / (den as u128);
                if q > u64::MAX as u128 {
                    Fixed { units: u64::MAX }
                } else {
                    Fixed { units: q as u64 }
                }
            },
            None => {
                proof {
                    let n = num as nat * 10_000;
                    let d = den as nat;
                    assert(n / d > u64::MAX) by (nonlinear_arith)
                        requires
                            n > 0xffff_ffff_ffff_ffff_ffff_ffff_ffff_ffff,
                            0 < d <= 0xffff_ffff_ffff_ffff,
                    ;
                }
                Fixed { units: u64::MAX }
            },
        }
    }

    /// `part` as a percentage of `whole`; zero where `whole` is zero.
    pub fn percent_of(part: u64, whole: u64) -> (r: Fixed)
        ensures
            r.units == saturate(ratio_units(part as nat * 100, whole as nat)),
    {
        Fixed::from_ratio(part as u128 * 100, whole)
    }

    /// Reads a decimal number. Digits after the fourth fractional digit are
    /// dropped, and a number too large to hold becomes the largest value.
    pub fn parse(chars: &Vec<char>) -> (r: Option<Fixed>)
        ensures
            r is Some <==> is_decimal(chars@),
            r matches Some(x) ==> x.units == saturate(decimal_units(chars@)),
    {
        let dot = find_char(chars, '.', 0);
        proof {
            assert(chars@.skip(0) =~= chars@);
        }
        if dot >= chars.len() {
            if chars.len() == 0 || !digits_only(chars, 0, chars.len()) {
                return None;
            }
            match read_digits(chars, 0, chars.len()) {
                Some(whole) => Some(Fixed::from_ratio(whole as u128, 1)),
                None => Some(Fixed { units: u64::MAX }),
            }
        } else {
            if dot == 0 || dot + 1 >= chars.len() || !digits_only(chars, 0, dot) || !digits_only(
                chars,
                dot + 1,
                chars.len(),
            ) {
                return None;
            }
            let frac_units: u64 = digit_after(chars, dot + 1, 0) * 1000 + digit_after(
                chars,
                dot + 1,
                1,
            ) * 100 + digit_after(chars, dot + 1, 2) * 10 + digit_after(chars, dot + 1, 3);
            match read_digits(chars, 0, dot) {
                Some(whole) => {
                    let total: u128 = whole as u128 * 10_000 + frac_units as u128;
                    if total > u64::MAX as u128 {
                        Some(Fixed { units: u64::MAX })
                    } else {
                        Some(Fixed { units: total as u64 })
                    }
                },
                None => Some(Fixed { units: u64::MAX }),
            }
        }
    }

    /// Writes the number with exactly four fractional digits.
    pub fn render(&self) -> (r: Vec<char>)
        ensures
            r@ == rendered(self.units as nat),
    {
        let mut r = render_u64(self.units / 10_000);
        let frac: u64 = self.units % 10_000;
        r.push('.');
        r.push(char_of_digit((frac / 1000 % 10) as u8));
        r.push(char_of_digit((frac / 100 % 10) as u8));
        r.push(char_of_digit((frac / 10 % 10) as u8));
        r.push(char_of_digit((frac % 10) as u8));
        r
    }
}

} // verus!
