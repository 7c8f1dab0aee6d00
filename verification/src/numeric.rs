//! Exact-decimal numeric values: an unscaled integer mantissa and a decimal
//! scale. No value here ever passes through binary floating point, so a
//! balance is reproducible bit for bit on every node.
use vstd::prelude::*;

use vstd::arithmetic::div_mod::{lemma_basic_div, lemma_small_mod};

verus! {

/// The character of one decimal digit.
pub open spec fn digit_char(d: int) -> char {
    if d == 0 {
        '0'
    } else if d == 1 {
        '1'
    } else if d == 2 {
        '2'
    } else if d == 3 {
        '3'
    } else if d == 4 {
        '4'
    } else if d == 5 {
        '5'
    } else if d == 6 {
        '6'
    } else if d == 7 {
        '7'
    } else if d == 8 {
        '8'
    } else {
        '9'
    }
}

/// The decimal digits of `n`, most significant first; no leading zero but
/// for zero itself.
pub open spec fn spec_digits(n: nat) -> Seq<char>
    decreases n,
{
    if n < 10 {
        seq![digit_char(n as int)]
    } else {
        spec_digits(n / 10) + seq![digit_char((n % 10) as int)]
    }
}

/// Ten to the `k`.
pub open spec fn pow10(k: nat) -> nat
    decreases k,
{
    if k == 0 {
        1
    } else {
        10 * pow10((k - 1) as nat)
    }
}

/// `count` zero characters: the left padding of a short fraction.
pub open spec fn zeroes(count: nat) -> Seq<char> {
    Seq::new(count, |i: int| '0')
}

/// Width of that padding: the scale less the fraction's own digit count.
pub open spec fn pad_width(scale: nat, digits_len: nat) -> nat {
    if digits_len <= scale {
        (scale - digits_len) as nat
    } else {
        0
    }
}

/// The canonical decimal string of `mantissa / 10^scale`: the integer part
/// and, whenever the scale is positive, a point followed by exactly `scale`
/// fractional digits.
pub open spec fn spec_decimal_string(mantissa: nat, scale: nat) -> Seq<char> {
    if scale == 0 {
        spec_digits(mantissa)
    } else {
        let whole = mantissa / pow10(scale);
        let frac = mantissa % pow10(scale);
        spec_digits(whole) + seq!['.'] + zeroes(pad_width(scale, spec_digits(frac).len()))
            + spec_digits(frac)
    }
}

/// Ten to any power is positive.
proof fn lemma_pow10_pos(k: nat)
    ensures
        pow10(k) >= 1,
    decreases k,
{
    if k > 0 {
        lemma_pow10_pos((k - 1) as nat);
    }
}

/// Ten to the `k` does not shrink as `k` grows.
proof fn lemma_pow10_increases(a: nat, b: nat)
    requires
        a <= b,
    ensures
        pow10(a) <= pow10(b),
    decreases b,
{
    if a < b {
        lemma_pow10_increases(a, (b - 1) as nat);
        lemma_pow10_pos((b - 1) as nat);
    }
}

/// Append one decimal digit character.
fn append_digit(out: &mut String, d: u128)
    requires
        d < 10,
    ensures
        final(out)@ == old(out)@ + seq![digit_char(d as int)],
{
    proof {
        reveal_strlit("0");
        reveal_strlit("1");
        reveal_strlit("2");
        reveal_strlit("3");
        reveal_strlit("4");
        reveal_strlit("5");
        reveal_strlit("6");
        reveal_strlit("7");
        reveal_strlit("8");
        reveal_strlit("9");
    }
    if d == 0 {
        out.append("0");
    } else if d == 1 {
        out.append("1");
    } else if d == 2 {
        out.append("2");
    } else if d == 3 {
        out.append("3");
    } else if d == 4 {
        out.append("4");
    } else if d == 5 {
        out.append("5");
    } else if d == 6 {
        out.append("6");
    } else if d == 7 {
        out.append("7");
    } else if d == 8 {
        out.append("8");
    } else {
        out.append("9");
    }
    proof {
        assert(out@ =~= old(out)@ + seq![digit_char(d as int)]);
    }
}

/// Append the decimal digits of `n`, most significant first.
fn push_digits(out: &mut String, n: u128)
    ensures
        final(out)@ == old(out)@ + spec_digits(n as nat),
    decreases n,
{
    if n < 10 {
        append_digit(out, n);
    } else {
        push_digits(out, n / 10);
        append_digit(out, n % 10);
        proof {
            assert(out@ =~= old(out)@ + spec_digits(n as nat));
        }
    }
}

/// Compute ten to the `k` when it fits in the mantissa type; report when it
/// cannot.
fn pow10_u128(k: u32) -> (r: Option<u128>)
    ensures
        match r {
            Some(p) => p as nat == pow10(k as nat),
            None => pow10(k as nat) > u128::MAX as nat,
        },
{
    let mut p: u128 = 1;
    let mut i: u32 = 0;
    while i < k
        invariant
            i <= k,
            p as nat == pow10(i as nat),
        decreases k - i,
    {
        if p > u128::MAX / 10 {
            proof {
                assert(10 * (p as nat) > u128::MAX as nat);
                assert(pow10((i + 1) as nat) == 10 * pow10(i as nat));
                lemma_pow10_increases((i + 1) as nat, k as nat);
            }
            return None;
        }
        p = p * 10;
        i = i + 1;
    }
    Some(p)
}

/// The exact decimal number `mantissa / 10^scale`, as stored for a numeric
/// asset balance. The pair is kept exactly as constructed: no rounding, no
/// normalization, no silent coercion.
#[derive(Clone, Copy, Debug, PartialEq, Eq, Structural, Hash)]
pub struct Numeric {
    pub mantissa: u128,
    pub scale: u32,
}

impl Numeric {
    /// Pair an unscaled mantissa with its decimal scale.
    pub fn new(mantissa: u128, scale: u32) -> (r: Numeric)
        ensures
            r == (Numeric { mantissa, scale }),
    {
        Numeric { mantissa, scale }
    }

    /// An unsigned 32-bit integer is the integral decimal with scale zero.
    pub fn from_u32(n: u32) -> (r: Numeric)
        ensures
            r.mantissa == n as u128,
            r.scale == 0,
    {
        Numeric { mantissa: n as u128, scale: 0 }
    }

    /// An unsigned 128-bit integer is the integral decimal with scale zero.
    pub fn from_u128(n: u128) -> (r: Numeric)
        ensures
            r.mantissa == n,
            r.scale == 0,
    {
        Numeric { mantissa: n, scale: 0 }
    }

    /// Render the exact decimal as text: the integer part and, for a
    /// positive scale, a point followed by exactly `scale` fractional
    /// digits. The inverse of parsing such a value, with no rounding
    /// anywhere.
    pub fn to_decimal_string(&self) -> (r: String)
        ensures
            r@ == spec_decimal_string(self.mantissa as nat, self.scale as nat),
    {
        let mut out = String::from_str("");
        proof {
            reveal_strlit("");
        }
        if self.scale == 0 {
            push_digits(&mut out, self.mantissa);
            proof {
                assert(out@ =~= spec_decimal_string(self.mantissa as nat, self.scale as nat));
            }
            return out;
        }
        let ghost pow = pow10(self.scale as nat);
        proof {
            lemma_pow10_pos(self.scale as nat);
        }
        let whole: u128;
        let frac: u128;
        match pow10_u128(self.scale) {
            Some(p) => {
                whole = self.mantissa / p;
                frac = self.mantissa % p;
            },
            None => {
                proof {
                    lemma_basic_div(self.mantissa as int, pow as int);
                    lemma_small_mod(self.mantissa as nat, pow);
                }
                whole = 0;
                frac = self.mantissa;
            },
        }
        push_digits(&mut out, whole);
        out.append(".");
        proof {
            reveal_strlit(".");
        }
        let mut frac_digits = String::from_str("");
        push_digits(&mut frac_digits, frac);
        proof {
            assert(frac_digits@ =~= spec_digits(frac as nat));
        }
        let frac_len: usize = frac_digits.unicode_len();
        let width: u32 = if frac_len as u64 <= self.scale as u64 {
            self.scale - (frac_len as u32)
        } else {
            0
        };
        let ghost before_pad = out@;
        proof {
            assert(out@ =~= before_pad + zeroes(0));
        }
        let mut done: u32 = 0;
        while done < width
            invariant
                done <= width,
                out@ == before_pad + zeroes(done as nat),
            decreases width - done,
        {
            out.append("0");
            done = done + 1;
            proof {
                reveal_strlit("0");
                assert(out@ =~= before_pad + zeroes(done as nat));
            }
        }
        out.append(frac_digits.as_str());
        proof {
            assert(width as nat == pad_width(
                self.scale as nat,
                spec_digits(frac as nat).len(),
            ));
            assert(out@ =~= spec_decimal_string(self.mantissa as nat, self.scale as nat));
        }
        out
    }
}

/// Constraint on the numeric values a definition admits: any exact decimal,
/// or at most a fixed number of digits after the decimal point.
#[derive(Clone, Copy, Debug, PartialEq, Eq, Structural, Hash)]
pub enum NumericSpec {
    /// Any exact decimal value.
    Unconstrained,
    /// At most this many digits after the decimal point.
    Fractional(u32),
}

impl NumericSpec {
    /// The constraint that admits every exact decimal.
    pub fn unconstrained() -> (r: NumericSpec)
        ensures
            r == NumericSpec::Unconstrained,
    {
        NumericSpec::Unconstrained
    }

    /// The constraint bounding the digits after the decimal point.
    pub fn fractional(scale: u32) -> (r: NumericSpec)
        ensures
            r == NumericSpec::Fractional(scale),
    {
        NumericSpec::Fractional(scale)
    }

    /// The bound on fractional digits, if this constraint carries one.
    pub fn scale(&self) -> (r: Option<u32>)
        ensures
            r == (match *self {
                NumericSpec::Unconstrained => None::<u32>,
                NumericSpec::Fractional(s) => Some(s),
            }),
    {
        match self {
            NumericSpec::Unconstrained => None,
            NumericSpec::Fractional(s) => Some(*s),
        }
    }
}

} // verus!
