//! Exact decimal amounts of money.
//!
//! An [`Amount`] holds the two integers that make up a `rust_decimal::Decimal`:
//! a signed mantissa of at most 96 bits and a scale, the number of digits
//! behind the decimal point. Arithmetic and formatting are done by
//! `rust_decimal` itself; the functions here that call it are trusted, and
//! their doc comments say what is taken on trust.

use crate::digits::{decimal_digits, digit_char};
use rust_decimal::Decimal;
use vstd::arithmetic::power::pow;
use vstd::prelude::*;

verus! {

/// The largest scale of an amount.
pub const MAX_SCALE: u32 = 28;

/// The largest mantissa of an amount, 2^96 - 1.
pub const MAX_MANTISSA: i128 = 0x0000_0000_FFFF_FFFF_FFFF_FFFF_FFFF_FFFF;

/// The number `mantissa / 10^scale`.
#[derive(Debug, Clone, Copy, PartialEq, Eq, Structural)]
pub struct Amount {
    pub mantissa: i128,
    pub scale: u32,
}

/// What `Decimal::checked_add` returns for the decimals with the given
/// mantissas and scales, as the mantissa and scale of the sum.
pub uninterp spec fn decimal_sum(a_mantissa: i128, a_scale: u32, b_mantissa: i128, b_scale: u32) -> Option<(i128, u32)>;

/// What `Decimal::checked_sub` returns for the decimals with the given
/// mantissas and scales, as the mantissa and scale of the difference.
pub uninterp spec fn decimal_difference(a_mantissa: i128, a_scale: u32, b_mantissa: i128, b_scale: u32) -> Option<(i128, u32)>;

/// A mantissa that a decimal can hold: at most 96 bits and a sign.
pub open spec fn mantissa_fits(mantissa: int) -> bool {
    -MAX_MANTISSA <= mantissa <= MAX_MANTISSA
}

/// The amount with the given mantissa and scale, where there is one.
pub open spec fn amount_of(parts: Option<(i128, u32)>) -> Option<Amount> {
    match parts {
        Some(p) => Some(Amount { mantissa: p.0, scale: p.1 }),
        None => None,
    }
}

impl Amount {
    /// The mantissa has at most 96 bits and the scale is at most 28.
    pub open spec fn wf(self) -> bool {
        &&& self.scale <= MAX_SCALE
        &&& mantissa_fits(self.mantissa as int)
    }

    /// The sum of two amounts; `None` where it cannot be represented.
    ///
    /// Zero added to an amount leaves the amount as it is, scale included.
    /// Amounts of one scale whose mantissas add up within 96 bits have the sum
    /// of the mantissas, at that scale. Every other sum is what
    /// `rust_decimal` computes, which may bring the operands to one scale and
    /// round.
    pub open spec fn plus(self, other: Amount) -> Option<Amount> {
        if self.mantissa == 0 {
            Some(other)
        } else if other.mantissa == 0 {
            Some(self)
        } else if self.scale == other.scale && mantissa_fits(self.mantissa + other.mantissa) {
            Some(Amount { mantissa: (self.mantissa + other.mantissa) as i128, scale: self.scale })
        } else {
            amount_of(decimal_sum(self.mantissa, self.scale, other.mantissa, other.scale))
        }
    }

    /// The difference of two amounts; `None` where it cannot be represented.
    ///
    /// An amount taken from zero gives its negative, at its scale; zero taken
    /// from an amount leaves the amount as it is. Amounts of one scale whose
    /// mantissas differ within 96 bits have the difference of the mantissas,
    /// at that scale. Every other difference is what `rust_decimal` computes.
    pub open spec fn minus(self, other: Amount) -> Option<Amount> {
        if self.mantissa == 0 {
            Some(Amount { mantissa: (-other.mantissa) as i128, scale: other.scale })
        } else if other.mantissa == 0 {
            Some(self)
        } else if self.scale == other.scale && mantissa_fits(self.mantissa - other.mantissa) {
            Some(Amount { mantissa: (self.mantissa - other.mantissa) as i128, scale: self.scale })
        } else {
            amount_of(decimal_difference(self.mantissa, self.scale, other.mantissa, other.scale))
        }
    }

    /// Two amounts are the same number, whatever their scales.
    pub open spec fn same_value(self, other: Amount) -> bool {
        self.mantissa * pow(10, other.scale as nat) == other.mantissa * pow(10, self.scale as nat)
    }

    /// The text of the amount with exactly two digits behind the point: a
    /// minus sign if the mantissa is negative, the whole part in decimal
    /// digits, a point, and the first two digits of the fraction. Further
    /// digits are cut off, not rounded.
    pub open spec fn two_places(self) -> Seq<char> {
        let magnitude = if self.mantissa < 0 {
            -self.mantissa
        } else {
            self.mantissa as int
        };
        let unit = pow(10, self.scale as nat);
        let fraction = magnitude % unit;
        let hundredths = if self.scale >= 2 {
            fraction / pow(10, (self.scale - 2) as nat)
        } else {
            fraction * pow(10, (2 - self.scale) as nat)
        };
        (if self.mantissa < 0 {
            seq!['-']
        } else {
            Seq::<char>::empty()
        }) + decimal_digits((magnitude / unit) as nat) + seq![
            '.',
            digit_char(hundredths / 10),
            digit_char(hundredths % 10),
        ]
    }

    /// The amount `num / 10^scale`.
    pub fn new(num: i64, scale: u32) -> (r: Amount)
        requires
            scale <= MAX_SCALE,
        ensures
            r.mantissa == num,
            r.scale == scale,
            r.wf(),
    {
        Amount { mantissa: num as i128, scale }
    }

    /// Zero, with no digits behind the point.
    pub fn zero() -> (r: Amount)
        ensures
            r == (Amount { mantissa: 0, scale: 0 }),
            r.wf(),
    {
        Amount { mantissa: 0, scale: 0 }
    }

    /// The amount `mantissa / 10^scale`, where a decimal can hold it.
    pub fn from_parts(mantissa: i128, scale: u32) -> (r: Option<Amount>)
        ensures
            r == (if (Amount { mantissa, scale }).wf() {
                Some(Amount { mantissa, scale })
            } else {
                None
            }),
    {
        if scale <= MAX_SCALE && -MAX_MANTISSA <= mantissa && mantissa <= MAX_MANTISSA {
            Some(Amount { mantissa, scale })
        } else {
            None
        }
    }

    /// Whether the amount is zero, at whatever scale.
    pub fn is_zero(&self) -> (r: bool)
        ensures
            r == (self.mantissa == 0),
    {
        self.mantissa == 0
    }

    /// The sum of two amounts, `None` on overflow.
    pub fn checked_add(self, other: Amount) -> (r: Option<Amount>)
        requires
            self.wf(),
            other.wf(),
        ensures
            r == self.plus(other),
            r is Some ==> r.unwrap().wf(),
    {
        decimal_checked_add(self, other)
    }

    /// The difference of two amounts, `None` on overflow.
    pub fn checked_sub(self, other: Amount) -> (r: Option<Amount>)
        requires
            self.wf(),
            other.wf(),
        ensures
            r == self.minus(other),
            r is Some ==> r.unwrap().wf(),
    {
        decimal_checked_sub(self, other)
    }
}

/// Calls `Decimal::checked_add` on the decimals that `a` and `b` stand for.
///
/// Trusted: the result is the sum that `rust_decimal` computes, a decimal
/// again (so within the bounds of `wf`). Where `a` is zero the result is `b`
/// as it is, and else where `b` is zero it is `a`. Where both operands have
/// the same scale and the sum of their mantissas fits in 96 bits, the result
/// has that sum as its mantissa and the same scale, with no rounding.
#[verifier::external_body]
pub(crate) fn decimal_checked_add(a: Amount, b: Amount) -> (r: Option<Amount>)
    requires
        a.wf(),
        b.wf(),
    ensures
        r == amount_of(decimal_sum(a.mantissa, a.scale, b.mantissa, b.scale)),
        r is Some ==> r.unwrap().wf(),
        a.mantissa == 0 ==> r == Some(b),
        a.mantissa != 0 && b.mantissa == 0 ==> r == Some(a),
        a.scale == b.scale && mantissa_fits(a.mantissa + b.mantissa) ==> r == Some(
            Amount { mantissa: (a.mantissa + b.mantissa) as i128, scale: a.scale },
        ),
{
    let x = Decimal::from_i128_with_scale(a.mantissa, a.scale);
    let y = Decimal::from_i128_with_scale(b.mantissa, b.scale);
    match x.checked_add(y) {
        Some(d) => Some(Amount { mantissa: d.mantissa(), scale: d.scale() }),
        None => None,
    }
}

/// Calls `Decimal::checked_sub` on the decimals that `a` and `b` stand for.
///
/// Trusted: the result is the difference that `rust_decimal` computes, a
/// decimal again. Where `a` is zero the result is `b` with the opposite sign,
/// at the scale of `b`, and else where `b` is zero it is `a`. Where both
/// operands have the same scale and the difference of their mantissas fits in
/// 96 bits, the result has that difference as its mantissa and the same
/// scale, with no rounding.
#[verifier::external_body]
pub(crate) fn decimal_checked_sub(a: Amount, b: Amount) -> (r: Option<Amount>)
    requires
        a.wf(),
        b.wf(),
    ensures
        r == amount_of(decimal_difference(a.mantissa, a.scale, b.mantissa, b.scale)),
        r is Some ==> r.unwrap().wf(),
        a.mantissa == 0 ==> r == Some(Amount { mantissa: (-b.mantissa) as i128, scale: b.scale }),
        a.mantissa != 0 && b.mantissa == 0 ==> r == Some(a),
        a.scale == b.scale && mantissa_fits(a.mantissa - b.mantissa) ==> r == Some(
            Amount { mantissa: (a.mantissa - b.mantissa) as i128, scale: a.scale },
        ),
{
    let x = Decimal::from_i128_with_scale(a.mantissa, a.scale);
    let y = Decimal::from_i128_with_scale(b.mantissa, b.scale);
    match x.checked_sub(y) {
        Some(d) => Some(Amount { mantissa: d.mantissa(), scale: d.scale() }),
        None => None,
    }
}

/// Formats the decimal that `a` stands for with `{:.2}`.
///
/// Trusted: at precision two `Decimal`'s `Display` writes a minus sign for a
/// negative decimal, the digits of the whole part (a single `0` if there is
/// none), a point, and the first two digits of the fraction, filled up with
/// zeros; it cuts further digits off and does not round.
#[verifier::external_body]
pub(crate) fn decimal_format_two_places(a: Amount) -> (r: String)
    requires
        a.wf(),
    ensures
        r@ == a.two_places(),
{
    let x = Decimal::from_i128_with_scale(a.mantissa, a.scale);
    format!("{:.2}", x)
}

} // verus!
