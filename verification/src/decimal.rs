use vstd::prelude::*;

verus! {

/// The largest magnitude of a mantissa: 2^96 - 1.
pub const MAX_MANTISSA: i128 = 79228162514264337593543950335i128;

/// The largest number of decimal places.
pub const MAX_SCALE: u32 = 28u32;

/// A fixed-point decimal number `mantissa * 10^-scale`, as the exchange
/// takes prices and quantities.
///
/// The ranges are those of a 96-bit decimal: the magnitude of the mantissa
/// is at most `MAX_MANTISSA`, the scale at most `MAX_SCALE`.
#[derive(Debug, Clone, Copy)]
pub struct Decimal {
    mantissa: i128,
    scale: u32,
}

impl Decimal {
    #[verifier::type_invariant]
    spec fn in_range(self) -> bool {
        &&& -MAX_MANTISSA <= self.mantissa <= MAX_MANTISSA
        &&& self.scale <= MAX_SCALE
    }

    /// The mantissa of the number.
    pub closed spec fn mantissa_spec(self) -> int {
        self.mantissa as int
    }

    /// The number of decimal places.
    pub closed spec fn scale_spec(self) -> nat {
        self.scale as nat
    }

    /// The number is strictly greater than zero.
    pub open spec fn is_positive(self) -> bool {
        self.mantissa_spec() > 0
    }

    /// The value `num * 10^-scale`; the scale may not exceed `MAX_SCALE`.
    pub fn new(num: i64, scale: u32) -> (r: Decimal)
        requires
            scale <= MAX_SCALE,
        ensures
            r.mantissa_spec() == num as int,
            r.scale_spec() == scale as nat,
    {
        Decimal { mantissa: num as i128, scale }
    }

    /// The value `num * 10^-scale`, or `None` where the mantissa or the
    /// scale is out of range.
    pub fn try_from_i128_with_scale(num: i128, scale: u32) -> (r: Option<Decimal>)
        ensures
            r is Some <==> (-MAX_MANTISSA <= num <= MAX_MANTISSA && scale <= MAX_SCALE),
            r matches Some(d) ==> d.mantissa_spec() == num as int && d.scale_spec() == scale as nat,
    {
        if scale <= MAX_SCALE && -MAX_MANTISSA <= num && num <= MAX_MANTISSA {
            Some(Decimal { mantissa: num, scale })
        } else {
            None
        }
    }

    /// The mantissa of the number.
    pub fn mantissa(&self) -> (r: i128)
        ensures
            r as int == self.mantissa_spec(),
            -MAX_MANTISSA <= r <= MAX_MANTISSA,
    {
        proof {
            use_type_invariant(self);
        }
        self.mantissa
    }

    /// The number of decimal places.
    pub fn scale(&self) -> (r: u32)
        ensures
            r as nat == self.scale_spec(),
            r <= MAX_SCALE,
    {
        proof {
            use_type_invariant(self);
        }
        self.scale
    }

    /// Whether the number is strictly greater than zero.
    pub fn is_greater_than_zero(&self) -> (r: bool)
        ensures
            r == self.is_positive(),
    {
        proof {
            use_type_invariant(self);
        }
        exceeds_zero(self.mantissa, self.scale)
    }
}

/// Compares `rust_decimal::Decimal::from_i128_with_scale(num, scale)` with
/// `rust_decimal::Decimal::ZERO` by `>`. The contract claims that the
/// comparison is by numeric value, so that the number `num * 10^-scale`
/// exceeds zero exactly when `num` does; `from_i128_with_scale` panics
/// outside the ranges that `requires` states.
#[verifier::external_body]
fn exceeds_zero(num: i128, scale: u32) -> (r: bool)
    requires
        -MAX_MANTISSA <= num <= MAX_MANTISSA,
        scale <= MAX_SCALE,
    ensures
        r == (num > 0),
{
    rust_decimal::Decimal::from_i128_with_scale(num, scale) > rust_decimal::Decimal::ZERO
}

} // verus!
