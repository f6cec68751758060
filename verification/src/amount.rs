//! Exact decimal amounts: a signed 96-bit mantissa and a decimal scale.

use vstd::prelude::*;

verus! {

/// The largest number of decimal places an amount can carry.
pub const MAX_SCALE: u32 = 28;

/// The largest magnitude of a mantissa: `2^96 - 1`.
pub const MAX_MANTISSA: i128 = 79_228_162_514_264_337_593_543_950_335i128;

/// `10^n`.
pub open spec fn pow10(n: nat) -> int
    decreases n,
{
    if n == 0 {
        1
    } else {
        10 * pow10((n - 1) as nat)
    }
}

/// Whether a mantissa and a scale lie in the range of a decimal amount.
pub open spec fn in_range(mantissa: int, scale: int) -> bool {
    &&& -MAX_MANTISSA <= mantissa <= MAX_MANTISSA
    &&& 0 <= scale <= MAX_SCALE
}

/// The outcome of `rust_decimal::Decimal::checked_add` on the decimals
/// `m1 * 10^-s1` and `m2 * 10^-s2`: the mantissa and scale of the sum, or
/// `None` where the sum overflows.
pub uninterp spec fn decimal_sum(m1: int, s1: int, m2: int, s2: int) -> Option<(int, int)>;

/// A decimal number `mantissa * 10^-scale`.
///
/// Its view is the number counted in units of `10^-28`, an integer for every
/// amount, so two amounts stand for the same number exactly when their views
/// are equal.
#[derive(Clone, Copy, Debug, PartialEq, Eq, Structural)]
pub struct Amount {
    mantissa: i128,
    scale: u32,
}

impl View for Amount {
    type V = int;

    open spec fn view(&self) -> int {
        self.spec_mantissa() * pow10((MAX_SCALE - self.spec_scale()) as nat)
    }
}

impl Amount {
    pub closed spec fn spec_mantissa(self) -> int {
        self.mantissa as int
    }

    pub closed spec fn spec_scale(self) -> int {
        self.scale as int
    }

    /// Every amount has a mantissa of at most 96 bits and a scale of at most 28.
    #[verifier::type_invariant]
    pub open spec fn wf(self) -> bool {
        in_range(self.spec_mantissa(), self.spec_scale())
    }

    /// The amount with the given mantissa and scale, as a specification.
    pub closed spec fn spec_new(mantissa: int, scale: int) -> Amount {
        Amount { mantissa: mantissa as i128, scale: scale as u32 }
    }

    /// The amount `0`, with scale `0`.
    pub open spec fn spec_zero() -> Amount {
        Self::spec_new(0, 0)
    }

    pub open spec fn spec_is_zero(self) -> bool {
        self.spec_mantissa() == 0
    }

    pub open spec fn spec_is_negative(self) -> bool {
        self.spec_mantissa() < 0
    }

    /// The amount of opposite sign, at the same scale.
    pub open spec fn spec_negated(self) -> Amount {
        Self::spec_new(-self.spec_mantissa(), self.spec_scale())
    }

    /// The decimal sum of two amounts, `None` where it overflows.
    pub open spec fn spec_checked_add(self, other: Amount) -> Option<Amount> {
        match decimal_sum(
            self.spec_mantissa(),
            self.spec_scale(),
            other.spec_mantissa(),
            other.spec_scale(),
        ) {
            Some((m, s)) => Some(Self::spec_new(m, s)),
            None => None,
        }
    }

    /// Whether the decimal sum of two amounts exists and is the exact sum of
    /// the two numbers, with nothing rounded away.
    pub open spec fn adds_exactly(self, other: Amount) -> bool {
        match self.spec_checked_add(other) {
            Some(sum) => sum@ == self@ + other@,
            None => false,
        }
    }

    /// `spec_new` gives an amount of the mantissa and scale it was asked for.
    pub proof fn lemma_spec_new(mantissa: int, scale: int)
        requires
            in_range(mantissa, scale),
        ensures
            Self::spec_new(mantissa, scale).spec_mantissa() == mantissa,
            Self::spec_new(mantissa, scale).spec_scale() == scale,
            Self::spec_new(mantissa, scale).wf(),
    {
    }

    /// An amount is determined by its mantissa and scale.
    pub proof fn lemma_same_parts(a: Amount, b: Amount)
        requires
            a.spec_mantissa() == b.spec_mantissa(),
            a.spec_scale() == b.spec_scale(),
        ensures
            a == b,
    {
    }

    /// The amount `mantissa * 10^-scale`, if the mantissa fits in 96 bits and
    /// the scale is at most 28.
    pub fn new(mantissa: i128, scale: u32) -> (r: Option<Amount>)
        ensures
            r.is_some() == in_range(mantissa as int, scale as int),
            r.is_some() ==> r == Some(Self::spec_new(mantissa as int, scale as int)),
            r.is_some() ==> r.unwrap().spec_mantissa() == mantissa && r.unwrap().spec_scale()
                == scale,
    {
        if scale <= MAX_SCALE && -MAX_MANTISSA <= mantissa && mantissa <= MAX_MANTISSA {
            Some(Amount { mantissa, scale })
        } else {
            None
        }
    }

    /// The amount `0`.
    pub fn zero() -> (r: Amount)
        ensures
            r == Self::spec_zero(),
            r.spec_mantissa() == 0,
            r.spec_scale() == 0,
            r@ == 0,
    {
        Amount { mantissa: 0, scale: 0 }
    }

    pub fn mantissa(&self) -> (m: i128)
        ensures
            m == self.spec_mantissa(),
    {
        self.mantissa
    }

    pub fn scale(&self) -> (s: u32)
        ensures
            s == self.spec_scale(),
    {
        self.scale
    }

    pub fn is_zero(&self) -> (r: bool)
        ensures
            r == self.spec_is_zero(),
            r == (self@ == 0),
    {
        proof {
            use_type_invariant(self);
            lemma_view_sign(*self);
        }
        self.mantissa == 0
    }

    pub fn is_negative(&self) -> (r: bool)
        ensures
            r == self.spec_is_negative(),
            r == (self@ < 0),
    {
        proof {
            use_type_invariant(self);
            lemma_view_sign(*self);
        }
        self.mantissa < 0
    }

    /// The amount of opposite sign.
    pub fn negated(&self) -> (r: Amount)
        ensures
            r == self.spec_negated(),
            r.spec_mantissa() == -self.spec_mantissa(),
            r.spec_scale() == self.spec_scale(),
            r@ == -self@,
    {
        proof {
            use_type_invariant(self);
            lemma_negated_view(*self);
        }
        Amount { mantissa: -self.mantissa, scale: self.scale }
    }

    /// The decimal sum of two amounts, `None` where it overflows.
    pub(crate) fn checked_add(&self, other: Amount) -> (r: Option<Amount>)
        ensures
            r == self.spec_checked_add(other),
    {
        proof {
            use_type_invariant(self);
            use_type_invariant(&other);
        }
        let r = decimal_checked_add(*self, other);
        proof {
            if let Some(c) = r {
                use_type_invariant(&c);
                Self::lemma_spec_new(c.spec_mantissa(), c.spec_scale());
                Self::lemma_same_parts(c, Self::spec_new(c.spec_mantissa(), c.spec_scale()));
            }
        }
        r
    }
}

/// Every power of ten is positive.
pub proof fn lemma_pow10_positive(n: nat)
    ensures
        pow10(n) > 0,
    decreases n,
{
    if n > 0 {
        lemma_pow10_positive((n - 1) as nat);
    }
}

/// A product with a positive factor has the sign of the other factor.
pub proof fn lemma_product_sign(m: int, p: int)
    requires
        p > 0,
    ensures
        (m * p == 0) == (m == 0),
        (m * p < 0) == (m < 0),
{
    assert((m * p == 0) == (m == 0) && (m * p < 0) == (m < 0)) by (nonlinear_arith)
        requires
            p > 0,
    ;
}

/// An amount is zero, or negative, exactly when its mantissa is.
pub proof fn lemma_view_sign(a: Amount)
    requires
        a.wf(),
    ensures
        (a@ == 0) == a.spec_is_zero(),
        (a@ < 0) == a.spec_is_negative(),
{
    lemma_pow10_positive((MAX_SCALE - a.spec_scale()) as nat);
    lemma_product_sign(a.spec_mantissa(), pow10((MAX_SCALE - a.spec_scale()) as nat));
}

/// Negating an amount negates the number it stands for.
pub proof fn lemma_negated_view(a: Amount)
    requires
        a.wf(),
    ensures
        a.spec_negated().wf(),
        a.spec_negated()@ == -a@,
        a.spec_negated().spec_mantissa() == -a.spec_mantissa(),
        a.spec_negated().spec_scale() == a.spec_scale(),
{
    Amount::lemma_spec_new(-a.spec_mantissa(), a.spec_scale());
    let p = pow10((MAX_SCALE - a.spec_scale()) as nat);
    let m = a.spec_mantissa();
    assert((-m) * p == -(m * p)) by (nonlinear_arith);
}

/// Calls `rust_decimal::Decimal::checked_add` on the two decimals that `a`
/// and `b` stand for. The contract claims that the outcome depends on the
/// mantissas and scales alone, and that a sum, where there is one, has a
/// mantissa of at most 96 bits and a scale of at most 28, as every `Decimal`
/// has. `Decimal::from_i128_with_scale` panics on a mantissa or a scale out
/// of range only, which the precondition leaves out.
#[verifier::external_body]
fn decimal_checked_add(a: Amount, b: Amount) -> (r: Option<Amount>)
    requires
        a.wf(),
        b.wf(),
    ensures
        match r {
            Some(c) => c.wf() && decimal_sum(
                a.spec_mantissa(),
                a.spec_scale(),
                b.spec_mantissa(),
                b.spec_scale(),
            ) == Some((c.spec_mantissa(), c.spec_scale())),
            None => decimal_sum(
                a.spec_mantissa(),
                a.spec_scale(),
                b.spec_mantissa(),
                b.spec_scale(),
            ).is_none(),
        },
{
    let x = rust_decimal::Decimal::from_i128_with_scale(a.mantissa, a.scale);
    let y = rust_decimal::Decimal::from_i128_with_scale(b.mantissa, b.scale);
    match x.checked_add(y) {
        Some(z) => Some(Amount { mantissa: z.mantissa(), scale: z.scale() }),
        None => None,
    }
}

/// Compares, with the `<` of `rust_decimal::Decimal`, the two decimals that
/// `a` and `b` stand for. The contract claims that this order is the order
/// of the numbers, whatever their scales.
/// `Decimal::from_i128_with_scale` panics on a mantissa or a scale out of
/// range only, which the precondition leaves out.
#[verifier::external_body]
pub(crate) fn decimal_less_than(a: Amount, b: Amount) -> (r: bool)
    requires
        a.wf(),
        b.wf(),
    ensures
        r == (a@ < b@),
{
    let x = rust_decimal::Decimal::from_i128_with_scale(a.mantissa, a.scale);
    let y = rust_decimal::Decimal::from_i128_with_scale(b.mantissa, b.scale);
    x < y
}

} // verus!
