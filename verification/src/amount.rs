//! Exact decimal amounts.
//!
//! An [`Amount`] is a signed 96-bit mantissa together with a number of decimal
//! places between 0 and 28. Its value is the mantissa divided by ten to the
//! number of places. Contracts speak of an amount through its view: the value
//! counted in units of ten to the minus 28, which is always a whole number.
//!
//! The arithmetic itself is done by `rust_decimal`. This module decides, in
//! verified code, whether the exact result of an operation can be written down
//! with the places the operands have. Sums and differences are computed only
//! where it can. A product or a quotient that cannot be written exactly is
//! rounded by `rust_decimal`; contracts then speak of it by its name, and say
//! what it is wherever it is exact.

use rust_decimal::Decimal;
use vstd::prelude::*;
use vstd::std_specs::cmp::PartialEqSpecImpl;

verus! {

/// The largest number of decimal places an amount can have.
pub const MAX_PLACES: u32 = 28;

/// Ten to the power `e`.
pub open spec fn pow10(e: nat) -> int
    decreases e,
{
    if e == 0 {
        1
    } else {
        10 * pow10((e - 1) as nat)
    }
}

/// The view of the amount one: ten to the power 28.
pub open spec fn unit() -> int {
    10_000_000_000_000_000_000_000_000_000
}

/// Two to the power 96: every mantissa lies strictly between this bound and its negative.
pub open spec fn mantissa_bound() -> int {
    79_228_162_514_264_337_593_543_950_336
}

/// Whether a value of `units` times ten to the minus 28 can be written with
/// `places` decimal places and a mantissa within 96 bits.
pub open spec fn fits_at(units: int, places: nat) -> bool {
    &&& places <= 28
    &&& -mantissa_bound() * pow10((28 - places) as nat) < units
    &&& units < mantissa_bound() * pow10((28 - places) as nat)
}

/// The view of the product of two amounts with the views `a` and `b`, where
/// the two have at most 28 places together.
pub open spec fn product_units(a: int, b: int) -> int {
    a * b / unit()
}

/// The larger of two numbers of places.
pub open spec fn max_places(a: nat, b: nat) -> nat {
    if a >= b {
        a
    } else {
        b
    }
}

/// An exact decimal number.
#[derive(Debug, Clone, Copy)]
pub struct Amount {
    mantissa: i128,
    scale: u32,
}

impl View for Amount {
    type V = int;

    /// The value in units of ten to the minus 28.
    open spec fn view(&self) -> int {
        self.spec_mantissa() * pow10((28 - self.spec_scale()) as nat)
    }
}

impl Amount {
    #[verifier::type_invariant]
    spec fn within_range(self) -> bool {
        &&& self.scale <= 28
        &&& -mantissa_bound() < self.mantissa < mantissa_bound()
    }

    /// The mantissa: the value times ten to the number of decimal places.
    pub closed spec fn spec_mantissa(self) -> int {
        self.mantissa as int
    }

    /// The number of decimal places.
    pub closed spec fn spec_scale(self) -> nat {
        self.scale as nat
    }

    /// The mantissa: the value times ten to the number of decimal places.
    pub fn mantissa(&self) -> (r: i128)
        ensures
            r == self.spec_mantissa(),
            self.well_formed(),
    {
        proof {
            use_type_invariant(self);
        }
        self.mantissa
    }

    /// The number of decimal places.
    pub fn scale(&self) -> (r: u32)
        ensures
            r == self.spec_scale(),
            self.well_formed(),
    {
        proof {
            use_type_invariant(self);
        }
        self.scale
    }

    /// Whether the amount is one that exists at run time: at most 28 places
    /// and a mantissa within 96 bits.
    pub open spec fn well_formed(self) -> bool {
        &&& self.spec_scale() <= 28
        &&& -mantissa_bound() < self.spec_mantissa() < mantissa_bound()
    }

    /// Whether `self + other` can be written exactly with the larger of the
    /// two numbers of places.
    pub open spec fn sum_fits(self, other: Amount) -> bool {
        fits_at(self@ + other@, max_places(self.spec_scale(), other.spec_scale()))
    }

    /// Whether `self - other` can be written exactly with the larger of the
    /// two numbers of places.
    pub open spec fn difference_fits(self, other: Amount) -> bool {
        fits_at(self@ - other@, max_places(self.spec_scale(), other.spec_scale()))
    }

    /// Whether `self * other` can be written exactly with the places of both
    /// operands together.
    pub open spec fn product_fits(self, other: Amount) -> bool {
        &&& self.spec_scale() + other.spec_scale() <= 28
        &&& fits_at(product_units(self@, other@), self.spec_scale() + other.spec_scale())
    }

    /// Whether the operands have at most 28 places together and the product
    /// of their mantissas is within 96 bits.
    pub open spec fn mantissas_multiply(self, other: Amount) -> bool {
        &&& self.spec_scale() + other.spec_scale() <= 28
        &&& -mantissa_bound() < self.spec_mantissa() * other.spec_mantissa() < mantissa_bound()
    }

    /// The places of an exact sum or difference: those of the other operand
    /// where one operand is zero, else the larger of the two numbers.
    pub open spec fn sum_places(self, other: Amount) -> nat {
        if self@ == 0 {
            other.spec_scale()
        } else if other@ == 0 {
            self.spec_scale()
        } else {
            max_places(self.spec_scale(), other.spec_scale())
        }
    }

    /// The places of an exact product: none where an operand is zero, else
    /// those of both operands together.
    pub open spec fn product_places(self, other: Amount) -> nat {
        if self@ == 0 || other@ == 0 {
            0
        } else {
            self.spec_scale() + other.spec_scale()
        }
    }

    /// The amount with the given view and number of places.
    pub closed spec fn with(units: int, places: nat) -> Amount {
        Amount {
            mantissa: (units / pow10((28 - places) as nat)) as i128,
            scale: places as u32,
        }
    }

    /// The amount `num` divided by ten to the power `places`.
    pub open spec fn scaled(num: int, places: nat) -> Amount {
        Amount::with(num * pow10((28 - places) as nat), places)
    }

    /// The whole number `n` as an amount.
    pub open spec fn whole(n: int) -> Amount {
        Amount::with(n * unit(), 0)
    }

    /// The exact sum `self + other`, digit for digit.
    pub open spec fn sum_of(self, other: Amount) -> Amount {
        Amount::with(self@ + other@, self.sum_places(other))
    }

    /// The exact difference `self - other`, digit for digit.
    pub open spec fn difference_of(self, other: Amount) -> Amount {
        Amount::with(self@ - other@, self.sum_places(other))
    }

    /// The exact product `self * other`, digit for digit.
    pub open spec fn product_of(self, other: Amount) -> Amount {
        Amount::with(product_units(self@, other@), self.product_places(other))
    }
}

/// The powers of ten up to the 28th, written out.
pub proof fn lemma_pow10_values()
    ensures
        pow10(0) == 1,
        pow10(1) == 10,
        pow10(2) == 100,
        pow10(3) == 1_000,
        pow10(4) == 10_000,
        pow10(5) == 100_000,
        pow10(6) == 1_000_000,
        pow10(7) == 10_000_000,
        pow10(8) == 100_000_000,
        pow10(9) == 1_000_000_000,
        pow10(10) == 10_000_000_000,
        pow10(11) == 100_000_000_000,
        pow10(12) == 1_000_000_000_000,
        pow10(13) == 10_000_000_000_000,
        pow10(14) == 100_000_000_000_000,
        pow10(15) == 1_000_000_000_000_000,
        pow10(16) == 10_000_000_000_000_000,
        pow10(17) == 100_000_000_000_000_000,
        pow10(18) == 1_000_000_000_000_000_000,
        pow10(19) == 10_000_000_000_000_000_000,
        pow10(20) == 100_000_000_000_000_000_000,
        pow10(21) == 1_000_000_000_000_000_000_000,
        pow10(22) == 10_000_000_000_000_000_000_000,
        pow10(23) == 100_000_000_000_000_000_000_000,
        pow10(24) == 1_000_000_000_000_000_000_000_000,
        pow10(25) == 10_000_000_000_000_000_000_000_000,
        pow10(26) == 100_000_000_000_000_000_000_000_000,
        pow10(27) == 1_000_000_000_000_000_000_000_000_000,
        pow10(28) == unit(),
{
    reveal_with_fuel(pow10, 30);
}

/// Powers of ten are positive.
pub proof fn lemma_pow10_positive(e: nat)
    ensures
        pow10(e) >= 1,
    decreases e,
{
    if e > 0 {
        lemma_pow10_positive((e - 1) as nat);
    }
}

/// Ten to a sum of exponents is the product of the powers.
pub proof fn lemma_pow10_adds(a: nat, b: nat)
    ensures
        pow10(a + b) == pow10(a) * pow10(b),
    decreases a,
{
    if a == 0 {
        assert(pow10(0) == 1);
        assert(pow10(b) == 1 * pow10(b));
    } else {
        lemma_pow10_adds((a - 1) as nat, b);
        assert(pow10(a + b) == 10 * pow10((a - 1 + b) as nat));
        assert(10 * (pow10((a - 1) as nat) * pow10(b)) == (10 * pow10((a - 1) as nat)) * pow10(b))
            by (nonlinear_arith);
    }
}

/// A larger exponent gives a power of ten that is at least as large.
pub proof fn lemma_pow10_monotonic(a: nat, b: nat)
    requires
        a <= b,
    ensures
        pow10(a) <= pow10(b),
{
    lemma_pow10_adds(a, (b - a) as nat);
    lemma_pow10_positive(a);
    lemma_pow10_positive((b - a) as nat);
    assert(pow10(a) * 1 <= pow10(a) * pow10((b - a) as nat)) by (nonlinear_arith)
        requires
            pow10(a) >= 1,
            pow10((b - a) as nat) >= 1,
    ;
}

/// Scaling a bound and a number by the same positive factor keeps their order.
proof fn lemma_scaled_within_bound(t: int, factor: int)
    requires
        factor >= 1,
    ensures
        (-mantissa_bound() < t < mantissa_bound()) <==> (-mantissa_bound() * factor < t * factor
            < mantissa_bound() * factor),
{
    let m = mantissa_bound();
    assert((t < m) <==> (t * factor < m * factor)) by (nonlinear_arith)
        requires
            factor >= 1,
    ;
    assert((-m < t) <==> (-m * factor < t * factor)) by (nonlinear_arith)
        requires
            factor >= 1,
    ;
}

impl Amount {
    /// A product can be written with the places of both operands together
    /// just where the product of the mantissas is within 96 bits.
    pub proof fn lemma_product_fits(self, other: Amount)
        requires
            self.well_formed(),
            other.well_formed(),
        ensures
            self.product_fits(other) == self.mantissas_multiply(other),
            self.spec_scale() + other.spec_scale() <= 28 ==> self@ * other@ == (self.spec_mantissa()
                * other.spec_mantissa() * pow10(
                (28 - self.spec_scale() - other.spec_scale()) as nat,
            )) * unit(),
    {
        if self.spec_scale() + other.spec_scale() <= 28 {
            let sa = self.spec_scale();
            let sb = other.spec_scale();
            let rest = (28 - sa - sb) as nat;
            let ma = self.spec_mantissa();
            let mb = other.spec_mantissa();
            let pa = pow10((28 - sa) as nat);
            let pb = pow10((28 - sb) as nat);
            let pr = pow10(rest);
            lemma_pow10_values();
            lemma_pow10_adds((28 - sa) as nat, (28 - sb) as nat);
            lemma_pow10_adds(rest, 28);
            assert((28 - sa) + (28 - sb) == rest + 28);
            assert(pa * pb == pr * unit());
            assert((ma * pa) * (mb * pb) == (ma * mb * pr) * unit()) by (nonlinear_arith)
                requires
                    pa * pb == pr * unit(),
            ;
            assert(((ma * mb * pr) * unit()) / unit() == ma * mb * pr) by (nonlinear_arith)
                requires
                    unit() > 0,
            ;
            lemma_pow10_positive(rest);
            lemma_scaled_within_bound(ma * mb, pr);
        }
    }

    /// Multiplying by a whole number multiplies the view by it.
    pub proof fn lemma_product_units_whole(a: int, k: int)
        ensures
            product_units(a, k * unit()) == a * k,
    {
        assert((a * (k * unit())) / unit() == a * k) by (nonlinear_arith)
            requires
                unit() > 0,
        ;
    }

    /// Two amounts with the same mantissa and the same places are the same:
    /// an amount rebuilt from its parts is the amount itself.
    pub proof fn lemma_same_parts(self, other: Amount)
        requires
            self.spec_mantissa() == other.spec_mantissa(),
            self.spec_scale() == other.spec_scale(),
        ensures
            self == other,
    {
    }

    /// An amount is the one with its view and its places.
    pub proof fn lemma_is_with(self)
        requires
            self.well_formed(),
        ensures
            self == Amount::with(self@, self.spec_scale()),
    {
        let p = pow10((28 - self.spec_scale()) as nat);
        lemma_pow10_positive((28 - self.spec_scale()) as nat);
        assert((self.spec_mantissa() * p) / p == self.spec_mantissa()) by (nonlinear_arith)
            requires
                p >= 1,
        ;
    }

    /// The amount with a view and a number of places has them, where the
    /// view is a mantissa within 96 bits at those places.
    pub proof fn lemma_with(units: int, places: nat, mantissa: int)
        requires
            places <= 28,
            units == mantissa * pow10((28 - places) as nat),
            -mantissa_bound() < mantissa < mantissa_bound(),
        ensures
            Amount::with(units, places)@ == units,
            Amount::with(units, places).spec_scale() == places,
            Amount::with(units, places).spec_mantissa() == mantissa,
            Amount::with(units, places).well_formed(),
    {
        let p = pow10((28 - places) as nat);
        lemma_pow10_positive((28 - places) as nat);
        assert((mantissa * p) / p == mantissa) by (nonlinear_arith)
            requires
                p >= 1,
        ;
    }

    /// The exact sum of two amounts has the sum of their views, and the
    /// places that the rule for sums gives.
    pub proof fn lemma_sum_of(self, other: Amount)
        requires
            self.well_formed(),
            other.well_formed(),
            self.sum_fits(other),
        ensures
            self.sum_of(other)@ == self@ + other@,
            self.sum_of(other).spec_scale() == self.sum_places(other),
            self.sum_of(other).well_formed(),
    {
        let pa = pow10((28 - self.spec_scale()) as nat);
        let pb = pow10((28 - other.spec_scale()) as nat);
        lemma_pow10_positive((28 - self.spec_scale()) as nat);
        lemma_pow10_positive((28 - other.spec_scale()) as nat);
        if self@ == 0 {
            assert(self.spec_mantissa() == 0) by (nonlinear_arith)
                requires
                    self.spec_mantissa() * pa == 0,
                    pa >= 1,
            ;
            Self::lemma_with(other@, other.spec_scale(), other.spec_mantissa());
        } else if other@ == 0 {
            assert(other.spec_mantissa() == 0) by (nonlinear_arith)
                requires
                    other.spec_mantissa() * pb == 0,
                    pb >= 1,
            ;
            Self::lemma_with(self@, self.spec_scale(), self.spec_mantissa());
        } else {
            let places = max_places(self.spec_scale(), other.spec_scale());
            let rest = pow10((28 - places) as nat);
            let xs = self.spec_mantissa() * pow10((places - self.spec_scale()) as nat);
            let ys = other.spec_mantissa() * pow10((places - other.spec_scale()) as nat);
            self.lemma_view_at(places);
            other.lemma_view_at(places);
            lemma_pow10_positive((28 - places) as nat);
            assert(self@ + other@ == (xs + ys) * rest) by (nonlinear_arith)
                requires
                    self@ == xs * rest,
                    other@ == ys * rest,
            ;
            lemma_scaled_within_bound(xs + ys, rest);
            Self::lemma_with(self@ + other@, places, xs + ys);
        }
    }

    /// The exact difference of two amounts has the difference of their
    /// views, and the places that the rule for sums gives.
    pub proof fn lemma_difference_of(self, other: Amount)
        requires
            self.well_formed(),
            other.well_formed(),
            self.difference_fits(other),
        ensures
            self.difference_of(other)@ == self@ - other@,
            self.difference_of(other).spec_scale() == self.sum_places(other),
            self.difference_of(other).well_formed(),
    {
        let pa = pow10((28 - self.spec_scale()) as nat);
        let pb = pow10((28 - other.spec_scale()) as nat);
        lemma_pow10_positive((28 - self.spec_scale()) as nat);
        lemma_pow10_positive((28 - other.spec_scale()) as nat);
        if self@ == 0 {
            assert(self.spec_mantissa() == 0) by (nonlinear_arith)
                requires
                    self.spec_mantissa() * pa == 0,
                    pa >= 1,
            ;
            assert(-other@ == (-other.spec_mantissa()) * pb) by (nonlinear_arith)
                requires
                    other@ == other.spec_mantissa() * pb,
            ;
            Self::lemma_with(-other@, other.spec_scale(), -other.spec_mantissa());
        } else if other@ == 0 {
            assert(other.spec_mantissa() == 0) by (nonlinear_arith)
                requires
                    other.spec_mantissa() * pb == 0,
                    pb >= 1,
            ;
            Self::lemma_with(self@, self.spec_scale(), self.spec_mantissa());
        } else {
            let places = max_places(self.spec_scale(), other.spec_scale());
            let rest = pow10((28 - places) as nat);
            let xs = self.spec_mantissa() * pow10((places - self.spec_scale()) as nat);
            let ys = other.spec_mantissa() * pow10((places - other.spec_scale()) as nat);
            self.lemma_view_at(places);
            other.lemma_view_at(places);
            lemma_pow10_positive((28 - places) as nat);
            assert(self@ - other@ == (xs - ys) * rest) by (nonlinear_arith)
                requires
                    self@ == xs * rest,
                    other@ == ys * rest,
            ;
            lemma_scaled_within_bound(xs - ys, rest);
            Self::lemma_with(self@ - other@, places, xs - ys);
        }
    }

    /// The exact product of two amounts has the product of their values as
    /// its view, and the places that the rule for products gives.
    pub proof fn lemma_product_of(self, other: Amount)
        requires
            self.well_formed(),
            other.well_formed(),
            self.product_fits(other),
        ensures
            self.product_of(other)@ == product_units(self@, other@),
            self.product_of(other)@ * unit() == self@ * other@,
            self.product_of(other).spec_scale() == self.product_places(other),
            self.product_of(other).well_formed(),
    {
        self.lemma_product_fits(other);
        let rest = pow10((28 - self.spec_scale() - other.spec_scale()) as nat);
        let mm = self.spec_mantissa() * other.spec_mantissa();
        assert((mm * rest * unit()) / unit() == mm * rest) by (nonlinear_arith)
            requires
                unit() > 0,
        ;
        lemma_pow10_values();
        if self@ == 0 || other@ == 0 {
            assert(self@ * other@ == 0) by (nonlinear_arith)
                requires
                    self@ == 0 || other@ == 0,
            ;
            Self::lemma_with(0, 0, 0);
        } else {
            Self::lemma_with(
                mm * rest,
                (self.spec_scale() + other.spec_scale()) as nat,
                mm,
            );
        }
    }

    /// A product with the amount `num` divided by ten to the power `places`,
    /// cleared of the division: the view of the product, times ten to that
    /// power, is the view of the other factor times `num`.
    pub proof fn lemma_product_with_scaled(self, factor: Amount, product: int, num: int, places: nat)
        requires
            places <= 28,
            factor@ == num * pow10((28 - places) as nat),
            product * unit() == self@ * factor@,
        ensures
            product * pow10(places) == self@ * num,
    {
        lemma_pow10_adds(places, (28 - places) as nat);
        lemma_pow10_values();
        lemma_pow10_positive((28 - places) as nat);
        let hi = pow10(places);
        let lo = pow10((28 - places) as nat);
        assert(product * hi == self@ * num) by (nonlinear_arith)
            requires
                (product * (hi * lo)) == self@ * (num * lo),
                lo >= 1,
        ;
    }

    /// The whole number `n` as an amount has the view `n` times the unit and no places.
    pub proof fn lemma_whole(n: int)
        requires
            -mantissa_bound() < n < mantissa_bound(),
        ensures
            Amount::whole(n)@ == n * unit(),
            Amount::whole(n).spec_scale() == 0,
            Amount::whole(n).spec_mantissa() == n,
            Amount::whole(n).well_formed(),
    {
        lemma_pow10_values();
        assert((n * unit()) / unit() == n) by (nonlinear_arith)
            requires
                unit() > 0,
        ;
    }

    /// The view of an amount, written with `places` decimal places, where that
    /// is at least the number it has.
    proof fn lemma_view_at(self, places: nat)
        requires
            self.spec_scale() <= places <= 28,
        ensures
            self@ == (self.spec_mantissa() * pow10((places - self.spec_scale()) as nat)) * pow10(
                (28 - places) as nat,
            ),
    {
        let up = (places - self.spec_scale()) as nat;
        let rest = (28 - places) as nat;
        lemma_pow10_adds(up, rest);
        assert(up + rest == 28 - self.spec_scale());
        assert(self.spec_mantissa() * (pow10(up) * pow10(rest)) == (self.spec_mantissa() * pow10(up))
            * pow10(rest)) by (nonlinear_arith);
    }
}

/// Two to the power 96, as a machine integer.
const MANTISSA_BOUND: i128 = 79_228_162_514_264_337_593_543_950_336;

/// Ten to the power `e`, for an exponent up to 28.
fn power_of_ten(e: u32) -> (r: i128)
    requires
        e <= 28,
    ensures
        r == pow10(e as nat),
        1 <= r <= unit(),
{
    let mut r: i128 = 1;
    let mut i: u32 = 0;
    while i < e
        invariant
            i <= e <= 28,
            r == pow10(i as nat),
        decreases e - i,
    {
        proof {
            lemma_pow10_monotonic(i as nat, 27);
            lemma_pow10_positive(i as nat);
            lemma_pow10_values();
        }
        r = r * 10;
        i = i + 1;
    }
    proof {
        lemma_pow10_monotonic(e as nat, 28);
        lemma_pow10_positive(e as nat);
        lemma_pow10_values();
    }
    r
}

/// `mantissa` times ten to the power `shift`, where the product is an `i128`.
fn scaled_up(mantissa: i128, shift: u32) -> (r: Option<i128>)
    requires
        shift <= 28,
    ensures
        r is Some ==> r->Some_0 == mantissa * pow10(shift as nat),
        r is None ==> {
            ||| mantissa * pow10(shift as nat) > i128::MAX
            ||| mantissa * pow10(shift as nat) < i128::MIN
        },
{
    let factor = power_of_ten(shift);
    mantissa.checked_mul(factor)
}

/// Adds two amounts with `Decimal`'s `+`.
///
/// Trusted: where the exact sum can be written with the larger of the two
/// numbers of places, `rust_decimal` returns exactly that sum. It returns the
/// other operand where one operand is zero, and else a sum with the larger
/// number of places.
#[verifier::external_body]
fn decimal_add(a: Amount, b: Amount) -> (r: Amount)
    requires
        a.well_formed(),
        b.well_formed(),
        a.sum_fits(b),
    ensures
        r.well_formed(),
        r@ == a@ + b@,
        r.spec_scale() == a.sum_places(b),
{
    let x = Decimal::from_i128_with_scale(a.mantissa, a.scale);
    let y = Decimal::from_i128_with_scale(b.mantissa, b.scale);
    let d = x + y;
    Amount { mantissa: d.mantissa(), scale: d.scale() }
}

/// Subtracts one amount from another with `Decimal`'s `-`.
///
/// Trusted: where the exact difference can be written with the larger of the
/// two numbers of places, `rust_decimal` returns exactly that difference. It
/// has the places of the other operand where one operand is zero, and else
/// the larger number of places.
#[verifier::external_body]
fn decimal_sub(a: Amount, b: Amount) -> (r: Amount)
    requires
        a.well_formed(),
        b.well_formed(),
        a.difference_fits(b),
    ensures
        r.well_formed(),
        r@ == a@ - b@,
        r.spec_scale() == a.sum_places(b),
{
    let x = Decimal::from_i128_with_scale(a.mantissa, a.scale);
    let y = Decimal::from_i128_with_scale(b.mantissa, b.scale);
    let d = x - y;
    Amount { mantissa: d.mantissa(), scale: d.scale() }
}

/// What `Decimal::checked_mul` returns for two factors, each given by its
/// mantissa and its number of places: the mantissa and the number of places
/// of the product, or `None` where the product overflows.
pub uninterp spec fn decimal_product(
    left_mantissa: int,
    left_places: int,
    right_mantissa: int,
    right_places: int,
) -> Option<(int, int)>;

/// Multiplies two amounts with `Decimal::checked_mul`.
///
/// Trusted: the outcome depends on the two factors alone. Where the factors
/// have at most 28 places together and the product of their mantissas is
/// within 96 bits, `rust_decimal` returns exactly the product: zero without
/// places where a factor is zero, and else a product with the places of both
/// factors together. Nothing is claimed of the digits of a product that
/// `rust_decimal` rounds.
#[verifier::external_body]
fn decimal_mul(a: Amount, b: Amount) -> (r: Option<Amount>)
    requires
        a.well_formed(),
        b.well_formed(),
    ensures
        r is Some <==> decimal_product(
            a.spec_mantissa(),
            a.spec_scale() as int,
            b.spec_mantissa(),
            b.spec_scale() as int,
        ) is Some,
        r is Some ==> r->Some_0.well_formed() && Some(
            (r->Some_0.spec_mantissa(), r->Some_0.spec_scale() as int),
        ) == decimal_product(
            a.spec_mantissa(),
            a.spec_scale() as int,
            b.spec_mantissa(),
            b.spec_scale() as int,
        ),
        a.mantissas_multiply(b) ==> r is Some && r->Some_0@ * unit() == a@ * b@
            && r->Some_0.spec_scale() == a.product_places(b),
{
    let x = Decimal::from_i128_with_scale(a.mantissa, a.scale);
    let y = Decimal::from_i128_with_scale(b.mantissa, b.scale);
    match x.checked_mul(y) {
        Some(d) => Some(Amount { mantissa: d.mantissa(), scale: d.scale() }),
        None => None,
    }
}

/// What `Decimal::checked_div` returns for a dividend and a divisor, each
/// given by its mantissa and its number of places: the mantissa and the number
/// of places of the quotient, or `None` where there is no quotient.
pub uninterp spec fn decimal_quotient(
    dividend_mantissa: int,
    dividend_places: int,
    divisor_mantissa: int,
    divisor_places: int,
) -> Option<(int, int)>;

/// Divides one amount by another with `Decimal::checked_div`.
///
/// Trusted: the outcome depends on the two operands alone. A divisor of zero
/// gives no quotient, and zero divided by anything else gives zero without
/// places. Nothing more is claimed of the quotient's digits, which
/// `rust_decimal` rounds where they do not end.
#[verifier::external_body]
fn decimal_div(a: Amount, b: Amount) -> (r: Option<Amount>)
    requires
        a.well_formed(),
        b.well_formed(),
    ensures
        r is Some <==> decimal_quotient(
            a.spec_mantissa(),
            a.spec_scale() as int,
            b.spec_mantissa(),
            b.spec_scale() as int,
        ) is Some,
        r is Some ==> r->Some_0.well_formed() && Some(
            (r->Some_0.spec_mantissa(), r->Some_0.spec_scale() as int),
        ) == decimal_quotient(
            a.spec_mantissa(),
            a.spec_scale() as int,
            b.spec_mantissa(),
            b.spec_scale() as int,
        ),
        b@ == 0 ==> r is None,
        a@ == 0 && b@ != 0 ==> r is Some && r->Some_0@ == 0 && r->Some_0.spec_scale() == 0,
{
    let x = Decimal::from_i128_with_scale(a.mantissa, a.scale);
    let y = Decimal::from_i128_with_scale(b.mantissa, b.scale);
    match x.checked_div(y) {
        Some(d) => Some(Amount { mantissa: d.mantissa(), scale: d.scale() }),
        None => None,
    }
}

/// What `Decimal`'s `Display` writes, asked for no decimal places, for the
/// decimal with the given mantissa and number of places.
pub uninterp spec fn decimal_whole_text(mantissa: int, places: int) -> Seq<char>;

/// Writes an amount without decimal places, with `Decimal`'s `Display`.
///
/// Trusted: the text depends on the amount alone. Nothing is claimed of how
/// `rust_decimal` rounds or writes it.
#[verifier::external_body]
fn decimal_to_whole_text(a: Amount) -> (r: String)
    requires
        a.well_formed(),
    ensures
        r@ == decimal_whole_text(a.spec_mantissa(), a.spec_scale() as int),
{
    let d = Decimal::from_i128_with_scale(a.mantissa, a.scale);
    format!("{:.0}", d)
}

/// Compares two amounts with `Decimal`'s `<`.
///
/// Trusted: `rust_decimal` orders decimals by value, whatever their places.
#[verifier::external_body]
fn decimal_lt(a: Amount, b: Amount) -> (r: bool)
    requires
        a.well_formed(),
        b.well_formed(),
    ensures
        r == (a@ < b@),
{
    let x = Decimal::from_i128_with_scale(a.mantissa, a.scale);
    let y = Decimal::from_i128_with_scale(b.mantissa, b.scale);
    x < y
}

/// Compares two amounts with `Decimal`'s `==`.
///
/// Trusted: `rust_decimal` holds two decimals equal where their values are,
/// whatever their places.
#[verifier::external_body]
fn decimal_eq(a: Amount, b: Amount) -> (r: bool)
    requires
        a.well_formed(),
        b.well_formed(),
    ensures
        r == (a@ == b@),
{
    let x = Decimal::from_i128_with_scale(a.mantissa, a.scale);
    let y = Decimal::from_i128_with_scale(b.mantissa, b.scale);
    x == y
}

impl Amount {
    /// The amount `num` divided by ten to the power `scale`.
    pub fn new(num: i64, scale: u32) -> (r: Amount)
        requires
            scale <= 28,
        ensures
            r.spec_mantissa() == num,
            r.spec_scale() == scale,
            r == Amount::scaled(num as int, scale as nat),
    {
        let r = Amount { mantissa: num as i128, scale };
        proof {
            r.lemma_is_with();
        }
        r
    }

    /// The amount with the given mantissa and number of decimal places, where
    /// there is one.
    pub fn from_parts(mantissa: i128, scale: u32) -> (r: Option<Amount>)
        ensures
            r is Some <==> scale <= 28 && -mantissa_bound() < mantissa < mantissa_bound(),
            r is Some ==> r->Some_0.spec_mantissa() == mantissa && r->Some_0.spec_scale() == scale,
    {
        if scale <= MAX_PLACES && -MANTISSA_BOUND < mantissa && mantissa < MANTISSA_BOUND {
            Some(Amount { mantissa, scale })
        } else {
            None
        }
    }

    /// The whole number `n` as an amount.
    pub fn from_i64(n: i64) -> (r: Amount)
        ensures
            r@ == n * unit(),
            r.spec_mantissa() == n,
            r.spec_scale() == 0,
            r == Amount::whole(n as int),
    {
        proof {
            lemma_pow10_values();
            Amount::lemma_whole(n as int);
        }
        Amount { mantissa: n as i128, scale: 0 }
    }

    /// The amount zero.
    pub fn zero() -> (r: Amount)
        ensures
            r@ == 0,
            r.spec_mantissa() == 0,
            r.spec_scale() == 0,
            r == Amount::whole(0),
    {
        proof {
            lemma_pow10_values();
            Amount::lemma_whole(0);
        }
        Amount { mantissa: 0, scale: 0 }
    }

    /// The amount written without decimal places, as `rust_decimal` writes it.
    pub open spec fn whole_text(self) -> Seq<char> {
        decimal_whole_text(self.spec_mantissa(), self.spec_scale() as int)
    }

    /// The amount written without decimal places.
    pub fn to_whole_text(&self) -> (r: String)
        ensures
            r@ == self.whole_text(),
    {
        proof {
            use_type_invariant(self);
        }
        decimal_to_whole_text(*self)
    }

    /// Whether the amount is greater than zero.
    pub fn is_positive(&self) -> (r: bool)
        ensures
            r == (self@ > 0),
    {
        proof {
            use_type_invariant(self);
        }
        decimal_lt(Amount::zero(), *self)
    }

    /// Whether the amount is less than zero.
    pub fn is_negative(&self) -> (r: bool)
        ensures
            r == (self@ < 0),
    {
        proof {
            use_type_invariant(self);
        }
        decimal_lt(*self, Amount::zero())
    }

    /// Whether the amount is zero.
    pub fn is_zero(&self) -> (r: bool)
        ensures
            r == (self@ == 0),
    {
        proof {
            use_type_invariant(self);
        }
        decimal_eq(*self, Amount::zero())
    }

    /// Whether `self` is less than `other`.
    pub fn lt(&self, other: &Amount) -> (r: bool)
        ensures
            r == (self@ < other@),
    {
        proof {
            use_type_invariant(self);
            use_type_invariant(other);
        }
        decimal_lt(*self, *other)
    }

    /// Whether `self` is at most `other`.
    pub fn le(&self, other: &Amount) -> (r: bool)
        ensures
            r == (self@ <= other@),
    {
        proof {
            use_type_invariant(self);
            use_type_invariant(other);
        }
        !decimal_lt(*other, *self)
    }

    /// Whether `self` is greater than `other`.
    pub fn gt(&self, other: &Amount) -> (r: bool)
        ensures
            r == (self@ > other@),
    {
        proof {
            use_type_invariant(self);
            use_type_invariant(other);
        }
        decimal_lt(*other, *self)
    }

    /// Whether `self` is at least `other`.
    pub fn ge(&self, other: &Amount) -> (r: bool)
        ensures
            r == (self@ >= other@),
    {
        proof {
            use_type_invariant(self);
            use_type_invariant(other);
        }
        !decimal_lt(*self, *other)
    }
}

impl Amount {
    /// Whether `self + other` can be written exactly with the larger of the
    /// two numbers of places.
    pub fn can_add(&self, other: &Amount) -> (r: bool)
        ensures
            r == self.sum_fits(*other),
    {
        proof {
            use_type_invariant(self);
            use_type_invariant(other);
        }
        let places = if self.scale >= other.scale {
            self.scale
        } else {
            other.scale
        };
        let x = scaled_up(self.mantissa, places - self.scale);
        let y = scaled_up(other.mantissa, places - other.scale);
        proof {
            let rest = pow10((28 - places) as nat);
            let xs = self.spec_mantissa() * pow10((places - self.scale) as nat);
            let ys = other.spec_mantissa() * pow10((places - other.scale) as nat);
            self.lemma_view_at(places as nat);
            other.lemma_view_at(places as nat);
            lemma_pow10_positive((28 - places) as nat);
            lemma_pow10_values();
            assert(self@ + other@ == (xs + ys) * rest) by (nonlinear_arith)
                requires
                    self@ == xs * rest,
                    other@ == ys * rest,
            ;
            lemma_scaled_within_bound(xs + ys, rest);
            assert(places == self.scale ==> xs == self.spec_mantissa());
            assert(places == other.scale ==> ys == other.spec_mantissa());
        }
        match (x, y) {
            (Some(x), Some(y)) => match x.checked_add(y) {
                Some(t) => -MANTISSA_BOUND < t && t < MANTISSA_BOUND,
                None => false,
            },
            _ => false,
        }
    }

    /// Whether `self - other` can be written exactly with the larger of the
    /// two numbers of places.
    pub fn can_subtract(&self, other: &Amount) -> (r: bool)
        ensures
            r == self.difference_fits(*other),
    {
        proof {
            use_type_invariant(self);
            use_type_invariant(other);
        }
        let places = if self.scale >= other.scale {
            self.scale
        } else {
            other.scale
        };
        let x = scaled_up(self.mantissa, places - self.scale);
        let y = scaled_up(other.mantissa, places - other.scale);
        proof {
            let rest = pow10((28 - places) as nat);
            let xs = self.spec_mantissa() * pow10((places - self.scale) as nat);
            let ys = other.spec_mantissa() * pow10((places - other.scale) as nat);
            self.lemma_view_at(places as nat);
            other.lemma_view_at(places as nat);
            lemma_pow10_positive((28 - places) as nat);
            lemma_pow10_values();
            assert(self@ - other@ == (xs - ys) * rest) by (nonlinear_arith)
                requires
                    self@ == xs * rest,
                    other@ == ys * rest,
            ;
            lemma_scaled_within_bound(xs - ys, rest);
            assert(places == self.scale ==> xs == self.spec_mantissa());
            assert(places == other.scale ==> ys == other.spec_mantissa());
        }
        match (x, y) {
            (Some(x), Some(y)) => match x.checked_sub(y) {
                Some(t) => -MANTISSA_BOUND < t && t < MANTISSA_BOUND,
                None => false,
            },
            _ => false,
        }
    }

    /// Whether `self * other` can be written exactly with the places of both
    /// operands together.
    pub fn can_multiply(&self, other: &Amount) -> (r: bool)
        ensures
            r == self.product_fits(*other),
    {
        proof {
            use_type_invariant(self);
            use_type_invariant(other);
        }
        proof {
            self.lemma_product_fits(*other);
        }
        if self.scale + other.scale > MAX_PLACES {
            return false;
        }
        match self.mantissa.checked_mul(other.mantissa) {
            Some(t) => -MANTISSA_BOUND < t && t < MANTISSA_BOUND,
            None => false,
        }
    }

    /// The sum `self + other`, exactly.
    pub fn plus(self, other: Amount) -> (r: Amount)
        requires
            self.sum_fits(other),
        ensures
            r@ == self@ + other@,
            r.spec_scale() <= max_places(self.spec_scale(), other.spec_scale()),
            r == self.sum_of(other),
            r.spec_scale() == self.sum_places(other),
    {
        proof {
            use_type_invariant(self);
            use_type_invariant(other);
        }
        let r = decimal_add(self, other);
        proof {
            r.lemma_is_with();
        }
        r
    }

    /// The difference `self - other`, exactly.
    pub fn minus(self, other: Amount) -> (r: Amount)
        requires
            self.difference_fits(other),
        ensures
            r@ == self@ - other@,
            r.spec_scale() <= max_places(self.spec_scale(), other.spec_scale()),
            r == self.difference_of(other),
            r.spec_scale() == self.sum_places(other),
    {
        proof {
            use_type_invariant(self);
            use_type_invariant(other);
        }
        let r = decimal_sub(self, other);
        proof {
            r.lemma_is_with();
        }
        r
    }

    /// The product `self * other`, exactly.
    pub fn times(self, other: Amount) -> (r: Amount)
        requires
            self.product_fits(other),
        ensures
            r@ == product_units(self@, other@),
            r@ * unit() == self@ * other@,
            r.spec_scale() <= self.spec_scale() + other.spec_scale(),
            r == self.product_of(other),
            r.spec_scale() == self.product_places(other),
    {
        proof {
            use_type_invariant(self);
            use_type_invariant(other);
            self.lemma_product_fits(other);
        }
        match self.rounded_mul(other) {
            Some(r) => r,
            None => Amount::zero(),
        }
    }

    /// The mantissa and the number of places of the product `self * other` as
    /// `rust_decimal` computes it, or `None` where it overflows. The product
    /// is exact where it can be written exactly, and rounded otherwise.
    pub open spec fn product(self, other: Amount) -> Option<(int, int)> {
        decimal_product(
            self.spec_mantissa(),
            self.spec_scale() as int,
            other.spec_mantissa(),
            other.spec_scale() as int,
        )
    }

    /// The product `self * other` as `rust_decimal` computes it, where it gives one.
    pub open spec fn product_amount(self, other: Amount) -> Amount {
        let p = self.product(other)->Some_0;
        Amount::scaled(p.0, p.1 as nat)
    }

    /// The product `self * other`: exact where it can be written exactly
    /// with the places of both factors together, rounded by `rust_decimal`
    /// where it cannot, and none where it overflows.
    pub fn rounded_mul(self, other: Amount) -> (r: Option<Amount>)
        ensures
            r is Some <==> self.product(other) is Some,
            r is Some ==> r->Some_0 == self.product_amount(other),
            self.product_fits(other) ==> r == Some(self.product_of(other)),
            self.product_fits(other) ==> r->Some_0@ == product_units(self@, other@),
            self.product_fits(other) ==> r->Some_0@ * unit() == self@ * other@,
    {
        proof {
            use_type_invariant(self);
            use_type_invariant(other);
            self.lemma_product_fits(other);
        }
        let r = decimal_mul(self, other);
        proof {
            if r is Some {
                let p = r->Some_0;
                p.lemma_is_with();
                if self.product_fits(other) {
                    assert(p@ == (p@ * unit()) / unit()) by (nonlinear_arith)
                        requires
                            unit() > 0,
                    ;
                }
            }
        }
        r
    }

    /// The product of `self` and the whole number `k`, exactly.
    pub fn times_whole(self, k: i64) -> (r: Amount)
        requires
            self.product_fits(Amount::whole(k as int)),
        ensures
            r == self.product_of(Amount::whole(k as int)),
            r@ == self@ * k,
    {
        let factor = Amount::from_i64(k);
        proof {
            Self::lemma_product_units_whole(self@, k as int);
        }
        self.times(factor)
    }

    /// The sum `self + other`, where it can be written exactly with the larger
    /// of the two numbers of places.
    pub fn checked_add(self, other: Amount) -> (r: Option<Amount>)
        ensures
            r is Some <==> self.sum_fits(other),
            r is Some ==> r->Some_0 == self.sum_of(other),
            r is Some ==> r->Some_0@ == self@ + other@,
            r is Some ==> r->Some_0.spec_scale() <= max_places(
                self.spec_scale(),
                other.spec_scale(),
            ),
    {
        if self.can_add(&other) {
            Some(self.plus(other))
        } else {
            None
        }
    }

    /// The difference `self - other`, where it can be written exactly with the
    /// larger of the two numbers of places.
    pub fn checked_sub(self, other: Amount) -> (r: Option<Amount>)
        ensures
            r is Some <==> self.difference_fits(other),
            r is Some ==> r->Some_0 == self.difference_of(other),
            r is Some ==> r->Some_0@ == self@ - other@,
            r is Some ==> r->Some_0.spec_scale() <= max_places(
                self.spec_scale(),
                other.spec_scale(),
            ),
    {
        if self.can_subtract(&other) {
            Some(self.minus(other))
        } else {
            None
        }
    }

    /// The product `self * other`, where it can be written exactly with the
    /// places of both operands together.
    pub fn checked_mul(self, other: Amount) -> (r: Option<Amount>)
        ensures
            r is Some <==> self.product_fits(other),
            r is Some ==> r->Some_0 == self.product_of(other),
            r is Some ==> r->Some_0@ == product_units(self@, other@),
            r is Some ==> r->Some_0@ * unit() == self@ * other@,
            r is Some ==> r->Some_0.spec_scale() <= self.spec_scale() + other.spec_scale(),
    {
        if self.can_multiply(&other) {
            Some(self.times(other))
        } else {
            None
        }
    }

    /// The mantissa and the number of places of the quotient `self / other` as
    /// `rust_decimal` computes it, or `None` where it gives none: on division
    /// by zero and on overflow.
    pub open spec fn quotient(self, other: Amount) -> Option<(int, int)> {
        decimal_quotient(
            self.spec_mantissa(),
            self.spec_scale() as int,
            other.spec_mantissa(),
            other.spec_scale() as int,
        )
    }

    /// The quotient `self / other` as `rust_decimal` computes it, where it gives one.
    pub open spec fn quotient_amount(self, other: Amount) -> Amount {
        let q = self.quotient(other)->Some_0;
        Amount::scaled(q.0, q.1 as nat)
    }

    /// Whether `self` is the quotient of the two amounts, digit for digit.
    pub open spec fn is_quotient(self, dividend: Amount, divisor: Amount) -> bool {
        dividend.quotient(divisor) == Some((self.spec_mantissa(), self.spec_scale() as int))
    }

    /// Whether `self / other * 100` can be computed: there is a quotient, and
    /// a hundred times the quotient does not overflow.
    pub open spec fn percent_defined(self, other: Amount) -> bool {
        &&& self.quotient(other) is Some
        &&& self.quotient_amount(other).product(Amount::whole(100)) is Some
    }

    /// The ratio `self / other` as a percentage, as `rust_decimal` computes
    /// it: the quotient, times a hundred.
    pub open spec fn percent_amount(self, other: Amount) -> Amount {
        self.quotient_amount(other).product_amount(Amount::whole(100))
    }

    /// The quotient `self / other`, where there is one.
    pub fn checked_div(self, other: Amount) -> (r: Option<Amount>)
        ensures
            r is Some <==> self.quotient(other) is Some,
            r is Some ==> r->Some_0.is_quotient(self, other),
            r is Some ==> r->Some_0 == self.quotient_amount(other),
            other@ == 0 ==> r is None,
            self@ == 0 && other@ != 0 ==> r is Some && r->Some_0@ == 0,
    {
        proof {
            use_type_invariant(self);
            use_type_invariant(other);
        }
        let r = decimal_div(self, other);
        proof {
            if r is Some {
                r->Some_0.lemma_is_with();
            }
        }
        r
    }
}

/// The sum of the views of a sequence of amounts.
pub open spec fn total(amounts: Seq<Amount>) -> int
    decreases amounts.len(),
{
    if amounts.len() == 0 {
        0
    } else {
        total(amounts.drop_last()) + amounts.last()@
    }
}

/// The sum of the amounts, added from the front, digit for digit.
pub open spec fn exact_sum(amounts: Seq<Amount>) -> Amount
    decreases amounts.len(),
{
    if amounts.len() == 0 {
        Amount::whole(0)
    } else {
        exact_sum(amounts.drop_last()).sum_of(amounts.last())
    }
}

/// Whether the amounts can be added from the front with every running total exact.
pub open spec fn sums_exactly(amounts: Seq<Amount>) -> bool
    decreases amounts.len(),
{
    amounts.len() == 0 || (sums_exactly(amounts.drop_last()) && exact_sum(
        amounts.drop_last(),
    ).sum_fits(amounts.last()))
}

/// Where a sequence can be added up exactly, so can each part of it from the
/// front, and the next amount can be added to that part's sum.
pub proof fn lemma_sums_exactly_prefix(amounts: Seq<Amount>, k: int)
    requires
        sums_exactly(amounts),
        0 <= k <= amounts.len(),
    ensures
        sums_exactly(amounts.take(k)),
        k < amounts.len() ==> exact_sum(amounts.take(k)).sum_fits(amounts[k]),
    decreases amounts.len(),
{
    if k == amounts.len() {
        assert(amounts.take(k) =~= amounts);
    } else {
        assert(amounts.drop_last().take(k) =~= amounts.take(k));
        if k == amounts.len() - 1 {
            assert(amounts.take(k) =~= amounts.drop_last());
        } else {
            lemma_sums_exactly_prefix(amounts.drop_last(), k);
        }
    }
}

/// Whether every amount of the sequence is one that exists at run time.
pub open spec fn all_well_formed(amounts: Seq<Amount>) -> bool {
    forall|i: int| 0 <= i < amounts.len() ==> (#[trigger] amounts[i]).well_formed()
}

/// The digit-for-digit sum of amounts that add up exactly has the sum of
/// their views as its view.
pub proof fn lemma_exact_sum(amounts: Seq<Amount>)
    requires
        all_well_formed(amounts),
        sums_exactly(amounts),
    ensures
        exact_sum(amounts)@ == total(amounts),
        exact_sum(amounts).well_formed(),
    decreases amounts.len(),
{
    if amounts.len() == 0 {
        Amount::lemma_whole(0);
    } else {
        let front = amounts.drop_last();
        assert(all_well_formed(front)) by {
            assert forall|i: int| 0 <= i < front.len() implies (#[trigger] front[i]).well_formed() by {
                assert(front[i] == amounts[i]);
            }
        }
        lemma_exact_sum(front);
        exact_sum(front).lemma_sum_of(amounts.last());
    }
}

/// The sum of the amounts, added from the front, where every running total is exact.
pub fn checked_sum(amounts: &Vec<Amount>) -> (r: Option<Amount>)
    ensures
        r is Some <==> sums_exactly(amounts@),
        r is Some ==> r->Some_0 == exact_sum(amounts@),
        r is Some ==> r->Some_0@ == total(amounts@),
{
    let mut acc = Amount::zero();
    let mut i: usize = 0;
    assert(amounts@.take(0) =~= Seq::<Amount>::empty());
    while i < amounts.len()
        invariant
            i <= amounts.len(),
            sums_exactly(amounts@.take(i as int)),
            acc@ == total(amounts@.take(i as int)),
            acc == exact_sum(amounts@.take(i as int)),
        decreases amounts.len() - i,
    {
        let next = amounts[i];
        proof {
            assert(amounts@.take(i + 1).drop_last() =~= amounts@.take(i as int));
            assert(amounts@.take(i + 1).last() == next);
        }
        match acc.checked_add(next) {
            Some(more) => {
                acc = more;
            },
            None => {
                proof {
                    if sums_exactly(amounts@) {
                        lemma_sums_exactly_prefix(amounts@, i as int);
                    }
                }
                return None;
            },
        }
        i = i + 1;
    }
    assert(amounts@.take(amounts@.len() as int) =~= amounts@);
    Some(acc)
}

/// The sum of the amounts, added from the front.
pub fn sum(amounts: &Vec<Amount>) -> (r: Amount)
    requires
        sums_exactly(amounts@),
    ensures
        r == exact_sum(amounts@),
        r@ == total(amounts@),
{
    match checked_sum(amounts) {
        Some(total) => total,
        None => Amount::zero(),
    }
}

impl Amount {
    /// A hundred times a quotient: `quotient * 100`, rounded by
    /// `rust_decimal` where it cannot be written exactly.
    pub fn as_percent(quotient: Amount) -> (r: Amount)
        requires
            quotient.product(Amount::whole(100)) is Some,
        ensures
            r == quotient.product_amount(Amount::whole(100)),
            quotient.product_fits(Amount::whole(100)) ==> r@ == quotient@ * 100,
    {
        proof {
            Self::lemma_product_units_whole(quotient@, 100);
        }
        match quotient.rounded_mul(Amount::from_i64(100)) {
            Some(percent) => percent,
            None => Amount::zero(),
        }
    }

    /// The ratio `self / other` as a percentage: the quotient times a hundred.
    pub fn percent_of(self, other: Amount) -> (r: Amount)
        requires
            self.percent_defined(other),
        ensures
            r == self.percent_amount(other),
            self.quotient_amount(other).product_fits(Amount::whole(100)) ==> r@
                == self.quotient_amount(other)@ * 100,
            self@ == 0 && other@ != 0 ==> r@ == 0,
    {
        match self.checked_div(other) {
            Some(q) => {
                proof {
                    if self@ == 0 && other@ != 0 {
                        use_type_invariant(q);
                        Self::lemma_whole(100);
                        Self::lemma_product_units_whole(0, 100);
                        q.lemma_product_fits(Amount::whole(100));
                        lemma_pow10_positive((28 - q.spec_scale()) as nat);
                        assert(q.spec_mantissa() == 0) by (nonlinear_arith)
                            requires
                                q.spec_mantissa() * pow10((28 - q.spec_scale()) as nat) == 0,
                                pow10((28 - q.spec_scale()) as nat) >= 1,
                        ;
                        assert(q.spec_mantissa() * 100 == 0);
                    }
                }
                Amount::as_percent(q)
            },
            None => Amount::zero(),
        }
    }

    /// The ratio `self / other` as a percentage, where it can be computed:
    /// there is none on division by zero and on overflow.
    pub fn checked_percent_of(self, other: Amount) -> (r: Option<Amount>)
        ensures
            r is Some <==> self.percent_defined(other),
            r is Some ==> r->Some_0 == self.percent_amount(other),
            r is Some && self.quotient_amount(other).product_fits(Amount::whole(100))
                ==> r->Some_0@ == self.quotient_amount(other)@ * 100,
            other@ == 0 ==> r is None,
    {
        match self.checked_div(other) {
            Some(q) => {
                if q.rounded_mul(Amount::from_i64(100)).is_some() {
                    Some(self.percent_of(other))
                } else {
                    None
                }
            },
            None => None,
        }
    }
}

impl PartialEq for Amount {
    /// Whether the two amounts have the same value, whatever their places.
    fn eq(&self, other: &Amount) -> (r: bool) {
        proof {
            use_type_invariant(self);
            use_type_invariant(other);
        }
        decimal_eq(*self, *other)
    }
}

impl PartialEqSpecImpl for Amount {
    open spec fn obeys_eq_spec() -> bool {
        true
    }

    open spec fn eq_spec(&self, other: &Amount) -> bool {
        self@ == other@
    }
}

} // verus!
