use rust_decimal::Decimal;
use vstd::prelude::*;

verus! {

/// The largest mantissa magnitude a decimal amount can hold: 2^96 - 1.
pub const MAX_MANTISSA: i128 = 79228162514264337593543950335;

/// The largest number of fractional digits a decimal amount can hold.
pub const MAX_SCALE: u32 = 28;

/// 10 to the power `n`.
pub open spec fn pow10(n: nat) -> int
    decreases n,
{
    if n == 0 {
        1
    } else {
        10 * pow10((n - 1) as nat)
    }
}

/// Whether a value, counted in units of 10^-28, can be written with a
/// mantissa of at most 96 bits at `scale` fractional digits.
pub open spec fn representable_at(units: int, scale: nat) -> bool {
    -(MAX_MANTISSA as int) * pow10((MAX_SCALE - scale) as nat) <= units
        <= (MAX_MANTISSA as int) * pow10((MAX_SCALE - scale) as nat)
}

/// The larger of two scales.
pub open spec fn max_scale(a: nat, b: nat) -> nat {
    if a < b {
        b
    } else {
        a
    }
}

/// What `rust_decimal::Decimal::checked_add` returns on the decimals with the
/// given mantissas and scales, as a mantissa and a scale (`None` on overflow).
pub uninterp spec fn decimal_checked_add(a_mantissa: int, a_scale: int, b_mantissa: int, b_scale: int) -> Option<(int, int)>;

/// What `rust_decimal::Decimal::checked_sub` returns on the decimals with the
/// given mantissas and scales, as a mantissa and a scale (`None` on overflow).
pub uninterp spec fn decimal_checked_sub(a_mantissa: int, a_scale: int, b_mantissa: int, b_scale: int) -> Option<(int, int)>;

/// The text that `rust_decimal::Decimal`'s `Display` writes for the decimal
/// with the given mantissa and scale.
pub uninterp spec fn decimal_display(mantissa: int, scale: int) -> Seq<char>;

/// A signed decimal amount of money: `mantissa / 10^scale`, with a mantissa of
/// at most 96 bits and at most 28 fractional digits, exactly the values of
/// `rust_decimal::Decimal`.
#[derive(Clone, Copy, Debug)]
pub struct Amount {
    mantissa: i128,
    scale: u32,
}

/// The amount with the given decimal parts, or nothing where there are no parts.
spec fn amount_of_parts(parts: Option<(int, int)>) -> Option<Amount> {
    match parts {
        Some(p) => Some(Amount { mantissa: p.0 as i128, scale: p.1 as u32 }),
        None => None,
    }
}

impl Amount {
    #[verifier::type_invariant]
    spec fn well_formed(self) -> bool {
        self.in_range()
    }

    /// The mantissa has at most 96 bits and the scale is at most 28; every
    /// amount a program holds satisfies this.
    pub open spec fn in_range(self) -> bool {
        &&& -MAX_MANTISSA <= self.spec_mantissa() <= MAX_MANTISSA
        &&& self.spec_scale() <= MAX_SCALE
    }

    /// The mantissa: the amount is `mantissa / 10^scale`.
    pub closed spec fn spec_mantissa(self) -> int {
        self.mantissa as int
    }

    /// The number of fractional digits.
    pub closed spec fn spec_scale(self) -> nat {
        self.scale as nat
    }

    /// The amount counted in units of 10^-28, the finest step a decimal can take.
    pub open spec fn units(self) -> int {
        self.spec_mantissa() * pow10((MAX_SCALE - self.spec_scale()) as nat)
    }

    /// The same amount with the opposite sign, at the same scale.
    pub closed spec fn spec_negated(self) -> Amount {
        Amount { mantissa: (-self.mantissa) as i128, scale: self.scale }
    }

    /// The sum as `rust_decimal` computes it without rounding: zero plus an
    /// amount is that amount as it stands, otherwise the exact sum at the larger scale.
    pub closed spec fn exact_sum(self, rhs: Amount) -> Amount {
        if self.mantissa == 0 {
            rhs
        } else if rhs.mantissa == 0 {
            self
        } else {
            let s = max_scale(self.scale as nat, rhs.scale as nat);
            Amount {
                mantissa: (self.mantissa * pow10((s - self.scale) as nat) + rhs.mantissa * pow10(
                    (s - rhs.scale) as nat,
                )) as i128,
                scale: s as u32,
            }
        }
    }

    /// The difference as `rust_decimal` computes it without rounding: zero
    /// minus an amount is its negation, an amount minus zero is the amount as it
    /// stands, otherwise the exact difference at the larger scale.
    pub closed spec fn exact_difference(self, rhs: Amount) -> Amount {
        if self.mantissa == 0 {
            rhs.spec_negated()
        } else if rhs.mantissa == 0 {
            self
        } else {
            let s = max_scale(self.scale as nat, rhs.scale as nat);
            Amount {
                mantissa: (self.mantissa * pow10((s - self.scale) as nat) - rhs.mantissa * pow10(
                    (s - rhs.scale) as nat,
                )) as i128,
                scale: s as u32,
            }
        }
    }

    /// The sum as `rust_decimal` computes it, or `None` where it overflows:
    /// exact where the exact sum fits at the larger scale, rounded otherwise.
    pub closed spec fn spec_checked_add(self, rhs: Amount) -> Option<Amount> {
        if self.sum_is_exact(rhs) {
            Some(self.exact_sum(rhs))
        } else {
            amount_of_parts(
                decimal_checked_add(
                    self.mantissa as int,
                    self.scale as int,
                    rhs.mantissa as int,
                    rhs.scale as int,
                ),
            )
        }
    }

    /// The difference as `rust_decimal` computes it, or `None` where it
    /// overflows: exact where the exact difference fits at the larger scale,
    /// rounded otherwise.
    pub closed spec fn spec_checked_sub(self, rhs: Amount) -> Option<Amount> {
        if self.difference_is_exact(rhs) {
            Some(self.exact_difference(rhs))
        } else {
            amount_of_parts(
                decimal_checked_sub(
                    self.mantissa as int,
                    self.scale as int,
                    rhs.mantissa as int,
                    rhs.scale as int,
                ),
            )
        }
    }

    /// Whether `self + rhs` needs no rounding: the exact sum fits at the larger scale.
    pub open spec fn sum_is_exact(self, rhs: Amount) -> bool {
        representable_at(self.units() + rhs.units(), max_scale(self.spec_scale(), rhs.spec_scale()))
    }

    /// Whether `self - rhs` needs no rounding: the exact difference fits at the larger scale.
    pub open spec fn difference_is_exact(self, rhs: Amount) -> bool {
        representable_at(self.units() - rhs.units(), max_scale(self.spec_scale(), rhs.spec_scale()))
    }
}

impl View for Amount {
    type V = int;

    /// An amount's value, in units of 10^-28.
    open spec fn view(&self) -> int {
        self.units()
    }
}

proof fn lemma_pow10_positive(n: nat)
    ensures
        pow10(n) >= 1,
    decreases n,
{
    if n > 0 {
        lemma_pow10_positive((n - 1) as nat);
    }
}

proof fn lemma_negated_units(m: int, p: int)
    ensures
        (-m) * p == -(m * p),
{
    assert((-m) * p == -(m * p)) by (nonlinear_arith);
}


proof fn lemma_pow10_add(a: nat, b: nat)
    ensures
        pow10(a + b) == pow10(a) * pow10(b),
    decreases a,
{
    if a > 0 {
        lemma_pow10_add((a - 1) as nat, b);
        assert(pow10(a + b) == 10 * pow10((a - 1 + b) as nat));
        assert(10 * (pow10((a - 1) as nat) * pow10(b)) == (10 * pow10((a - 1) as nat)) * pow10(b))
            by (nonlinear_arith);
    }
}

proof fn lemma_scaled_units(m: int, s: nat, big: nat)
    requires
        s <= big <= 28,
    ensures
        m * pow10((big - s) as nat) * pow10((28 - big) as nat) == m * pow10((28 - s) as nat),
{
    lemma_pow10_add((big - s) as nat, (28 - big) as nat);
    assert((big - s) as nat + (28 - big) as nat == (28 - s) as nat);
    let p = pow10((big - s) as nat);
    let q = pow10((28 - big) as nat);
    assert(m * p * q == m * (p * q)) by (nonlinear_arith);
}

proof fn lemma_zero_units(a: Amount)
    requires
        a.spec_mantissa() == 0,
    ensures
        a@ == 0,
{
    let p = pow10((MAX_SCALE - a.spec_scale()) as nat);
    assert(0 * p == 0) by (nonlinear_arith);
}

proof fn lemma_bound_by_factor(m: int, q: int, bound: int)
    requires
        q >= 1,
        -bound * q <= m * q <= bound * q,
    ensures
        -bound <= m <= bound,
{
    assert(-bound <= m <= bound) by (nonlinear_arith)
        requires
            q >= 1,
            -bound * q <= m * q <= bound * q,
    ;
}

proof fn lemma_sum_of_products(x: int, y: int, q: int)
    ensures
        (x + y) * q == x * q + y * q,
        (x - y) * q == x * q - y * q,
{
    assert((x + y) * q == x * q + y * q) by (nonlinear_arith);
    assert((x - y) * q == x * q - y * q) by (nonlinear_arith);
}

/// Where the exact sum fits at the larger scale, `exact_sum` is that sum and
/// a valid amount.
pub proof fn lemma_exact_sum(a: Amount, b: Amount)
    requires
        a.in_range(),
        b.in_range(),
        a.sum_is_exact(b),
    ensures
        a.exact_sum(b)@ == a@ + b@,
        a.exact_sum(b).in_range(),
{
    if a.mantissa == 0 {
        lemma_zero_units(a);
    } else if b.mantissa == 0 {
        lemma_zero_units(b);
    } else {
        let s = max_scale(a.scale as nat, b.scale as nat);
        let x = a.mantissa * pow10((s - a.scale) as nat);
        let y = b.mantissa * pow10((s - b.scale) as nat);
        let q = pow10((28 - s) as nat);
        lemma_scaled_units(a.mantissa as int, a.scale as nat, s);
        lemma_scaled_units(b.mantissa as int, b.scale as nat, s);
        lemma_sum_of_products(x, y, q);
        lemma_pow10_positive((28 - s) as nat);
        lemma_bound_by_factor(x + y, q, MAX_MANTISSA as int);
    }
}

/// Where the exact difference fits at the larger scale, `exact_difference` is
/// that difference and a valid amount.
pub proof fn lemma_exact_difference(a: Amount, b: Amount)
    requires
        a.in_range(),
        b.in_range(),
        a.difference_is_exact(b),
    ensures
        a.exact_difference(b)@ == a@ - b@,
        a.exact_difference(b).in_range(),
{
    if a.mantissa == 0 {
        lemma_zero_units(a);
        lemma_negated(b);
    } else if b.mantissa == 0 {
        lemma_zero_units(b);
    } else {
        let s = max_scale(a.scale as nat, b.scale as nat);
        let x = a.mantissa * pow10((s - a.scale) as nat);
        let y = b.mantissa * pow10((s - b.scale) as nat);
        let q = pow10((28 - s) as nat);
        lemma_scaled_units(a.mantissa as int, a.scale as nat, s);
        lemma_scaled_units(b.mantissa as int, b.scale as nat, s);
        lemma_sum_of_products(x, y, q);
        lemma_pow10_positive((28 - s) as nat);
        lemma_bound_by_factor(x - y, q, MAX_MANTISSA as int);
    }
}

/// Where the exact sum fits at the larger scale, `rust_decimal` adds without
/// rounding: the sum is the exact sum and a valid amount.
pub proof fn lemma_checked_add_exact(a: Amount, b: Amount)
    requires
        a.in_range(),
        b.in_range(),
        a.sum_is_exact(b),
    ensures
        a.spec_checked_add(b) == Some(a.exact_sum(b)),
        a.spec_checked_add(b).unwrap()@ == a@ + b@,
        a.spec_checked_add(b).unwrap().in_range(),
{
    lemma_exact_sum(a, b);
}

/// Where the exact difference fits at the larger scale, `rust_decimal`
/// subtracts without rounding: the difference is the exact difference and a
/// valid amount.
pub proof fn lemma_checked_sub_exact(a: Amount, b: Amount)
    requires
        a.in_range(),
        b.in_range(),
        a.difference_is_exact(b),
    ensures
        a.spec_checked_sub(b) == Some(a.exact_difference(b)),
        a.spec_checked_sub(b).unwrap()@ == a@ - b@,
        a.spec_checked_sub(b).unwrap().in_range(),
{
    lemma_exact_difference(a, b);
}

/// `rust_decimal::Decimal::checked_add` on the decimals that two amounts stand for.
/// Claimed: the result is what `decimal_checked_add` names on the operands'
/// parts, and where the exact sum fits at the larger scale it is returned
/// without rounding: a zero operand gives the other operand back, otherwise
/// the result has the larger scale. Where it does not fit, the mantissa is
/// rounded to fewer fractional digits and keeps the sign of the exact sum;
/// which value rounding gives is left to the name.
#[verifier::external_body]
fn decimal_add(a: Amount, b: Amount) -> (r: Option<Amount>)
    ensures
        r is Some <==> decimal_checked_add(a.mantissa as int, a.scale as int, b.mantissa as int, b.scale as int) is Some,
        r matches Some(x) ==> decimal_checked_add(a.mantissa as int, a.scale as int, b.mantissa as int, b.scale as int) == Some((x.mantissa as int, x.scale as int)),
        a.sum_is_exact(b) ==> r == Some(a.exact_sum(b)),
        r matches Some(x) ==> (a@ + b@ >= 0 ==> x@ >= 0) && (a@ + b@ <= 0 ==> x@ <= 0),
{
    let sum = Decimal::from_i128_with_scale(a.mantissa, a.scale).checked_add(
        Decimal::from_i128_with_scale(b.mantissa, b.scale),
    );
    match sum {
        Some(d) => Some(Amount { mantissa: d.mantissa(), scale: d.scale() }),
        None => None,
    }
}

/// `rust_decimal::Decimal::checked_sub` on the decimals that two amounts stand for.
/// Claimed: the result is what `decimal_checked_sub` names on the operands'
/// parts, and where the exact difference fits at the larger scale it is
/// returned without rounding: zero minus an amount is its negation, an amount
/// minus zero is the amount, otherwise the result has the larger scale. Where
/// it does not fit, the mantissa is rounded to fewer fractional digits and
/// keeps the sign of the exact difference; which value rounding gives is
/// left to the name.
#[verifier::external_body]
fn decimal_sub(a: Amount, b: Amount) -> (r: Option<Amount>)
    ensures
        r is Some <==> decimal_checked_sub(a.mantissa as int, a.scale as int, b.mantissa as int, b.scale as int) is Some,
        r matches Some(x) ==> decimal_checked_sub(a.mantissa as int, a.scale as int, b.mantissa as int, b.scale as int) == Some((x.mantissa as int, x.scale as int)),
        a.difference_is_exact(b) ==> r == Some(a.exact_difference(b)),
        r matches Some(x) ==> (a@ - b@ >= 0 ==> x@ >= 0) && (a@ - b@ <= 0 ==> x@ <= 0),
{
    let difference = Decimal::from_i128_with_scale(a.mantissa, a.scale).checked_sub(
        Decimal::from_i128_with_scale(b.mantissa, b.scale),
    );
    match difference {
        Some(d) => Some(Amount { mantissa: d.mantissa(), scale: d.scale() }),
        None => None,
    }
}

/// The `<` of `rust_decimal::Decimal` on the decimals that two amounts stand for.
/// Claimed: it compares the numeric values, whatever the scales.
#[verifier::external_body]
fn decimal_less_than(a: Amount, b: Amount) -> (r: bool)
    ensures
        r == (a@ < b@),
{
    Decimal::from_i128_with_scale(a.mantissa, a.scale) < Decimal::from_i128_with_scale(b.mantissa, b.scale)
}

/// The `Display` text of `rust_decimal::Decimal` for the decimal that an
/// amount stands for. Claimed: the text is what `decimal_display` names on the
/// amount's parts.
#[verifier::external_body]
fn decimal_text(a: Amount) -> (r: String)
    ensures
        r@ == decimal_display(a.mantissa as int, a.scale as int),
{
    Decimal::from_i128_with_scale(a.mantissa, a.scale).to_string()
}

impl Amount {
    /// Zero, at scale 0.
    pub fn zero() -> (r: Amount)
        ensures
            r@ == 0,
            r.spec_mantissa() == 0,
            r.spec_scale() == 0,
    {
        let r = Amount { mantissa: 0, scale: 0 };
        assert(r@ == 0) by {
            assert(0 * pow10(28) == 0) by (nonlinear_arith);
        }
        r
    }

    /// `num / 10^scale`, as `Decimal::new` builds it; the scale must be at most 28.
    pub fn new(num: i64, scale: u32) -> (r: Amount)
        requires
            scale <= MAX_SCALE,
        ensures
            r.spec_mantissa() == num,
            r.spec_scale() == scale,
    {
        Amount { mantissa: num as i128, scale }
    }

    /// `mantissa / 10^scale`, or nothing where the mantissa exceeds 96 bits or
    /// the scale exceeds 28.
    pub fn from_parts(mantissa: i128, scale: u32) -> (r: Option<Amount>)
        ensures
            r is Some <==> (-MAX_MANTISSA <= mantissa <= MAX_MANTISSA && scale <= MAX_SCALE),
            r matches Some(a) ==> a.spec_mantissa() == mantissa && a.spec_scale() == scale,
    {
        if -MAX_MANTISSA <= mantissa && mantissa <= MAX_MANTISSA && scale <= MAX_SCALE {
            Some(Amount { mantissa, scale })
        } else {
            None
        }
    }

    /// The mantissa: the amount is `mantissa / 10^scale`.
    pub fn mantissa(&self) -> (r: i128)
        ensures
            r == self.spec_mantissa(),
            -MAX_MANTISSA <= r <= MAX_MANTISSA,
    {
        proof {
            use_type_invariant(self);
        }
        self.mantissa
    }

    /// The number of fractional digits.
    pub fn scale(&self) -> (r: u32)
        ensures
            r == self.spec_scale(),
            r <= MAX_SCALE,
    {
        proof {
            use_type_invariant(self);
        }
        self.scale
    }

    /// The amount as `rust_decimal` writes it.
    pub closed spec fn spec_text(self) -> Seq<char> {
        decimal_display(self.mantissa as int, self.scale as int)
    }

    /// The amount written as `rust_decimal` writes it, e.g. `1.50` for a
    /// mantissa of 150 at scale 2.
    pub fn to_text(&self) -> (r: String)
        ensures
            r@ == self.spec_text(),
    {
        decimal_text(*self)
    }

    /// Whether `self < other` as numbers, whatever the scales.
    pub fn lt(&self, other: &Amount) -> (r: bool)
        ensures
            r == (self@ < other@),
    {
        decimal_less_than(*self, *other)
    }

    /// The sum, or `None` where `rust_decimal` overflows.
    pub fn checked_add(&self, rhs: &Amount) -> (r: Option<Amount>)
        ensures
            r == self.spec_checked_add(*rhs),
            self.sum_is_exact(*rhs) ==> (r matches Some(x) && x@ == self@ + rhs@),
            r matches Some(x) ==> (self@ + rhs@ >= 0 ==> x@ >= 0) && (self@ + rhs@ <= 0 ==> x@ <= 0),
    {
        proof {
            use_type_invariant(self);
            use_type_invariant(rhs);
        }
        let r = decimal_add(*self, *rhs);
        proof {
            if let Some(x) = r {
                use_type_invariant(&x);
            }
            if self.sum_is_exact(*rhs) {
                lemma_exact_sum(*self, *rhs);
            }
        }
        r
    }

    /// The difference, or `None` where `rust_decimal` overflows.
    pub fn checked_sub(&self, rhs: &Amount) -> (r: Option<Amount>)
        ensures
            r == self.spec_checked_sub(*rhs),
            self.difference_is_exact(*rhs) ==> (r matches Some(x) && x@ == self@ - rhs@),
            r matches Some(x) ==> (self@ - rhs@ >= 0 ==> x@ >= 0) && (self@ - rhs@ <= 0 ==> x@ <= 0),
    {
        proof {
            use_type_invariant(self);
            use_type_invariant(rhs);
        }
        let r = decimal_sub(*self, *rhs);
        proof {
            if let Some(x) = r {
                use_type_invariant(&x);
            }
            if self.difference_is_exact(*rhs) {
                lemma_exact_difference(*self, *rhs);
            }
        }
        r
    }
}

/// Negation keeps the scale and flips the value's sign.
pub proof fn lemma_negated(a: Amount)
    requires
        a.in_range(),
    ensures
        a.spec_negated()@ == -a@,
        a.spec_negated().spec_scale() == a.spec_scale(),
        a.spec_negated().spec_mantissa() == -a.spec_mantissa(),
        a.spec_negated().spec_negated() == a,
{
    lemma_negated_units(a.mantissa as int, pow10((MAX_SCALE - a.scale) as nat));
}

impl core::ops::Neg for Amount {
    type Output = Amount;

    fn neg(self) -> (r: Amount)
        ensures
            r == self.spec_negated(),
            r@ == -self@,
    {
        proof {
            use_type_invariant(&self);
            lemma_negated(self);
        }
        Amount { mantissa: -self.mantissa, scale: self.scale }
    }
}

impl vstd::std_specs::ops::NegSpecImpl for Amount {
    open spec fn obeys_neg_spec() -> bool {
        true
    }

    open spec fn neg_req(self) -> bool {
        true
    }

    open spec fn neg_spec(self) -> Amount {
        self.spec_negated()
    }
}

impl Amount {
    /// The sum; `rust_decimal`'s `+` panics on overflow, so callers show there is none.
    pub fn plus(self, rhs: Amount) -> (r: Amount)
        requires
            self.spec_checked_add(rhs) is Some,
        ensures
            r == self.spec_checked_add(rhs).unwrap(),
            self.sum_is_exact(rhs) ==> r@ == self@ + rhs@,
            self@ + rhs@ >= 0 ==> r@ >= 0,
            self@ + rhs@ <= 0 ==> r@ <= 0,
    {
        let sum = self.checked_add(&rhs);
        match sum {
            Some(x) => x,
            None => {
                proof {
                    assert(false);
                }
                self
            },
        }
    }

    /// The difference; `rust_decimal`'s `-` panics on overflow, so callers show there is none.
    pub fn minus(self, rhs: Amount) -> (r: Amount)
        requires
            self.spec_checked_sub(rhs) is Some,
        ensures
            r == self.spec_checked_sub(rhs).unwrap(),
            self.difference_is_exact(rhs) ==> r@ == self@ - rhs@,
            self@ - rhs@ >= 0 ==> r@ >= 0,
            self@ - rhs@ <= 0 ==> r@ <= 0,
    {
        let difference = self.checked_sub(&rhs);
        match difference {
            Some(x) => x,
            None => {
                proof {
                    assert(false);
                }
                self
            },
        }
    }
}

} // verus!
