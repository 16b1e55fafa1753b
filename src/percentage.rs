use vstd::prelude::*;
use vstd::arithmetic::div_mod::{lemma_fundamental_div_mod, lemma_fundamental_div_mod_converse};
use vstd::math::abs;

verus! {

/// The largest magnitude a [`Percentage`] holds, in basis points: every
/// `u128` of whole units and `9999` ten-thousandths. Every integer of every
/// width has its percentage, and its value as a whole, held exactly.
pub open spec fn max_basis_points() -> int {
    u128::MAX as int * 10000 + 9999
}

/// `x` held within `[lo, hi]`.
pub open spec fn clamp(x: int, lo: int, hi: int) -> int {
    if x < lo {
        lo
    } else if x > hi {
        hi
    } else {
        x
    }
}

/// `x` held within the range of a [`Percentage`], in basis points.
pub open spec fn saturate(x: int) -> int {
    clamp(x, -max_basis_points(), max_basis_points())
}

/// The integer with the given sign and magnitude.
pub open spec fn signed(negative: bool, magnitude: int) -> int {
    if negative {
        -magnitude
    } else {
        magnitude
    }
}

/// `n * bp / 10000`, rounded toward zero: `bp` basis points of `n`.
pub open spec fn scaled(n: int, bp: int) -> int {
    signed((n < 0) != (bp < 0), ((abs(n) * abs(bp)) / 10000) as int)
}

/// A percentage, held exactly as a whole number of basis points
/// (hundredths of a percent): `50%` is `5000`, and stands for the fraction
/// `5000 / 10000`. Its view is that number of basis points. It is stored
/// as a sign, the whole units of the fraction and its ten-thousandths.
#[derive(Clone, Copy, Debug, PartialEq, Eq, Structural)]
pub struct Percentage {
    negative: bool,
    whole: u128,
    frac: u16,
}

impl View for Percentage {
    type V = int;

    closed spec fn view(&self) -> int {
        signed(self.negative, self.whole as int * 10000 + self.frac as int)
    }
}

/// `x * f`, for `f` below `10000`, as whole ten-thousands and the rest.
fn mul_frac(x: u128, f: u16) -> (r: (u128, u16))
    requires
        f < 10000,
    ensures
        r.1 < 10000,
        x * f == r.0 * 10000 + r.1,
{
    let q = x / 10000;
    let rem = x % 10000;
    assert(rem * f < 100000000) by (nonlinear_arith)
        requires
            rem < 10000,
            f < 10000,
    ;
    let rf = rem * (f as u128);
    assert(q * f + rf / 10000 <= u128::MAX) by (nonlinear_arith)
        requires
            q == x / 10000,
            rf == rem * f,
            rem < 10000,
            f < 10000,
            x <= u128::MAX,
    ;
    let a = q * (f as u128) + rf / 10000;
    let b = (rf % 10000) as u16;
    assert(x * f == a * 10000 + b) by (nonlinear_arith)
        requires
            x == 10000 * q + rem,
            rf == rem * f,
            rf == 10000 * (rf / 10000) + rf % 10000,
            a == q * f + rf / 10000,
            b == rf % 10000,
    ;
    (a, b)
}

/// The magnitude of a product is the product of the magnitudes.
proof fn lemma_abs_mul(x: int, y: int)
    ensures
        abs(x * y) == abs(x) * abs(y),
{
    if x >= 0 && y >= 0 {
        assert(x * y >= 0) by (nonlinear_arith)
            requires
                x >= 0,
                y >= 0,
        ;
    } else if x >= 0 {
        assert(x * y <= 0 && abs(x) * abs(y) == -(x * y)) by (nonlinear_arith)
            requires
                x >= 0,
                y < 0,
                abs(y) == -y,
                abs(x) == x,
        ;
    } else if y >= 0 {
        assert(x * y <= 0 && abs(x) * abs(y) == -(x * y)) by (nonlinear_arith)
            requires
                x < 0,
                y >= 0,
                abs(x) == -x,
                abs(y) == y,
        ;
    } else {
        assert(x * y > 0 && abs(x) * abs(y) == x * y) by (nonlinear_arith)
            requires
                x < 0,
                y < 0,
                abs(x) == -x,
                abs(y) == -y,
        ;
    }
}

/// `(w1, f1) + (w2, f2)`, as whole units and ten-thousandths; `None` where
/// the whole units pass `u128::MAX`.
fn mag_add(w1: u128, f1: u16, w2: u128, f2: u16) -> (r: Option<(u128, u16)>)
    requires
        f1 < 10000,
        f2 < 10000,
    ensures
        match r {
            Some(t) => t.1 < 10000 && t.0 * 10000 + t.1 == w1 * 10000 + f1 + w2 * 10000 + f2,
            None => w1 * 10000 + f1 + w2 * 10000 + f2 > max_basis_points(),
        },
{
    let fs = f1 + f2;
    let (carry, f) = if fs >= 10000 {
        (1u128, fs - 10000)
    } else {
        (0u128, fs)
    };
    match w1.checked_add(w2) {
        None => None,
        Some(w) => match w.checked_add(carry) {
            None => None,
            Some(w) => Some((w, f)),
        },
    }
}

/// Whether `(w1, f1)` is at least `(w2, f2)`.
fn mag_ge(w1: u128, f1: u16, w2: u128, f2: u16) -> (r: bool)
    requires
        f1 < 10000,
        f2 < 10000,
    ensures
        r == (w1 * 10000 + f1 >= w2 * 10000 + f2),
{
    w1 > w2 || (w1 == w2 && f1 >= f2)
}

/// `(w1, f1) - (w2, f2)`, for the first at least the second.
fn mag_sub(w1: u128, f1: u16, w2: u128, f2: u16) -> (r: (u128, u16))
    requires
        f1 < 10000,
        f2 < 10000,
        w1 * 10000 + f1 >= w2 * 10000 + f2,
    ensures
        r.1 < 10000,
        r.0 * 10000 + r.1 == w1 * 10000 + f1 - (w2 * 10000 + f2),
{
    if f1 >= f2 {
        (w1 - w2, f1 - f2)
    } else {
        (w1 - w2 - 1, f1 + 10000 - f2)
    }
}

impl Percentage {
    /// The percentage of `bp` basis points, for `bp` within range.
    pub closed spec fn canonical(bp: int) -> Percentage {
        Percentage {
            negative: bp < 0,
            whole: (abs(bp) / 10000) as u128,
            frac: (abs(bp) % 10000) as u16,
        }
    }

    #[verifier::type_invariant]
    spec fn well_formed(self) -> bool {
        &&& self.frac < 10000
        &&& self.negative ==> (self.whole > 0 || self.frac > 0)
    }

    /// The percentage of the given sign, whole units and ten-thousandths.
    fn from_mag(negative: bool, whole: u128, frac: u16) -> (r: Percentage)
        requires
            frac < 10000,
        ensures
            r@ == signed(negative, whole * 10000 + frac),
            r == Percentage::canonical(r@),
    {
        let negative = negative && (whole > 0 || frac > 0);
        let r = Percentage { negative, whole, frac };
        proof {
            lemma_fundamental_div_mod_converse(
                whole * 10000 + frac,
                10000,
                whole as int,
                frac as int,
            );
        }
        r
    }

    /// The largest percentage of the given sign.
    fn saturated(negative: bool) -> (r: Percentage)
        ensures
            r@ == signed(negative, max_basis_points()),
            r == Percentage::canonical(r@),
    {
        Percentage::from_mag(negative, u128::MAX, 9999)
    }

    /// The percentage of `bp` basis points.
    pub fn from_basis_points(bp: i128) -> (r: Percentage)
        ensures
            r@ == bp,
    {
        let negative = bp < 0;
        let m: u128 = if negative {
            (-(bp + 1)) as u128 + 1
        } else {
            bp as u128
        };
        proof {
            lemma_fundamental_div_mod_converse(m as int, 10000, (m / 10000) as int, (m % 10000) as int);
        }
        Percentage::from_mag(negative, m / 10000, (m % 10000) as u16)
    }

    /// The percentage of the given sign, whole units (`1` is `100%`) and
    /// ten-thousandths, saturated.
    pub fn from_parts(negative: bool, whole: u128, ten_thousandths: u16) -> (r: Percentage)
        ensures
            r@ == saturate(signed(negative, whole * 10000 + ten_thousandths)),
            r == Percentage::canonical(r@),
    {
        let carry = (ten_thousandths / 10000) as u128;
        let f = ten_thousandths % 10000;
        match whole.checked_add(carry) {
            Some(w) => Percentage::from_mag(negative, w, f),
            None => Percentage::saturated(negative),
        }
    }

    /// The fraction this percentage stands for: its sign, whole units and
    /// ten-thousandths.
    pub fn parts(&self) -> (r: (bool, u128, u16))
        ensures
            r.0 == (self@ < 0),
            r.2 < 10000,
            signed(r.0, r.1 * 10000 + r.2) == self@,
            *self == Percentage::canonical(self@),
    {
        proof {
            use_type_invariant(self);
            lemma_fundamental_div_mod_converse(
                self.whole * 10000 + self.frac,
                10000,
                self.whole as int,
                self.frac as int,
            );
        }
        (self.negative, self.whole, self.frac)
    }

    /// `n` percent, for the integer `n` of the given sign and magnitude.
    pub(crate) fn from_percent_parts(negative: bool, n: u128) -> (r: Percentage)
        ensures
            r@ == signed(negative, n as int) * 100,
    {
        proof {
            lemma_fundamental_div_mod_converse(n as int, 100, (n / 100) as int, (n % 100) as int);
        }
        Percentage::from_mag(negative, n / 100, ((n % 100) * 100) as u16)
    }

    /// This percentage plus the signed amount of the given sign, whole
    /// units and ten-thousandths, saturated.
    pub(crate) fn plus_parts(self, negative: bool, w: u128, f: u16) -> (r: Percentage)
        requires
            f < 10000,
        ensures
            r@ == saturate(self@ + signed(negative, w * 10000 + f)),
            r == Percentage::canonical(r@),
    {
        proof {
            use_type_invariant(self);
        }
        if self.negative == negative {
            match mag_add(self.whole, self.frac, w, f) {
                Some((sw, sf)) => Percentage::from_mag(negative, sw, sf),
                None => Percentage::saturated(negative),
            }
        } else if mag_ge(self.whole, self.frac, w, f) {
            let (dw, df) = mag_sub(self.whole, self.frac, w, f);
            Percentage::from_mag(self.negative, dw, df)
        } else {
            let (dw, df) = mag_sub(w, f, self.whole, self.frac);
            Percentage::from_mag(negative, dw, df)
        }
    }

    /// This percentage plus the whole number of the given sign and
    /// magnitude (`1` adds `100%`), saturated.
    pub(crate) fn plus_whole_parts(self, negative: bool, n: u128) -> (r: Percentage)
        ensures
            r@ == saturate(self@ + signed(negative, n as int) * 10000),
            r == Percentage::canonical(r@),
    {
        self.plus_parts(negative, n, 0)
    }

    /// This percentage of the integer of the given sign and magnitude,
    /// exactly: the sign, whole part and ten-thousandths of the product
    /// (`3 * 50%` is `1` and `5000` ten-thousandths). `None` where the whole
    /// part passes `u128::MAX`.
    pub fn of(self, negative: bool, n: u128) -> (r: Option<(bool, u128, u16)>)
        ensures
            match r {
                Some(t) => t.0 == (negative != (self@ < 0)) && t.2 < 10000 && signed(t.0, t.1 * 10000 + t.2) == signed(
                    negative,
                    n as int,
                ) * self@,
                None => n * abs(self@) > max_basis_points(),
            },
    {
        proof {
            use_type_invariant(self);
        }
        let (a, b) = mul_frac(n, self.frac);
        let neg = negative != self.negative;
        let ghost m = self.whole as int * 10000 + self.frac as int;
        assert(n * m == (n * self.whole + a) * 10000 + b) by (nonlinear_arith)
            requires
                m == self.whole * 10000 + self.frac,
                n * self.frac == a * 10000 + b,
        ;
        assert(signed(negative, n as int) * signed(self.negative, m) == signed(neg, n * m))
            by (nonlinear_arith)
            requires
                neg == (negative != self.negative),
        ;
        match n.checked_mul(self.whole) {
            None => {
                assert(n * m >= n * self.whole * 10000) by (nonlinear_arith)
                    requires
                        m >= self.whole * 10000,
                ;
                None
            },
            Some(h) => match h.checked_add(a) {
                None => None,
                Some(w) => Some((neg, w, b)),
            },
        }
    }

    /// This percentage of the integer of the given sign and magnitude,
    /// rounded toward zero and held within `[-below, above]`, as a sign
    /// and a magnitude.
    pub(crate) fn scale_parts(self, negative: bool, n: u128, below: u128, above: u128) -> (r: (
        bool,
        u128,
    ))
        ensures
            signed(r.0, r.1 as int) == clamp(
                scaled(signed(negative, n as int), self@),
                -(below as int),
                above as int,
            ),
    {
        let r = self.of(negative, n);
        let neg = negative != self.parts().0;
        let bound = if neg {
            below
        } else {
            above
        };
        let ghost p = signed(negative, n as int) * self@;
        proof {
            lemma_abs_mul(signed(negative, n as int), self@);
        }
        match r {
            Some((_, w, f)) => {
                proof {
                    assert(abs(p) == w * 10000 + f);
                    lemma_fundamental_div_mod_converse(abs(p) as int, 10000, w as int, f as int);
                    if n == 0 {
                        assert(signed(negative, n as int) == 0);
                        assert(0 * self@ == 0);
                        assert(p == 0);
                        assert(w == 0);
                    } else {
                        assert((signed(negative, n as int) < 0) == negative);
                        assert(((signed(negative, n as int) < 0) != (self@ < 0)) == neg);
                    }
                }
                (neg, if w > bound {
                    bound
                } else {
                    w
                })
            },
            None => {
                proof {
                    let x = abs(signed(negative, n as int)) * abs(self@);
                    assert(abs(signed(negative, n as int)) == n);
                    assert(x > max_basis_points());
                    lemma_fundamental_div_mod(x as int, 10000);
                    assert(x / 10000 > u128::MAX);
                    assert(n > 0);
                    assert((signed(negative, n as int) < 0) == negative);
                }
                (neg, bound)
            },
        }
    }
}

impl Default for Percentage {
    /// `0%`.
    fn default() -> (r: Percentage)
        ensures
            r@ == 0,
    {
        Percentage::from_mag(false, 0, 0)
    }
}

impl core::ops::Add for Percentage {
    type Output = Percentage;

    /// The sum of the two fractions, saturated.
    fn add(self, rhs: Percentage) -> (r: Percentage)
        ensures
            r@ == saturate(self@ + rhs@),
    {
        let (negative, w, f) = rhs.parts();
        self.plus_parts(negative, w, f)
    }
}

impl vstd::std_specs::ops::AddSpecImpl for Percentage {
    open spec fn obeys_add_spec() -> bool {
        true
    }

    open spec fn add_req(self, rhs: Percentage) -> bool {
        true
    }

    closed spec fn add_spec(self, rhs: Percentage) -> Percentage {
        Percentage::canonical(saturate(self@ + rhs@))
    }
}

impl core::ops::AddAssign for Percentage {
    /// Adds `rhs` to this percentage, saturated.
    fn add_assign(&mut self, rhs: Percentage)
        ensures
            final(self)@ == saturate(old(self)@ + rhs@),
    {
        *self = *self + rhs;
    }
}

impl core::ops::Mul for Percentage {
    type Output = Percentage;

    /// The product of the two fractions, rounded toward zero to a whole
    /// basis point and saturated: `rhs` percent of `self`.
    fn mul(self, rhs: Percentage) -> (r: Percentage)
        ensures
            r@ == saturate(scaled(self@, rhs@)),
            r == Percentage::canonical(r@),
    {
        let (n1, w1, f1) = self.parts();
        let (n2, w2, f2) = rhs.parts();
        let (a1, b1) = mul_frac(w1, f2);
        let (a2, b2) = mul_frac(w2, f1);
        let (a3, b3) = mul_frac(f1 as u128, f2);
        assert(a3 < 10000) by (nonlinear_arith)
            requires
                f1 * f2 == a3 * 10000 + b3,
                f1 < 10000,
                f2 < 10000,
        ;
        let s = b1 as u128 + b2 as u128 + a3;
        let c = s / 10000;
        let fr = (s % 10000) as u16;
        let negative = n1 != n2;
        let ghost m1 = w1 * 10000 + f1;
        let ghost m2 = w2 * 10000 + f2;
        proof {
            assert(m1 * m2 == 10000 * (10000 * (w1 * w2 + a1 + a2) + s) + b3) by (nonlinear_arith)
                requires
                    m1 == w1 * 10000 + f1,
                    m2 == w2 * 10000 + f2,
                    w1 * f2 == a1 * 10000 + b1,
                    w2 * f1 == a2 * 10000 + b2,
                    f1 * f2 == a3 * 10000 + b3,
                    s == b1 + b2 + a3,
            ;
            lemma_fundamental_div_mod_converse(
                m1 * m2,
                10000,
                10000 * (w1 * w2 + a1 + a2) + s,
                b3 as int,
            );
            lemma_fundamental_div_mod_converse(s as int, 10000, c as int, fr as int);
            lemma_abs_mul(self@, rhs@);
            assert(abs(self@) == m1);
            assert(abs(rhs@) == m2);
        }
        let whole = match w1.checked_mul(w2) {
            None => None,
            Some(h) => match h.checked_add(a1) {
                None => None,
                Some(h) => match h.checked_add(a2) {
                    None => None,
                    Some(h) => h.checked_add(c),
                },
            },
        };
        match whole {
            Some(w) => Percentage::from_mag(negative, w, fr),
            None => Percentage::saturated(negative),
        }
    }
}

impl vstd::std_specs::ops::MulSpecImpl for Percentage {
    open spec fn obeys_mul_spec() -> bool {
        true
    }

    open spec fn mul_req(self, rhs: Percentage) -> bool {
        true
    }

    closed spec fn mul_spec(self, rhs: Percentage) -> Percentage {
        Percentage::canonical(saturate(scaled(self@, rhs@)))
    }
}

impl core::ops::MulAssign for Percentage {
    /// Multiplies this percentage by `rhs`, as `*` does.
    fn mul_assign(&mut self, rhs: Percentage)
        ensures
            final(self)@ == saturate(scaled(old(self)@, rhs@)),
    {
        *self = *self * rhs;
    }
}

} // verus!
