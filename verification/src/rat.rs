//! Exact rational scalars. The demo's geometry (tile corners, matrix
//! entries) consists of halves of integers and small fractions, so every
//! coordinate is kept as an exact `num / den` pair instead of a float;
//! callers outside the library convert to floats at the GPU boundary.

use vstd::prelude::*;

verus! {

/// An exact rational scalar `num / den` with a positive denominator.
#[derive(Clone, Copy, Debug, PartialEq, Eq, Structural)]
pub struct Rat {
    pub num: i64,
    pub den: i64,
}

/// The value of a rational as a mathematical numerator/denominator pair,
/// free of machine-integer bounds. Ghost-only: used by specifications.
pub struct QVal {
    pub num: int,
    pub den: int,
}

/// A mathematical rational is well formed when its denominator is positive.
pub open spec fn q_wf(a: QVal) -> bool {
    a.den >= 1
}

/// Equality of rational values by cross multiplication.
pub open spec fn q_eq(a: QVal, b: QVal) -> bool {
    a.num * b.den == b.num * a.den
}

/// Sum of two rational values.
pub open spec fn q_add(a: QVal, b: QVal) -> QVal {
    QVal { num: a.num * b.den + b.num * a.den, den: a.den * b.den }
}

/// Product of two rational values.
pub open spec fn q_mul(a: QVal, b: QVal) -> QVal {
    QVal { num: a.num * b.num, den: a.den * b.den }
}

/// The rational value of the integer `n`.
pub open spec fn q_int(n: int) -> QVal {
    QVal { num: n, den: 1 }
}

/// The rational value `n / d`.
pub open spec fn q_frac(n: int, d: int) -> QVal {
    QVal { num: n, den: d }
}

/// The canonical representation of `n / 2`: reduced to an integer when `n`
/// is even, kept over denominator 2 when it is odd.
pub open spec fn spec_from_halves(n: int) -> Rat
    recommends
        0 <= n <= i64::MAX,
{
    if n % 2 == 0 {
        Rat { num: (n / 2) as i64, den: 1 }
    } else {
        Rat { num: n as i64, den: 2 }
    }
}

/// The canonical half `spec_from_halves(n)` holds the rational value `n / 2`.
pub proof fn lemma_from_halves_value(n: int)
    requires
        0 <= n <= i64::MAX,
    ensures
        spec_from_halves(n).wf(),
        q_eq(spec_from_halves(n).q(), q_frac(n, 2)),
{
    let r = spec_from_halves(n);
    if n % 2 == 0 {
        vstd::arithmetic::div_mod::lemma_fundamental_div_mod(n, 2);
        assert(n == 2 * (n / 2));
        assert(0 <= n / 2 <= i64::MAX);
        assert(r.q().num == n / 2 && r.q().den == 1);
        assert(r.q().num * 2 == n * 1);
    } else {
        assert(r.q().num == n && r.q().den == 2);
        assert(r.q().num * 2 == n * 2);
    }
}

impl Rat {
    /// Well-formedness: the denominator is positive.
    pub open spec fn wf(self) -> bool {
        self.den >= 1
    }

    /// The mathematical value of this rational.
    pub open spec fn q(self) -> QVal {
        QVal { num: self.num as int, den: self.den as int }
    }

    /// The rational holding the integer `n`.
    pub fn from_int(n: i64) -> (r: Rat)
        ensures
            r == (Rat { num: n, den: 1 }),
            r.wf(),
    {
        Rat { num: n, den: 1 }
    }

    /// The rational `n / 2` in canonical form.
    pub fn from_halves(n: i64) -> (r: Rat)
        requires
            0 <= n,
        ensures
            r == spec_from_halves(n as int),
            r.wf(),
            q_eq(r.q(), q_frac(n as int, 2)),
    {
        proof {
            lemma_from_halves_value(n as int);
            if n as int % 2 == 0 {
                vstd::arithmetic::div_mod::lemma_fundamental_div_mod(n as int, 2);
            }
        }
        if n % 2 == 0 {
            Rat { num: n / 2, den: 1 }
        } else {
            Rat { num: n, den: 2 }
        }
    }
}

} // verus!
