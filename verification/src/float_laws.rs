//! What the order on bit patterns says of the numbers that they stand for.

use vstd::prelude::*;
use vstd::arithmetic::power2::pow2;
use vstd::arithmetic::power2::{lemma_pow2_adds, lemma_pow2_pos, lemma_pow2_strictly_increases};
use vstd::arithmetic::power2::{lemma2_to64, lemma_pow2_unfold};
use crate::chest_minecart::breaks;
use crate::float_bits::{Double, Single};

verus! {

/// The number that magnitude bits stand for, in units of the smallest number
/// above zero. `unit` is the weight of the hidden bit: one more than the largest
/// fraction.
pub open spec fn exact(magnitude: int, unit: int) -> int {
    let exponent = magnitude / unit;
    let fraction = magnitude % unit;
    if exponent == 0 {
        fraction
    } else {
        (unit + fraction) * pow2((exponent - 1) as nat)
    }
}

/// The number that finite single-precision bits stand for, in units of two to
/// the power of -149.
pub open spec fn single_value(number: Single) -> int {
    if number.bits < 0x8000_0000 {
        exact(number.bits as int, 0x80_0000)
    } else {
        -exact(number.bits - 0x8000_0000, 0x80_0000)
    }
}

/// The number that finite double-precision bits stand for, in units of two to
/// the power of -1074.
pub open spec fn double_value(number: Double) -> int {
    if number.bits < 0x8000_0000_0000_0000 {
        exact(number.bits as int, 0x10_0000_0000_0000)
    } else {
        -exact(number.bits - 0x8000_0000_0000_0000, 0x10_0000_0000_0000)
    }
}

/// Neither infinite nor a NaN.
pub open spec fn single_is_finite(number: Single) -> bool {
    ||| number.bits < 0x7f80_0000
    ||| 0x8000_0000 <= number.bits < 0xff80_0000
}

/// Neither infinite nor a NaN.
pub open spec fn double_is_finite(number: Double) -> bool {
    ||| number.bits < 0x7ff0_0000_0000_0000
    ||| 0x8000_0000_0000_0000 <= number.bits < 0xfff0_0000_0000_0000
}

proof fn lemma_exact_grows(smaller: int, larger: int, unit: int)
    requires
        0 <= smaller < larger,
        0 < unit,
    ensures
        0 <= exact(smaller, unit) < exact(larger, unit),
{
    let e1 = smaller / unit;
    let f1 = smaller % unit;
    let e2 = larger / unit;
    let f2 = larger % unit;
    vstd::arithmetic::div_mod::lemma_fundamental_div_mod(smaller, unit);
    vstd::arithmetic::div_mod::lemma_fundamental_div_mod(larger, unit);
    assert(0 <= f1 < unit && 0 <= f2 < unit);
    assert(0 <= e1 <= e2 && (e1 == e2 ==> f1 < f2)) by (nonlinear_arith)
        requires
            0 <= smaller < larger,
            0 < unit,
            smaller == unit * e1 + f1,
            larger == unit * e2 + f2,
            0 <= f1 < unit,
            0 <= f2 < unit,
    ;
    if e1 > 0 {
        lemma_pow2_pos((e1 - 1) as nat);
        let p = pow2((e1 - 1) as nat) as int;
        assert(0 <= (unit + f1) * p) by (nonlinear_arith)
            requires
                0 < unit,
                0 <= f1,
                p > 0,
        ;
    }
    if e1 == e2 {
        if e1 > 0 {
            let p = pow2((e1 - 1) as nat) as int;
            assert((unit + f1) * p < (unit + f2) * p) by (nonlinear_arith)
                requires
                    f1 < f2,
                    p > 0,
            ;
        }
    } else {
        let q = pow2((e2 - 1) as nat) as int;
        let r = pow2(e1 as nat) as int;
        lemma_pow2_pos(e1 as nat);
        if e1 < e2 - 1 {
            lemma_pow2_strictly_increases(e1 as nat, (e2 - 1) as nat);
        }
        assert(r <= q);
        assert(exact(smaller, unit) < unit * r) by {
            if e1 > 0 {
                let p = pow2((e1 - 1) as nat) as int;
                lemma_pow2_unfold(e1 as nat);
                assert((unit + f1) * p < unit * (2 * p)) by (nonlinear_arith)
                    requires
                        f1 < unit,
                        p > 0,
                ;
            } else {
                lemma2_to64();
            }
        }
        assert(unit * r <= (unit + f2) * q) by (nonlinear_arith)
            requires
                0 < r <= q,
                0 <= f2,
                0 < unit,
        ;
    }
}

/// Finite single-precision numbers are greater exactly if their values are.
/// Infinities lie beyond them, and a NaN is greater than nothing and nothing
/// than it.
pub proof fn law_singles_are_ordered_by_value(a: Single, b: Single)
    ensures
        single_is_finite(a) && single_is_finite(b) ==> (a.greater(b) <==> single_value(a)
            > single_value(b)),
        a.bits == 0x7f80_0000 ==> (a.greater(b) <==> single_is_finite(b) || b.bits == 0xff80_0000),
        a.bits == 0xff80_0000 ==> !a.greater(b),
        b.bits == 0x7f80_0000 ==> !a.greater(b),
        b.bits == 0xff80_0000 ==> (a.greater(b) <==> single_is_finite(a) || a.bits == 0x7f80_0000),
        a.greater(b) ==> a.bits <= 0x7f80_0000 || 0x8000_0000 <= a.bits <= 0xff80_0000,
        a.greater(b) ==> b.bits <= 0x7f80_0000 || 0x8000_0000 <= b.bits <= 0xff80_0000,
{
    let m = if a.bits < 0x8000_0000 {
        a.bits as int
    } else {
        a.bits - 0x8000_0000
    };
    let n = if b.bits < 0x8000_0000 {
        b.bits as int
    } else {
        b.bits - 0x8000_0000
    };
    lemma_exact_is_natural(m, 0x80_0000);
    lemma_exact_is_natural(n, 0x80_0000);
    if m < n {
        lemma_exact_grows(m, n, 0x80_0000);
    } else if n < m {
        lemma_exact_grows(n, m, 0x80_0000);
    }
}

/// Finite double-precision numbers are less exactly if their values are.
/// Infinities lie beyond them, and a NaN is less than nothing and nothing than
/// it.
pub proof fn law_doubles_are_ordered_by_value(a: Double, b: Double)
    ensures
        double_is_finite(a) && double_is_finite(b) ==> (a.less(b) <==> double_value(a)
            < double_value(b)),
        a.bits == 0x7ff0_0000_0000_0000 ==> !a.less(b),
        a.bits == 0xfff0_0000_0000_0000 ==> (a.less(b) <==> double_is_finite(b) || b.bits
            == 0x7ff0_0000_0000_0000),
        b.bits == 0x7ff0_0000_0000_0000 ==> (a.less(b) <==> double_is_finite(a) || a.bits
            == 0xfff0_0000_0000_0000),
        b.bits == 0xfff0_0000_0000_0000 ==> !a.less(b),
        a.less(b) ==> a.bits <= 0x7ff0_0000_0000_0000 || 0x8000_0000_0000_0000 <= a.bits
            <= 0xfff0_0000_0000_0000,
        a.less(b) ==> b.bits <= 0x7ff0_0000_0000_0000 || 0x8000_0000_0000_0000 <= b.bits
            <= 0xfff0_0000_0000_0000,
{
    let m = if a.bits < 0x8000_0000_0000_0000 {
        a.bits as int
    } else {
        a.bits - 0x8000_0000_0000_0000
    };
    let n = if b.bits < 0x8000_0000_0000_0000 {
        b.bits as int
    } else {
        b.bits - 0x8000_0000_0000_0000
    };
    lemma_exact_is_natural(m, 0x10_0000_0000_0000);
    lemma_exact_is_natural(n, 0x10_0000_0000_0000);
    if m < n {
        lemma_exact_grows(m, n, 0x10_0000_0000_0000);
    } else if n < m {
        lemma_exact_grows(n, m, 0x10_0000_0000_0000);
    }
}

proof fn lemma_exact_is_natural(magnitude: int, unit: int)
    requires
        0 <= magnitude,
        0 < unit,
    ensures
        exact(0, unit) == 0,
        exact(magnitude, unit) >= 0,
        magnitude > 0 ==> exact(magnitude, unit) > 0,
{
    assert(0int / unit == 0 && 0int % unit == 0) by (nonlinear_arith)
        requires
            0 < unit,
    ;
    if magnitude > 0 {
        lemma_exact_grows(0, magnitude, unit);
    }
}

/// The magnitude of a number is the number without its sign: the same bits but
/// for the first.
pub proof fn law_magnitude_drops_the_sign(single: Single, double: Double)
    ensures
        single.bits == single.magnitude() || single.bits == single.magnitude() + 0x8000_0000,
        0 <= single.magnitude() < 0x8000_0000,
        double.bits == double.magnitude() || double.bits == double.magnitude()
            + 0x8000_0000_0000_0000,
        0 <= double.magnitude() < 0x8000_0000_0000_0000,
        double_value(Double { bits: double.magnitude() as u64 }) == if double_value(double) < 0 {
            -double_value(double)
        } else {
            double_value(double)
        },
{
    lemma_exact_is_natural(double.magnitude(), 0x10_0000_0000_0000);
}

/// A cart breaks exactly under damage above 40, infinite damage included.
pub proof fn law_carts_break_above_forty(damage: Single)
    ensures
        single_is_finite(damage) ==> (breaks(damage) <==> single_value(damage) > 40 * pow2(149)),
        breaks(damage) <==> 0x4220_0000 < damage.bits <= 0x7f80_0000,
{
    let limit = Single { bits: 0x4220_0000 };
    law_singles_are_ordered_by_value(damage, limit);
    assert(single_value(limit) == 40 * pow2(149)) by {
        assert(0x4220_0000int / 0x80_0000 == 132 && 0x4220_0000int % 0x80_0000 == 0x20_0000);
        lemma_pow2_adds(131, 18);
        lemma2_to64();
        assert(single_value(limit) == 0xa0_0000 * pow2(131));
        assert(0xa0_0000 * pow2(131) == 40 * (pow2(131) * 0x4_0000)) by (nonlinear_arith);
    }
}

} // verus!
