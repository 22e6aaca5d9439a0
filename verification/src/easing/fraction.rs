//! When an easing has reached its end. The game computes the eased fraction as
//! `elapsed as f32 / duration as f32` and ends the easing once that is at least 1; this
//! module decides the same with integers, following how a `u128` becomes an `f32`: rounded
//! to the nearest value with 24 significant bits, ties to an even last bit, and infinite
//! from `2^128` on.
use vstd::prelude::*;
use vstd::arithmetic::div_mod::{lemma_div_denominator, lemma_div_is_ordered, lemma_fundamental_div_mod};

verus! {

/// Values below this are held in an `f32` exactly.
pub const F32_EXACT_LIMIT: u128 = 0x100_0000;

/// `2^128`: a rounded value this large or larger is infinite in an `f32`.
pub open spec fn f32_overflow() -> nat {
    0x1_0000_0000_0000_0000_0000_0000_0000_0000nat
}

/// The weight of the last bit that an `f32` keeps of `x`: 1 below `2^24`, twice as much for
/// every further bit.
pub open spec fn f32_unit(x: nat) -> nat
    decreases x,
{
    if x < F32_EXACT_LIMIT {
        1
    } else {
        2 * f32_unit(x / 2)
    }
}

/// `x` rounded to an `f32`: to the nearest multiple of its unit, ties to an even multiple.
/// From `f32_overflow()` on the `f32` is infinite.
pub open spec fn f32_round(x: nat) -> nat {
    let p = f32_unit(x);
    let q = x / p;
    let r = x % p;
    if 2 * r > p || (2 * r == p && q % 2 == 1) {
        (q + 1) * p
    } else {
        q * p
    }
}

/// Whether `elapsed as f32 / duration as f32 >= 1.0`: a zero duration gives infinity for a
/// positive elapsed time and NaN for zero; an infinite duration gives zero or NaN; an
/// infinite elapsed time over a finite duration gives infinity; else the quotient of two
/// finite values is at least 1 exactly when the dividend is at least the divisor.
pub open spec fn f32_ratio_reaches_one(elapsed: nat, duration: nat) -> bool {
    if duration == 0 {
        elapsed > 0
    } else if f32_round(duration) >= f32_overflow() {
        false
    } else if f32_round(elapsed) >= f32_overflow() {
        true
    } else {
        f32_round(elapsed) >= f32_round(duration)
    }
}

/// `x` as an `f32`, as a whole number: `None` when that is infinite.
pub fn f32_value(x: u128) -> (r: Option<u128>)
    ensures
        r == (if f32_round(x as nat) < f32_overflow() {
            Some(f32_round(x as nat) as u128)
        } else {
            None::<u128>
        }),
{
    let mut p: u128 = 1;
    while x / p >= F32_EXACT_LIMIT
        invariant
            p >= 1,
            p <= 0x1_0000_0000_0000_0000_0000_0000_0000,
            f32_unit(x as nat) == p * f32_unit((x / p) as nat),
        decreases x / p,
    {
        let ghost q: int = (x / p) as int;
        proof {
            lemma_fundamental_div_mod(x as int, p as int);
            assert(p * F32_EXACT_LIMIT <= x) by (nonlinear_arith)
                requires
                    q >= F32_EXACT_LIMIT,
                    x == p * q + (x % p),
                    x % p >= 0,
                    p >= 1,
            ;
            lemma_div_denominator(x as int, p as int, 2);
            assert(f32_unit(q as nat) == 2 * f32_unit((q / 2) as nat));
            assert(p * (2 * f32_unit((q / 2) as nat)) == (p * 2) * f32_unit((q / 2) as nat)) by (nonlinear_arith);
        }
        p = p * 2;
        assert((x / p) as int == q / 2);
    }
    proof {
        let u = f32_unit((x / p) as nat);
        assert(u == 1);
        assert(p * u == p) by (nonlinear_arith)
            requires
                u == 1,
        ;
        assert(f32_unit(x as nat) == p);
    }
    let q = x / p;
    let r = x % p;
    let up = r * 2 > p || (r * 2 == p && q % 2 == 1);
    let q2 = if up { q + 1 } else { q };
    proof {
        let pn = f32_unit(x as nat);
        assert(pn == p);
        assert((x as nat) / pn == q);
        assert((x as nat) % pn == r);
        assert(up == (2 * r > pn || (2 * r == pn && q % 2 == 1)));
        assert(q2 * p == f32_round(x as nat));
    }
    q2.checked_mul(p)
}

/// Whether `elapsed as f32 / duration as f32 >= 1.0` (see `f32_ratio_reaches_one`).
pub fn reached_end(elapsed: u128, duration: u128) -> (r: bool)
    ensures
        r == f32_ratio_reaches_one(elapsed as nat, duration as nat),
{
    if duration == 0 {
        return elapsed > 0;
    }
    match f32_value(duration) {
        None => false,
        Some(fd) => match f32_value(elapsed) {
            None => true,
            Some(fe) => fe >= fd,
        },
    }
}

/// Below `2^24` the rounding keeps every value, so the easing ends exactly when the elapsed
/// time reaches a positive duration.
pub proof fn lemma_small_values_are_exact(elapsed: nat, duration: nat)
    requires
        elapsed < F32_EXACT_LIMIT,
        duration < F32_EXACT_LIMIT,
    ensures
        f32_round(elapsed) == elapsed,
        f32_round(duration) == duration,
        f32_ratio_reaches_one(elapsed, duration) == (if duration == 0 { elapsed > 0 } else { elapsed >= duration }),
{
    assert(f32_unit(elapsed) == 1);
    assert(f32_unit(duration) == 1);
    assert(elapsed / 1 == elapsed && elapsed % 1 == 0) by (nonlinear_arith);
    assert(duration / 1 == duration && duration % 1 == 0) by (nonlinear_arith);
}

proof fn lemma_unit_bounds(x: nat)
    ensures
        f32_unit(x) >= 1,
        x / f32_unit(x) < F32_EXACT_LIMIT,
        x >= F32_EXACT_LIMIT ==> x / f32_unit(x) >= F32_EXACT_LIMIT / 2,
        x >= F32_EXACT_LIMIT ==> f32_unit(x) >= 2,
        x < F32_EXACT_LIMIT ==> f32_unit(x) == 1,
    decreases x,
{
    if x < F32_EXACT_LIMIT {
        assert(x / 1 == x) by (nonlinear_arith);
    } else {
        let h = x / 2;
        lemma_unit_bounds(h);
        let uh = f32_unit(h);
        lemma_div_denominator(x as int, 2, uh as int);
        assert(x / f32_unit(x) == h / uh);
        if h < F32_EXACT_LIMIT {
            assert(h / 1 == h) by (nonlinear_arith);
        }
    }
}

proof fn lemma_unit_monotone(a: nat, b: nat)
    requires
        a <= b,
    ensures
        f32_unit(a) <= f32_unit(b),
        f32_unit(a) < f32_unit(b) ==> 2 * f32_unit(a) <= f32_unit(b),
    decreases b,
{
    if b < F32_EXACT_LIMIT {
    } else if a < F32_EXACT_LIMIT {
        lemma_unit_bounds(b / 2);
    } else {
        lemma_unit_monotone(a / 2, b / 2);
    }
}

/// Rounding to an `f32` keeps the order of numbers.
pub proof fn lemma_f32_round_monotone(a: nat, b: nat)
    requires
        a <= b,
    ensures
        f32_round(a) <= f32_round(b),
{
    lemma_unit_bounds(a);
    lemma_unit_bounds(b);
    lemma_unit_monotone(a, b);
    let pa = f32_unit(a);
    let pb = f32_unit(b);
    let qa = a / pa;
    let qb = b / pb;
    let ra = a % pa;
    let rb = b % pb;
    lemma_fundamental_div_mod(a as int, pa as int);
    lemma_fundamental_div_mod(b as int, pb as int);
    let lo_a = qa * pa;
    let hi_a = (qa + 1) * pa;
    let lo_b = qb * pb;
    assert(lo_a <= f32_round(a) <= hi_a) by (nonlinear_arith)
        requires
            pa >= 1,
            f32_round(a) == lo_a || f32_round(a) == hi_a,
            lo_a == qa * pa,
            hi_a == (qa + 1) * pa,
    ;
    assert(lo_b <= f32_round(b)) by (nonlinear_arith)
        requires
            pb >= 1,
            f32_round(b) == lo_b || f32_round(b) == (qb + 1) * pb,
            lo_b == qb * pb,
    ;
    if pa < pb {
        assert(b >= F32_EXACT_LIMIT);
        assert(hi_a <= lo_b) by (nonlinear_arith)
            requires
                qa < F32_EXACT_LIMIT,
                qb >= F32_EXACT_LIMIT / 2,
                2 * pa <= pb,
                pa >= 1,
                hi_a == (qa + 1) * pa,
                lo_b == qb * pb,
        ;
    } else {
        assert(pa == pb);
        lemma_div_is_ordered(a as int, b as int, pa as int);
        assert(qa <= qb);
        if qa < qb {
            assert(hi_a <= lo_b) by (nonlinear_arith)
                requires
                    qa < qb,
                    pa == pb,
                    pa >= 1,
                    hi_a == (qa + 1) * pa,
                    lo_b == qb * pb,
            ;
        } else {
            assert(ra <= rb);
        }
    }
}

/// An easing that reached its end stays at its end as more time elapses.
pub proof fn lemma_end_is_lasting(e1: nat, e2: nat, duration: nat)
    requires
        e1 <= e2,
        f32_ratio_reaches_one(e1, duration),
    ensures
        f32_ratio_reaches_one(e2, duration),
{
    lemma_f32_round_monotone(e1, e2);
}

} // verus!
