//! Fixed-point units and the saturating arithmetic that the model is built on.
use vstd::prelude::*;
use vstd::arithmetic::div_mod::{lemma_div_is_ordered, lemma_div_multiples_vanish, lemma_div_nonincreasing};

verus! {

/// One unit (one percent of a rate, one degree, one unit of power) in micro-units.
pub const ONE: i64 = 1_000_000;

/// One simulated second, in microseconds.
pub const SECOND: u64 = 1_000_000;

/// The largest value of a rate or a load: 100 percent.
pub const RATE_MAX: i64 = 100 * ONE;

/// The largest temperature the reactor can reach.
pub const TEMPERATURE_MAX: i64 = 10_000 * ONE;

/// The ceiling on the core's target before it heats the core.
pub const HEAT_POTENTIAL: i64 = 320 * ONE;

/// How far an actuator's target may move per second, in units.
pub const TARGET_SPEED: i64 = 5;

/// How far the temperature may move per second, in units.
pub const TEMPERATURE_SPEED: i64 = 1000;

/// `x` held between `lo` and `hi`.
pub open spec fn clamp_spec(x: int, lo: int, hi: int) -> int {
    if x < lo {
        lo
    } else if x > hi {
        hi
    } else {
        x
    }
}

pub open spec fn min_spec(a: int, b: int) -> int {
    if a <= b {
        a
    } else {
        b
    }
}

/// Division that rounds toward zero, as integer division does on machines.
pub open spec fn div_trunc(a: int, d: int) -> int {
    if a >= 0 {
        a / d
    } else {
        -((-a) / d)
    }
}

/// `x` scaled by a time delta of `dt` microseconds.
pub open spec fn scale_by_time(x: int, dt: int) -> int {
    div_trunc(x * dt, SECOND as int)
}

/// `cur` moved toward `goal` by at most `step`, never past it.
pub open spec fn approach_spec(cur: int, goal: int, step: int) -> int {
    if cur >= goal {
        if cur - step > goal {
            cur - step
        } else {
            goal
        }
    } else {
        if cur + step < goal {
            cur + step
        } else {
            goal
        }
    }
}

pub fn clamp(x: i128, lo: i128, hi: i128) -> (r: i128)
    requires
        lo <= hi,
    ensures
        r == clamp_spec(x as int, lo as int, hi as int),
{
    if x < lo {
        lo
    } else if x > hi {
        hi
    } else {
        x
    }
}

pub fn min(a: i128, b: i128) -> (r: i128)
    ensures
        r == min_spec(a as int, b as int),
{
    if a <= b {
        a
    } else {
        b
    }
}

pub fn approach(cur: i128, goal: i128, step: i128) -> (r: i128)
    requires
        0 <= step,
        -0x4000_0000_0000_0000_0000_0000_0000_0000 < cur < 0x4000_0000_0000_0000_0000_0000_0000_0000,
        -0x4000_0000_0000_0000_0000_0000_0000_0000 < goal < 0x4000_0000_0000_0000_0000_0000_0000_0000,
        step < 0x4000_0000_0000_0000_0000_0000_0000_0000,
    ensures
        r == approach_spec(cur as int, goal as int, step as int),
{
    if cur >= goal {
        if cur - step > goal {
            cur - step
        } else {
            goal
        }
    } else {
        if cur + step < goal {
            cur + step
        } else {
            goal
        }
    }
}

/// `a * b / d`, rounded toward zero, without overflow on the way.
pub fn mul_div(a: i128, b: i128, d: i128) -> (r: i128)
    requires
        -0x4000_0000_0000_0000 <= a <= 0x4000_0000_0000_0000,
        -0xffff_ffff_ffff_ffff <= b <= 0xffff_ffff_ffff_ffff,
        0 < d,
    ensures
        r == div_trunc(a * b, d as int),
        -0x4000_0000_0000_0000_0000_0000_0000_0000 < r < 0x4000_0000_0000_0000_0000_0000_0000_0000,
{
    let ua: u128 = if a >= 0 { a as u128 } else { (-a) as u128 };
    let ub: u128 = if b >= 0 { b as u128 } else { (-b) as u128 };
    assert(ua * ub <= 0x4000_0000_0000_0000 * 0xffff_ffff_ffff_ffff) by (nonlinear_arith)
        requires
            ua <= 0x4000_0000_0000_0000,
            ub <= 0xffff_ffff_ffff_ffff,
    ;
    let prod: u128 = ua * ub;
    let q: u128 = prod / (d as u128);
    proof {
        lemma_div_nonincreasing(prod as int, d as int);
    }
    let negative = (a < 0 && b > 0) || (a > 0 && b < 0);
    if negative {
        assert(a * b == -(ua * ub)) by (nonlinear_arith)
            requires
                (a < 0 && b > 0 && ua == -a && ub == b) || (a > 0 && b < 0 && ua == a && ub == -b),
        ;
        -(q as i128)
    } else {
        assert(a * b == ua * ub) by (nonlinear_arith)
            requires
                !((a < 0 && b > 0) || (a > 0 && b < 0)),
                ua == (if a >= 0 { a as int } else { -a }),
                ub == (if b >= 0 { b as int } else { -b }),
        ;
        q as i128
    }
}

/// A fraction `v / d` of `x`, with `v` between `0` and `d`, is no larger than `x`.
pub proof fn lemma_fraction_bound(v: int, x: int, d: int)
    requires
        0 <= v <= d,
        0 < d,
    ensures
        x >= 0 ==> 0 <= div_trunc(v * x, d) <= x,
        x < 0 ==> x <= div_trunc(v * x, d) <= 0,
{
    let ax = if x >= 0 { x } else { -x };
    assert(0 <= v * ax <= d * ax) by (nonlinear_arith)
        requires
            0 <= v <= d,
            0 <= ax,
    ;
    lemma_div_is_ordered(v * ax, d * ax, d);
    lemma_div_multiples_vanish(ax, d);
    lemma_div_is_ordered(0, v * ax, d);
    if x < 0 {
        assert(v * x == -(v * ax)) by (nonlinear_arith)
            requires
                ax == -x,
        ;
    }
}

} // verus!
