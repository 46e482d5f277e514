//! How long a charge takes.
//!
//! The estimate is a chain of single-precision operations on small whole
//! numbers, rounded after every step. The chain is followed here in integer
//! arithmetic, so that each rounding is part of the contract: the number of
//! minutes is the one that 32-bit IEEE 754 arithmetic gives.
use vstd::prelude::*;

verus! {

/// Usable battery capacity, in kWh.
pub const BATTERY_KWH: u8 = 62;

/// DC voltage that the charge rate is worked out with.
pub const NOMINAL_VOLTS: u16 = 400;

/// The smallest mantissa of a normal single-precision number.
const LEAST_MANTISSA: u128 = 0x80_0000;

/// The number `mantissa / unit`, with a power of two as unit.
pub struct Single {
    pub mantissa: nat,
    pub unit: nat,
}

/// The single-precision number nearest to `p / (q * unit)`, ties to the even
/// mantissa: `p` is doubled, and the unit with it, until `p / q` has 24 binary
/// digits before the point; what stands behind the point is rounded off.
/// Meant for ratios below 2 to the power of 24.
pub open spec fn nearest(p: nat, q: nat, unit: nat) -> Single
    decreases 0x100_0000 * q - p,
{
    if p == 0 {
        Single { mantissa: 0, unit }
    } else if p < 0x80_0000 * q {
        nearest(2 * p, q, 2 * unit)
    } else {
        let floor = p / q;
        let rest = p % q;
        if 2 * rest > q || (2 * rest == q && floor % 2 == 1) {
            Single { mantissa: floor + 1, unit }
        } else {
            Single { mantissa: floor, unit }
        }
    }
}

impl Single {
    /// The rounded product with a whole number.
    pub open spec fn times(self, n: nat) -> Single {
        nearest(self.mantissa * n, self.unit, 1)
    }

    /// The rounded quotient of two numbers.
    pub open spec fn over(self, d: Single) -> Single {
        nearest(self.mantissa * d.unit, d.mantissa * self.unit, 1)
    }

    /// The least whole number that is not below the number.
    pub open spec fn ceil(self) -> int {
        (self.mantissa + self.unit - 1) / self.unit as int
    }
}

/// The kWh that bring the battery up by `percent`.
pub open spec fn energy_needed(percent: nat) -> Single {
    nearest(percent, 100, 1).times(BATTERY_KWH as nat)
}

/// The kW drawn at `amps`.
pub open spec fn charge_rate(amps: nat) -> Single {
    nearest(amps * NOMINAL_VOLTS as nat, 1000, 1)
}

/// Minutes of charging at `amps` that bring the battery from `soc` to
/// `target`, rounded up. Without current, or at or above the target, none.
pub open spec fn minutes_to_charge(target: u8, soc: u8, amps: u8) -> int {
    if target <= soc || amps == 0 {
        0
    } else {
        energy_needed((target - soc) as nat).over(charge_rate(amps as nat)).times(60).ceil()
    }
}

/// What rounding does to the mantissa and to the unit.
proof fn lemma_nearest(p: nat, q: nat, unit: nat)
    requires
        0 < p,
        0 < q,
        0 < unit,
        p < 0x100_0000 * q,
    ensures
        0x80_0000 <= nearest(p, q, unit).mantissa <= 0x100_0000,
        0x80_0000 * q * unit <= p * nearest(p, q, unit).unit,
        p * nearest(p, q, unit).unit < 0x100_0000 * q * unit,
        0 < nearest(p, q, unit).unit,
    decreases 0x100_0000 * q - p,
{
    let u = nearest(p, q, unit).unit;
    if p < 0x80_0000 * q {
        lemma_nearest(2 * p, q, 2 * unit);
        assert(0x80_0000 * q * unit <= p * u && p * u < 0x100_0000 * q * unit) by (nonlinear_arith)
            requires
                0x80_0000 * q * (2 * unit) <= (2 * p) * u,
                (2 * p) * u < 0x100_0000 * q * (2 * unit),
        ;
    } else {
        assert(0x80_0000 <= p / q && p / q < 0x100_0000) by (nonlinear_arith)
            requires
                0x80_0000 * q <= p,
                p < 0x100_0000 * q,
                0 < q,
        ;
        assert(0x80_0000 * q * unit <= p * unit && p * unit < 0x100_0000 * q * unit)
            by (nonlinear_arith)
            requires
                0x80_0000 * q <= p,
                p < 0x100_0000 * q,
                0 < unit,
        ;
    }
}

/// Rounds `p / q`. Returns the mantissa and the unit.
fn round_single(p: u128, q: u128) -> (r: (u128, u128))
    requires
        0 < p < 0x100_0000 * q,
        0 < q < 0x100_0000_0000_0000_0000_0000,
    ensures
        r.0 == nearest(p as nat, q as nat, 1).mantissa,
        r.1 == nearest(p as nat, q as nat, 1).unit,
        0x80_0000 <= r.0 <= 0x100_0000,
        0x80_0000 * q <= p * r.1 < 0x100_0000 * q,
        0 < r.1,
{
    let mut n: u128 = p;
    let mut unit: u128 = 1;
    while n < LEAST_MANTISSA * q
        invariant
            0 < p,
            0 < n < 0x100_0000 * q,
            0 < q < 0x100_0000_0000_0000_0000_0000,
            0 < unit,
            n == p * unit,
            nearest(p as nat, q as nat, 1) == nearest(n as nat, q as nat, unit as nat),
        decreases 0x100_0000 * q - n,
    {
        assert(unit <= n) by (nonlinear_arith)
            requires
                n == p * unit,
                0 < p,
        ;
        assert(2 * n == p * (2 * unit)) by (nonlinear_arith)
            requires
                n == p * unit,
        ;
        n = 2 * n;
        unit = 2 * unit;
    }
    proof {
        lemma_nearest(p as nat, q as nat, 1);
    }
    let floor: u128 = n / q;
    let rest: u128 = n % q;
    assert(floor < 0x100_0000) by (nonlinear_arith)
        requires
            floor == n / q,
            n < 0x100_0000 * q,
            0 < q,
    ;
    if 2 * rest > q || (2 * rest == q && floor % 2 == 1) {
        (floor + 1, unit)
    } else {
        (floor, unit)
    }
}

/// Works out the minutes of charging that bring the battery from `soc` to
/// `target` at `amps`.
pub fn charge_minutes(target: u8, soc: u8, amps: u8) -> (minutes: u32)
    ensures
        minutes == minutes_to_charge(target, soc, amps),
        minutes <= 0x20_0000,
{
    if target <= soc || amps == 0 {
        return 0;
    }
    let percent: u128 = (target - soc) as u128;
    let (m1, u1): (u128, u128) = round_single(percent, 100);
    assert(u1 <= 0x100_0000 * 100 && 0x80_0000 * 100 <= 255 * u1) by (nonlinear_arith)
        requires
            1 <= percent <= 255,
            0x80_0000 * 100 <= percent * u1 < 0x100_0000 * 100,
    ;
    let (m2, u2): (u128, u128) = round_single(m1 * 62, u1);
    assert(u2 <= 0x100_0000 * 100 && 0x4000 <= u2) by (nonlinear_arith)
        requires
            0x80_0000 <= m1 <= 0x100_0000,
            0x80_0000 * u1 <= (m1 * 62) * u2 < 0x100_0000 * u1,
            u1 <= 0x100_0000 * 100,
            0x80_0000 * 100 <= 255 * u1,
    ;
    let (m3, u3): (u128, u128) = round_single(amps as u128 * 400, 1000);
    assert(u3 <= 0x100_0000 * 4 && 0x1_0000 <= u3) by (nonlinear_arith)
        requires
            1 <= amps <= 255,
            0x80_0000 * 1000 <= (amps as u128 * 400) * u3 < 0x100_0000 * 1000,
    ;
    let p4: u128 = mul_bounded(m2, u3);
    let q4: u128 = mul_bounded(m3, u2);
    assert(p4 <= 0x100_0000 * 0x400_0000 && 0x80_0000 * 0x1_0000 <= p4 && q4 <= 0x100_0000 * (
    0x100_0000 * 100) && 0x80_0000 * 0x4000 <= q4) by (nonlinear_arith)
        requires
            p4 == m2 * u3,
            q4 == m3 * u2,
            0x80_0000 <= m2 <= 0x100_0000,
            0x80_0000 <= m3 <= 0x100_0000,
            u3 <= 0x100_0000 * 4,
            0x1_0000 <= u3,
            u2 <= 0x100_0000 * 100,
            0x4000 <= u2,
    ;
    let (m4, u4): (u128, u128) = round_single(p4, q4);
    assert(u4 <= 0x100_0000_0000_0000 && 0x400 <= u4) by (nonlinear_arith)
        requires
            p4 <= 0x100_0000 * 0x400_0000,
            0x80_0000 * 0x1_0000 <= p4,
            q4 <= 0x100_0000 * (0x100_0000 * 100),
            0x80_0000 * 0x4000 <= q4,
            0x80_0000 * q4 <= p4 * u4 < 0x100_0000 * q4,
    ;
    let (m5, u5): (u128, u128) = round_single(m4 * 60, u4);
    assert(u5 <= 0x100_0000_0000_0000 && 8 <= u5) by (nonlinear_arith)
        requires
            0x80_0000 <= m4 <= 0x100_0000,
            0x80_0000 * u4 <= (m4 * 60) * u5 < 0x100_0000 * u4,
            u4 <= 0x100_0000_0000_0000,
            0x400 <= u4,
    ;
    let minutes: u128 = (m5 + u5 - 1) / u5;
    assert(minutes <= 0x20_0000) by (nonlinear_arith)
        requires
            minutes == (m5 + u5 - 1) as int / u5 as int,
            m5 <= 0x100_0000,
            8 <= u5,
    ;
    minutes as u32
}

/// The product of a number up to 2 to the power of 24 and one up to 2 to the
/// power of 48.
fn mul_bounded(a: u128, b: u128) -> (r: u128)
    requires
        a <= 0x100_0000,
        b <= 0x1_0000_0000_0000,
    ensures
        r == a * b,
{
    assert(a * b <= 0x100_0000 * 0x1_0000_0000_0000) by (nonlinear_arith)
        requires
            a <= 0x100_0000,
            b <= 0x1_0000_0000_0000,
    ;
    a * b
}

proof fn lemma_rounding_keeps_above_zero(p: nat, q: nat, unit: nat)
    requires
        0 < p,
        0 < q,
        0 < unit,
    ensures
        0 < nearest(p, q, unit).mantissa,
        0 < nearest(p, q, unit).unit,
    decreases 0x100_0000 * q - p,
{
    if p < 0x80_0000 * q {
        lemma_rounding_keeps_above_zero(2 * p, q, 2 * unit);
    } else {
        assert(0x80_0000 <= p / q) by (nonlinear_arith)
            requires
                0x80_0000 * q <= p,
                0 < q,
        ;
    }
}

/// A charge takes time exactly where there is something to charge and a
/// current to charge with.
pub proof fn law_charge_takes_time(target: u8, soc: u8, amps: u8)
    ensures
        minutes_to_charge(target, soc, amps) >= 0,
        minutes_to_charge(target, soc, amps) > 0 <==> target > soc && amps > 0,
{
    if target > soc && amps > 0 {
        let percent = (target - soc) as nat;
        let share = nearest(percent, 100, 1);
        let energy = energy_needed(percent);
        let rate = charge_rate(amps as nat);
        let hours = energy.over(rate);
        let minutes = hours.times(60);
        lemma_rounding_keeps_above_zero(percent, 100, 1);
        lemma_rounding_keeps_above_zero(share.mantissa * 62, share.unit, 1);
        lemma_rounding_keeps_above_zero(amps as nat * 400, 1000, 1);
        assert(0 < energy.mantissa * rate.unit && 0 < rate.mantissa * energy.unit)
            by (nonlinear_arith)
            requires
                0 < energy.mantissa,
                0 < rate.unit,
                0 < rate.mantissa,
                0 < energy.unit,
        ;
        lemma_rounding_keeps_above_zero(
            energy.mantissa * rate.unit,
            rate.mantissa * energy.unit,
            1,
        );
        lemma_rounding_keeps_above_zero(hours.mantissa * 60, hours.unit, 1);
        assert((minutes.mantissa + minutes.unit - 1) / minutes.unit as int >= 1) by (nonlinear_arith)
            requires
                minutes.mantissa >= 1,
                minutes.unit >= 1,
        ;
    }
}

/// Powers of one less than the number of mantissas.
spec fn below_power(k: nat) -> int
    decreases k,
{
    if k == 0 {
        1
    } else {
        0xff_ffff * below_power((k - 1) as nat)
    }
}

/// Powers of the number of mantissas.
spec fn power(k: nat) -> int
    decreases k,
{
    if k == 0 {
        1
    } else {
        0x100_0000 * power((k - 1) as nat)
    }
}

/// The two numbers differ by no more than `k` roundings.
spec fn near(x: int, y: int, k: nat) -> bool {
    below_power(k) * x <= power(k) * y && below_power(k) * y <= power(k) * x
}

proof fn lemma_near_one(x: int, y: int)
    ensures
        near(x, y, 1) <==> 0xff_ffff * x <= 0x100_0000 * y && 0xff_ffff * y <= 0x100_0000 * x,
{
    reveal_with_fuel(below_power, 2);
    reveal_with_fuel(power, 2);
}

/// A rounding moves a number by no more than a part in 2 to the power of 24.
proof fn lemma_rounding(p: nat, q: nat, unit: nat)
    requires
        0 < p,
        0 < q,
        0 < unit,
    ensures
        0xff_ffff * (nearest(p, q, unit).mantissa * (q * unit)) <= 0x100_0000 * (p * nearest(
            p,
            q,
            unit,
        ).unit),
        0xff_ffff * (p * nearest(p, q, unit).unit) <= 0x100_0000 * (nearest(p, q, unit).mantissa * (
        q * unit)),
    decreases 0x100_0000 * q - p,
{
    let s = nearest(p, q, unit);
    let m = s.mantissa;
    let u = s.unit;
    if p < 0x80_0000 * q {
        lemma_rounding(2 * p, q, 2 * unit);
        assert(m * (q * (2 * unit)) == 2 * (m * (q * unit))) by (nonlinear_arith);
        assert((2 * p) * u == 2 * (p * u)) by (nonlinear_arith);
    } else {
        let floor = p / q;
        let rest = p % q;
        assert(p == floor * q + rest && 0 <= rest < q && 0x80_0000 <= floor) by (nonlinear_arith)
            requires
                floor == p / q,
                rest == p % q,
                0x80_0000 * q <= p,
                0 < q,
        ;
        assert((floor + 1) * q == floor * q + q) by (nonlinear_arith);
        assert(0x80_0000 * q <= floor * q) by (nonlinear_arith)
            requires
                0x80_0000 <= floor,
                0 < q,
        ;
        let w = m * q;
        assert(0xff_ffff * w <= 0x100_0000 * p);
        assert(0xff_ffff * p <= 0x100_0000 * w);
        assert(m * (q * unit) == w * unit) by (nonlinear_arith)
            requires
                w == m * q,
        ;
        assert(0xff_ffff * (w * unit) <= 0x100_0000 * (p * unit) && 0xff_ffff * (p * unit)
            <= 0x100_0000 * (w * unit)) by (nonlinear_arith)
            requires
                0xff_ffff * w <= 0x100_0000 * p,
                0xff_ffff * p <= 0x100_0000 * w,
                0 < unit,
        ;
    }
}

proof fn lemma_near_rounded(p: nat, q: nat)
    requires
        0 < p,
        0 < q,
    ensures
        near(
            (nearest(p, q, 1).mantissa * q) as int,
            (p * nearest(p, q, 1).unit) as int,
            1,
        ),
        0 < nearest(p, q, 1).mantissa,
        0 < nearest(p, q, 1).unit,
{
    lemma_rounding(p, q, 1);
    lemma_rounding_keeps_above_zero(p, q, 1);
    lemma_near_one(
        (nearest(p, q, 1).mantissa * q) as int,
        (p * nearest(p, q, 1).unit) as int,
    );
}

proof fn lemma_products(a: int, x: int, p: int, y: int, z: int, w: int, c: int, g: int, h: int)
    requires
        0 <= a,
        0 <= p,
        0 <= x,
        0 <= y,
        0 <= z,
        0 <= w,
        0 < c,
        a * x <= p * y,
        0xff_ffff * z <= 0x100_0000 * w,
        x * z == c * g,
        y * w == c * h,
    ensures
        (0xff_ffff * a) * g <= (0x100_0000 * p) * h,
{
    let left = a * x;
    let right = p * y;
    assert(left * (0xff_ffff * z) <= right * (0x100_0000 * w)) by (nonlinear_arith)
        requires
            0 <= left <= right,
            0 <= 0xff_ffff * z <= 0x100_0000 * w,
    ;
    assert(left * (0xff_ffff * z) == c * ((0xff_ffff * a) * g)) by {
        assert((a * x) * (0xff_ffff * z) == (0xff_ffff * a) * (x * z)) by (nonlinear_arith);
        assert((0xff_ffff * a) * (c * g) == c * ((0xff_ffff * a) * g)) by (nonlinear_arith);
    }
    assert(right * (0x100_0000 * w) == c * ((0x100_0000 * p) * h)) by {
        assert((p * y) * (0x100_0000 * w) == (0x100_0000 * p) * (y * w)) by (nonlinear_arith);
        assert((0x100_0000 * p) * (c * h) == c * ((0x100_0000 * p) * h)) by (nonlinear_arith);
    }
    let l = (0xff_ffff * a) * g;
    let r = (0x100_0000 * p) * h;
    assert(l <= r) by (nonlinear_arith)
        requires
            c * l <= c * r,
            0 < c,
    ;
}

/// One rounding more, with what both sides share taken out.
proof fn lemma_near_next(x: int, y: int, k: nat, z: int, w: int, c: int, g: int, h: int)
    requires
        0 <= x,
        0 <= y,
        0 <= z,
        0 <= w,
        0 < c,
        near(x, y, k),
        near(z, w, 1),
        x * z == c * g,
        y * w == c * h,
    ensures
        near(g, h, k + 1),
{
    lemma_near_one(z, w);
    lemma_powers_above_zero(k);
    assert(0 <= below_power(k) * x) by (nonlinear_arith)
        requires
            0 <= below_power(k),
            0 <= x,
    ;
    lemma_products(below_power(k), x, power(k), y, z, w, c, g, h);
    lemma_products(below_power(k), y, power(k), x, w, z, c, h, g);
}

proof fn lemma_powers_above_zero(k: nat)
    ensures
        0 < below_power(k),
        0 < power(k),
    decreases k,
{
    if k > 0 {
        lemma_powers_above_zero((k - 1) as nat);
    }
}

proof fn lemma_positive_product(a: int, b: int)
    requires
        0 < a,
        0 < b,
    ensures
        0 < a * b,
{
    assert(0 < a * b) by (nonlinear_arith)
        requires
            0 < a,
            0 < b,
    ;
}

/// The energy is right but for two roundings.
proof fn lemma_energy(percent: nat)
    requires
        0 < percent,
    ensures
        ({
            let e = energy_needed(percent);
            near(100 * e.mantissa as int, 62 * (percent as int * e.unit), 2) && 0 < e.mantissa && 0
                < e.unit
        }),
{
    let s = nearest(percent, 100, 1);
    let e = energy_needed(percent);
    let m1 = s.mantissa as int;
    let u1 = s.unit as int;
    let m2 = e.mantissa as int;
    let u2 = e.unit as int;
    let p = percent as int;
    lemma_near_rounded(percent, 100);
    lemma_near_rounded(s.mantissa * 62, s.unit);
    lemma_positive_product(m1, u1);
    lemma_positive_product(p, u1);
    lemma_positive_product(m2, u1);
    lemma_positive_product(m1 * 62, u2);
    assert((m1 * 100) * (m2 * u1) == (m1 * u1) * (100 * m2)) by (nonlinear_arith);
    assert((p * u1) * ((m1 * 62) * u2) == (m1 * u1) * (62 * (p * u2))) by (nonlinear_arith);
    lemma_near_next(
        m1 * 100,
        p * u1,
        1,
        m2 * u1,
        (m1 * 62) * u2,
        m1 * u1,
        100 * m2,
        62 * (p * u2),
    );
}

/// The hours are right but for four roundings.
proof fn lemma_hours(percent: nat, amps: nat)
    requires
        0 < percent,
        0 < amps,
    ensures
        ({
            let h = energy_needed(percent).over(charge_rate(amps));
            near(40_000 * (amps as int * h.mantissa), 62_000 * (percent as int * h.unit), 4) && 0
                < h.mantissa && 0 < h.unit
        }),
{
    let e = energy_needed(percent);
    let rate = charge_rate(amps);
    let h = e.over(rate);
    let m2 = e.mantissa as int;
    let u2 = e.unit as int;
    let m3 = rate.mantissa as int;
    let u3 = rate.unit as int;
    let m4 = h.mantissa as int;
    let u4 = h.unit as int;
    let p = percent as int;
    let a = amps as int;
    lemma_energy(percent);
    lemma_near_rounded(amps * 400, 1000);
    lemma_positive_product(m2, u3);
    lemma_positive_product(m3, u2);
    lemma_near_rounded(e.mantissa * rate.unit, rate.mantissa * e.unit);
    lemma_positive_product(p, u2);
    lemma_positive_product(a * 400, u3);
    let x3 = (100 * m2) * ((a * 400) * u3);
    let y3 = (62 * (p * u2)) * (m3 * 1000);
    lemma_positive_product(100 * m2, (a * 400) * u3);
    lemma_positive_product(62 * (p * u2), m3 * 1000);
    lemma_near_next(
        100 * m2,
        62 * (p * u2),
        2,
        (a * 400) * u3,
        m3 * 1000,
        1,
        x3,
        y3,
    );
    let c = (m2 * u3) * (m3 * u2);
    lemma_positive_product(m2 * u3, m3 * u2);
    lemma_positive_product(m4, m3 * u2);
    lemma_positive_product(m2 * u3, u4);
    assert(x3 * (m4 * (m3 * u2)) == c * (40_000 * (a * m4))) by {
        assert((100 * m2) * ((a * 400) * u3) == (m2 * u3) * (40_000 * a)) by (nonlinear_arith);
        let k = m2 * u3;
        let n = m3 * u2;
        assert((k * (40_000 * a)) * (m4 * n) == (k * n) * (40_000 * (a * m4))) by (nonlinear_arith);
    }
    assert(y3 * ((m2 * u3) * u4) == c * (62_000 * (p * u4))) by {
        assert((62 * (p * u2)) * (m3 * 1000) == (m3 * u2) * (62_000 * p)) by (nonlinear_arith);
        let k = m2 * u3;
        let n = m3 * u2;
        assert((n * (62_000 * p)) * (k * u4) == (k * n) * (62_000 * (p * u4))) by (nonlinear_arith);
    }
    lemma_near_next(
        x3,
        y3,
        3,
        m4 * (m3 * u2),
        (m2 * u3) * u4,
        c,
        40_000 * (a * m4),
        62_000 * (p * u4),
    );
}

/// The minutes before they are rounded up are right but for five roundings.
proof fn lemma_minutes(percent: nat, amps: nat)
    requires
        0 < percent,
        0 < amps,
    ensures
        ({
            let t = energy_needed(percent).over(charge_rate(amps)).times(60);
            near(amps as int * t.mantissa, 93 * (percent as int * t.unit), 5) && 0 < t.mantissa && 0
                < t.unit
        }),
{
    let h = energy_needed(percent).over(charge_rate(amps));
    let t = h.times(60);
    let m4 = h.mantissa as int;
    let u4 = h.unit as int;
    let m5 = t.mantissa as int;
    let u5 = t.unit as int;
    let p = percent as int;
    let a = amps as int;
    lemma_hours(percent, amps);
    lemma_near_rounded(h.mantissa * 60, h.unit);
    lemma_positive_product(a, m4);
    lemma_positive_product(p, u4);
    lemma_positive_product(m5, u4);
    lemma_positive_product(m4 * 60, u5);
    lemma_positive_product(m4, u4);
    let c = 40_000 * (m4 * u4);
    assert((40_000 * (a * m4)) * (m5 * u4) == c * (a * m5)) by (nonlinear_arith)
        requires
            c == 40_000 * (m4 * u4),
    ;
    assert((62_000 * (p * u4)) * ((m4 * 60) * u5) == c * (93 * (p * u5))) by (nonlinear_arith)
        requires
            c == 40_000 * (m4 * u4),
    ;
    lemma_near_next(
        40_000 * (a * m4),
        62_000 * (p * u4),
        4,
        m5 * u4,
        (m4 * 60) * u5,
        c,
        a * m5,
        93 * (p * u5),
    );
}

proof fn lemma_cancel(x: int, y: int, u: int)
    requires
        0 < u,
        x * u <= y * u,
    ensures
        x <= y,
{
    assert(x <= y) by (nonlinear_arith)
        requires
            0 < u,
            x * u <= y * u,
    ;
}

proof fn lemma_scaled(e: int, x: int, y: int)
    requires
        0 < e,
        x <= y,
    ensures
        e * x <= e * y,
{
    assert(e * x <= e * y) by (nonlinear_arith)
        requires
            0 < e,
            x <= y,
    ;
}

/// What holds of minutes holds of whole minutes.
proof fn lemma_whole_minutes(l: int, e: int, p: int, a: int, m: int, u: int, minutes: int)
    requires
        0 < l,
        0 < e,
        0 < a,
        0 < u,
        l * (a * m) <= e * (93 * (p * u)),
        l * (93 * (p * u)) <= e * (a * m),
        m <= minutes * u,
        (minutes - 1) * u < m,
    ensures
        l * (93 * p) <= e * (a * minutes),
        l * (a * (minutes - 1)) <= e * (93 * p),
{
    let enough = a * minutes;
    let less = a * (minutes - 1);
    lemma_scaled(a, m, minutes * u);
    assert(a * (minutes * u) == enough * u) by (nonlinear_arith)
        requires
            enough == a * minutes,
    ;
    lemma_scaled(e, a * m, enough * u);
    assert((l * (93 * p)) * u == l * (93 * (p * u))) by (nonlinear_arith);
    assert((e * enough) * u == e * (enough * u)) by (nonlinear_arith);
    lemma_cancel(l * (93 * p), e * enough, u);
    lemma_scaled(a, (minutes - 1) * u, m);
    assert(a * ((minutes - 1) * u) == less * u) by (nonlinear_arith)
        requires
            less == a * (minutes - 1),
    ;
    lemma_scaled(l, less * u, a * m);
    assert((l * less) * u == l * (less * u)) by (nonlinear_arith);
    assert((e * (93 * p)) * u == e * (93 * (p * u))) by (nonlinear_arith);
    lemma_cancel(l * less, e * (93 * p), u);
}

/// Five roundings do not move a number of this size past a whole number.
proof fn lemma_five_roundings_are_few(p: int, enough: int, less: int)
    requires
        0 < p <= 255,
        below_power(5) * (93 * p) <= power(5) * enough,
        below_power(5) * less <= power(5) * (93 * p),
    ensures
        93 * p <= enough,
        less <= 93 * p,
{
    reveal_with_fuel(below_power, 6);
    reveal_with_fuel(power, 6);
    let l = below_power(5);
    let e = power(5);
    assert(l == 0xfffffb000009fffff6000004ffffff);
    assert(e == 0x1000000000000000000000000000000);
    let n = 93 * p;
    assert(n <= enough && less <= n) by (nonlinear_arith)
        requires
            l == 0xfffffb000009fffff6000004ffffff,
            e == 0x1000000000000000000000000000000,
            0 < n <= 93 * 255,
            l * n <= e * enough,
            l * less <= e * n,
    ;
}

/// A percent of a battery of 62 kWh takes 93 amps for a minute at 400 volts.
/// The minutes are long enough for the charge, and a minute less would be no
/// longer than it takes: the roundings on the way never cost time that is
/// needed, and at most one minute that is not.
pub proof fn law_minutes_suffice_for_the_charge(target: u8, soc: u8, amps: u8)
    requires
        soc < target,
        0 < amps,
    ensures
        ({
            let minutes = minutes_to_charge(target, soc, amps);
            &&& 93 * (target - soc) <= amps * minutes
            &&& amps * (minutes - 1) <= 93 * (target - soc)
        }),
{
    let percent = (target - soc) as nat;
    let t = energy_needed(percent).over(charge_rate(amps as nat)).times(60);
    let minutes = minutes_to_charge(target, soc, amps);
    let p = percent as int;
    let a = amps as int;
    let m = t.mantissa as int;
    let u = t.unit as int;
    lemma_minutes(percent, amps as nat);
    lemma_powers_above_zero(5);
    assert(m <= minutes * u && (minutes - 1) * u < m) by (nonlinear_arith)
        requires
            minutes == (m + u - 1) / u,
            0 < u,
    ;
    lemma_whole_minutes(below_power(5), power(5), p, a, m, u, minutes);
    lemma_five_roundings_are_few(p, a * minutes, a * (minutes - 1));
}

/// What is worked out suffices for the charge, and is no more than a minute too
/// long; where there is nothing to charge, or no current, it is nothing.
pub proof fn law_time_worked_out_suffices(target: u8, soc: u8, amps: u8, minutes: u32)
    requires
        call_ensures(charge_minutes, (target, soc, amps), minutes),
    ensures
        soc >= target || amps == 0 ==> minutes == 0,
        soc < target && amps > 0 ==> 93 * (target - soc) <= amps * minutes && amps * (minutes - 1)
            <= 93 * (target - soc),
{
    if soc < target && amps > 0 {
        law_minutes_suffice_for_the_charge(target, soc, amps);
    }
}

} // verus!
