//! Multiplicative price adjustments as exact fractions.

use vstd::prelude::*;

use crate::{Amount, Timestamp};

verus! {

/// A multiplier, the fraction `numerator / denominator`.
#[derive(Debug, Clone, Copy, PartialEq, Eq, Structural)]
pub struct Factor {
    pub numerator: u64,
    pub denominator: u64,
}

impl Factor {
    /// A factor is a fraction: its denominator is not zero.
    pub open spec fn wf(self) -> bool {
        self.denominator > 0
    }

    /// The amount `base` multiplied by the factor, rounded down to a whole
    /// unit.
    pub open spec fn scale(self, base: int) -> int {
        (base * self.numerator) / (self.denominator as int)
    }

    /// The product of two factors, numerator by numerator and denominator by
    /// denominator.
    pub open spec fn times(self, other: Factor) -> (int, int) {
        (self.numerator * other.numerator, self.denominator * other.denominator)
    }

    /// The factor that changes nothing.
    pub fn one() -> (f: Factor)
        ensures
            f == (Factor { numerator: 1, denominator: 1 }),
    {
        Factor { numerator: 1, denominator: 1 }
    }

    /// The factor `percent / 100`.
    pub fn percent(percent: u64) -> (f: Factor)
        ensures
            f == (Factor { numerator: percent, denominator: 100 }),
    {
        Factor { numerator: percent, denominator: 100 }
    }

    /// The product of two factors, or `None` where a term of it does not fit
    /// in 64 bits.
    pub fn compose(self, other: Factor) -> (product: Option<Factor>)
        ensures
            product is Some <==> self.times(other).0 <= u64::MAX && self.times(other).1
                <= u64::MAX,
            product matches Some(f) ==> f.numerator == self.times(other).0 && f.denominator
                == self.times(other).1,
            product matches Some(f) ==> (self.wf() && other.wf() ==> f.wf()),
    {
        let numerator: u128 = mul_wide(self.numerator, other.numerator);
        let denominator: u128 = mul_wide(self.denominator, other.denominator);
        if numerator <= u64::MAX as u128 && denominator <= u64::MAX as u128 {
            proof {
                if self.wf() && other.wf() {
                    assert(self.denominator * other.denominator > 0) by (nonlinear_arith)
                        requires
                            self.denominator > 0,
                            other.denominator > 0,
                    ;
                }
            }
            Some(Factor { numerator: numerator as u64, denominator: denominator as u64 })
        } else {
            None
        }
    }

    /// Applies the factor to an amount, rounding down. `None` where the result
    /// does not fit in an amount.
    pub fn apply(self, base: Amount) -> (scaled: Option<Amount>)
        requires
            self.wf(),
        ensures
            scaled is Some <==> i64::MIN <= self.scale(base as int) <= i64::MAX,
            scaled matches Some(v) ==> v == self.scale(base as int),
    {
        self.apply_wide(base as i128)
    }

    /// Applies the factor to an amount of up to 128 bits, rounding down.
    /// `None` where the result does not fit in an amount.
    pub fn apply_wide(self, base: i128) -> (scaled: Option<Amount>)
        requires
            self.wf(),
        ensures
            scaled is Some <==> i64::MIN <= self.scale(base as int) <= i64::MAX,
            scaled matches Some(v) ==> v == self.scale(base as int),
    {
        let d: u128 = self.denominator as u128;
        let n: u128 = self.numerator as u128;
        if base >= 0 {
            let magnitude: u128 = base as u128;
            match magnitude.checked_mul(n) {
                Some(m) => {
                    let q: u128 = m / d;
                    if q <= i64::MAX as u128 {
                        Some(q as i64)
                    } else {
                        None
                    }
                },
                None => {
                    proof {
                        lemma_large_quotient(magnitude * n, d as int);
                    }
                    None
                },
            }
        } else {
            let magnitude: u128 = (-(base + 1)) as u128 + 1;
            proof {
                assert(base * self.numerator == -(magnitude * n)) by (nonlinear_arith)
                    requires
                        base == -(magnitude as int),
                        n == self.numerator,
                ;
            }
            match magnitude.checked_mul(n) {
                Some(m) => {
                    let q: u128 = m / d;
                    proof {
                        lemma_floor_of_negative(m as int, d as int);
                        if m % d != 0 {
                            vstd::arithmetic::div_mod::lemma_div_is_ordered_by_denominator(
                                m as int,
                                2,
                                d as int,
                            );
                        }
                    }
                    let c: u128 = if m % d == 0 {
                        q
                    } else {
                        q + 1
                    };
                    if c <= 0x8000_0000_0000_0000u128 {
                        Some((-(c as i128)) as i64)
                    } else {
                        None
                    }
                },
                None => {
                    proof {
                        lemma_large_quotient(magnitude * n, d as int);
                        lemma_floor_of_negative(magnitude * n, d as int);
                    }
                    None
                },
            }
        }
    }
}

/// The product of two 64-bit numbers, which always fits in 128 bits.
fn mul_wide(a: u64, b: u64) -> (p: u128)
    ensures
        p == a * b,
        p <= 0xffff_ffff_ffff_fffe_0000_0000_0000_0001u128,
{
    assert(a * b <= 0xffff_ffff_ffff_ffff * 0xffff_ffff_ffff_ffff) by (nonlinear_arith)
        requires
            0 <= a <= 0xffff_ffff_ffff_ffff,
            0 <= b <= 0xffff_ffff_ffff_ffff,
    ;
    a as u128 * b as u128
}

/// Rounding `-m / d` down is rounding `m / d` up, negated.
proof fn lemma_floor_of_negative(m: int, d: int)
    requires
        m >= 0,
        d > 0,
    ensures
        (-m) / d == if m % d == 0 {
            -(m / d)
        } else {
            -(m / d) - 1
        },
{
    let q = m / d;
    let r = m % d;
    vstd::arithmetic::div_mod::lemma_fundamental_div_mod(m, d);
    if r == 0 {
        assert(-m == d * (-q) + 0) by (nonlinear_arith)
            requires
                m == d * q + r,
                r == 0,
        ;
        vstd::arithmetic::div_mod::lemma_fundamental_div_mod_converse(-m, d, -q, 0);
    } else {
        assert(-m == d * (-q - 1) + (d - r)) by (nonlinear_arith)
            requires
                m == d * q + r,
        ;
        vstd::arithmetic::div_mod::lemma_fundamental_div_mod_converse(-m, d, -q - 1, d - r);
    }
}

/// A number of more than 128 bits divided by one of 64 bits has more than 64
/// bits.
proof fn lemma_large_quotient(m: int, d: int)
    requires
        m > u128::MAX,
        0 < d <= u64::MAX,
    ensures
        m / d > u64::MAX,
{
    let q = m / d;
    let r = m % d;
    vstd::arithmetic::div_mod::lemma_fundamental_div_mod(m, d);
    if q <= u64::MAX {
        assert(d * q + r <= 0xffff_ffff_ffff_ffff * 0xffff_ffff_ffff_ffff + 0xffff_ffff_ffff_ffff)
            by (nonlinear_arith)
            requires
                0 < d <= 0xffff_ffff_ffff_ffff,
                0 <= r < d,
                q <= 0xffff_ffff_ffff_ffff,
        ;
        assert(false);
    }
}

/// The order in which two factors are multiplied does not matter.
pub proof fn law_factors_commute(a: Factor, b: Factor)
    ensures
        a.times(b) == b.times(a),
{
    assert(a.numerator * b.numerator == b.numerator * a.numerator) by (nonlinear_arith);
    assert(a.denominator * b.denominator == b.denominator * a.denominator) by (nonlinear_arith);
}

/// The discount on orders of more than ten units: 5%.
pub open spec fn volume_factor(quantity: u32) -> Factor {
    if quantity > 10 {
        Factor { numerator: 95, denominator: 100 }
    } else {
        Factor { numerator: 100, denominator: 100 }
    }
}

/// The bonus for buyers with a reputation of 80 or more: 2%.
pub open spec fn reputation_factor(buyer_reputation: u32) -> Factor {
    if buyer_reputation >= 80 {
        Factor { numerator: 98, denominator: 100 }
    } else {
        Factor { numerator: 100, denominator: 100 }
    }
}

/// The surcharge during business hours, 9 to 17 o'clock of the seller's
/// local time: 2%.
pub open spec fn time_factor(hour: u32) -> Factor {
    if 9 <= hour <= 17 {
        Factor { numerator: 102, denominator: 100 }
    } else {
        Factor { numerator: 100, denominator: 100 }
    }
}

/// The surcharge for demand: 1%, whatever the market.
pub open spec fn demand_factor() -> Factor {
    Factor { numerator: 101, denominator: 100 }
}

/// The multiplier of a quote: the product of the four factors.
pub open spec fn pricing_factor(quantity: u32, buyer_reputation: u32, hour: u32) -> Factor {
    Factor {
        numerator: (volume_factor(quantity).numerator * reputation_factor(
            buyer_reputation,
        ).numerator * time_factor(hour).numerator * demand_factor().numerator) as u64,
        denominator: 100_000_000,
    }
}

/// The hour of the day, 0 to 23, of an instant in UTC.
pub open spec fn hour_at(at: Timestamp) -> u32 {
    ((at % 86_400) / 3_600) as u32
}

/// The hour of the day, 0 to 23, of an instant on a clock that is
/// `utc_offset_seconds` ahead of UTC: the local hour.
pub open spec fn local_hour_at(at: Timestamp, utc_offset_seconds: i32) -> u32 {
    (((at + utc_offset_seconds) % 86_400) / 3_600) as u32
}

/// Computes `volume_factor`.
pub fn volume_discount(quantity: u32) -> (f: Factor)
    ensures
        f == volume_factor(quantity),
{
    if quantity > 10 {
        Factor::percent(95)
    } else {
        Factor::percent(100)
    }
}

/// Computes `reputation_factor`.
pub fn reputation_bonus(buyer_reputation: u32) -> (f: Factor)
    ensures
        f == reputation_factor(buyer_reputation),
{
    if buyer_reputation >= 80 {
        Factor::percent(98)
    } else {
        Factor::percent(100)
    }
}

/// Computes `time_factor`.
pub fn business_hours_surcharge(hour: u32) -> (f: Factor)
    ensures
        f == time_factor(hour),
{
    if hour >= 9 && hour <= 17 {
        Factor::percent(102)
    } else {
        Factor::percent(100)
    }
}

/// Computes `demand_factor`.
pub fn demand_surcharge() -> (f: Factor)
    ensures
        f == demand_factor(),
{
    Factor::percent(101)
}

/// The hour of the day of an instant.
pub fn hour_of_day(at: Timestamp) -> (hour: u32)
    ensures
        hour == hour_at(at),
        hour < 24,
{
    let second_of_day: i64 = if at >= 0 {
        at % 86_400
    } else {
        86_399 - ((-(at + 1)) % 86_400)
    };
    (second_of_day / 3_600) as u32
}

/// The local hour of the day of an instant, on a clock that is
/// `utc_offset_seconds` ahead of UTC.
pub fn local_hour_of_day(at: Timestamp, utc_offset_seconds: i32) -> (hour: u32)
    ensures
        hour == local_hour_at(at, utc_offset_seconds),
        hour < 24,
        utc_offset_seconds == 0 ==> hour == hour_at(at),
{
    let local: i128 = at as i128 + utc_offset_seconds as i128;
    let second_of_day: i128 = if local >= 0 {
        local % 86_400
    } else {
        86_399 - ((-(local + 1)) % 86_400)
    };
    (second_of_day / 3_600) as u32
}

/// The multiplier of a quote for `quantity` units to a buyer of the given
/// reputation at the given hour.
pub fn dynamic_pricing(quantity: u32, buyer_reputation: u32, hour: u32) -> (f: Factor)
    ensures
        f == pricing_factor(quantity, buyer_reputation, hour),
        f.wf(),
        Some(f) == compose_all(
            volume_factor(quantity),
            reputation_factor(buyer_reputation),
            time_factor(hour),
            demand_factor(),
        ),
{
    let volume = volume_discount(quantity);
    let reputation = reputation_bonus(buyer_reputation);
    let time = business_hours_surcharge(hour);
    let demand = demand_surcharge();
    assert(volume.numerator * reputation.numerator <= 10_000) by (nonlinear_arith)
        requires
            volume.numerator <= 100,
            reputation.numerator <= 100,
    ;
    let by_volume_and_reputation: u64 = volume.numerator * reputation.numerator;
    assert(by_volume_and_reputation * time.numerator <= 1_020_000) by (nonlinear_arith)
        requires
            by_volume_and_reputation <= 10_000,
            time.numerator <= 102,
    ;
    let by_time: u64 = by_volume_and_reputation * time.numerator;
    assert(by_time * demand.numerator <= 103_020_000) by (nonlinear_arith)
        requires
            by_time <= 1_020_000,
            demand.numerator <= 101,
    ;
    Factor { numerator: by_time * demand.numerator, denominator: 100_000_000 }
}

/// The product of four factors, or `None` where a term of it does not fit in
/// 64 bits.
pub open spec fn compose_all(a: Factor, b: Factor, c: Factor, d: Factor) -> Option<Factor> {
    let numerator = a.numerator * b.numerator * c.numerator * d.numerator;
    let denominator = a.denominator * b.denominator * c.denominator * d.denominator;
    if numerator <= u64::MAX && denominator <= u64::MAX {
        Some(Factor { numerator: numerator as u64, denominator: denominator as u64 })
    } else {
        None
    }
}

/// The product of four factors does not depend on their order.
pub proof fn law_pricing_order_is_irrelevant(a: Factor, b: Factor, c: Factor, d: Factor)
    ensures
        compose_all(a, b, c, d) == compose_all(b, a, c, d),
        compose_all(a, b, c, d) == compose_all(a, c, b, d),
        compose_all(a, b, c, d) == compose_all(a, b, d, c),
        compose_all(a, b, c, d) == compose_all(d, c, b, a),
{
    let (an, bn, cn, dn) = (
        a.numerator as int,
        b.numerator as int,
        c.numerator as int,
        d.numerator as int,
    );
    let (ad, bd, cd, dd) = (
        a.denominator as int,
        b.denominator as int,
        c.denominator as int,
        d.denominator as int,
    );
    assert(an * bn * cn * dn == bn * an * cn * dn && an * bn * cn * dn == an * cn * bn * dn && an
        * bn * cn * dn == an * bn * dn * cn && an * bn * cn * dn == dn * cn * bn * an)
        by (nonlinear_arith);
    assert(ad * bd * cd * dd == bd * ad * cd * dd && ad * bd * cd * dd == ad * cd * bd * dd && ad
        * bd * cd * dd == ad * bd * dd * cd && ad * bd * cd * dd == dd * cd * bd * ad)
        by (nonlinear_arith);
}

} // verus!
