//! Exact fixed-point quantities: money, hours and rates.
//!
//! An [`Amount`] counts thousandths, so `1.5` is held as `1500`. Results that
//! would not fit are held at the largest amount; nothing wraps around.

use vstd::prelude::*;
use vstd::arithmetic::div_mod::lemma_fundamental_div_mod_converse;
use vstd::arithmetic::div_mod::lemma_fundamental_div_mod;

verus! {

/// How many thousandths make one whole unit.
pub const SCALE: u64 = 1000;

/// Hours of one day that are paid at the plain rate, in thousandths.
pub const STRAIGHT_HOURS: u64 = 8000;

/// The value at which amounts are held when a result would exceed it.
pub open spec fn cap(x: nat) -> nat {
    if x >= u64::MAX {
        u64::MAX as nat
    } else {
        x
    }
}

/// The product of a quantity and a rate, both in thousandths, rounded down
/// to a whole thousandth.
pub open spec fn scaled_product(quantity: nat, rate: nat) -> nat {
    (quantity * rate) / (SCALE as nat)
}

/// The pay for one day's work: hours up to eight at the plain rate, hours
/// beyond eight at one and a half times the rate. All three quantities are in
/// thousandths; the sum of both parts is rounded down once.
pub open spec fn day_pay(hours: nat, rate: nat) -> nat {
    let straight = if hours <= STRAIGHT_HOURS { hours } else { STRAIGHT_HOURS as nat };
    let overtime = (hours - straight) as nat;
    ((2 * straight + 3 * overtime) * rate) / (2 * SCALE) as nat
}

/// A non-negative quantity in thousandths of a unit.
#[derive(Clone, Copy, Debug, PartialEq, Eq, Structural)]
pub struct Amount {
    pub thousandths: u64,
}

/// A quantity in thousandths of a unit that may be negative.
#[derive(Clone, Copy, Debug, PartialEq, Eq, Structural)]
pub struct SignedAmount {
    pub thousandths: i128,
}

impl Amount {
    /// The number of thousandths held.
    pub open spec fn value(self) -> nat {
        self.thousandths as nat
    }

    pub fn zero() -> (r: Amount)
        ensures
            r.value() == 0,
    {
        Amount { thousandths: 0 }
    }

    pub fn from_thousandths(thousandths: u64) -> (r: Amount)
        ensures
            r.value() == thousandths,
    {
        Amount { thousandths }
    }

    /// The amount of `units` whole units, held at the cap where it would exceed it.
    pub fn from_units(units: u64) -> (r: Amount)
        ensures
            r.value() == cap((units * SCALE) as nat),
    {
        match units.checked_mul(SCALE) {
            Some(t) => Amount { thousandths: t },
            None => Amount { thousandths: u64::MAX },
        }
    }

    pub fn thousandths(&self) -> (r: u64)
        ensures
            r == self.value(),
    {
        self.thousandths
    }

    /// The sum of two amounts, held at the cap.
    pub fn plus(self, other: Amount) -> (r: Amount)
        ensures
            r.value() == cap(self.value() + other.value()),
    {
        Amount { thousandths: self.thousandths.saturating_add(other.thousandths) }
    }

    /// The amount taken `count` times, held at the cap.
    pub fn times(self, count: u64) -> (r: Amount)
        ensures
            r.value() == cap(self.value() * count as nat),
    {
        match self.thousandths.checked_mul(count) {
            Some(t) => Amount { thousandths: t },
            None => Amount { thousandths: u64::MAX },
        }
    }

    /// This amount at the given rate: their product rounded down to a whole
    /// thousandth, held at the cap.
    pub fn at_rate(self, rate: Amount) -> (r: Amount)
        ensures
            r.value() == cap(scaled_product(self.value(), rate.value())),
    {
        let a: u128 = self.thousandths as u128;
        let b: u128 = rate.thousandths as u128;
        assert(a * b <= 0xFFFF_FFFF_FFFF_FFFF * 0xFFFF_FFFF_FFFF_FFFF) by (nonlinear_arith)
            requires
                a <= 0xFFFF_FFFF_FFFF_FFFF,
                b <= 0xFFFF_FFFF_FFFF_FFFF,
        ;
        let q: u128 = (a * b) / (SCALE as u128);
        narrow(q)
    }

    /// The pay for `self` hours of one day at the hourly `rate`, held at the cap.
    pub fn day_pay(self, rate: Amount) -> (r: Amount)
        ensures
            r.value() == cap(day_pay(self.value(), rate.value())),
    {
        let hours: u64 = self.thousandths;
        let straight: u64 = if hours <= STRAIGHT_HOURS { hours } else { STRAIGHT_HOURS };
        let overtime: u64 = hours - straight;
        let weight: u128 = 2 * (straight as u128) + 3 * (overtime as u128);
        let r: u128 = rate.thousandths as u128;
        let whole: u128 = weight / 2000;
        let part: u128 = weight % 2000;
        assert(whole * r <= 0x1_0000_0000_0000_0000 * 0xFFFF_FFFF_FFFF_FFFF) by (nonlinear_arith)
            requires
                whole <= 0x1_0000_0000_0000_0000,
                r <= 0xFFFF_FFFF_FFFF_FFFF,
        ;
        assert(part * r <= 2000 * 0xFFFF_FFFF_FFFF_FFFF) by (nonlinear_arith)
            requires
                part <= 2000,
                r <= 0xFFFF_FFFF_FFFF_FFFF,
        ;
        let total: u128 = whole * r + (part * r) / 2000;
        proof {
            lemma_split_quotient(weight as int, r as int, 2000);
        }
        narrow(total)
    }

    /// What is left of this amount after `other` is taken away; negative where
    /// `other` is the larger.
    pub fn minus(self, other: Amount) -> (r: SignedAmount)
        ensures
            r.value() == self.value() - other.value(),
    {
        SignedAmount { thousandths: self.thousandths as i128 - other.thousandths as i128 }
    }
}

impl SignedAmount {
    /// The number of thousandths held.
    pub open spec fn value(self) -> int {
        self.thousandths as int
    }

    pub fn from_thousandths(thousandths: i128) -> (r: SignedAmount)
        ensures
            r.value() == thousandths,
    {
        SignedAmount { thousandths }
    }

    pub fn thousandths(&self) -> (r: i128)
        ensures
            r == self.value(),
    {
        self.thousandths
    }
}

/// The amount of `x` thousandths, held at the cap.
fn narrow(x: u128) -> (r: Amount)
    ensures
        r.value() == cap(x as nat),
{
    if x >= u64::MAX as u128 {
        Amount { thousandths: u64::MAX }
    } else {
        Amount { thousandths: x as u64 }
    }
}

/// Dividing a product by `d` part by part: the quotient of `w * r` is what the
/// whole multiples of `d` in `w` give, plus the quotient of the rest.
proof fn lemma_split_quotient(w: int, r: int, d: int)
    requires
        w >= 0,
        r >= 0,
        d > 0,
    ensures
        (w * r) / d == (w / d) * r + ((w % d) * r) / d,
{
    let q = w / d;
    let m = w % d;
    lemma_fundamental_div_mod(w, d);
    assert(w == d * q + m);
    let x = m * r;
    lemma_fundamental_div_mod(x, d);
    assert(w * r == d * (q * r + x / d) + x % d) by (nonlinear_arith)
        requires
            w == d * q + m,
            x == m * r,
            x == d * (x / d) + x % d,
    ;
    assert(0 <= x % d < d) by (nonlinear_arith)
        requires
            d > 0,
    ;
    lemma_fundamental_div_mod_converse(w * r, d, q * r + x / d, x % d);
}

} // verus!
