use payroll::amount::Amount;
use payroll::amount::SignedAmount;
use payroll::text::decimal_text;
use payroll::text::numbered;

/// The amount that the decimal number `x` stands for.
fn amount(x: f64) -> Amount {
    Amount::from_thousandths((x * 1000.0).round() as u64)
}

const MAX: Amount = Amount { thousandths: u64::MAX };

#[test]
fn amounts_count_thousandths() {
    assert_eq!(Amount::zero().thousandths(), 0);
    assert_eq!(Amount::from_thousandths(1500).thousandths(), 1500);
    assert_eq!(Amount::from_units(12).thousandths(), 12_000);
    assert_eq!(Amount::from_units(0), Amount::zero());
    assert_eq!(
        Amount::from_units(18_446_744_073_709_551),
        Amount::from_thousandths(18_446_744_073_709_551_000)
    );
    assert_eq!(Amount::from_units(18_446_744_073_709_552), MAX);
    assert_eq!(Amount::from_units(u64::MAX), MAX);
    assert_eq!(amount(9.45).thousandths(), 9450);
    assert_eq!(SignedAmount::from_thousandths(-3).thousandths(), -3);
}

#[test]
fn sums_are_held_at_the_cap() {
    assert_eq!(amount(1.5).plus(amount(2.5)), amount(4.0));
    assert_eq!(amount(1.5).plus(Amount::zero()), amount(1.5));
    assert_eq!(MAX.plus(amount(0.001)), MAX);
    assert_eq!(Amount::from_thousandths(u64::MAX - 1).plus(amount(0.001)), MAX);
    assert_eq!(
        Amount::from_thousandths(u64::MAX - 2).plus(amount(0.001)),
        Amount::from_thousandths(u64::MAX - 1)
    );
    assert_eq!(MAX.plus(MAX), MAX);
}

#[test]
fn multiples_are_held_at_the_cap() {
    assert_eq!(amount(9.75).times(2), amount(19.5));
    assert_eq!(amount(9.75).times(0), Amount::zero());
    assert_eq!(Amount::zero().times(u64::MAX), Amount::zero());
    assert_eq!(amount(0.001).times(u64::MAX), MAX);
    assert_eq!(amount(0.002).times(u64::MAX), MAX);
    assert_eq!(amount(0.003).times(6_148_914_691_236_517_205), MAX);
    assert_eq!(
        amount(0.003).times(6_148_914_691_236_517_204),
        Amount::from_thousandths(u64::MAX - 3)
    );
}

#[test]
fn products_are_rounded_down_to_a_thousandth() {
    assert_eq!(amount(12300.0).at_rate(amount(0.25)), amount(3075.0));
    assert_eq!(amount(1.0).at_rate(amount(1.0)), amount(1.0));
    assert_eq!(amount(0.001).at_rate(amount(0.999)), Amount::zero());
    assert_eq!(amount(0.001).at_rate(amount(1.0)), amount(0.001));
    assert_eq!(amount(0.333).at_rate(amount(0.333)), amount(0.110));
    assert_eq!(amount(10.0).at_rate(amount(0.0)), Amount::zero());
    assert_eq!(MAX.at_rate(amount(1.0)), MAX);
    assert_eq!(MAX.at_rate(amount(0.5)), Amount::from_thousandths(u64::MAX / 2));
    assert_eq!(MAX.at_rate(MAX), MAX);
    assert_eq!(MAX.at_rate(amount(1.001)), MAX);
}

#[test]
fn a_day_is_paid_at_the_plain_rate_up_to_eight_hours() {
    let rate = amount(15.25);
    assert_eq!(amount(8.0).day_pay(rate), amount(8.0 * 15.25));
    assert_eq!(amount(10.0).day_pay(rate), amount(8.0 * 15.25 + 2.0 * 15.25 * 1.5));
    assert_eq!(amount(0.0).day_pay(rate), Amount::zero());
    assert_eq!(amount(7.5).day_pay(rate), amount(114.375));
    assert_eq!(amount(8.001).day_pay(rate), amount(122.022));
    assert_eq!(amount(24.0).day_pay(amount(1.0)), amount(32.0));
    assert_eq!(amount(1.0).day_pay(amount(0.001)), amount(0.001));
    assert_eq!(amount(0.5).day_pay(amount(0.001)), Amount::zero());
    assert_eq!(amount(9.0).day_pay(amount(0.001)), amount(0.009));
    assert_eq!(amount(9.0).day_pay(amount(0.003)), amount(0.028));
    assert_eq!(amount(8.0).day_pay(Amount::zero()), Amount::zero());
    assert_eq!(MAX.day_pay(amount(1.0)), MAX);
    assert_eq!(MAX.day_pay(MAX), MAX);
    assert_eq!(amount(8.0).day_pay(MAX), MAX);
    assert_eq!(MAX.day_pay(amount(0.001)), Amount::from_thousandths(27_670_116_110_564_323));
}

#[test]
fn a_difference_may_be_negative() {
    assert_eq!(amount(3495.0).minus(Amount::zero()).thousandths(), 3_495_000);
    assert_eq!(amount(100.0).minus(amount(159.75)).thousandths(), -59_750);
    assert_eq!(Amount::zero().minus(MAX).thousandths(), -(u64::MAX as i128));
    assert_eq!(MAX.minus(Amount::zero()).thousandths(), u64::MAX as i128);
    assert_eq!(MAX.minus(MAX).thousandths(), 0);
}

#[test]
fn numbers_are_written_in_decimal_digits() {
    assert_eq!(decimal_text(0), "0");
    assert_eq!(decimal_text(7), "7");
    assert_eq!(decimal_text(10), "10");
    assert_eq!(decimal_text(1234567890), "1234567890");
    assert_eq!(decimal_text(u32::MAX), "4294967295");
    assert_eq!(numbered("emp_id=", 42), "emp_id=42");
    assert_eq!(numbered("", 0), "0");
    for n in [1u32, 9, 11, 99, 100, 101, 909, 1000, 65535, 65536, 4294967294] {
        assert_eq!(decimal_text(n), n.to_string());
    }
}
