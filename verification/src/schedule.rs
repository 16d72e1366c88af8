//! The three payment schedules.

use vstd::prelude::*;
use crate::calendar::is_friday;
use crate::calendar::iso_week_of;
use crate::calendar::month_of;
use crate::calendar::month_start_of;
use crate::calendar::Date;
use crate::calendar::Period;
use crate::calendar::Weekday;
use crate::calendar::MAX_DAY;
use crate::calendar::MIN_DAY;
use crate::payroll_domain::PaymentSchedule;

verus! {

/// Whether the day with this number is the last of its month: the day after it
/// lies in another month. The last date of the calendar closes its month too.
pub open spec fn is_last_day_of_month(day: int) -> bool {
    day == MAX_DAY || month_of(day) != month_of(day + 1)
}

/// The day `span` days before `payday`, or the first date of the calendar
/// where that would lie before it.
pub open spec fn trailing_start(payday: int, span: int) -> int {
    if payday - span >= MIN_DAY {
        payday - span
    } else {
        MIN_DAY as int
    }
}

#[derive(Clone, Copy, Debug, PartialEq, Eq, Structural)]
pub enum PaymentScheduleImpl {
    /// Paid on the last day of each month, for that month.
    Monthly,
    /// Paid every Friday, for the seven days that end with it.
    Weekly,
    /// Paid on the Friday of every even ISO week, for the fourteen days that
    /// end with it.
    Biweekly,
}

impl PaymentScheduleImpl {
    /// The first date of the trailing window of `span + 1` days that ends on `payday`.
    fn window_start(payday: Date, span: u64) -> (r: Date)
        ensures
            r.day_number() == trailing_start(payday.day_number(), span as int),
    {
        proof {
            use_type_invariant(payday);
        }
        match payday.minus_days(span) {
            Some(start) => {
                proof {
                    use_type_invariant(start);
                }
                start
            },
            None => Date::first(),
        }
    }
}

impl PaymentSchedule for PaymentScheduleImpl {
    open spec fn pays_on(&self, day: int) -> bool {
        match self {
            PaymentScheduleImpl::Monthly => is_last_day_of_month(day),
            PaymentScheduleImpl::Weekly => is_friday(day),
            PaymentScheduleImpl::Biweekly => is_friday(day) && iso_week_of(day) % 2 == 0,
        }
    }

    open spec fn period_start(&self, payday: int) -> int {
        match self {
            PaymentScheduleImpl::Monthly => month_start_of(payday),
            PaymentScheduleImpl::Weekly => trailing_start(payday, 6),
            PaymentScheduleImpl::Biweekly => trailing_start(payday, 13),
        }
    }

    fn is_pay_date(&self, date: Date) -> (r: bool) {
        match self {
            PaymentScheduleImpl::Monthly => {
                match date.plus_days(1) {
                    Some(next) => {
                        proof {
                            use_type_invariant(next);
                        }
                        date.month() != next.month()
                    },
                    None => true,
                }
            },
            PaymentScheduleImpl::Weekly => date.weekday() == Weekday::Fri,
            PaymentScheduleImpl::Biweekly => {
                date.weekday() == Weekday::Fri && date.iso_week() % 2 == 0
            },
        }
    }

    fn calculate_period(&self, payday: Date) -> (r: Period) {
        match self {
            PaymentScheduleImpl::Monthly => Period::new(payday.first_of_month(), payday),
            PaymentScheduleImpl::Weekly => Period::new(Self::window_start(payday, 6), payday),
            PaymentScheduleImpl::Biweekly => Period::new(Self::window_start(payday, 13), payday),
        }
    }
}

} // verus!
