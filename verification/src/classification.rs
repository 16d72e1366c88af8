//! The three pay classifications and the records they keep.

use vstd::prelude::*;
use crate::amount::cap;
use crate::amount::day_pay;
use crate::amount::scaled_product;
use crate::amount::Amount;
use crate::calendar::Date;
use crate::calendar::Period;
use crate::payroll_domain::Paycheck;
use crate::payroll_domain::PaymentClassification;

verus! {

/// The hours that an employee worked on one day.
#[derive(Clone, Copy, Debug, PartialEq, Eq, Structural)]
pub struct TimeCard {
    pub date: Date,
    pub hours: Amount,
}

impl TimeCard {
    pub fn new(date: Date, hours: Amount) -> (r: TimeCard)
        ensures
            r.date == date,
            r.hours == hours,
    {
        TimeCard { date, hours }
    }
}

/// One sale on which a commission is due.
#[derive(Clone, Copy, Debug, PartialEq, Eq, Structural)]
pub struct SalesReceipt {
    pub date: Date,
    pub amount: Amount,
}

impl SalesReceipt {
    pub fn new(date: Date, amount: Amount) -> (r: SalesReceipt)
        ensures
            r.date == date,
            r.amount == amount,
    {
        SalesReceipt { date, amount }
    }
}

/// The pay, in thousandths, for those of `cards` whose date lies in `period`.
pub open spec fn timecards_pay(cards: Seq<TimeCard>, rate: Amount, period: Period) -> nat
    decreases cards.len(),
{
    if cards.len() == 0 {
        0
    } else {
        let card = cards.last();
        timecards_pay(cards.drop_last(), rate, period) + if period.covers(card.date.day_number()) {
            day_pay(card.hours.value(), rate.value())
        } else {
            0
        }
    }
}

/// The commission, in thousandths, on those of `receipts` whose date lies in `period`.
pub open spec fn commissions(receipts: Seq<SalesReceipt>, rate: Amount, period: Period) -> nat
    decreases receipts.len(),
{
    if receipts.len() == 0 {
        0
    } else {
        let receipt = receipts.last();
        commissions(receipts.drop_last(), rate, period) + if period.covers(
            receipt.date.day_number(),
        ) {
            scaled_product(receipt.amount.value(), rate.value())
        } else {
            0
        }
    }
}

/// What a classification holds, its records as sequences.
pub enum ClassificationView {
    Salaried { salary: Amount },
    Hourly { hourly_rate: Amount, timecards: Seq<TimeCard> },
    Commissioned { salary: Amount, commission_rate: Amount, sales_receipts: Seq<SalesReceipt> },
}

impl ClassificationView {
    /// The gross pay for `period` in thousandths, before it is held at the cap.
    pub open spec fn gross_pay(self, period: Period) -> nat {
        match self {
            ClassificationView::Salaried { salary } => salary.value(),
            ClassificationView::Hourly { hourly_rate, timecards } => timecards_pay(
                timecards,
                hourly_rate,
                period,
            ),
            ClassificationView::Commissioned {
                salary,
                commission_rate,
                sales_receipts,
            } => salary.value() + commissions(sales_receipts, commission_rate, period),
        }
    }
}

#[derive(Debug, PartialEq)]
pub enum PaymentClassificationImpl {
    /// A fixed pay per period.
    Salaried { salary: Amount },
    /// Pay by the hour, from the time cards of the period.
    Hourly { hourly_rate: Amount, timecards: Vec<TimeCard> },
    /// A fixed pay per period and a commission on the sales of the period.
    Commissioned { salary: Amount, commission_rate: Amount, sales_receipts: Vec<SalesReceipt> },
}

impl View for PaymentClassificationImpl {
    type V = ClassificationView;

    open spec fn view(&self) -> ClassificationView {
        match self {
            PaymentClassificationImpl::Salaried { salary } => ClassificationView::Salaried {
                salary: *salary,
            },
            PaymentClassificationImpl::Hourly {
                hourly_rate,
                timecards,
            } => ClassificationView::Hourly { hourly_rate: *hourly_rate, timecards: timecards@ },
            PaymentClassificationImpl::Commissioned {
                salary,
                commission_rate,
                sales_receipts,
            } => ClassificationView::Commissioned {
                salary: *salary,
                commission_rate: *commission_rate,
                sales_receipts: sales_receipts@,
            },
        }
    }
}

impl PaymentClassificationImpl {
    /// Adds a time card after those already held.
    pub fn add_timecard(&mut self, tc: TimeCard)
        requires
            old(self)@ is Hourly,
        ensures
            final(self)@ == (ClassificationView::Hourly {
                hourly_rate: old(self)@->hourly_rate,
                timecards: old(self)@->timecards.push(tc),
            }),
    {
        match self {
            PaymentClassificationImpl::Hourly { timecards, .. } => {
                timecards.push(tc);
            },
            _ => {},
        }
    }

    /// Adds a sales receipt after those already held.
    pub fn add_sales_receipt(&mut self, sr: SalesReceipt)
        requires
            old(self)@ is Commissioned,
        ensures
            final(self)@ == (ClassificationView::Commissioned {
                salary: old(self)@->Commissioned_salary,
                commission_rate: old(self)@->commission_rate,
                sales_receipts: old(self)@->sales_receipts.push(sr),
            }),
    {
        match self {
            PaymentClassificationImpl::Commissioned { sales_receipts, .. } => {
                sales_receipts.push(sr);
            },
            _ => {},
        }
    }
}

impl Clone for PaymentClassificationImpl {
    fn clone(&self) -> (r: PaymentClassificationImpl)
        ensures
            r@ == self@,
    {
        match self {
            PaymentClassificationImpl::Salaried { salary } => PaymentClassificationImpl::Salaried {
                salary: *salary,
            },
            PaymentClassificationImpl::Hourly { hourly_rate, timecards } => {
                let mut copy: Vec<TimeCard> = Vec::new();
                let mut i: usize = 0;
                while i < timecards.len()
                    invariant
                        i <= timecards.len(),
                        copy@ == timecards@.take(i as int),
                    decreases timecards.len() - i,
                {
                    copy.push(timecards[i]);
                    assert(timecards@.take(i + 1) == timecards@.take(i as int).push(
                        timecards@[i as int],
                    ));
                    i = i + 1;
                }
                assert(timecards@.take(i as int) == timecards@);
                PaymentClassificationImpl::Hourly { hourly_rate: *hourly_rate, timecards: copy }
            },
            PaymentClassificationImpl::Commissioned { salary, commission_rate, sales_receipts } => {
                let mut copy: Vec<SalesReceipt> = Vec::new();
                let mut i: usize = 0;
                while i < sales_receipts.len()
                    invariant
                        i <= sales_receipts.len(),
                        copy@ == sales_receipts@.take(i as int),
                    decreases sales_receipts.len() - i,
                {
                    copy.push(sales_receipts[i]);
                    assert(sales_receipts@.take(i + 1) == sales_receipts@.take(i as int).push(
                        sales_receipts@[i as int],
                    ));
                    i = i + 1;
                }
                assert(sales_receipts@.take(i as int) == sales_receipts@);
                PaymentClassificationImpl::Commissioned {
                    salary: *salary,
                    commission_rate: *commission_rate,
                    sales_receipts: copy,
                }
            },
        }
    }
}

impl PaymentClassificationImpl {
    /// The gross pay for `period`, held at the cap.
    pub fn pay_for(&self, period: Period) -> (r: Amount)
        ensures
            r.value() == cap(self@.gross_pay(period)),
    {
        match self {
            PaymentClassificationImpl::Salaried { salary } => *salary,
            PaymentClassificationImpl::Hourly { hourly_rate, timecards } => {
                let mut total_pay: Amount = Amount::zero();
                let mut i: usize = 0;
                while i < timecards.len()
                    invariant
                        i <= timecards.len(),
                        total_pay.value() == cap(
                            timecards_pay(timecards@.take(i as int), *hourly_rate, period),
                        ),
                    decreases timecards.len() - i,
                {
                    let tc: TimeCard = timecards[i];
                    assert(timecards@.take(i + 1).drop_last() == timecards@.take(i as int));
                    if period.contains(&tc.date) {
                        total_pay = total_pay.plus(tc.hours.day_pay(*hourly_rate));
                    }
                    i = i + 1;
                }
                assert(timecards@.take(i as int) == timecards@);
                total_pay
            },
            PaymentClassificationImpl::Commissioned { salary, commission_rate, sales_receipts } => {
                let mut commission: Amount = Amount::zero();
                let mut i: usize = 0;
                while i < sales_receipts.len()
                    invariant
                        i <= sales_receipts.len(),
                        commission.value() == cap(
                            commissions(sales_receipts@.take(i as int), *commission_rate, period),
                        ),
                    decreases sales_receipts.len() - i,
                {
                    let sr: SalesReceipt = sales_receipts[i];
                    assert(sales_receipts@.take(i + 1).drop_last() == sales_receipts@.take(
                        i as int,
                    ));
                    if period.contains(&sr.date) {
                        commission = commission.plus(sr.amount.at_rate(*commission_rate));
                    }
                    i = i + 1;
                }
                assert(sales_receipts@.take(i as int) == sales_receipts@);
                salary.plus(commission)
            },
        }
    }
}

impl PaymentClassification for PaymentClassificationImpl {
    open spec fn gross_pay(&self, period: Period) -> nat {
        self@.gross_pay(period)
    }

    fn calculate_pay(&self, pc: &Paycheck) -> (r: Amount) {
        self.pay_for(pc.get_period())
    }
}

} // verus!
