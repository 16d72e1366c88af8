//! The entities of the ledger and the four capabilities of an employee.

use vstd::prelude::*;
use crate::affiliation::AffiliationImpl;
use crate::affiliation::AffiliationView;
use crate::amount::cap;
use crate::amount::Amount;
use crate::amount::SignedAmount;
use crate::calendar::Date;
use crate::calendar::Period;
use crate::classification::ClassificationView;
use crate::classification::PaymentClassificationImpl;
use crate::method::Disbursement;
use crate::method::DisbursementView;
use crate::method::MethodView;
use crate::method::PaymentMethodImpl;
use crate::schedule::PaymentScheduleImpl;

verus! {

pub type EmployeeId = u32;

pub type MemberId = u32;

/// What one employee is paid for one pay period.
#[derive(Clone, Copy, Debug, PartialEq, Eq, Structural)]
pub struct Paycheck {
    pub period: Period,
    pub gross_pay: Amount,
    pub deductions: Amount,
    pub net_pay: SignedAmount,
}

impl Paycheck {
    /// A paycheck for `period` on which nothing has been entered yet.
    pub fn new(period: Period) -> (r: Paycheck)
        ensures
            r.period == period,
            r.gross_pay.value() == 0,
            r.deductions.value() == 0,
            r.net_pay.value() == 0,
    {
        Paycheck {
            period,
            gross_pay: Amount::zero(),
            deductions: Amount::zero(),
            net_pay: SignedAmount::from_thousandths(0),
        }
    }

    pub fn get_period(&self) -> (r: Period)
        ensures
            r == self.period,
    {
        self.period
    }

    pub fn get_gross_pay(&self) -> (r: Amount)
        ensures
            r == self.gross_pay,
    {
        self.gross_pay
    }

    pub fn set_gross_pay(&mut self, gross_pay: Amount)
        ensures
            *final(self) == (Paycheck { gross_pay, ..*old(self) }),
    {
        self.gross_pay = gross_pay;
    }

    pub fn get_deductions(&self) -> (r: Amount)
        ensures
            r == self.deductions,
    {
        self.deductions
    }

    pub fn set_deductions(&mut self, deductions: Amount)
        ensures
            *final(self) == (Paycheck { deductions, ..*old(self) }),
    {
        self.deductions = deductions;
    }

    pub fn get_net_pay(&self) -> (r: SignedAmount)
        ensures
            r == self.net_pay,
    {
        self.net_pay
    }

    pub fn set_net_pay(&mut self, net_pay: SignedAmount)
        ensures
            *final(self) == (Paycheck { net_pay, ..*old(self) }),
    {
        self.net_pay = net_pay;
    }
}

/// The rule by which gross pay is computed.
pub trait PaymentClassification {
    /// The gross pay for `period` in thousandths, before it is held at the cap.
    spec fn gross_pay(&self, period: Period) -> nat;

    /// The gross pay for the period of `pc`.
    fn calculate_pay(&self, pc: &Paycheck) -> (r: Amount)
        ensures
            r.value() == cap(self.gross_pay(pc.period)),
    ;
}

/// The rule by which pay dates and the periods they close are determined.
pub trait PaymentSchedule {
    /// Whether the day with this number is a pay date.
    spec fn pays_on(&self, day: int) -> bool;

    /// The day number of the first day of the period that `payday` closes.
    spec fn period_start(&self, payday: int) -> int;

    fn is_pay_date(&self, date: Date) -> (r: bool)
        ensures
            r == self.pays_on(date.day_number()),
    ;

    fn calculate_period(&self, payday: Date) -> (r: Period)
        ensures
            r.end == payday,
            r.start.day_number() == self.period_start(payday.day_number()),
    ;
}

/// Union membership and the rule by which it reduces pay.
pub trait Affiliation {
    /// The deductions for `period` in thousandths, before they are held at the cap.
    spec fn deductions(&self, period: Period) -> nat;

    /// The deductions for the period of `pc`.
    fn calculate_deductions(&self, pc: &Paycheck) -> (r: Amount)
        ensures
            r.value() == cap(self.deductions(pc.period)),
    ;
}

/// The way in which a paycheck reaches the employee.
pub trait PaymentMethod {
    /// The order that paying `pc` by this method gives.
    spec fn instruction(&self, pc: Paycheck) -> DisbursementView;

    /// Orders `pc` to be paid out by this method. Nothing is paid here: the
    /// order is handed back for the caller to carry out.
    fn pay(&self, pc: &Paycheck) -> (r: Disbursement)
        ensures
            r@ == self.instruction(*pc),
    ;
}

/// What an employee record holds.
pub struct EmployeeView {
    pub emp_id: EmployeeId,
    pub name: Seq<char>,
    pub address: Seq<char>,
    pub classification: ClassificationView,
    pub schedule: PaymentScheduleImpl,
    pub method: MethodView,
    pub affiliation: AffiliationView,
}

impl EmployeeView {
    /// Whether the employee is paid on the day with this number.
    pub open spec fn pays_on(self, day: int) -> bool {
        self.schedule.pays_on(day)
    }

    /// The day number of the first day of the period that `payday` closes for
    /// the employee.
    pub open spec fn period_start(self, payday: int) -> int {
        self.schedule.period_start(payday)
    }

    /// The period that the pay date `payday` closes for the employee.
    pub open spec fn period_due(self, payday: Date) -> Period {
        Period { start: Date::on_day(self.period_start(payday.day_number())), end: payday }
    }

    /// The paycheck that the employee is due on the pay date `payday`.
    pub open spec fn paycheck_due(self, payday: Date) -> Paycheck {
        self.paycheck_for(self.period_due(payday))
    }

    /// The paycheck of the employee for `period`: gross pay and deductions held
    /// at the cap, net pay their difference.
    pub open spec fn paycheck_for(self, period: Period) -> Paycheck {
        let gross = cap(self.classification.gross_pay(period));
        let deductions = cap(self.affiliation.deductions(period));
        Paycheck {
            period,
            gross_pay: Amount { thousandths: gross as u64 },
            deductions: Amount { thousandths: deductions as u64 },
            net_pay: SignedAmount { thousandths: (gross - deductions) as i128 },
        }
    }
}

/// One employee: who they are, and how, when and by what means they are paid.
#[derive(Debug, PartialEq)]
pub struct Employee {
    pub emp_id: EmployeeId,
    pub name: String,
    pub address: String,
    pub classification: PaymentClassificationImpl,
    pub schedule: PaymentScheduleImpl,
    pub method: PaymentMethodImpl,
    pub affiliation: AffiliationImpl,
}

impl View for Employee {
    type V = EmployeeView;

    open spec fn view(&self) -> EmployeeView {
        EmployeeView {
            emp_id: self.emp_id,
            name: self.name@,
            address: self.address@,
            classification: self.classification@,
            schedule: self.schedule,
            method: self.method@,
            affiliation: self.affiliation@,
        }
    }
}

impl Clone for Employee {
    fn clone(&self) -> (r: Employee)
        ensures
            r@ == self@,
    {
        Employee {
            emp_id: self.emp_id,
            name: self.name.clone(),
            address: self.address.clone(),
            classification: self.classification.clone(),
            schedule: self.schedule,
            method: self.method.clone(),
            affiliation: self.affiliation.clone(),
        }
    }
}

impl Employee {
    pub fn new(
        emp_id: EmployeeId,
        name: &str,
        address: &str,
        classification: PaymentClassificationImpl,
        schedule: PaymentScheduleImpl,
        method: PaymentMethodImpl,
        affiliation: AffiliationImpl,
    ) -> (r: Employee)
        ensures
            r@ == (EmployeeView {
                emp_id,
                name: name@,
                address: address@,
                classification: classification@,
                schedule,
                method: method@,
                affiliation: affiliation@,
            }),
    {
        Employee {
            emp_id,
            name: name.to_owned(),
            address: address.to_owned(),
            classification,
            schedule,
            method,
            affiliation,
        }
    }

    pub fn get_emp_id(&self) -> (r: EmployeeId)
        ensures
            r == self@.emp_id,
    {
        self.emp_id
    }

    pub fn set_name(&mut self, name: &str)
        ensures
            final(self)@ == (EmployeeView { name: name@, ..old(self)@ }),
    {
        self.name = name.to_owned();
    }

    pub fn set_address(&mut self, address: &str)
        ensures
            final(self)@ == (EmployeeView { address: address@, ..old(self)@ }),
    {
        self.address = address.to_owned();
    }

    pub fn get_classification(&self) -> (r: &PaymentClassificationImpl)
        ensures
            r@ == self@.classification,
    {
        &self.classification
    }

    pub fn set_classification(&mut self, classification: PaymentClassificationImpl)
        ensures
            final(self)@ == (EmployeeView { classification: classification@, ..old(self)@ }),
    {
        self.classification = classification;
    }

    pub fn set_schedule(&mut self, schedule: PaymentScheduleImpl)
        ensures
            final(self)@ == (EmployeeView { schedule, ..old(self)@ }),
    {
        self.schedule = schedule;
    }

    pub fn set_method(&mut self, method: PaymentMethodImpl)
        ensures
            final(self)@ == (EmployeeView { method: method@, ..old(self)@ }),
    {
        self.method = method;
    }

    pub fn get_affiliation(&self) -> (r: &AffiliationImpl)
        ensures
            r@ == self@.affiliation,
    {
        &self.affiliation
    }

    pub fn set_affiliation(&mut self, affiliation: AffiliationImpl)
        ensures
            final(self)@ == (EmployeeView { affiliation: affiliation@, ..old(self)@ }),
    {
        self.affiliation = affiliation;
    }

    /// Whether the employee is paid on `date`.
    pub fn is_pay_date(&self, date: Date) -> (r: bool)
        ensures
            r == self@.pays_on(date.day_number()),
    {
        self.schedule.is_pay_date(date)
    }

    /// The period that `payday` closes for the employee.
    pub fn get_pay_period(&self, payday: Date) -> (r: Period)
        ensures
            r == self@.period_due(payday),
    {
        self.schedule.calculate_period(payday)
    }

    /// Enters gross pay, deductions and net pay for the period of `pc`, and
    /// orders the paycheck to be paid out by the employee's method.
    pub fn payday(&self, pc: &mut Paycheck) -> (r: Disbursement)
        ensures
            *final(pc) == self@.paycheck_for(old(pc).period),
            r@ == (DisbursementView { method: self@.method, paycheck: *final(pc) }),
    {
        let period: Period = pc.get_period();
        let gross_pay: Amount = self.classification.pay_for(period);
        let deductions: Amount = self.affiliation.deductions_for(period);
        let net_pay: SignedAmount = gross_pay.minus(deductions);
        pc.set_gross_pay(gross_pay);
        pc.set_deductions(deductions);
        pc.set_net_pay(net_pay);
        self.method.order(*pc)
    }
}

} // verus!
