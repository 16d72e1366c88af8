//! The transactions of the payroll.

use vstd::prelude::*;
use crate::abstract_tx::new_employee;
use crate::abstract_tx::not_found;
use crate::abstract_tx::AddEmployeeTx;
use crate::abstract_tx::ChangeAffiliationTx;
use crate::abstract_tx::ChangeEmployeePaymentClassificationTx;
use crate::abstract_tx::ChangeEmployeePaymentMethodTx;
use crate::abstract_tx::ChangeEmployeeTx;
use crate::abstract_tx::EmployeeChange;
use crate::abstract_tx::UsecaseError;
use crate::affiliation::AffiliationImpl;
use crate::affiliation::AffiliationView;
use crate::affiliation::ServiceCharge;
use crate::amount::Amount;
use crate::calendar::Date;
use crate::classification::ClassificationView;
use crate::classification::PaymentClassificationImpl;
use crate::classification::SalesReceipt;
use crate::classification::TimeCard;
use crate::dao::views_of;
use crate::dao::DaoError;
use crate::dao::PayrollDao;
use crate::dao::PayrollState;
use crate::method::Disbursement;
use crate::method::DisbursementView;
use crate::method::MethodView;
use crate::method::PaymentMethodImpl;
use crate::payroll_domain::Employee;
use crate::payroll_domain::EmployeeId;
use crate::payroll_domain::EmployeeView;
use crate::payroll_domain::MemberId;
use crate::payroll_domain::Paycheck;
use crate::schedule::PaymentScheduleImpl;
use crate::text::decimal;
use crate::text::numbered;

verus! {

/// Adds an employee on a salary, paid monthly.
pub trait AddSalaryEmployeeTx: PayrollDao + Sized {
    /// Returns the id of the new employee. Fails with
    /// `RegisterEmployeeFailed` where the id is taken, and then changes nothing.
    fn execute(&mut self, emp_id: EmployeeId, name: &str, address: &str, salary: Amount) -> (r:
        Result<EmployeeId, UsecaseError>)
        ensures
            final(self).dependable() == old(self).dependable(),
            match r {
                Ok(id) => id == emp_id && !old(self).state().employees.contains_key(emp_id)
                    && final(self).state() == old(self).state().with_employee(
                    new_employee(
                        emp_id,
                        name@,
                        address@,
                        ClassificationView::Salaried { salary },
                        PaymentScheduleImpl::Monthly,
                    ),
                ),
                Err(e) => e matches UsecaseError::RegisterEmployeeFailed(DaoError::InsertError(_))
                    && old(self).state().employees.contains_key(emp_id) && final(self).state()
                    == old(self).state(),
            },
    {
        AddEmployeeTx::execute(
            self,
            emp_id,
            name,
            address,
            PaymentClassificationImpl::Salaried { salary },
            PaymentScheduleImpl::Monthly,
        )
    }
}

impl<T: PayrollDao> AddSalaryEmployeeTx for T {

}

/// Adds an employee paid by the hour, every week.
pub trait AddHourlyEmployeeTx: PayrollDao + Sized {
    /// Returns the id of the new employee, who has no time cards yet. Fails
    /// with `RegisterEmployeeFailed` where the id is taken, and then changes
    /// nothing.
    fn execute(&mut self, emp_id: EmployeeId, name: &str, address: &str, hourly_rate: Amount) -> (r:
        Result<EmployeeId, UsecaseError>)
        ensures
            final(self).dependable() == old(self).dependable(),
            match r {
                Ok(id) => id == emp_id && !old(self).state().employees.contains_key(emp_id)
                    && final(self).state() == old(self).state().with_employee(
                    new_employee(
                        emp_id,
                        name@,
                        address@,
                        ClassificationView::Hourly { hourly_rate, timecards: Seq::empty() },
                        PaymentScheduleImpl::Weekly,
                    ),
                ),
                Err(e) => e matches UsecaseError::RegisterEmployeeFailed(DaoError::InsertError(_))
                    && old(self).state().employees.contains_key(emp_id) && final(self).state()
                    == old(self).state(),
            },
    {
        AddEmployeeTx::execute(
            self,
            emp_id,
            name,
            address,
            PaymentClassificationImpl::Hourly { hourly_rate, timecards: Vec::new() },
            PaymentScheduleImpl::Weekly,
        )
    }
}

impl<T: PayrollDao> AddHourlyEmployeeTx for T {

}

/// Adds an employee on a salary and a commission, paid every other week.
pub trait AddCommissionedEmployeeTx: PayrollDao + Sized {
    /// Returns the id of the new employee, who has no sales receipts yet.
    /// Fails with `RegisterEmployeeFailed` where the id is taken, and then
    /// changes nothing.
    fn execute(
        &mut self,
        emp_id: EmployeeId,
        name: &str,
        address: &str,
        salary: Amount,
        commission_rate: Amount,
    ) -> (r: Result<EmployeeId, UsecaseError>)
        ensures
            final(self).dependable() == old(self).dependable(),
            match r {
                Ok(id) => id == emp_id && !old(self).state().employees.contains_key(emp_id)
                    && final(self).state() == old(self).state().with_employee(
                    new_employee(
                        emp_id,
                        name@,
                        address@,
                        ClassificationView::Commissioned {
                            salary,
                            commission_rate,
                            sales_receipts: Seq::empty(),
                        },
                        PaymentScheduleImpl::Biweekly,
                    ),
                ),
                Err(e) => e matches UsecaseError::RegisterEmployeeFailed(DaoError::InsertError(_))
                    && old(self).state().employees.contains_key(emp_id) && final(self).state()
                    == old(self).state(),
            },
    {
        AddEmployeeTx::execute(
            self,
            emp_id,
            name,
            address,
            PaymentClassificationImpl::Commissioned {
                salary,
                commission_rate,
                sales_receipts: Vec::new(),
            },
            PaymentScheduleImpl::Biweekly,
        )
    }
}

impl<T: PayrollDao> AddCommissionedEmployeeTx for T {

}

/// The text of the failure of a transaction that found employee `emp_id`
/// otherwise than it `expected`.
pub open spec fn unexpected(expected: Seq<char>, emp_id: EmployeeId) -> Seq<char> {
    expected + decimal(emp_id as nat)
}

/// Enters a time card for an employee paid by the hour.
pub trait TimeCardTx: PayrollDao + Sized {
    /// Fails with `NotFound` where the store has no employee `emp_id`, and with
    /// `UnexpectedPaymentClassification` where the employee is not paid by the
    /// hour; either way nothing changes.
    fn execute(&mut self, emp_id: EmployeeId, date: Date, hours: Amount) -> (r: Result<
        (),
        UsecaseError,
    >)
        ensures
            final(self).dependable() == old(self).dependable(),
            ({
                let s = old(self).state();
                if !s.employees.contains_key(emp_id) {
                    not_found(r) && final(self).state() == s
                } else {
                    let emp = s.employees[emp_id];
                    match emp.classification {
                        ClassificationView::Hourly { hourly_rate, timecards } => r is Ok
                            && final(self).state() == s.with_employee(
                            EmployeeView {
                                classification: ClassificationView::Hourly {
                                    hourly_rate,
                                    timecards: timecards.push(TimeCard { date, hours }),
                                },
                                ..emp
                            },
                        ),
                        _ => (r matches Err(UsecaseError::UnexpectedPaymentClassification(text))
                            && text@ == unexpected("expected hourly emp_id: "@, emp_id))
                            && final(self).state() == s,
                    }
                }
            }),
    {
        let mut emp = match self.fetch(emp_id) {
            Ok(emp) => emp,
            Err(e) => {
                return Err(UsecaseError::NotFound(e));
            },
        };
        match &emp.classification {
            PaymentClassificationImpl::Hourly { .. } => {},
            _ => {
                return Err(
                    UsecaseError::UnexpectedPaymentClassification(
                        numbered("expected hourly emp_id: ", emp_id),
                    ),
                );
            },
        }
        emp.classification.add_timecard(TimeCard::new(date, hours));
        match self.update(emp) {
            Ok(_) => Ok(()),
            Err(e) => Err(UsecaseError::UpdateEmployeeFailed(e)),
        }
    }
}

impl<T: PayrollDao> TimeCardTx for T {

}

/// Enters a sales receipt for an employee on commission.
pub trait SalesReceiptTx: PayrollDao + Sized {
    /// Fails with `NotFound` where the store has no employee `emp_id`, and with
    /// `UnexpectedPaymentClassification` where the employee is not on
    /// commission; either way nothing changes.
    fn execute(&mut self, emp_id: EmployeeId, date: Date, amount: Amount) -> (r: Result<
        (),
        UsecaseError,
    >)
        ensures
            final(self).dependable() == old(self).dependable(),
            ({
                let s = old(self).state();
                if !s.employees.contains_key(emp_id) {
                    not_found(r) && final(self).state() == s
                } else {
                    let emp = s.employees[emp_id];
                    match emp.classification {
                        ClassificationView::Commissioned {
                            salary,
                            commission_rate,
                            sales_receipts,
                        } => r is Ok && final(self).state() == s.with_employee(
                            EmployeeView {
                                classification: ClassificationView::Commissioned {
                                    salary,
                                    commission_rate,
                                    sales_receipts: sales_receipts.push(
                                        SalesReceipt { date, amount },
                                    ),
                                },
                                ..emp
                            },
                        ),
                        _ => (r matches Err(UsecaseError::UnexpectedPaymentClassification(text))
                            && text@ == unexpected("expected commissioned emp_id: "@, emp_id))
                            && final(self).state() == s,
                    }
                }
            }),
    {
        let mut emp = match self.fetch(emp_id) {
            Ok(emp) => emp,
            Err(e) => {
                return Err(UsecaseError::NotFound(e));
            },
        };
        match &emp.classification {
            PaymentClassificationImpl::Commissioned { .. } => {},
            _ => {
                return Err(
                    UsecaseError::UnexpectedPaymentClassification(
                        numbered("expected commissioned emp_id: ", emp_id),
                    ),
                );
            },
        }
        emp.classification.add_sales_receipt(SalesReceipt::new(date, amount));
        match self.update(emp) {
            Ok(_) => Ok(()),
            Err(e) => Err(UsecaseError::UpdateEmployeeFailed(e)),
        }
    }
}

impl<T: PayrollDao> SalesReceiptTx for T {

}

/// Removes an employee. The union index is left as it is.
pub trait DeleteEmployeeTx: PayrollDao + Sized {
    /// Fails with `UnregisterEmployeeFailed` where the store has no employee
    /// `emp_id`, and then changes nothing.
    fn execute(&mut self, emp_id: EmployeeId) -> (r: Result<(), UsecaseError>)
        ensures
            final(self).dependable() == old(self).dependable(),
            match r {
                Ok(_) => old(self).state().employees.contains_key(emp_id) && final(self).state()
                    == old(self).state().without_employee(emp_id),
                Err(e) => e matches UsecaseError::UnregisterEmployeeFailed(
                    DaoError::DeleteError(_),
                ) && !old(self).state().employees.contains_key(emp_id) && final(self).state()
                    == old(self).state(),
            },
    {
        match self.delete(emp_id) {
            Ok(_) => Ok(()),
            Err(e) => Err(UsecaseError::UnregisterEmployeeFailed(e)),
        }
    }
}

impl<T: PayrollDao> DeleteEmployeeTx for T {

}

/// The change that replaces the name.
pub struct NameChange<'a> {
    pub name: &'a str,
}

impl<'a, D: PayrollDao> EmployeeChange<D> for NameChange<'a> {
    open spec fn applies(&self, s: PayrollState, emp: EmployeeView) -> bool {
        true
    }

    open spec fn store_after(&self, s: PayrollState, emp: EmployeeView) -> PayrollState {
        s
    }

    open spec fn employee_after(&self, s: PayrollState, emp: EmployeeView) -> EmployeeView {
        EmployeeView { name: self.name@, ..emp }
    }

    open spec fn fails_with(&self, s: PayrollState, emp: EmployeeView, e: UsecaseError) -> bool {
        false
    }

    fn apply(self, ctx: &mut D, emp: &mut Employee) -> (r: Result<(), UsecaseError>) {
        emp.set_name(self.name);
        Ok(())
    }
}

/// The state in which employee `emp_id` bears the name `name`.
pub open spec fn renamed(s: PayrollState, emp_id: EmployeeId, name: Seq<char>) -> PayrollState {
    s.with_employee(EmployeeView { name, ..s.employees[emp_id] })
}

/// Replaces the name of an employee.
pub trait ChangeEmployeeNameTx: PayrollDao + Sized {
    /// Fails with `NotFound` where the store has no employee `emp_id`, and
    /// then changes nothing.
    fn execute(&mut self, emp_id: EmployeeId, name: &str) -> (r: Result<(), UsecaseError>)
        ensures
            final(self).dependable() == old(self).dependable(),
            ({
                let s = old(self).state();
                if !s.employees.contains_key(emp_id) {
                    not_found(r) && final(self).state() == s
                } else {
                    r is Ok && final(self).state() == renamed(s, emp_id, name@)
                }
            }),
    {
        ChangeEmployeeTx::execute(self, emp_id, NameChange { name })
    }
}

impl<T: PayrollDao> ChangeEmployeeNameTx for T {

}

/// The change that replaces the address.
pub struct AddressChange<'a> {
    pub address: &'a str,
}

impl<'a, D: PayrollDao> EmployeeChange<D> for AddressChange<'a> {
    open spec fn applies(&self, s: PayrollState, emp: EmployeeView) -> bool {
        true
    }

    open spec fn store_after(&self, s: PayrollState, emp: EmployeeView) -> PayrollState {
        s
    }

    open spec fn employee_after(&self, s: PayrollState, emp: EmployeeView) -> EmployeeView {
        EmployeeView { address: self.address@, ..emp }
    }

    open spec fn fails_with(&self, s: PayrollState, emp: EmployeeView, e: UsecaseError) -> bool {
        false
    }

    fn apply(self, ctx: &mut D, emp: &mut Employee) -> (r: Result<(), UsecaseError>) {
        emp.set_address(self.address);
        Ok(())
    }
}

/// Replaces the address of an employee.
pub trait ChangeEmployeeAddressTx: PayrollDao + Sized {
    /// Fails with `NotFound` where the store has no employee `emp_id`, and
    /// then changes nothing.
    fn execute(&mut self, emp_id: EmployeeId, address: &str) -> (r: Result<(), UsecaseError>)
        ensures
            final(self).dependable() == old(self).dependable(),
            ({
                let s = old(self).state();
                if !s.employees.contains_key(emp_id) {
                    not_found(r) && final(self).state() == s
                } else {
                    r is Ok && final(self).state() == s.with_employee(
                        EmployeeView { address: address@, ..s.employees[emp_id] },
                    )
                }
            }),
    {
        ChangeEmployeeTx::execute(self, emp_id, AddressChange { address })
    }
}

impl<T: PayrollDao> ChangeEmployeeAddressTx for T {

}

/// Puts an employee on a salary, paid monthly.
pub trait ChangeEmployeeSalariedTx: PayrollDao + Sized {
    /// Fails with `NotFound` where the store has no employee `emp_id`, and
    /// then changes nothing.
    fn execute(&mut self, emp_id: EmployeeId, salary: Amount) -> (r: Result<(), UsecaseError>)
        ensures
            final(self).dependable() == old(self).dependable(),
            ({
                let s = old(self).state();
                if !s.employees.contains_key(emp_id) {
                    not_found(r) && final(self).state() == s
                } else {
                    r is Ok && final(self).state() == s.with_employee(
                        EmployeeView {
                            classification: ClassificationView::Salaried { salary },
                            schedule: PaymentScheduleImpl::Monthly,
                            ..s.employees[emp_id]
                        },
                    )
                }
            }),
    {
        ChangeEmployeePaymentClassificationTx::execute(
            self,
            emp_id,
            PaymentClassificationImpl::Salaried { salary },
            PaymentScheduleImpl::Monthly,
        )
    }
}

impl<T: PayrollDao> ChangeEmployeeSalariedTx for T {

}

/// Puts an employee on pay by the hour, every week, with no time cards.
pub trait ChangeEmployeeHourlyTx: PayrollDao + Sized {
    /// Fails with `NotFound` where the store has no employee `emp_id`, and
    /// then changes nothing.
    fn execute(&mut self, emp_id: EmployeeId, hourly_rate: Amount) -> (r: Result<(), UsecaseError>)
        ensures
            final(self).dependable() == old(self).dependable(),
            ({
                let s = old(self).state();
                if !s.employees.contains_key(emp_id) {
                    not_found(r) && final(self).state() == s
                } else {
                    r is Ok && final(self).state() == s.with_employee(
                        EmployeeView {
                            classification: ClassificationView::Hourly {
                                hourly_rate,
                                timecards: Seq::empty(),
                            },
                            schedule: PaymentScheduleImpl::Weekly,
                            ..s.employees[emp_id]
                        },
                    )
                }
            }),
    {
        ChangeEmployeePaymentClassificationTx::execute(
            self,
            emp_id,
            PaymentClassificationImpl::Hourly { hourly_rate, timecards: Vec::new() },
            PaymentScheduleImpl::Weekly,
        )
    }
}

impl<T: PayrollDao> ChangeEmployeeHourlyTx for T {

}

/// Puts an employee on a salary and a commission, paid every other week, with
/// no sales receipts.
pub trait ChangeEmployeeCommissionedTx: PayrollDao + Sized {
    /// Fails with `NotFound` where the store has no employee `emp_id`, and
    /// then changes nothing.
    fn execute(&mut self, emp_id: EmployeeId, salary: Amount, commission_rate: Amount) -> (r:
        Result<(), UsecaseError>)
        ensures
            final(self).dependable() == old(self).dependable(),
            ({
                let s = old(self).state();
                if !s.employees.contains_key(emp_id) {
                    not_found(r) && final(self).state() == s
                } else {
                    r is Ok && final(self).state() == s.with_employee(
                        EmployeeView {
                            classification: ClassificationView::Commissioned {
                                salary,
                                commission_rate,
                                sales_receipts: Seq::empty(),
                            },
                            schedule: PaymentScheduleImpl::Biweekly,
                            ..s.employees[emp_id]
                        },
                    )
                }
            }),
    {
        ChangeEmployeePaymentClassificationTx::execute(
            self,
            emp_id,
            PaymentClassificationImpl::Commissioned {
                salary,
                commission_rate,
                sales_receipts: Vec::new(),
            },
            PaymentScheduleImpl::Biweekly,
        )
    }
}

impl<T: PayrollDao> ChangeEmployeeCommissionedTx for T {

}

/// Has the paymaster hold the checks of an employee.
pub trait ChangeEmployeeHoldTx: PayrollDao + Sized {
    /// Fails with `NotFound` where the store has no employee `emp_id`, and
    /// then changes nothing.
    fn execute(&mut self, emp_id: EmployeeId) -> (r: Result<(), UsecaseError>)
        ensures
            final(self).dependable() == old(self).dependable(),
            ({
                let s = old(self).state();
                if !s.employees.contains_key(emp_id) {
                    not_found(r) && final(self).state() == s
                } else {
                    r is Ok && final(self).state() == s.with_employee(
                        EmployeeView { method: MethodView::Hold, ..s.employees[emp_id] },
                    )
                }
            }),
    {
        ChangeEmployeePaymentMethodTx::execute(self, emp_id, PaymentMethodImpl::Hold)
    }
}

impl<T: PayrollDao> ChangeEmployeeHoldTx for T {

}

/// Has the pay of an employee deposited in a bank account.
pub trait ChangeEmployeeDirectTx: PayrollDao + Sized {
    /// Fails with `NotFound` where the store has no employee `emp_id`, and
    /// then changes nothing.
    fn execute(&mut self, emp_id: EmployeeId, bank: &str, account: &str) -> (r: Result<
        (),
        UsecaseError,
    >)
        ensures
            final(self).dependable() == old(self).dependable(),
            ({
                let s = old(self).state();
                if !s.employees.contains_key(emp_id) {
                    not_found(r) && final(self).state() == s
                } else {
                    r is Ok && final(self).state() == s.with_employee(
                        EmployeeView {
                            method: MethodView::Direct { bank: bank@, account: account@ },
                            ..s.employees[emp_id]
                        },
                    )
                }
            }),
    {
        ChangeEmployeePaymentMethodTx::execute(
            self,
            emp_id,
            PaymentMethodImpl::Direct { bank: bank.to_owned(), account: account.to_owned() },
        )
    }
}

impl<T: PayrollDao> ChangeEmployeeDirectTx for T {

}

/// Has the checks of an employee sent by mail.
pub trait ChangeEmployeeMailTx: PayrollDao + Sized {
    /// Fails with `NotFound` where the store has no employee `emp_id`, and
    /// then changes nothing.
    fn execute(&mut self, emp_id: EmployeeId, address: &str) -> (r: Result<(), UsecaseError>)
        ensures
            final(self).dependable() == old(self).dependable(),
            ({
                let s = old(self).state();
                if !s.employees.contains_key(emp_id) {
                    not_found(r) && final(self).state() == s
                } else {
                    r is Ok && final(self).state() == s.with_employee(
                        EmployeeView {
                            method: MethodView::Mail { address: address@ },
                            ..s.employees[emp_id]
                        },
                    )
                }
            }),
    {
        ChangeEmployeePaymentMethodTx::execute(
            self,
            emp_id,
            PaymentMethodImpl::Mail { address: address.to_owned() },
        )
    }
}

impl<T: PayrollDao> ChangeEmployeeMailTx for T {

}

/// The first part of joining a union: the member id is entered in the union index.
pub struct MembershipEntry {
    pub member_id: MemberId,
    pub emp_id: EmployeeId,
}

impl<D: PayrollDao> EmployeeChange<D> for MembershipEntry {
    open spec fn applies(&self, s: PayrollState, emp: EmployeeView) -> bool {
        !s.union_members.contains_key(self.member_id) && !s.is_member(self.emp_id)
    }

    open spec fn store_after(&self, s: PayrollState, emp: EmployeeView) -> PayrollState {
        if !s.union_members.contains_key(self.member_id) && !s.is_member(self.emp_id) {
            s.with_member(self.member_id, self.emp_id)
        } else {
            s
        }
    }

    open spec fn employee_after(&self, s: PayrollState, emp: EmployeeView) -> EmployeeView {
        emp
    }

    open spec fn fails_with(&self, s: PayrollState, emp: EmployeeView, e: UsecaseError) -> bool {
        e matches UsecaseError::AddUnionMemberFailed(DaoError::InsertError(_))
    }

    fn apply(self, ctx: &mut D, emp: &mut Employee) -> (r: Result<(), UsecaseError>) {
        match ctx.add_union_member(self.member_id, self.emp_id) {
            Ok(_) => Ok(()),
            Err(e) => Err(UsecaseError::AddUnionMemberFailed(e)),
        }
    }
}

/// Makes an employee a member of the union.
pub trait ChangeUnionMemberTx: PayrollDao + Sized {
    /// Fails with `NotFound` where the store has no employee `emp_id`, and with
    /// `AddUnionMemberFailed` where the union index knows `member_id` or leads
    /// to `emp_id` already; either way nothing changes. Otherwise the index
    /// leads from `member_id` to `emp_id`, and the employee is a member with
    /// these dues and no service charges.
    fn execute(&mut self, emp_id: EmployeeId, member_id: MemberId, dues: Amount) -> (r: Result<
        (),
        UsecaseError,
    >)
        ensures
            final(self).dependable() == old(self).dependable(),
            ({
                let s = old(self).state();
                if !s.employees.contains_key(emp_id) {
                    not_found(r) && final(self).state() == s
                } else if s.union_members.contains_key(member_id) || s.is_member(emp_id) {
                    r matches Err(UsecaseError::AddUnionMemberFailed(DaoError::InsertError(_)))
                        && final(self).state() == s
                } else {
                    r is Ok && final(self).state() == s.with_member(
                        member_id,
                        emp_id,
                    ).with_employee(
                        EmployeeView {
                            affiliation: AffiliationView::Union {
                                member_id,
                                dues,
                                service_charges: Seq::empty(),
                            },
                            ..s.employees[emp_id]
                        },
                    )
                }
            }),
    {
        ChangeAffiliationTx::execute(
            self,
            emp_id,
            MembershipEntry { member_id, emp_id },
            AffiliationImpl::Union { member_id, dues, service_charges: Vec::new() },
        )
    }
}

impl<T: PayrollDao> ChangeUnionMemberTx for T {

}

/// The first part of leaving the union: the member id of the employee is
/// taken out of the union index.
pub struct MembershipRemoval {
    pub emp_id: EmployeeId,
}

impl<D: PayrollDao> EmployeeChange<D> for MembershipRemoval {
    open spec fn applies(&self, s: PayrollState, emp: EmployeeView) -> bool {
        emp.affiliation matches AffiliationView::Union { member_id, .. }
            && s.union_members.contains_key(member_id)
    }

    open spec fn store_after(&self, s: PayrollState, emp: EmployeeView) -> PayrollState {
        match emp.affiliation {
            AffiliationView::Union { member_id, .. } => if s.union_members.contains_key(
                member_id,
            ) {
                s.without_member(member_id)
            } else {
                s
            },
            AffiliationView::Unaffiliated => s,
        }
    }

    open spec fn employee_after(&self, s: PayrollState, emp: EmployeeView) -> EmployeeView {
        emp
    }

    open spec fn fails_with(&self, s: PayrollState, emp: EmployeeView, e: UsecaseError) -> bool {
        match emp.affiliation {
            AffiliationView::Union { .. } => e matches UsecaseError::RemoveUnionMemberFailed(
                DaoError::DeleteError(_),
            ),
            AffiliationView::Unaffiliated => e matches UsecaseError::UnexpectedAffiliation(text)
                && text@ == unexpected("expected unaffiliated emp_id: "@, self.emp_id),
        }
    }

    fn apply(self, ctx: &mut D, emp: &mut Employee) -> (r: Result<(), UsecaseError>) {
        let member_id: MemberId = match emp.get_affiliation() {
            AffiliationImpl::Union { member_id, .. } => *member_id,
            AffiliationImpl::Unaffiliated => {
                return Err(
                    UsecaseError::UnexpectedAffiliation(
                        numbered("expected unaffiliated emp_id: ", self.emp_id),
                    ),
                );
            },
        };
        match ctx.remove_union_member(member_id) {
            Ok(_) => Ok(()),
            Err(e) => Err(UsecaseError::RemoveUnionMemberFailed(e)),
        }
    }
}

/// Takes an employee out of the union.
pub trait ChangeUnaffiliatedTx: PayrollDao + Sized {
    /// Fails with `NotFound` where the store has no employee `emp_id`, with
    /// `UnexpectedAffiliation` where the employee is no member, and with
    /// `RemoveUnionMemberFailed` where the union index does not know the
    /// employee's member id; in each case nothing changes. Otherwise the
    /// member id is gone from the index, and with the membership the
    /// employee's service charges.
    fn execute(&mut self, emp_id: EmployeeId) -> (r: Result<(), UsecaseError>)
        ensures
            final(self).dependable() == old(self).dependable(),
            ({
                let s = old(self).state();
                if !s.employees.contains_key(emp_id) {
                    not_found(r) && final(self).state() == s
                } else {
                    match s.employees[emp_id].affiliation {
                        AffiliationView::Unaffiliated => (r matches Err(
                            UsecaseError::UnexpectedAffiliation(text),
                        ) && text@ == unexpected("expected unaffiliated emp_id: "@, emp_id))
                            && final(self).state() == s,
                        AffiliationView::Union {
                            member_id,
                            ..
                        } => if !s.union_members.contains_key(member_id) {
                            r matches Err(
                                UsecaseError::RemoveUnionMemberFailed(DaoError::DeleteError(_)),
                            ) && final(self).state() == s
                        } else {
                            r is Ok && final(self).state() == s.without_member(
                                member_id,
                            ).with_employee(
                                EmployeeView {
                                    affiliation: AffiliationView::Unaffiliated,
                                    ..s.employees[emp_id]
                                },
                            )
                        },
                    }
                }
            }),
    {
        ChangeAffiliationTx::execute(
            self,
            emp_id,
            MembershipRemoval { emp_id },
            AffiliationImpl::Unaffiliated,
        )
    }
}

impl<T: PayrollDao> ChangeUnaffiliatedTx for T {

}

/// Enters a service charge against a union member.
pub trait ServiceChargeTx: PayrollDao + Sized {
    /// Fails with `NotFound` where the union index does not know `member_id`
    /// or the store has no employee under the id it leads to, and with
    /// `UnexpectedAffiliation` where that employee is no member; in each case
    /// nothing changes.
    fn execute(&mut self, member_id: MemberId, date: Date, amount: Amount) -> (r: Result<
        (),
        UsecaseError,
    >)
        ensures
            final(self).dependable() == old(self).dependable(),
            ({
                let s = old(self).state();
                if !s.union_members.contains_key(member_id) || !s.employees.contains_key(
                    s.union_members[member_id],
                ) {
                    not_found(r) && final(self).state() == s
                } else {
                    let emp = s.employees[s.union_members[member_id]];
                    match emp.affiliation {
                        AffiliationView::Union {
                            member_id: own_member_id,
                            dues,
                            service_charges,
                        } => r is Ok && final(self).state() == s.with_employee(
                            EmployeeView {
                                affiliation: AffiliationView::Union {
                                    member_id: own_member_id,
                                    dues,
                                    service_charges: service_charges.push(
                                        ServiceCharge { date, amount },
                                    ),
                                },
                                ..emp
                            },
                        ),
                        AffiliationView::Unaffiliated => (r matches Err(
                            UsecaseError::UnexpectedAffiliation(text),
                        ) && text@ == unexpected("expected union emp_id: "@, emp.emp_id))
                            && final(self).state() == s,
                    }
                }
            }),
    {
        let emp_id: EmployeeId = match self.find_union_member(member_id) {
            Ok(emp_id) => emp_id,
            Err(e) => {
                return Err(UsecaseError::NotFound(e));
            },
        };
        let mut emp = match self.fetch(emp_id) {
            Ok(emp) => emp,
            Err(e) => {
                return Err(UsecaseError::NotFound(e));
            },
        };
        match &emp.affiliation {
            AffiliationImpl::Union { .. } => {},
            AffiliationImpl::Unaffiliated => {
                return Err(
                    UsecaseError::UnexpectedAffiliation(
                        numbered("expected union emp_id: ", emp_id),
                    ),
                );
            },
        }
        emp.affiliation.add_service_charge(ServiceCharge::new(date, amount));
        match self.update(emp) {
            Ok(_) => Ok(()),
            Err(e) => Err(UsecaseError::UpdateEmployeeFailed(e)),
        }
    }
}

impl<T: PayrollDao> ServiceChargeTx for T {

}

/// Whether employee `emp_id` stands in the store and is paid on `pay_date`.
pub open spec fn is_due(s: PayrollState, emp_id: EmployeeId, pay_date: Date) -> bool {
    s.employees.contains_key(emp_id) && s.employees[emp_id].pays_on(pay_date.day_number())
}

/// The state after the payday `pay_date`: for each employee who is due, the
/// paycheck for the period that the day closes is recorded after those
/// recorded before; all else is as it was.
pub open spec fn settled(s: PayrollState, pay_date: Date) -> PayrollState {
    PayrollState {
        paychecks: Map::new(
            |emp_id: EmployeeId| s.paychecks.contains_key(emp_id) || is_due(s, emp_id, pay_date),
            |emp_id: EmployeeId|
                if is_due(s, emp_id, pay_date) {
                    s.paychecks_of(emp_id).push(s.employees[emp_id].paycheck_due(pay_date))
                } else {
                    s.paychecks[emp_id]
                },
        ),
        ..s
    }
}

/// The order to pay employee `emp_id` what they are due on `pay_date`, by
/// their own method.
pub open spec fn order_due(
    s: PayrollState,
    emp_id: EmployeeId,
    pay_date: Date,
) -> DisbursementView {
    DisbursementView {
        method: s.employees[emp_id].method,
        paycheck: s.employees[emp_id].paycheck_due(pay_date),
    }
}

/// Whether `ids` and `orders` are the orders of the payday `pay_date`: one
/// for each employee who is due, and no other.
pub open spec fn orders_due(
    s: PayrollState,
    pay_date: Date,
    ids: Seq<EmployeeId>,
    orders: Seq<DisbursementView>,
) -> bool {
    &&& ids.len() == orders.len()
    &&& forall|k: int|
        0 <= k < ids.len() ==> is_due(s, #[trigger] ids[k], pay_date) && orders[k] == order_due(
            s,
            ids[k],
            pay_date,
        )
    &&& forall|i: int, j: int| 0 <= i < j < ids.len() ==> #[trigger] ids[i] != #[trigger] ids[j]
    &&& forall|emp_id: EmployeeId| #[trigger]
        is_due(s, emp_id, pay_date) ==> exists|k: int|
            0 <= k < ids.len() && #[trigger] ids[k] == emp_id
}

/// The employee ids of `orders`, in their order.
pub open spec fn ids_of(orders: Seq<(EmployeeId, Disbursement)>) -> Seq<EmployeeId> {
    Seq::new(orders.len(), |k: int| orders[k].0)
}

/// What the disbursements of `orders` hold, in their order.
pub open spec fn disbursements_of(orders: Seq<(EmployeeId, Disbursement)>) -> Seq<
    DisbursementView,
> {
    Seq::new(orders.len(), |k: int| orders[k].1@)
}

/// Whether one of the first `n` of `listed` has the id `emp_id`.
pub open spec fn listed_before(listed: Seq<EmployeeView>, n: int, emp_id: EmployeeId) -> bool {
    exists|j: int| 0 <= j < n && #[trigger] listed[j].emp_id == emp_id
}

/// The paychecks recorded when the payday `pay_date` has reached the first `n`
/// of the `listed` employees.
pub open spec fn settled_so_far(
    s: PayrollState,
    pay_date: Date,
    listed: Seq<EmployeeView>,
    n: int,
) -> Map<EmployeeId, Seq<Paycheck>> {
    Map::new(
        |emp_id: EmployeeId|
            s.paychecks.contains_key(emp_id) || (is_due(s, emp_id, pay_date) && listed_before(
                listed,
                n,
                emp_id,
            )),
        |emp_id: EmployeeId|
            if is_due(s, emp_id, pay_date) && listed_before(listed, n, emp_id) {
                s.paychecks_of(emp_id).push(s.employees[emp_id].paycheck_due(pay_date))
            } else {
                s.paychecks[emp_id]
            },
    )
}

/// Whether a payday that began on a store that held `s` broke off with the
/// failure `e` and left the store holding `after`: either the employees could
/// not be listed, and nothing was recorded; or the store listed them as
/// `listed`, and the paycheck of the one at `n`, who was due, could not be
/// recorded, after the paychecks of all who were due before were recorded.
pub open spec fn broke_off(
    s: PayrollState,
    after: PayrollState,
    pay_date: Date,
    e: UsecaseError,
) -> bool {
    ||| e matches UsecaseError::GetAllFailed(DaoError::FetchError(_)) && after == s
    ||| e matches UsecaseError::UpdateEmployeeFailed(DaoError::UpdateError(_)) && exists|
        listed: Seq<EmployeeView>,
        n: int,
    | #[trigger] broke_off_at(s, after, pay_date, listed, n)
}

/// Whether a payday that began on a store that held `s`, and listed the
/// employees as `listed`, broke off at the employee at `n` and left the store
/// holding `after`.
pub open spec fn broke_off_at(
    s: PayrollState,
    after: PayrollState,
    pay_date: Date,
    listed: Seq<EmployeeView>,
    n: int,
) -> bool {
    &&& s.lists(listed)
    &&& 0 <= n < listed.len()
    &&& is_due(s, listed[n].emp_id, pay_date)
    &&& after == (PayrollState { paychecks: settled_so_far(s, pay_date, listed, n), ..s })
}

/// Pays every employee who is due on a day.
pub trait PaydayTx: PayrollDao + Sized {
    /// Records a paycheck for each employee who is paid on `pay_date`, and
    /// returns the orders to pay them out, each with the id of its employee,
    /// in the order in which the store listed the employees.
    ///
    /// On a dependable store this never fails. On another it fails with
    /// `GetAllFailed` where the store cannot list the employees, and with
    /// `UpdateEmployeeFailed` where it cannot record a paycheck: the run
    /// breaks off there, the paychecks recorded before stay recorded, and no
    /// order is handed back.
    fn execute(&mut self, pay_date: Date) -> (r: Result<
        Vec<(EmployeeId, Disbursement)>,
        UsecaseError,
    >)
        ensures
            final(self).dependable() == old(self).dependable(),
            match r {
                Ok(orders) => final(self).state() == settled(old(self).state(), pay_date)
                    && orders_due(
                    old(self).state(),
                    pay_date,
                    ids_of(orders@),
                    disbursements_of(orders@),
                ),
                Err(e) => !old(self).dependable() && broke_off(
                    old(self).state(),
                    final(self).state(),
                    pay_date,
                    e,
                ),
            },
    {
        let ghost s = self.state();
        let emps = match self.fetch_all() {
            Ok(emps) => emps,
            Err(e) => {
                return Err(UsecaseError::GetAllFailed(e));
            },
        };
        let ghost listed = views_of(emps@);
        let mut orders: Vec<(EmployeeId, Disbursement)> = Vec::new();
        let mut i: usize = 0;
        assert(self.state().paychecks =~= settled_so_far(s, pay_date, listed, 0));
        while i < emps.len()
            invariant
                i <= emps.len(),
                listed == views_of(emps@),
                s == old(self).state(),
                s.lists(listed),
                self.dependable() == old(self).dependable(),
                self.state().employees == s.employees,
                self.state().union_members == s.union_members,
                self.state().paychecks == settled_so_far(s, pay_date, listed, i as int),
                forall|k: int|
                    0 <= k < orders@.len() ==> is_due(s, (#[trigger] orders@[k]).0, pay_date)
                        && listed_before(listed, i as int, orders@[k].0) && orders@[k].1@
                        == order_due(s, orders@[k].0, pay_date),
                forall|a: int, b: int|
                    0 <= a < b < orders@.len() ==> (#[trigger] orders@[a]).0 != (
                    #[trigger] orders@[b]).0,
                forall|id: EmployeeId|
                    is_due(s, id, pay_date) && listed_before(listed, i as int, id) ==> exists|
                        k: int,
                    |
                        0 <= k < orders@.len() && (#[trigger] orders@[k]).0 == id,
            decreases emps.len() - i,
        {
            let emp = &emps[i];
            let ghost before = self.state();
            let ghost orders_before = orders@;
            let emp_id: EmployeeId = emp.get_emp_id();
            assert(listed[i as int] == emp@);
            assert(s.employees.contains_key(listed[i as int].emp_id));
            assert(!listed_before(listed, i as int, emp_id)) by {
                if listed_before(listed, i as int, emp_id) {
                    let j = choose|j: int| 0 <= j < i && #[trigger] listed[j].emp_id == emp_id;
                    assert(listed[j].emp_id != listed[i as int].emp_id);
                }
            }
            assert forall|id: EmployeeId|
                listed_before(listed, i + 1, id) <==> listed_before(listed, i as int, id) || id
                    == emp_id by {
                if listed_before(listed, i + 1, id) {
                    let j = choose|j: int| 0 <= j < i + 1 && #[trigger] listed[j].emp_id == id;
                    if j < i {
                        assert(listed_before(listed, i as int, id));
                    }
                }
                if listed_before(listed, i as int, id) {
                    let j = choose|j: int| 0 <= j < i && #[trigger] listed[j].emp_id == id;
                    assert(0 <= j < i + 1 && listed[j].emp_id == id);
                }
                if id == emp_id {
                    assert(0 <= i < i + 1 && listed[i as int].emp_id == id);
                }
            }
            if emp.is_pay_date(pay_date) {
                let period = emp.get_pay_period(pay_date);
                let mut pc = Paycheck::new(period);
                let order = emp.payday(&mut pc);
                match self.record_paycheck(emp_id, pc) {
                    Ok(_) => {},
                    Err(e) => {
                        assert(self.state() == (PayrollState {
                            paychecks: settled_so_far(s, pay_date, listed, i as int),
                            ..s
                        }));
                        assert(broke_off_at(s, self.state(), pay_date, listed, i as int));
                        return Err(UsecaseError::UpdateEmployeeFailed(e));
                    },
                }
                orders.push((emp_id, order));
                proof {
                    assert(is_due(s, emp_id, pay_date));
                    assert(self.state().paychecks =~= settled_so_far(s, pay_date, listed, i + 1));
                    assert(pc == s.employees[emp_id].paycheck_due(pay_date));
                    assert(orders@[orders_before.len() as int].0 == emp_id);
                    assert forall|k: int| 0 <= k < orders_before.len() implies (
                    #[trigger] orders@[k]) == orders_before[k] by {}
                    assert forall|id: EmployeeId|
                        is_due(s, id, pay_date) && listed_before(
                            listed,
                            i + 1,
                            id,
                        ) implies exists|k: int|
                        0 <= k < orders@.len() && (#[trigger] orders@[k]).0 == id by {
                        if id == emp_id {
                            assert(orders@[orders_before.len() as int].0 == id);
                        } else {
                            let k = choose|k: int|
                                0 <= k < orders_before.len() && (#[trigger] orders_before[k]).0
                                    == id;
                            assert(orders@[k].0 == id);
                        }
                    }
                }
            } else {
                assert(self.state().paychecks =~= settled_so_far(s, pay_date, listed, i + 1));
            }
            i = i + 1;
        }
        proof {
            assert forall|id: EmployeeId| s.employees.contains_key(id) implies listed_before(
                listed,
                emps.len() as int,
                id,
            ) by {
                let j = choose|j: int| 0 <= j < listed.len() && #[trigger] listed[j].emp_id == id;
                assert(0 <= j < emps.len() && listed[j].emp_id == id);
            }
            assert(self.state().paychecks =~= settled(s, pay_date).paychecks);
            let ids = ids_of(orders@);
            let views = disbursements_of(orders@);
            assert forall|emp_id: EmployeeId| #[trigger]
                is_due(s, emp_id, pay_date) implies exists|k: int|
                0 <= k < ids.len() && #[trigger] ids[k] == emp_id by {
                let k = choose|k: int|
                    0 <= k < orders@.len() && (#[trigger] orders@[k]).0 == emp_id;
                assert(ids[k] == emp_id);
            }
        }
        Ok(orders)
    }
}

impl<T: PayrollDao> PaydayTx for T {

}

} // verus!
