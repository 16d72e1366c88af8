//! The templates from which the transactions are made: add an employee, and
//! fetch an employee, change it and store it again.

use vstd::prelude::*;
use vstd::string::StringExecFns;
use crate::affiliation::AffiliationImpl;
use crate::affiliation::AffiliationView;
use crate::classification::ClassificationView;
use crate::classification::PaymentClassificationImpl;
use crate::dao::DaoError;
use crate::dao::PayrollDao;
use crate::dao::PayrollState;
use crate::method::MethodView;
use crate::method::PaymentMethodImpl;
use crate::payroll_domain::Employee;
use crate::payroll_domain::EmployeeId;
use crate::payroll_domain::EmployeeView;
use crate::schedule::PaymentScheduleImpl;

verus! {

/// A failure of a transaction: the failure of the store behind it, or a text
/// that says what the transaction did not find as it expected.
#[derive(Debug, PartialEq)]
pub enum UsecaseError {
    RegisterEmployeeFailed(DaoError),
    UnregisterEmployeeFailed(DaoError),
    NotFound(DaoError),
    GetAllFailed(DaoError),
    UnexpectedPaymentClassification(String),
    UpdateEmployeeFailed(DaoError),
    UnexpectedAffiliation(String),
    AddUnionMemberFailed(DaoError),
    RemoveUnionMemberFailed(DaoError),
}

impl Clone for UsecaseError {
    fn clone(&self) -> (r: UsecaseError)
        ensures
            r == *self,
    {
        match self {
            UsecaseError::RegisterEmployeeFailed(inner) => UsecaseError::RegisterEmployeeFailed(
                inner.clone(),
            ),
            UsecaseError::UnregisterEmployeeFailed(inner) => UsecaseError::UnregisterEmployeeFailed(
                inner.clone(),
            ),
            UsecaseError::NotFound(inner) => UsecaseError::NotFound(inner.clone()),
            UsecaseError::GetAllFailed(inner) => UsecaseError::GetAllFailed(inner.clone()),
            UsecaseError::UnexpectedPaymentClassification(inner) => {
                UsecaseError::UnexpectedPaymentClassification(inner.clone())
            },
            UsecaseError::UpdateEmployeeFailed(inner) => UsecaseError::UpdateEmployeeFailed(
                inner.clone(),
            ),
            UsecaseError::UnexpectedAffiliation(inner) => UsecaseError::UnexpectedAffiliation(
                inner.clone(),
            ),
            UsecaseError::AddUnionMemberFailed(inner) => UsecaseError::AddUnionMemberFailed(
                inner.clone(),
            ),
            UsecaseError::RemoveUnionMemberFailed(inner) => UsecaseError::RemoveUnionMemberFailed(
                inner.clone(),
            ),
        }
    }
}

impl UsecaseError {
    /// The words that name the kind of failure.
    pub open spec fn heading(self) -> Seq<char> {
        match self {
            UsecaseError::RegisterEmployeeFailed(_) => "register employee failed: "@,
            UsecaseError::UnregisterEmployeeFailed(_) => "unregister employee failed: "@,
            UsecaseError::NotFound(_) => "employee not found: "@,
            UsecaseError::GetAllFailed(_) => "can't get all employees: "@,
            UsecaseError::UnexpectedPaymentClassification(_) =>
                "unexpected payment classification: "@,
            UsecaseError::UpdateEmployeeFailed(_) => "update employee failed: "@,
            UsecaseError::UnexpectedAffiliation(_) => "unexpected affiliation: "@,
            UsecaseError::AddUnionMemberFailed(_) => "add union member failed: "@,
            UsecaseError::RemoveUnionMemberFailed(_) => "remove union member failed: "@,
        }
    }

    /// What the failure carries, in words.
    pub open spec fn detail(self) -> Seq<char> {
        match self {
            UsecaseError::RegisterEmployeeFailed(e) => e.heading() + e.detail(),
            UsecaseError::UnregisterEmployeeFailed(e) => e.heading() + e.detail(),
            UsecaseError::NotFound(e) => e.heading() + e.detail(),
            UsecaseError::GetAllFailed(e) => e.heading() + e.detail(),
            UsecaseError::UnexpectedPaymentClassification(text) => text@,
            UsecaseError::UpdateEmployeeFailed(e) => e.heading() + e.detail(),
            UsecaseError::UnexpectedAffiliation(text) => text@,
            UsecaseError::AddUnionMemberFailed(e) => e.heading() + e.detail(),
            UsecaseError::RemoveUnionMemberFailed(e) => e.heading() + e.detail(),
        }
    }

    /// The failure in words: the kind, then what it carries.
    pub fn message(&self) -> (r: String)
        ensures
            r@ == self.heading() + self.detail(),
    {
        match self {
            UsecaseError::RegisterEmployeeFailed(e) => String::from_str(
                "register employee failed: ",
            ).concat(e.message().as_str()),
            UsecaseError::UnregisterEmployeeFailed(e) => String::from_str(
                "unregister employee failed: ",
            ).concat(e.message().as_str()),
            UsecaseError::NotFound(e) => String::from_str("employee not found: ").concat(
                e.message().as_str(),
            ),
            UsecaseError::GetAllFailed(e) => String::from_str("can't get all employees: ").concat(
                e.message().as_str(),
            ),
            UsecaseError::UnexpectedPaymentClassification(text) => String::from_str(
                "unexpected payment classification: ",
            ).concat(text.as_str()),
            UsecaseError::UpdateEmployeeFailed(e) => String::from_str(
                "update employee failed: ",
            ).concat(e.message().as_str()),
            UsecaseError::UnexpectedAffiliation(text) => String::from_str(
                "unexpected affiliation: ",
            ).concat(text.as_str()),
            UsecaseError::AddUnionMemberFailed(e) => String::from_str(
                "add union member failed: ",
            ).concat(e.message().as_str()),
            UsecaseError::RemoveUnionMemberFailed(e) => String::from_str(
                "remove union member failed: ",
            ).concat(e.message().as_str()),
        }
    }
}

/// Adds a new employee, who is paid by held check and belongs to no union.
pub trait AddEmployeeTx: PayrollDao + Sized {
    /// Returns the id of the new employee. Fails with
    /// `RegisterEmployeeFailed` where the id is taken, and then changes nothing.
    fn execute(
        &mut self,
        emp_id: EmployeeId,
        name: &str,
        address: &str,
        classification: PaymentClassificationImpl,
        schedule: PaymentScheduleImpl,
    ) -> (r: Result<EmployeeId, UsecaseError>)
        ensures
            final(self).dependable() == old(self).dependable(),
            match r {
                Ok(id) => id == emp_id && !old(self).state().employees.contains_key(emp_id)
                    && final(self).state() == old(self).state().with_employee(
                    new_employee(emp_id, name@, address@, classification@, schedule),
                ),
                Err(e) => e matches UsecaseError::RegisterEmployeeFailed(DaoError::InsertError(_))
                    && old(self).state().employees.contains_key(emp_id) && final(self).state()
                    == old(self).state(),
            },
    {
        let emp = Employee::new(
            emp_id,
            name,
            address,
            classification,
            schedule,
            PaymentMethodImpl::Hold,
            AffiliationImpl::Unaffiliated,
        );
        match self.insert(emp) {
            Ok(id) => Ok(id),
            Err(e) => Err(UsecaseError::RegisterEmployeeFailed(e)),
        }
    }
}

impl<T: PayrollDao> AddEmployeeTx for T {

}

/// The record of a new employee: paid by held check, member of no union.
pub open spec fn new_employee(
    emp_id: EmployeeId,
    name: Seq<char>,
    address: Seq<char>,
    classification: ClassificationView,
    schedule: PaymentScheduleImpl,
) -> EmployeeView {
    EmployeeView {
        emp_id,
        name,
        address,
        classification,
        schedule,
        method: MethodView::Hold,
        affiliation: AffiliationView::Unaffiliated,
    }
}

/// A change to one employee, which may use the store as well.
pub trait EmployeeChange<D: PayrollDao> {
    /// Whether the change succeeds on `emp` while the store holds `s`.
    spec fn applies(&self, s: PayrollState, emp: EmployeeView) -> bool;

    /// What the store holds after the change was tried, whether it succeeded or not.
    spec fn store_after(&self, s: PayrollState, emp: EmployeeView) -> PayrollState;

    /// What the employee record holds after the change succeeded.
    spec fn employee_after(&self, s: PayrollState, emp: EmployeeView) -> EmployeeView;

    /// Whether `e` is the failure that the change ends with where it does not succeed.
    spec fn fails_with(&self, s: PayrollState, emp: EmployeeView, e: UsecaseError) -> bool;

    fn apply(self, ctx: &mut D, emp: &mut Employee) -> (r: Result<(), UsecaseError>)
        ensures
            final(ctx).dependable() == old(ctx).dependable(),
            final(ctx).state() == self.store_after(old(ctx).state(), old(emp)@),
            match r {
                Ok(_) => self.applies(old(ctx).state(), old(emp)@) && final(emp)@
                    == self.employee_after(old(ctx).state(), old(emp)@),
                Err(e) => !self.applies(old(ctx).state(), old(emp)@) && self.fails_with(
                    old(ctx).state(),
                    old(emp)@,
                    e,
                ),
            },
    ;
}

/// Fetches an employee, changes the copy, and stores the copy in place of the
/// employee.
pub trait ChangeEmployeeTx: PayrollDao + Sized {
    /// Fails with `NotFound` where the store has no employee `emp_id`, with the
    /// failure of `change` where that does not succeed, and with
    /// `UpdateEmployeeFailed` where the store no longer has the employee when
    /// the copy is to be stored. What `change` did to the store stays done in
    /// every case, and the copy is stored only where `change` succeeded.
    fn execute<M: EmployeeChange<Self>>(&mut self, emp_id: EmployeeId, change: M) -> (r: Result<
        (),
        UsecaseError,
    >)
        ensures
            final(self).dependable() == old(self).dependable(),
            ({
                let s = old(self).state();
                if !s.employees.contains_key(emp_id) {
                    not_found(r) && final(self).state() == s
                } else {
                    let emp = s.employees[emp_id];
                    let mid = change.store_after(s, emp);
                    let changed = change.employee_after(s, emp);
                    &&& emp.emp_id == emp_id
                    &&& if !change.applies(s, emp) {
                        r matches Err(e) && change.fails_with(s, emp, e) && final(self).state()
                            == mid
                    } else if !mid.employees.contains_key(changed.emp_id) {
                        r matches Err(UsecaseError::UpdateEmployeeFailed(DaoError::UpdateError(_)))
                            && final(self).state() == mid
                    } else {
                        r is Ok && final(self).state() == mid.with_employee(changed)
                    }
                }
            }),
    {
        let mut emp = match self.fetch(emp_id) {
            Ok(emp) => emp,
            Err(e) => {
                return Err(UsecaseError::NotFound(e));
            },
        };
        match change.apply(self, &mut emp) {
            Ok(_) => {},
            Err(e) => {
                return Err(e);
            },
        }
        match self.update(emp) {
            Ok(_) => Ok(()),
            Err(e) => Err(UsecaseError::UpdateEmployeeFailed(e)),
        }
    }
}

impl<T: PayrollDao> ChangeEmployeeTx for T {

}

/// Whether `e` says that a fetch from the store found nothing.
pub open spec fn is_not_found(e: UsecaseError) -> bool {
    e matches UsecaseError::NotFound(DaoError::FetchError(_))
}

/// Whether `r` is the failure of a fetch from the store that found nothing.
pub open spec fn not_found(r: Result<(), UsecaseError>) -> bool {
    r matches Err(e) && is_not_found(e)
}

/// The change that first lets `record_membership` do its work, then replaces
/// the affiliation.
pub struct AffiliationChange<F> {
    pub record_membership: F,
    pub affiliation: AffiliationImpl,
}

impl<D: PayrollDao, F: EmployeeChange<D>> EmployeeChange<D> for AffiliationChange<F> {
    open spec fn applies(&self, s: PayrollState, emp: EmployeeView) -> bool {
        self.record_membership.applies(s, emp)
    }

    open spec fn store_after(&self, s: PayrollState, emp: EmployeeView) -> PayrollState {
        self.record_membership.store_after(s, emp)
    }

    open spec fn employee_after(&self, s: PayrollState, emp: EmployeeView) -> EmployeeView {
        EmployeeView {
            affiliation: self.affiliation@,
            ..self.record_membership.employee_after(s, emp)
        }
    }

    open spec fn fails_with(&self, s: PayrollState, emp: EmployeeView, e: UsecaseError) -> bool {
        self.record_membership.fails_with(s, emp, e)
    }

    fn apply(self, ctx: &mut D, emp: &mut Employee) -> (r: Result<(), UsecaseError>) {
        match self.record_membership.apply(ctx, emp) {
            Ok(_) => {},
            Err(e) => {
                return Err(e);
            },
        }
        emp.set_affiliation(self.affiliation);
        Ok(())
    }
}

/// Changes the affiliation of an employee, after the membership was recorded.
pub trait ChangeAffiliationTx: PayrollDao + Sized {
    /// Fails as `ChangeEmployeeTx` does, `record_membership` being the first
    /// part of the change: what it did to the store stays done, and the
    /// affiliation is replaced only where it succeeded.
    fn execute<F: EmployeeChange<Self>>(
        &mut self,
        emp_id: EmployeeId,
        record_membership: F,
        affiliation: AffiliationImpl,
    ) -> (r: Result<(), UsecaseError>)
        ensures
            final(self).dependable() == old(self).dependable(),
            ({
                let s = old(self).state();
                if !s.employees.contains_key(emp_id) {
                    not_found(r) && final(self).state() == s
                } else {
                    let emp = s.employees[emp_id];
                    let mid = record_membership.store_after(s, emp);
                    let changed = EmployeeView {
                        affiliation: affiliation@,
                        ..record_membership.employee_after(s, emp)
                    };
                    &&& emp.emp_id == emp_id
                    &&& if !record_membership.applies(s, emp) {
                        r matches Err(e) && record_membership.fails_with(s, emp, e)
                            && final(self).state() == mid
                    } else if !mid.employees.contains_key(changed.emp_id) {
                        r matches Err(UsecaseError::UpdateEmployeeFailed(DaoError::UpdateError(_)))
                            && final(self).state() == mid
                    } else {
                        r is Ok && final(self).state() == mid.with_employee(changed)
                    }
                }
            }),
    {
        ChangeEmployeeTx::execute(
            self,
            emp_id,
            AffiliationChange { record_membership, affiliation },
        )
    }
}

impl<T: PayrollDao> ChangeAffiliationTx for T {

}

/// The change that replaces classification and schedule together.
pub struct ClassificationChange {
    pub classification: PaymentClassificationImpl,
    pub schedule: PaymentScheduleImpl,
}

impl<D: PayrollDao> EmployeeChange<D> for ClassificationChange {
    open spec fn applies(&self, s: PayrollState, emp: EmployeeView) -> bool {
        true
    }

    open spec fn store_after(&self, s: PayrollState, emp: EmployeeView) -> PayrollState {
        s
    }

    open spec fn employee_after(&self, s: PayrollState, emp: EmployeeView) -> EmployeeView {
        EmployeeView { classification: self.classification@, schedule: self.schedule, ..emp }
    }

    open spec fn fails_with(&self, s: PayrollState, emp: EmployeeView, e: UsecaseError) -> bool {
        false
    }

    fn apply(self, ctx: &mut D, emp: &mut Employee) -> (r: Result<(), UsecaseError>) {
        emp.set_classification(self.classification);
        emp.set_schedule(self.schedule);
        Ok(())
    }
}

/// Replaces the classification of an employee, and with it the schedule: the
/// records of the old classification are gone.
pub trait ChangeEmployeePaymentClassificationTx: PayrollDao + Sized {
    /// Fails with `NotFound` where the store has no employee `emp_id`, and
    /// then changes nothing.
    fn execute(
        &mut self,
        emp_id: EmployeeId,
        classification: PaymentClassificationImpl,
        schedule: PaymentScheduleImpl,
    ) -> (r: Result<(), UsecaseError>)
        ensures
            final(self).dependable() == old(self).dependable(),
            ({
                let s = old(self).state();
                if !s.employees.contains_key(emp_id) {
                    not_found(r) && final(self).state() == s
                } else {
                    r is Ok && final(self).state() == s.with_employee(
                        EmployeeView {
                            classification: classification@,
                            schedule,
                            ..s.employees[emp_id]
                        },
                    )
                }
            }),
    {
        ChangeEmployeeTx::execute(self, emp_id, ClassificationChange { classification, schedule })
    }
}

impl<T: PayrollDao> ChangeEmployeePaymentClassificationTx for T {

}

/// The change that replaces the payment method.
pub struct MethodChange {
    pub method: PaymentMethodImpl,
}

impl<D: PayrollDao> EmployeeChange<D> for MethodChange {
    open spec fn applies(&self, s: PayrollState, emp: EmployeeView) -> bool {
        true
    }

    open spec fn store_after(&self, s: PayrollState, emp: EmployeeView) -> PayrollState {
        s
    }

    open spec fn employee_after(&self, s: PayrollState, emp: EmployeeView) -> EmployeeView {
        EmployeeView { method: self.method@, ..emp }
    }

    open spec fn fails_with(&self, s: PayrollState, emp: EmployeeView, e: UsecaseError) -> bool {
        false
    }

    fn apply(self, ctx: &mut D, emp: &mut Employee) -> (r: Result<(), UsecaseError>) {
        emp.set_method(self.method);
        Ok(())
    }
}

/// Replaces the payment method of an employee.
pub trait ChangeEmployeePaymentMethodTx: PayrollDao + Sized {
    /// Fails with `NotFound` where the store has no employee `emp_id`, and
    /// then changes nothing.
    fn execute(&mut self, emp_id: EmployeeId, method: PaymentMethodImpl) -> (r: Result<
        (),
        UsecaseError,
    >)
        ensures
            final(self).dependable() == old(self).dependable(),
            ({
                let s = old(self).state();
                if !s.employees.contains_key(emp_id) {
                    not_found(r) && final(self).state() == s
                } else {
                    r is Ok && final(self).state() == s.with_employee(
                        EmployeeView { method: method@, ..s.employees[emp_id] },
                    )
                }
            }),
    {
        ChangeEmployeeTx::execute(self, emp_id, MethodChange { method })
    }
}

impl<T: PayrollDao> ChangeEmployeePaymentMethodTx for T {

}

} // verus!
