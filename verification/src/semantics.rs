//! What each command of a script does to a store.

use vstd::prelude::*;
use crate::abstract_tx::is_not_found;
use crate::abstract_tx::new_employee;
use crate::abstract_tx::UsecaseError;
use crate::affiliation::AffiliationView;
use crate::affiliation::ServiceCharge;
use crate::classification::ClassificationView;
use crate::classification::SalesReceipt;
use crate::classification::TimeCard;
use crate::dao::DaoError;
use crate::dao::PayrollState;
use crate::method::MethodView;
use crate::parser::CommandView;
use crate::payroll_domain::EmployeeId;
use crate::payroll_domain::EmployeeView;
use crate::schedule::PaymentScheduleImpl;
use crate::tx_impl::broke_off;
use crate::tx_impl::renamed;
use crate::tx_impl::settled;
use crate::tx_impl::unexpected;

verus! {

/// The state in which `emp` was added, unless its id was taken.
pub open spec fn added(s: PayrollState, emp: EmployeeView) -> PayrollState {
    if s.employees.contains_key(emp.emp_id) {
        s
    } else {
        s.with_employee(emp)
    }
}

/// The state in which employee `emp_id` is as `change` makes them, unless
/// there is no such employee.
pub open spec fn changed(
    s: PayrollState,
    emp_id: EmployeeId,
    change: spec_fn(EmployeeView) -> EmployeeView,
) -> PayrollState {
    if s.employees.contains_key(emp_id) {
        s.with_employee(change(s.employees[emp_id]))
    } else {
        s
    }
}

/// What the store holds after `command` was carried out, whether it succeeded
/// or not, on a store that held `s`.
pub open spec fn command_effect(command: CommandView, s: PayrollState) -> PayrollState {
    match command {
        CommandView::AddSalaryEmp { emp_id, name, address, salary } => added(
            s,
            new_employee(
                emp_id,
                name,
                address,
                ClassificationView::Salaried { salary },
                PaymentScheduleImpl::Monthly,
            ),
        ),
        CommandView::AddHourlyEmp { emp_id, name, address, hourly_rate } => added(
            s,
            new_employee(
                emp_id,
                name,
                address,
                ClassificationView::Hourly { hourly_rate, timecards: Seq::empty() },
                PaymentScheduleImpl::Weekly,
            ),
        ),
        CommandView::AddCommissionedEmp { emp_id, name, address, salary, commission_rate } => added(
            s,
            new_employee(
                emp_id,
                name,
                address,
                ClassificationView::Commissioned {
                    salary,
                    commission_rate,
                    sales_receipts: Seq::empty(),
                },
                PaymentScheduleImpl::Biweekly,
            ),
        ),
        CommandView::DelEmp { emp_id } => if s.employees.contains_key(emp_id) {
            s.without_employee(emp_id)
        } else {
            s
        },
        CommandView::TimeCard { emp_id, date, hours } => if command_succeeds(command, s) {
            let emp = s.employees[emp_id];
            s.with_employee(
                EmployeeView {
                    classification: ClassificationView::Hourly {
                        hourly_rate: emp.classification->hourly_rate,
                        timecards: emp.classification->timecards.push(TimeCard { date, hours }),
                    },
                    ..emp
                },
            )
        } else {
            s
        },
        CommandView::SalesReceipt { emp_id, date, amount } => if command_succeeds(command, s) {
            let emp = s.employees[emp_id];
            s.with_employee(
                EmployeeView {
                    classification: ClassificationView::Commissioned {
                        salary: emp.classification->Commissioned_salary,
                        commission_rate: emp.classification->commission_rate,
                        sales_receipts: emp.classification->sales_receipts.push(
                            SalesReceipt { date, amount },
                        ),
                    },
                    ..emp
                },
            )
        } else {
            s
        },
        CommandView::ServiceCharge { member_id, date, amount } => if command_succeeds(command, s) {
            let emp = s.employees[s.union_members[member_id]];
            s.with_employee(
                EmployeeView {
                    affiliation: AffiliationView::Union {
                        member_id: emp.affiliation->member_id,
                        dues: emp.affiliation->dues,
                        service_charges: emp.affiliation->service_charges.push(
                            ServiceCharge { date, amount },
                        ),
                    },
                    ..emp
                },
            )
        } else {
            s
        },
        CommandView::ChgName { emp_id, name } => if s.employees.contains_key(emp_id) {
            renamed(s, emp_id, name)
        } else {
            s
        },
        CommandView::ChgAddress { emp_id, address } => changed(
            s,
            emp_id,
            |emp: EmployeeView| EmployeeView { address, ..emp },
        ),
        CommandView::ChgHourly { emp_id, hourly_rate } => changed(
            s,
            emp_id,
            |emp: EmployeeView|
                EmployeeView {
                    classification: ClassificationView::Hourly {
                        hourly_rate,
                        timecards: Seq::empty(),
                    },
                    schedule: PaymentScheduleImpl::Weekly,
                    ..emp
                },
        ),
        CommandView::ChgSalaried { emp_id, salary } => changed(
            s,
            emp_id,
            |emp: EmployeeView|
                EmployeeView {
                    classification: ClassificationView::Salaried { salary },
                    schedule: PaymentScheduleImpl::Monthly,
                    ..emp
                },
        ),
        CommandView::ChgCommissioned { emp_id, salary, commission_rate } => changed(
            s,
            emp_id,
            |emp: EmployeeView|
                EmployeeView {
                    classification: ClassificationView::Commissioned {
                        salary,
                        commission_rate,
                        sales_receipts: Seq::empty(),
                    },
                    schedule: PaymentScheduleImpl::Biweekly,
                    ..emp
                },
        ),
        CommandView::ChgHold { emp_id } => changed(
            s,
            emp_id,
            |emp: EmployeeView| EmployeeView { method: MethodView::Hold, ..emp },
        ),
        CommandView::ChgDirect { emp_id, bank, account } => changed(
            s,
            emp_id,
            |emp: EmployeeView|
                EmployeeView { method: MethodView::Direct { bank, account }, ..emp },
        ),
        CommandView::ChgMail { emp_id, address } => changed(
            s,
            emp_id,
            |emp: EmployeeView| EmployeeView { method: MethodView::Mail { address }, ..emp },
        ),
        CommandView::ChgMember { emp_id, member_id, dues } => if command_succeeds(command, s) {
            s.with_member(member_id, emp_id).with_employee(
                EmployeeView {
                    affiliation: AffiliationView::Union {
                        member_id,
                        dues,
                        service_charges: Seq::empty(),
                    },
                    ..s.employees[emp_id]
                },
            )
        } else {
            s
        },
        CommandView::ChgNoMember { emp_id } => if command_succeeds(command, s) {
            s.without_member(s.employees[emp_id].affiliation->member_id).with_employee(
                EmployeeView { affiliation: AffiliationView::Unaffiliated, ..s.employees[emp_id] },
            )
        } else {
            s
        },
        CommandView::Payday { pay_date } => settled(s, pay_date),
    }
}

/// Whether `command` succeeds on a store that holds `s`.
pub open spec fn command_succeeds(command: CommandView, s: PayrollState) -> bool {
    match command {
        CommandView::AddSalaryEmp { emp_id, .. } => !s.employees.contains_key(emp_id),
        CommandView::AddHourlyEmp { emp_id, .. } => !s.employees.contains_key(emp_id),
        CommandView::AddCommissionedEmp { emp_id, .. } => !s.employees.contains_key(emp_id),
        CommandView::DelEmp { emp_id } => s.employees.contains_key(emp_id),
        CommandView::TimeCard { emp_id, .. } => s.employees.contains_key(emp_id)
            && s.employees[emp_id].classification is Hourly,
        CommandView::SalesReceipt { emp_id, .. } => s.employees.contains_key(emp_id)
            && s.employees[emp_id].classification is Commissioned,
        CommandView::ServiceCharge { member_id, .. } => s.union_members.contains_key(member_id)
            && s.employees.contains_key(s.union_members[member_id])
            && s.employees[s.union_members[member_id]].affiliation is Union,
        CommandView::ChgName { emp_id, .. } => s.employees.contains_key(emp_id),
        CommandView::ChgAddress { emp_id, .. } => s.employees.contains_key(emp_id),
        CommandView::ChgHourly { emp_id, .. } => s.employees.contains_key(emp_id),
        CommandView::ChgSalaried { emp_id, .. } => s.employees.contains_key(emp_id),
        CommandView::ChgCommissioned { emp_id, .. } => s.employees.contains_key(emp_id),
        CommandView::ChgHold { emp_id } => s.employees.contains_key(emp_id),
        CommandView::ChgDirect { emp_id, .. } => s.employees.contains_key(emp_id),
        CommandView::ChgMail { emp_id, .. } => s.employees.contains_key(emp_id),
        CommandView::ChgMember { emp_id, member_id, .. } => s.employees.contains_key(emp_id)
            && !s.union_members.contains_key(member_id) && !s.is_member(emp_id),
        CommandView::ChgNoMember { emp_id } => s.employees.contains_key(emp_id)
            && s.employees[emp_id].affiliation is Union && s.union_members.contains_key(
            s.employees[emp_id].affiliation->member_id,
        ),
        CommandView::Payday { .. } => true,
    }
}

/// Whether `e` is the failure with which `command` ends on a store that holds
/// `s`, where it does not succeed.
pub open spec fn command_fails_with(
    command: CommandView,
    s: PayrollState,
    e: UsecaseError,
) -> bool {
    match command {
        CommandView::AddSalaryEmp { .. } => is_taken(e),
        CommandView::AddHourlyEmp { .. } => is_taken(e),
        CommandView::AddCommissionedEmp { .. } => is_taken(e),
        CommandView::DelEmp { .. } => e matches UsecaseError::UnregisterEmployeeFailed(
            DaoError::DeleteError(_),
        ),
        CommandView::TimeCard { emp_id, .. } => if !s.employees.contains_key(emp_id) {
            is_not_found(e)
        } else {
            e matches UsecaseError::UnexpectedPaymentClassification(text) && text@ == unexpected(
                "expected hourly emp_id: "@,
                emp_id,
            )
        },
        CommandView::SalesReceipt { emp_id, .. } => if !s.employees.contains_key(emp_id) {
            is_not_found(e)
        } else {
            e matches UsecaseError::UnexpectedPaymentClassification(text) && text@ == unexpected(
                "expected commissioned emp_id: "@,
                emp_id,
            )
        },
        CommandView::ServiceCharge { member_id, .. } => if !s.union_members.contains_key(member_id)
            || !s.employees.contains_key(s.union_members[member_id]) {
            is_not_found(e)
        } else {
            e matches UsecaseError::UnexpectedAffiliation(text) && text@ == unexpected(
                "expected union emp_id: "@,
                s.employees[s.union_members[member_id]].emp_id,
            )
        },
        CommandView::ChgName { .. } => is_not_found(e),
        CommandView::ChgAddress { .. } => is_not_found(e),
        CommandView::ChgHourly { .. } => is_not_found(e),
        CommandView::ChgSalaried { .. } => is_not_found(e),
        CommandView::ChgCommissioned { .. } => is_not_found(e),
        CommandView::ChgHold { .. } => is_not_found(e),
        CommandView::ChgDirect { .. } => is_not_found(e),
        CommandView::ChgMail { .. } => is_not_found(e),
        CommandView::ChgMember { emp_id, .. } => if !s.employees.contains_key(emp_id) {
            is_not_found(e)
        } else {
            e matches UsecaseError::AddUnionMemberFailed(DaoError::InsertError(_))
        },
        CommandView::ChgNoMember { emp_id } => if !s.employees.contains_key(emp_id) {
            is_not_found(e)
        } else if s.employees[emp_id].affiliation is Union {
            e matches UsecaseError::RemoveUnionMemberFailed(DaoError::DeleteError(_))
        } else {
            e matches UsecaseError::UnexpectedAffiliation(text) && text@ == unexpected(
                "expected unaffiliated emp_id: "@,
                emp_id,
            )
        },
        CommandView::Payday { .. } => false,
    }
}

/// Whether `command` may break off with the failure `e` on a store that held
/// `s` and is not dependable, and leave it holding `after`. Only a payday
/// may: where the store fails to list the employees or to record a paycheck.
pub open spec fn command_breaks_off(
    command: CommandView,
    s: PayrollState,
    after: PayrollState,
    e: UsecaseError,
) -> bool {
    match command {
        CommandView::Payday { pay_date } => broke_off(s, after, pay_date, e),
        _ => false,
    }
}

/// Whether `command`, carried out on a store that held `s`, may leave it
/// holding `after`: as it does on a dependable store, or as it does where it
/// breaks off.
pub open spec fn command_may_leave(
    command: CommandView,
    s: PayrollState,
    after: PayrollState,
) -> bool {
    after == command_effect(command, s) || exists|e: UsecaseError|
        command_breaks_off(command, s, after, e)
}

/// Whether `commands`, carried out one after the other on a store that held
/// `s`, whether they succeeded or not, may leave it holding `after`.
pub open spec fn script_may_leave(
    commands: Seq<CommandView>,
    s: PayrollState,
    after: PayrollState,
) -> bool
    decreases commands.len(),
{
    if commands.len() == 0 {
        after == s
    } else {
        exists|mid: PayrollState| #[trigger]
            command_may_leave(commands[0], s, mid) && script_may_leave(
                commands.drop_first(),
                mid,
                after,
            )
    }
}

/// Whether `e` says that the id of a new employee is taken.
pub open spec fn is_taken(e: UsecaseError) -> bool {
    e matches UsecaseError::RegisterEmployeeFailed(DaoError::InsertError(_))
}

/// What the store holds after `commands` were carried out one after the
/// other, whether they succeeded or not, on a store that held `s`.
pub open spec fn script_effect(commands: Seq<CommandView>, s: PayrollState) -> PayrollState
    decreases commands.len(),
{
    if commands.len() == 0 {
        s
    } else {
        script_effect(commands.drop_first(), command_effect(commands[0], s))
    }
}

} // verus!
