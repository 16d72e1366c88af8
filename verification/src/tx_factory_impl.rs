//! A maker of transactions.

use vstd::prelude::*;
use crate::amount::Amount;
use crate::calendar::Date;
use crate::mock_tx_impl::AddCommissionedEmployeeTxImpl;
use crate::mock_tx_impl::AddHourlyEmployeeTxImpl;
use crate::mock_tx_impl::AddSalaryEmployeeTxImpl;
use crate::mock_tx_impl::AnyTransaction;
use crate::mock_tx_impl::ChangeEmployeeAddressTxImpl;
use crate::mock_tx_impl::ChangeEmployeeCommissionedTxImpl;
use crate::mock_tx_impl::ChangeEmployeeDirectTxImpl;
use crate::mock_tx_impl::ChangeEmployeeHoldTxImpl;
use crate::mock_tx_impl::ChangeEmployeeHourlyTxImpl;
use crate::mock_tx_impl::ChangeEmployeeMailTxImpl;
use crate::mock_tx_impl::ChangeEmployeeNameTxImpl;
use crate::mock_tx_impl::ChangeEmployeeSalariedTxImpl;
use crate::mock_tx_impl::ChangeUnaffiliatedTxImpl;
use crate::mock_tx_impl::ChangeUnionMemberTxImpl;
use crate::mock_tx_impl::DeleteEmployeeTxImpl;
use crate::mock_tx_impl::PaydayTxImpl;
use crate::mock_tx_impl::SalesReceiptTxImpl;
use crate::mock_tx_impl::ServiceChargeTxImpl;
use crate::mock_tx_impl::TimeCardTxImpl;
use crate::parser::CommandView;
use crate::payroll_domain::EmployeeId;
use crate::payroll_domain::MemberId;

verus! {

/// Makes each of the transactions from its arguments.
#[derive(Debug)]
pub struct TransactionFactoryImpl {}

impl TransactionFactoryImpl {
    pub fn new() -> (r: TransactionFactoryImpl) {
        TransactionFactoryImpl {}
    }

    pub fn mk_add_salary_employee_tx(
        &self,
        emp_id: EmployeeId,
        name: String,
        address: String,
        salary: Amount,
    ) -> (r: AnyTransaction)
        ensures
            r@ == (CommandView::AddSalaryEmp { emp_id, name: name@, address: address@, salary }),
    {
        AnyTransaction::AddSalaryEmployee(AddSalaryEmployeeTxImpl { emp_id, name, address, salary })
    }

    pub fn mk_add_hourly_employee_tx(
        &self,
        emp_id: EmployeeId,
        name: String,
        address: String,
        hourly_rate: Amount,
    ) -> (r: AnyTransaction)
        ensures
            r@ == (CommandView::AddHourlyEmp {
                emp_id,
                name: name@,
                address: address@,
                hourly_rate,
            }),
    {
        AnyTransaction::AddHourlyEmployee(
            AddHourlyEmployeeTxImpl { emp_id, name, address, hourly_rate },
        )
    }

    pub fn mk_add_commissioned_employee_tx(
        &self,
        emp_id: EmployeeId,
        name: String,
        address: String,
        salary: Amount,
        commission_rate: Amount,
    ) -> (r: AnyTransaction)
        ensures
            r@ == (CommandView::AddCommissionedEmp {
                emp_id,
                name: name@,
                address: address@,
                salary,
                commission_rate,
            }),
    {
        AnyTransaction::AddCommissionedEmployee(
            AddCommissionedEmployeeTxImpl { emp_id, name, address, salary, commission_rate },
        )
    }

    pub fn mk_delete_employee_tx(&self, emp_id: EmployeeId) -> (r: AnyTransaction)
        ensures
            r@ == (CommandView::DelEmp { emp_id }),
    {
        AnyTransaction::DeleteEmployee(DeleteEmployeeTxImpl { emp_id })
    }

    pub fn mk_timecard_tx(
        &self,
        emp_id: EmployeeId,
        date: Date,
        hours: Amount,
    ) -> (r: AnyTransaction)
        ensures
            r@ == (CommandView::TimeCard { emp_id, date, hours }),
    {
        AnyTransaction::TimeCard(TimeCardTxImpl { emp_id, date, hours })
    }

    pub fn mk_sales_receipt_tx(
        &self,
        emp_id: EmployeeId,
        date: Date,
        amount: Amount,
    ) -> (r: AnyTransaction)
        ensures
            r@ == (CommandView::SalesReceipt { emp_id, date, amount }),
    {
        AnyTransaction::SalesReceipt(SalesReceiptTxImpl { emp_id, date, amount })
    }

    pub fn mk_change_name_tx(&self, emp_id: EmployeeId, name: String) -> (r: AnyTransaction)
        ensures
            r@ == (CommandView::ChgName { emp_id, name: name@ }),
    {
        AnyTransaction::ChangeEmployeeName(ChangeEmployeeNameTxImpl { emp_id, name })
    }

    pub fn mk_change_address_tx(&self, emp_id: EmployeeId, address: String) -> (r: AnyTransaction)
        ensures
            r@ == (CommandView::ChgAddress { emp_id, address: address@ }),
    {
        AnyTransaction::ChangeEmployeeAddress(ChangeEmployeeAddressTxImpl { emp_id, address })
    }

    pub fn mk_change_salaried_tx(&self, emp_id: EmployeeId, salary: Amount) -> (r: AnyTransaction)
        ensures
            r@ == (CommandView::ChgSalaried { emp_id, salary }),
    {
        AnyTransaction::ChangeEmployeeSalaried(ChangeEmployeeSalariedTxImpl { emp_id, salary })
    }

    pub fn mk_change_hourly_tx(
        &self,
        emp_id: EmployeeId,
        hourly_rate: Amount,
    ) -> (r: AnyTransaction)
        ensures
            r@ == (CommandView::ChgHourly { emp_id, hourly_rate }),
    {
        AnyTransaction::ChangeEmployeeHourly(ChangeEmployeeHourlyTxImpl { emp_id, hourly_rate })
    }

    pub fn mk_change_commissioned_tx(
        &self,
        emp_id: EmployeeId,
        salary: Amount,
        commission_rate: Amount,
    ) -> (r: AnyTransaction)
        ensures
            r@ == (CommandView::ChgCommissioned { emp_id, salary, commission_rate }),
    {
        AnyTransaction::ChangeEmployeeCommissioned(
            ChangeEmployeeCommissionedTxImpl { emp_id, salary, commission_rate },
        )
    }

    pub fn mk_change_direct_tx(
        &self,
        emp_id: EmployeeId,
        bank: String,
        account: String,
    ) -> (r: AnyTransaction)
        ensures
            r@ == (CommandView::ChgDirect { emp_id, bank: bank@, account: account@ }),
    {
        AnyTransaction::ChangeEmployeeDirect(ChangeEmployeeDirectTxImpl { emp_id, bank, account })
    }

    pub fn mk_change_mail_tx(&self, emp_id: EmployeeId, address: String) -> (r: AnyTransaction)
        ensures
            r@ == (CommandView::ChgMail { emp_id, address: address@ }),
    {
        AnyTransaction::ChangeEmployeeMail(ChangeEmployeeMailTxImpl { emp_id, address })
    }

    pub fn mk_change_hold_tx(&self, emp_id: EmployeeId) -> (r: AnyTransaction)
        ensures
            r@ == (CommandView::ChgHold { emp_id }),
    {
        AnyTransaction::ChangeEmployeeHold(ChangeEmployeeHoldTxImpl { emp_id })
    }

    pub fn mk_change_union_member_tx(
        &self,
        emp_id: EmployeeId,
        member_id: MemberId,
        dues: Amount,
    ) -> (r: AnyTransaction)
        ensures
            r@ == (CommandView::ChgMember { emp_id, member_id, dues }),
    {
        AnyTransaction::ChangeUnionMember(ChangeUnionMemberTxImpl { emp_id, member_id, dues })
    }

    pub fn mk_change_unaffiliated_tx(&self, emp_id: EmployeeId) -> (r: AnyTransaction)
        ensures
            r@ == (CommandView::ChgNoMember { emp_id }),
    {
        AnyTransaction::ChangeUnaffiliated(ChangeUnaffiliatedTxImpl { emp_id })
    }

    pub fn mk_service_charge_tx(
        &self,
        member_id: MemberId,
        date: Date,
        amount: Amount,
    ) -> (r: AnyTransaction)
        ensures
            r@ == (CommandView::ServiceCharge { member_id, date, amount }),
    {
        AnyTransaction::ServiceCharge(ServiceChargeTxImpl { member_id, date, amount })
    }

    pub fn mk_payday_tx(&self, pay_date: Date) -> (r: AnyTransaction)
        ensures
            r@ == (CommandView::Payday { pay_date }),
    {
        AnyTransaction::Payday(PaydayTxImpl { pay_date })
    }

}

} // verus!
