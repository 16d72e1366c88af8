//! Each transaction as a value that holds its arguments.

use vstd::prelude::*;
use crate::abstract_tx::UsecaseError;
use crate::amount::Amount;
use crate::calendar::Date;
use crate::dao::PayrollDao;
use crate::dao::PayrollState;
use crate::parser::CommandView;
use crate::payroll_domain::EmployeeId;
use crate::payroll_domain::MemberId;
use crate::semantics::command_breaks_off;
use crate::semantics::command_effect;
use crate::semantics::command_fails_with;
use crate::semantics::command_succeeds;
use crate::tx_app::Transaction;
use crate::tx_impl::AddCommissionedEmployeeTx;
use crate::tx_impl::AddHourlyEmployeeTx;
use crate::tx_impl::AddSalaryEmployeeTx;
use crate::tx_impl::ChangeEmployeeAddressTx;
use crate::tx_impl::ChangeEmployeeCommissionedTx;
use crate::tx_impl::ChangeEmployeeDirectTx;
use crate::tx_impl::ChangeEmployeeHoldTx;
use crate::tx_impl::ChangeEmployeeHourlyTx;
use crate::tx_impl::ChangeEmployeeMailTx;
use crate::tx_impl::ChangeEmployeeNameTx;
use crate::tx_impl::ChangeEmployeeSalariedTx;
use crate::tx_impl::ChangeUnaffiliatedTx;
use crate::tx_impl::ChangeUnionMemberTx;
use crate::tx_impl::DeleteEmployeeTx;
use crate::tx_impl::PaydayTx;
use crate::tx_impl::SalesReceiptTx;
use crate::tx_impl::ServiceChargeTx;
use crate::tx_impl::TimeCardTx;

verus! {

/// Adds an employee on a salary.
#[derive(Debug, PartialEq)]
pub struct AddSalaryEmployeeTxImpl {
    pub emp_id: EmployeeId,
    pub name: String,
    pub address: String,
    pub salary: Amount,
}

impl View for AddSalaryEmployeeTxImpl {
    type V = CommandView;

    /// The command that the transaction carries out.
    open spec fn view(&self) -> CommandView {
        CommandView::AddSalaryEmp {
            emp_id: self.emp_id,
            name: self.name@,
            address: self.address@,
            salary: self.salary,
        }
    }
}

impl Clone for AddSalaryEmployeeTxImpl {
    fn clone(&self) -> (r: AddSalaryEmployeeTxImpl)
        ensures
            r == *self,
    {
        AddSalaryEmployeeTxImpl {
            emp_id: self.emp_id,
            name: self.name.clone(),
            address: self.address.clone(),
            salary: self.salary,
        }
    }
}

impl<Ctx: PayrollDao> Transaction<Ctx> for AddSalaryEmployeeTxImpl {
    open spec fn applied(&self, s: PayrollState) -> PayrollState {
        command_effect(self@, s)
    }

    open spec fn succeeds(&self, s: PayrollState) -> bool {
        command_succeeds(self@, s)
    }

    open spec fn fails_with(&self, s: PayrollState, e: UsecaseError) -> bool {
        command_fails_with(self@, s, e)
    }

    open spec fn breaks_off(&self, s: PayrollState, after: PayrollState, e: UsecaseError) -> bool {
        command_breaks_off(self@, s, after, e)
    }

    fn execute(&self, ctx: &mut Ctx) -> (r: Result<(), UsecaseError>) {
        match AddSalaryEmployeeTx::execute(
            ctx,
            self.emp_id,
            self.name.as_str(),
            self.address.as_str(),
            self.salary,
        ) {
            Ok(_) => Ok(()),
            Err(e) => Err(e),
        }
    }
}

/// Adds an employee paid by the hour.
#[derive(Debug, PartialEq)]
pub struct AddHourlyEmployeeTxImpl {
    pub emp_id: EmployeeId,
    pub name: String,
    pub address: String,
    pub hourly_rate: Amount,
}

impl View for AddHourlyEmployeeTxImpl {
    type V = CommandView;

    /// The command that the transaction carries out.
    open spec fn view(&self) -> CommandView {
        CommandView::AddHourlyEmp {
            emp_id: self.emp_id,
            name: self.name@,
            address: self.address@,
            hourly_rate: self.hourly_rate,
        }
    }
}

impl Clone for AddHourlyEmployeeTxImpl {
    fn clone(&self) -> (r: AddHourlyEmployeeTxImpl)
        ensures
            r == *self,
    {
        AddHourlyEmployeeTxImpl {
            emp_id: self.emp_id,
            name: self.name.clone(),
            address: self.address.clone(),
            hourly_rate: self.hourly_rate,
        }
    }
}

impl<Ctx: PayrollDao> Transaction<Ctx> for AddHourlyEmployeeTxImpl {
    open spec fn applied(&self, s: PayrollState) -> PayrollState {
        command_effect(self@, s)
    }

    open spec fn succeeds(&self, s: PayrollState) -> bool {
        command_succeeds(self@, s)
    }

    open spec fn fails_with(&self, s: PayrollState, e: UsecaseError) -> bool {
        command_fails_with(self@, s, e)
    }

    open spec fn breaks_off(&self, s: PayrollState, after: PayrollState, e: UsecaseError) -> bool {
        command_breaks_off(self@, s, after, e)
    }

    fn execute(&self, ctx: &mut Ctx) -> (r: Result<(), UsecaseError>) {
        match AddHourlyEmployeeTx::execute(
            ctx,
            self.emp_id,
            self.name.as_str(),
            self.address.as_str(),
            self.hourly_rate,
        ) {
            Ok(_) => Ok(()),
            Err(e) => Err(e),
        }
    }
}

/// Adds an employee on a salary and a commission.
#[derive(Debug, PartialEq)]
pub struct AddCommissionedEmployeeTxImpl {
    pub emp_id: EmployeeId,
    pub name: String,
    pub address: String,
    pub salary: Amount,
    pub commission_rate: Amount,
}

impl View for AddCommissionedEmployeeTxImpl {
    type V = CommandView;

    /// The command that the transaction carries out.
    open spec fn view(&self) -> CommandView {
        CommandView::AddCommissionedEmp {
            emp_id: self.emp_id,
            name: self.name@,
            address: self.address@,
            salary: self.salary,
            commission_rate: self.commission_rate,
        }
    }
}

impl Clone for AddCommissionedEmployeeTxImpl {
    fn clone(&self) -> (r: AddCommissionedEmployeeTxImpl)
        ensures
            r == *self,
    {
        AddCommissionedEmployeeTxImpl {
            emp_id: self.emp_id,
            name: self.name.clone(),
            address: self.address.clone(),
            salary: self.salary,
            commission_rate: self.commission_rate,
        }
    }
}

impl<Ctx: PayrollDao> Transaction<Ctx> for AddCommissionedEmployeeTxImpl {
    open spec fn applied(&self, s: PayrollState) -> PayrollState {
        command_effect(self@, s)
    }

    open spec fn succeeds(&self, s: PayrollState) -> bool {
        command_succeeds(self@, s)
    }

    open spec fn fails_with(&self, s: PayrollState, e: UsecaseError) -> bool {
        command_fails_with(self@, s, e)
    }

    open spec fn breaks_off(&self, s: PayrollState, after: PayrollState, e: UsecaseError) -> bool {
        command_breaks_off(self@, s, after, e)
    }

    fn execute(&self, ctx: &mut Ctx) -> (r: Result<(), UsecaseError>) {
        match AddCommissionedEmployeeTx::execute(
            ctx,
            self.emp_id,
            self.name.as_str(),
            self.address.as_str(),
            self.salary,
            self.commission_rate,
        ) {
            Ok(_) => Ok(()),
            Err(e) => Err(e),
        }
    }
}

/// Replaces the name of an employee.
#[derive(Debug, PartialEq)]
pub struct ChangeEmployeeNameTxImpl {
    pub emp_id: EmployeeId,
    pub name: String,
}

impl View for ChangeEmployeeNameTxImpl {
    type V = CommandView;

    /// The command that the transaction carries out.
    open spec fn view(&self) -> CommandView {
        CommandView::ChgName { emp_id: self.emp_id, name: self.name@ }
    }
}

impl Clone for ChangeEmployeeNameTxImpl {
    fn clone(&self) -> (r: ChangeEmployeeNameTxImpl)
        ensures
            r == *self,
    {
        ChangeEmployeeNameTxImpl {
            emp_id: self.emp_id,
            name: self.name.clone(),
        }
    }
}

impl<Ctx: PayrollDao> Transaction<Ctx> for ChangeEmployeeNameTxImpl {
    open spec fn applied(&self, s: PayrollState) -> PayrollState {
        command_effect(self@, s)
    }

    open spec fn succeeds(&self, s: PayrollState) -> bool {
        command_succeeds(self@, s)
    }

    open spec fn fails_with(&self, s: PayrollState, e: UsecaseError) -> bool {
        command_fails_with(self@, s, e)
    }

    open spec fn breaks_off(&self, s: PayrollState, after: PayrollState, e: UsecaseError) -> bool {
        command_breaks_off(self@, s, after, e)
    }

    fn execute(&self, ctx: &mut Ctx) -> (r: Result<(), UsecaseError>) {
        ChangeEmployeeNameTx::execute(ctx, self.emp_id, self.name.as_str())
    }
}

/// Replaces the address of an employee.
#[derive(Debug, PartialEq)]
pub struct ChangeEmployeeAddressTxImpl {
    pub emp_id: EmployeeId,
    pub address: String,
}

impl View for ChangeEmployeeAddressTxImpl {
    type V = CommandView;

    /// The command that the transaction carries out.
    open spec fn view(&self) -> CommandView {
        CommandView::ChgAddress { emp_id: self.emp_id, address: self.address@ }
    }
}

impl Clone for ChangeEmployeeAddressTxImpl {
    fn clone(&self) -> (r: ChangeEmployeeAddressTxImpl)
        ensures
            r == *self,
    {
        ChangeEmployeeAddressTxImpl {
            emp_id: self.emp_id,
            address: self.address.clone(),
        }
    }
}

impl<Ctx: PayrollDao> Transaction<Ctx> for ChangeEmployeeAddressTxImpl {
    open spec fn applied(&self, s: PayrollState) -> PayrollState {
        command_effect(self@, s)
    }

    open spec fn succeeds(&self, s: PayrollState) -> bool {
        command_succeeds(self@, s)
    }

    open spec fn fails_with(&self, s: PayrollState, e: UsecaseError) -> bool {
        command_fails_with(self@, s, e)
    }

    open spec fn breaks_off(&self, s: PayrollState, after: PayrollState, e: UsecaseError) -> bool {
        command_breaks_off(self@, s, after, e)
    }

    fn execute(&self, ctx: &mut Ctx) -> (r: Result<(), UsecaseError>) {
        ChangeEmployeeAddressTx::execute(ctx, self.emp_id, self.address.as_str())
    }
}

/// Puts an employee on a salary.
#[derive(Debug, PartialEq)]
pub struct ChangeEmployeeSalariedTxImpl {
    pub emp_id: EmployeeId,
    pub salary: Amount,
}

impl View for ChangeEmployeeSalariedTxImpl {
    type V = CommandView;

    /// The command that the transaction carries out.
    open spec fn view(&self) -> CommandView {
        CommandView::ChgSalaried { emp_id: self.emp_id, salary: self.salary }
    }
}

impl Clone for ChangeEmployeeSalariedTxImpl {
    fn clone(&self) -> (r: ChangeEmployeeSalariedTxImpl)
        ensures
            r == *self,
    {
        ChangeEmployeeSalariedTxImpl {
            emp_id: self.emp_id,
            salary: self.salary,
        }
    }
}

impl<Ctx: PayrollDao> Transaction<Ctx> for ChangeEmployeeSalariedTxImpl {
    open spec fn applied(&self, s: PayrollState) -> PayrollState {
        command_effect(self@, s)
    }

    open spec fn succeeds(&self, s: PayrollState) -> bool {
        command_succeeds(self@, s)
    }

    open spec fn fails_with(&self, s: PayrollState, e: UsecaseError) -> bool {
        command_fails_with(self@, s, e)
    }

    open spec fn breaks_off(&self, s: PayrollState, after: PayrollState, e: UsecaseError) -> bool {
        command_breaks_off(self@, s, after, e)
    }

    fn execute(&self, ctx: &mut Ctx) -> (r: Result<(), UsecaseError>) {
        ChangeEmployeeSalariedTx::execute(ctx, self.emp_id, self.salary)
    }
}

/// Puts an employee on pay by the hour.
#[derive(Debug, PartialEq)]
pub struct ChangeEmployeeHourlyTxImpl {
    pub emp_id: EmployeeId,
    pub hourly_rate: Amount,
}

impl View for ChangeEmployeeHourlyTxImpl {
    type V = CommandView;

    /// The command that the transaction carries out.
    open spec fn view(&self) -> CommandView {
        CommandView::ChgHourly { emp_id: self.emp_id, hourly_rate: self.hourly_rate }
    }
}

impl Clone for ChangeEmployeeHourlyTxImpl {
    fn clone(&self) -> (r: ChangeEmployeeHourlyTxImpl)
        ensures
            r == *self,
    {
        ChangeEmployeeHourlyTxImpl {
            emp_id: self.emp_id,
            hourly_rate: self.hourly_rate,
        }
    }
}

impl<Ctx: PayrollDao> Transaction<Ctx> for ChangeEmployeeHourlyTxImpl {
    open spec fn applied(&self, s: PayrollState) -> PayrollState {
        command_effect(self@, s)
    }

    open spec fn succeeds(&self, s: PayrollState) -> bool {
        command_succeeds(self@, s)
    }

    open spec fn fails_with(&self, s: PayrollState, e: UsecaseError) -> bool {
        command_fails_with(self@, s, e)
    }

    open spec fn breaks_off(&self, s: PayrollState, after: PayrollState, e: UsecaseError) -> bool {
        command_breaks_off(self@, s, after, e)
    }

    fn execute(&self, ctx: &mut Ctx) -> (r: Result<(), UsecaseError>) {
        ChangeEmployeeHourlyTx::execute(ctx, self.emp_id, self.hourly_rate)
    }
}

/// Puts an employee on a salary and a commission.
#[derive(Debug, PartialEq)]
pub struct ChangeEmployeeCommissionedTxImpl {
    pub emp_id: EmployeeId,
    pub salary: Amount,
    pub commission_rate: Amount,
}

impl View for ChangeEmployeeCommissionedTxImpl {
    type V = CommandView;

    /// The command that the transaction carries out.
    open spec fn view(&self) -> CommandView {
        CommandView::ChgCommissioned {
            emp_id: self.emp_id,
            salary: self.salary,
            commission_rate: self.commission_rate,
        }
    }
}

impl Clone for ChangeEmployeeCommissionedTxImpl {
    fn clone(&self) -> (r: ChangeEmployeeCommissionedTxImpl)
        ensures
            r == *self,
    {
        ChangeEmployeeCommissionedTxImpl {
            emp_id: self.emp_id,
            salary: self.salary,
            commission_rate: self.commission_rate,
        }
    }
}

impl<Ctx: PayrollDao> Transaction<Ctx> for ChangeEmployeeCommissionedTxImpl {
    open spec fn applied(&self, s: PayrollState) -> PayrollState {
        command_effect(self@, s)
    }

    open spec fn succeeds(&self, s: PayrollState) -> bool {
        command_succeeds(self@, s)
    }

    open spec fn fails_with(&self, s: PayrollState, e: UsecaseError) -> bool {
        command_fails_with(self@, s, e)
    }

    open spec fn breaks_off(&self, s: PayrollState, after: PayrollState, e: UsecaseError) -> bool {
        command_breaks_off(self@, s, after, e)
    }

    fn execute(&self, ctx: &mut Ctx) -> (r: Result<(), UsecaseError>) {
        ChangeEmployeeCommissionedTx::execute(ctx, self.emp_id, self.salary, self.commission_rate)
    }
}

/// Has the paymaster hold the checks of an employee.
#[derive(Debug, PartialEq)]
pub struct ChangeEmployeeHoldTxImpl {
    pub emp_id: EmployeeId,
}

impl View for ChangeEmployeeHoldTxImpl {
    type V = CommandView;

    /// The command that the transaction carries out.
    open spec fn view(&self) -> CommandView {
        CommandView::ChgHold { emp_id: self.emp_id }
    }
}

impl Clone for ChangeEmployeeHoldTxImpl {
    fn clone(&self) -> (r: ChangeEmployeeHoldTxImpl)
        ensures
            r == *self,
    {
        ChangeEmployeeHoldTxImpl {
            emp_id: self.emp_id,
        }
    }
}

impl<Ctx: PayrollDao> Transaction<Ctx> for ChangeEmployeeHoldTxImpl {
    open spec fn applied(&self, s: PayrollState) -> PayrollState {
        command_effect(self@, s)
    }

    open spec fn succeeds(&self, s: PayrollState) -> bool {
        command_succeeds(self@, s)
    }

    open spec fn fails_with(&self, s: PayrollState, e: UsecaseError) -> bool {
        command_fails_with(self@, s, e)
    }

    open spec fn breaks_off(&self, s: PayrollState, after: PayrollState, e: UsecaseError) -> bool {
        command_breaks_off(self@, s, after, e)
    }

    fn execute(&self, ctx: &mut Ctx) -> (r: Result<(), UsecaseError>) {
        ChangeEmployeeHoldTx::execute(ctx, self.emp_id)
    }
}

/// Has the checks of an employee sent by mail.
#[derive(Debug, PartialEq)]
pub struct ChangeEmployeeMailTxImpl {
    pub emp_id: EmployeeId,
    pub address: String,
}

impl View for ChangeEmployeeMailTxImpl {
    type V = CommandView;

    /// The command that the transaction carries out.
    open spec fn view(&self) -> CommandView {
        CommandView::ChgMail { emp_id: self.emp_id, address: self.address@ }
    }
}

impl Clone for ChangeEmployeeMailTxImpl {
    fn clone(&self) -> (r: ChangeEmployeeMailTxImpl)
        ensures
            r == *self,
    {
        ChangeEmployeeMailTxImpl {
            emp_id: self.emp_id,
            address: self.address.clone(),
        }
    }
}

impl<Ctx: PayrollDao> Transaction<Ctx> for ChangeEmployeeMailTxImpl {
    open spec fn applied(&self, s: PayrollState) -> PayrollState {
        command_effect(self@, s)
    }

    open spec fn succeeds(&self, s: PayrollState) -> bool {
        command_succeeds(self@, s)
    }

    open spec fn fails_with(&self, s: PayrollState, e: UsecaseError) -> bool {
        command_fails_with(self@, s, e)
    }

    open spec fn breaks_off(&self, s: PayrollState, after: PayrollState, e: UsecaseError) -> bool {
        command_breaks_off(self@, s, after, e)
    }

    fn execute(&self, ctx: &mut Ctx) -> (r: Result<(), UsecaseError>) {
        ChangeEmployeeMailTx::execute(ctx, self.emp_id, self.address.as_str())
    }
}

/// Has the pay of an employee deposited in a bank account.
#[derive(Debug, PartialEq)]
pub struct ChangeEmployeeDirectTxImpl {
    pub emp_id: EmployeeId,
    pub bank: String,
    pub account: String,
}

impl View for ChangeEmployeeDirectTxImpl {
    type V = CommandView;

    /// The command that the transaction carries out.
    open spec fn view(&self) -> CommandView {
        CommandView::ChgDirect { emp_id: self.emp_id, bank: self.bank@, account: self.account@ }
    }
}

impl Clone for ChangeEmployeeDirectTxImpl {
    fn clone(&self) -> (r: ChangeEmployeeDirectTxImpl)
        ensures
            r == *self,
    {
        ChangeEmployeeDirectTxImpl {
            emp_id: self.emp_id,
            bank: self.bank.clone(),
            account: self.account.clone(),
        }
    }
}

impl<Ctx: PayrollDao> Transaction<Ctx> for ChangeEmployeeDirectTxImpl {
    open spec fn applied(&self, s: PayrollState) -> PayrollState {
        command_effect(self@, s)
    }

    open spec fn succeeds(&self, s: PayrollState) -> bool {
        command_succeeds(self@, s)
    }

    open spec fn fails_with(&self, s: PayrollState, e: UsecaseError) -> bool {
        command_fails_with(self@, s, e)
    }

    open spec fn breaks_off(&self, s: PayrollState, after: PayrollState, e: UsecaseError) -> bool {
        command_breaks_off(self@, s, after, e)
    }

    fn execute(&self, ctx: &mut Ctx) -> (r: Result<(), UsecaseError>) {
        ChangeEmployeeDirectTx::execute(ctx, self.emp_id, self.bank.as_str(), self.account.as_str())
    }
}

/// Enters a time card.
#[derive(Debug, PartialEq)]
pub struct TimeCardTxImpl {
    pub emp_id: EmployeeId,
    pub date: Date,
    pub hours: Amount,
}

impl View for TimeCardTxImpl {
    type V = CommandView;

    /// The command that the transaction carries out.
    open spec fn view(&self) -> CommandView {
        CommandView::TimeCard { emp_id: self.emp_id, date: self.date, hours: self.hours }
    }
}

impl Clone for TimeCardTxImpl {
    fn clone(&self) -> (r: TimeCardTxImpl)
        ensures
            r == *self,
    {
        TimeCardTxImpl {
            emp_id: self.emp_id,
            date: self.date,
            hours: self.hours,
        }
    }
}

impl<Ctx: PayrollDao> Transaction<Ctx> for TimeCardTxImpl {
    open spec fn applied(&self, s: PayrollState) -> PayrollState {
        command_effect(self@, s)
    }

    open spec fn succeeds(&self, s: PayrollState) -> bool {
        command_succeeds(self@, s)
    }

    open spec fn fails_with(&self, s: PayrollState, e: UsecaseError) -> bool {
        command_fails_with(self@, s, e)
    }

    open spec fn breaks_off(&self, s: PayrollState, after: PayrollState, e: UsecaseError) -> bool {
        command_breaks_off(self@, s, after, e)
    }

    fn execute(&self, ctx: &mut Ctx) -> (r: Result<(), UsecaseError>) {
        TimeCardTx::execute(ctx, self.emp_id, self.date, self.hours)
    }
}

/// Enters a sales receipt.
#[derive(Debug, PartialEq)]
pub struct SalesReceiptTxImpl {
    pub emp_id: EmployeeId,
    pub date: Date,
    pub amount: Amount,
}

impl View for SalesReceiptTxImpl {
    type V = CommandView;

    /// The command that the transaction carries out.
    open spec fn view(&self) -> CommandView {
        CommandView::SalesReceipt { emp_id: self.emp_id, date: self.date, amount: self.amount }
    }
}

impl Clone for SalesReceiptTxImpl {
    fn clone(&self) -> (r: SalesReceiptTxImpl)
        ensures
            r == *self,
    {
        SalesReceiptTxImpl {
            emp_id: self.emp_id,
            date: self.date,
            amount: self.amount,
        }
    }
}

impl<Ctx: PayrollDao> Transaction<Ctx> for SalesReceiptTxImpl {
    open spec fn applied(&self, s: PayrollState) -> PayrollState {
        command_effect(self@, s)
    }

    open spec fn succeeds(&self, s: PayrollState) -> bool {
        command_succeeds(self@, s)
    }

    open spec fn fails_with(&self, s: PayrollState, e: UsecaseError) -> bool {
        command_fails_with(self@, s, e)
    }

    open spec fn breaks_off(&self, s: PayrollState, after: PayrollState, e: UsecaseError) -> bool {
        command_breaks_off(self@, s, after, e)
    }

    fn execute(&self, ctx: &mut Ctx) -> (r: Result<(), UsecaseError>) {
        SalesReceiptTx::execute(ctx, self.emp_id, self.date, self.amount)
    }
}

/// Makes an employee a member of the union.
#[derive(Debug, PartialEq)]
pub struct ChangeUnionMemberTxImpl {
    pub emp_id: EmployeeId,
    pub member_id: MemberId,
    pub dues: Amount,
}

impl View for ChangeUnionMemberTxImpl {
    type V = CommandView;

    /// The command that the transaction carries out.
    open spec fn view(&self) -> CommandView {
        CommandView::ChgMember { emp_id: self.emp_id, member_id: self.member_id, dues: self.dues }
    }
}

impl Clone for ChangeUnionMemberTxImpl {
    fn clone(&self) -> (r: ChangeUnionMemberTxImpl)
        ensures
            r == *self,
    {
        ChangeUnionMemberTxImpl {
            emp_id: self.emp_id,
            member_id: self.member_id,
            dues: self.dues,
        }
    }
}

impl<Ctx: PayrollDao> Transaction<Ctx> for ChangeUnionMemberTxImpl {
    open spec fn applied(&self, s: PayrollState) -> PayrollState {
        command_effect(self@, s)
    }

    open spec fn succeeds(&self, s: PayrollState) -> bool {
        command_succeeds(self@, s)
    }

    open spec fn fails_with(&self, s: PayrollState, e: UsecaseError) -> bool {
        command_fails_with(self@, s, e)
    }

    open spec fn breaks_off(&self, s: PayrollState, after: PayrollState, e: UsecaseError) -> bool {
        command_breaks_off(self@, s, after, e)
    }

    fn execute(&self, ctx: &mut Ctx) -> (r: Result<(), UsecaseError>) {
        ChangeUnionMemberTx::execute(ctx, self.emp_id, self.member_id, self.dues)
    }
}

/// Takes an employee out of the union.
#[derive(Debug, PartialEq)]
pub struct ChangeUnaffiliatedTxImpl {
    pub emp_id: EmployeeId,
}

impl View for ChangeUnaffiliatedTxImpl {
    type V = CommandView;

    /// The command that the transaction carries out.
    open spec fn view(&self) -> CommandView {
        CommandView::ChgNoMember { emp_id: self.emp_id }
    }
}

impl Clone for ChangeUnaffiliatedTxImpl {
    fn clone(&self) -> (r: ChangeUnaffiliatedTxImpl)
        ensures
            r == *self,
    {
        ChangeUnaffiliatedTxImpl {
            emp_id: self.emp_id,
        }
    }
}

impl<Ctx: PayrollDao> Transaction<Ctx> for ChangeUnaffiliatedTxImpl {
    open spec fn applied(&self, s: PayrollState) -> PayrollState {
        command_effect(self@, s)
    }

    open spec fn succeeds(&self, s: PayrollState) -> bool {
        command_succeeds(self@, s)
    }

    open spec fn fails_with(&self, s: PayrollState, e: UsecaseError) -> bool {
        command_fails_with(self@, s, e)
    }

    open spec fn breaks_off(&self, s: PayrollState, after: PayrollState, e: UsecaseError) -> bool {
        command_breaks_off(self@, s, after, e)
    }

    fn execute(&self, ctx: &mut Ctx) -> (r: Result<(), UsecaseError>) {
        ChangeUnaffiliatedTx::execute(ctx, self.emp_id)
    }
}

/// Enters a service charge against a union member.
#[derive(Debug, PartialEq)]
pub struct ServiceChargeTxImpl {
    pub member_id: MemberId,
    pub date: Date,
    pub amount: Amount,
}

impl View for ServiceChargeTxImpl {
    type V = CommandView;

    /// The command that the transaction carries out.
    open spec fn view(&self) -> CommandView {
        CommandView::ServiceCharge {
            member_id: self.member_id,
            date: self.date,
            amount: self.amount,
        }
    }
}

impl Clone for ServiceChargeTxImpl {
    fn clone(&self) -> (r: ServiceChargeTxImpl)
        ensures
            r == *self,
    {
        ServiceChargeTxImpl {
            member_id: self.member_id,
            date: self.date,
            amount: self.amount,
        }
    }
}

impl<Ctx: PayrollDao> Transaction<Ctx> for ServiceChargeTxImpl {
    open spec fn applied(&self, s: PayrollState) -> PayrollState {
        command_effect(self@, s)
    }

    open spec fn succeeds(&self, s: PayrollState) -> bool {
        command_succeeds(self@, s)
    }

    open spec fn fails_with(&self, s: PayrollState, e: UsecaseError) -> bool {
        command_fails_with(self@, s, e)
    }

    open spec fn breaks_off(&self, s: PayrollState, after: PayrollState, e: UsecaseError) -> bool {
        command_breaks_off(self@, s, after, e)
    }

    fn execute(&self, ctx: &mut Ctx) -> (r: Result<(), UsecaseError>) {
        ServiceChargeTx::execute(ctx, self.member_id, self.date, self.amount)
    }
}

/// Removes an employee.
#[derive(Debug, PartialEq)]
pub struct DeleteEmployeeTxImpl {
    pub emp_id: EmployeeId,
}

impl View for DeleteEmployeeTxImpl {
    type V = CommandView;

    /// The command that the transaction carries out.
    open spec fn view(&self) -> CommandView {
        CommandView::DelEmp { emp_id: self.emp_id }
    }
}

impl Clone for DeleteEmployeeTxImpl {
    fn clone(&self) -> (r: DeleteEmployeeTxImpl)
        ensures
            r == *self,
    {
        DeleteEmployeeTxImpl {
            emp_id: self.emp_id,
        }
    }
}

impl<Ctx: PayrollDao> Transaction<Ctx> for DeleteEmployeeTxImpl {
    open spec fn applied(&self, s: PayrollState) -> PayrollState {
        command_effect(self@, s)
    }

    open spec fn succeeds(&self, s: PayrollState) -> bool {
        command_succeeds(self@, s)
    }

    open spec fn fails_with(&self, s: PayrollState, e: UsecaseError) -> bool {
        command_fails_with(self@, s, e)
    }

    open spec fn breaks_off(&self, s: PayrollState, after: PayrollState, e: UsecaseError) -> bool {
        command_breaks_off(self@, s, after, e)
    }

    fn execute(&self, ctx: &mut Ctx) -> (r: Result<(), UsecaseError>) {
        DeleteEmployeeTx::execute(ctx, self.emp_id)
    }
}

/// Pays every employee who is due on a day. Run as a transaction, it records
/// the paychecks and drops the orders to pay them out; `PaydayTx::execute`
/// hands them back.
#[derive(Debug, PartialEq)]
pub struct PaydayTxImpl {
    pub pay_date: Date,
}

impl View for PaydayTxImpl {
    type V = CommandView;

    /// The command that the transaction carries out.
    open spec fn view(&self) -> CommandView {
        CommandView::Payday { pay_date: self.pay_date }
    }
}

impl Clone for PaydayTxImpl {
    fn clone(&self) -> (r: PaydayTxImpl)
        ensures
            r == *self,
    {
        PaydayTxImpl {
            pay_date: self.pay_date,
        }
    }
}

impl<Ctx: PayrollDao> Transaction<Ctx> for PaydayTxImpl {
    open spec fn applied(&self, s: PayrollState) -> PayrollState {
        command_effect(self@, s)
    }

    open spec fn succeeds(&self, s: PayrollState) -> bool {
        command_succeeds(self@, s)
    }

    open spec fn fails_with(&self, s: PayrollState, e: UsecaseError) -> bool {
        command_fails_with(self@, s, e)
    }

    open spec fn breaks_off(&self, s: PayrollState, after: PayrollState, e: UsecaseError) -> bool {
        command_breaks_off(self@, s, after, e)
    }

    fn execute(&self, ctx: &mut Ctx) -> (r: Result<(), UsecaseError>) {
        match PaydayTx::execute(ctx, self.pay_date) {
            Ok(_) => Ok(()),
            Err(e) => Err(e),
        }
    }
}

/// Any one of the transactions.
#[derive(Debug, PartialEq)]
pub enum AnyTransaction {
    AddSalaryEmployee(AddSalaryEmployeeTxImpl),
    AddHourlyEmployee(AddHourlyEmployeeTxImpl),
    AddCommissionedEmployee(AddCommissionedEmployeeTxImpl),
    ChangeEmployeeName(ChangeEmployeeNameTxImpl),
    ChangeEmployeeAddress(ChangeEmployeeAddressTxImpl),
    ChangeEmployeeSalaried(ChangeEmployeeSalariedTxImpl),
    ChangeEmployeeHourly(ChangeEmployeeHourlyTxImpl),
    ChangeEmployeeCommissioned(ChangeEmployeeCommissionedTxImpl),
    ChangeEmployeeHold(ChangeEmployeeHoldTxImpl),
    ChangeEmployeeMail(ChangeEmployeeMailTxImpl),
    ChangeEmployeeDirect(ChangeEmployeeDirectTxImpl),
    TimeCard(TimeCardTxImpl),
    SalesReceipt(SalesReceiptTxImpl),
    ChangeUnionMember(ChangeUnionMemberTxImpl),
    ChangeUnaffiliated(ChangeUnaffiliatedTxImpl),
    ServiceCharge(ServiceChargeTxImpl),
    DeleteEmployee(DeleteEmployeeTxImpl),
    Payday(PaydayTxImpl),
}

impl View for AnyTransaction {
    type V = CommandView;

    /// The command that the transaction carries out.
    open spec fn view(&self) -> CommandView {
        match self {
            AnyTransaction::AddSalaryEmployee(tx) => tx@,
            AnyTransaction::AddHourlyEmployee(tx) => tx@,
            AnyTransaction::AddCommissionedEmployee(tx) => tx@,
            AnyTransaction::ChangeEmployeeName(tx) => tx@,
            AnyTransaction::ChangeEmployeeAddress(tx) => tx@,
            AnyTransaction::ChangeEmployeeSalaried(tx) => tx@,
            AnyTransaction::ChangeEmployeeHourly(tx) => tx@,
            AnyTransaction::ChangeEmployeeCommissioned(tx) => tx@,
            AnyTransaction::ChangeEmployeeHold(tx) => tx@,
            AnyTransaction::ChangeEmployeeMail(tx) => tx@,
            AnyTransaction::ChangeEmployeeDirect(tx) => tx@,
            AnyTransaction::TimeCard(tx) => tx@,
            AnyTransaction::SalesReceipt(tx) => tx@,
            AnyTransaction::ChangeUnionMember(tx) => tx@,
            AnyTransaction::ChangeUnaffiliated(tx) => tx@,
            AnyTransaction::ServiceCharge(tx) => tx@,
            AnyTransaction::DeleteEmployee(tx) => tx@,
            AnyTransaction::Payday(tx) => tx@,
        }
    }
}

impl Clone for AnyTransaction {
    fn clone(&self) -> (r: AnyTransaction)
        ensures
            r == *self,
    {
        match self {
            AnyTransaction::AddSalaryEmployee(tx) => AnyTransaction::AddSalaryEmployee(tx.clone()),
            AnyTransaction::AddHourlyEmployee(tx) => AnyTransaction::AddHourlyEmployee(tx.clone()),
            AnyTransaction::AddCommissionedEmployee(tx) => AnyTransaction::AddCommissionedEmployee(
                tx.clone(),
            ),
            AnyTransaction::ChangeEmployeeName(tx) => AnyTransaction::ChangeEmployeeName(
                tx.clone(),
            ),
            AnyTransaction::ChangeEmployeeAddress(tx) => AnyTransaction::ChangeEmployeeAddress(
                tx.clone(),
            ),
            AnyTransaction::ChangeEmployeeSalaried(tx) => AnyTransaction::ChangeEmployeeSalaried(
                tx.clone(),
            ),
            AnyTransaction::ChangeEmployeeHourly(tx) => AnyTransaction::ChangeEmployeeHourly(
                tx.clone(),
            ),
            AnyTransaction::ChangeEmployeeCommissioned(tx) => {
                AnyTransaction::ChangeEmployeeCommissioned(tx.clone())
            },
            AnyTransaction::ChangeEmployeeHold(tx) => AnyTransaction::ChangeEmployeeHold(
                tx.clone(),
            ),
            AnyTransaction::ChangeEmployeeMail(tx) => AnyTransaction::ChangeEmployeeMail(
                tx.clone(),
            ),
            AnyTransaction::ChangeEmployeeDirect(tx) => AnyTransaction::ChangeEmployeeDirect(
                tx.clone(),
            ),
            AnyTransaction::TimeCard(tx) => AnyTransaction::TimeCard(tx.clone()),
            AnyTransaction::SalesReceipt(tx) => AnyTransaction::SalesReceipt(tx.clone()),
            AnyTransaction::ChangeUnionMember(tx) => AnyTransaction::ChangeUnionMember(tx.clone()),
            AnyTransaction::ChangeUnaffiliated(tx) => AnyTransaction::ChangeUnaffiliated(
                tx.clone(),
            ),
            AnyTransaction::ServiceCharge(tx) => AnyTransaction::ServiceCharge(tx.clone()),
            AnyTransaction::DeleteEmployee(tx) => AnyTransaction::DeleteEmployee(tx.clone()),
            AnyTransaction::Payday(tx) => AnyTransaction::Payday(tx.clone()),
        }
    }
}

impl<Ctx: PayrollDao> Transaction<Ctx> for AnyTransaction {
    open spec fn applied(&self, s: PayrollState) -> PayrollState {
        command_effect(self@, s)
    }

    open spec fn succeeds(&self, s: PayrollState) -> bool {
        command_succeeds(self@, s)
    }

    open spec fn fails_with(&self, s: PayrollState, e: UsecaseError) -> bool {
        command_fails_with(self@, s, e)
    }

    open spec fn breaks_off(&self, s: PayrollState, after: PayrollState, e: UsecaseError) -> bool {
        command_breaks_off(self@, s, after, e)
    }

    fn execute(&self, ctx: &mut Ctx) -> (r: Result<(), UsecaseError>) {
        match self {
            AnyTransaction::AddSalaryEmployee(tx) => tx.execute(ctx),
            AnyTransaction::AddHourlyEmployee(tx) => tx.execute(ctx),
            AnyTransaction::AddCommissionedEmployee(tx) => tx.execute(ctx),
            AnyTransaction::ChangeEmployeeName(tx) => tx.execute(ctx),
            AnyTransaction::ChangeEmployeeAddress(tx) => tx.execute(ctx),
            AnyTransaction::ChangeEmployeeSalaried(tx) => tx.execute(ctx),
            AnyTransaction::ChangeEmployeeHourly(tx) => tx.execute(ctx),
            AnyTransaction::ChangeEmployeeCommissioned(tx) => tx.execute(ctx),
            AnyTransaction::ChangeEmployeeHold(tx) => tx.execute(ctx),
            AnyTransaction::ChangeEmployeeMail(tx) => tx.execute(ctx),
            AnyTransaction::ChangeEmployeeDirect(tx) => tx.execute(ctx),
            AnyTransaction::TimeCard(tx) => tx.execute(ctx),
            AnyTransaction::SalesReceipt(tx) => tx.execute(ctx),
            AnyTransaction::ChangeUnionMember(tx) => tx.execute(ctx),
            AnyTransaction::ChangeUnaffiliated(tx) => tx.execute(ctx),
            AnyTransaction::ServiceCharge(tx) => tx.execute(ctx),
            AnyTransaction::DeleteEmployee(tx) => tx.execute(ctx),
            AnyTransaction::Payday(tx) => tx.execute(ctx),
        }
    }
}

} // verus!
