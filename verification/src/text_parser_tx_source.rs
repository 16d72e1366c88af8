//! Transactions read from a script.

use vstd::prelude::*;
use std::collections::VecDeque;
use crate::dao::PayrollDao;
use crate::mock_tx_impl::AddCommissionedEmployeeTxImpl;
use crate::mock_tx_impl::AddHourlyEmployeeTxImpl;
use crate::mock_tx_impl::AddSalaryEmployeeTxImpl;
use crate::mock_tx_impl::AnyTransaction;
use crate::mock_tx_impl::ChangeEmployeeAddressTxImpl;
use crate::mock_tx_impl::ChangeEmployeeCommissionedTxImpl;
use crate::mock_tx_impl::ChangeEmployeeDirectTxImpl;
use crate::mock_tx_impl::ChangeEmployeeHoldTxImpl;
use crate::mock_tx_impl::ChangeEmployeeHourlyTxImpl;
use crate::mock_tx_impl::ChangeEmployeeMailTxImpl;
use crate::mock_tx_impl::ChangeEmployeeNameTxImpl;
use crate::mock_tx_impl::ChangeEmployeeSalariedTxImpl;
use crate::mock_tx_impl::ChangeUnaffiliatedTxImpl;
use crate::mock_tx_impl::ChangeUnionMemberTxImpl;
use crate::mock_tx_impl::DeleteEmployeeTxImpl;
use crate::mock_tx_impl::PaydayTxImpl;
use crate::mock_tx_impl::SalesReceiptTxImpl;
use crate::mock_tx_impl::ServiceChargeTxImpl;
use crate::mock_tx_impl::TimeCardTxImpl;
use crate::parser::transactions;
use crate::parser::transactions_at;
use crate::parser::views_of;
use crate::parser::Command;
use crate::parser::CommandView;
use crate::tx_app::TransactionSource;

verus! {

/// The commands that `txs` carry out, in their order.
pub open spec fn commands_of(txs: Seq<AnyTransaction>) -> Seq<CommandView> {
    Seq::new(txs.len(), |k: int| txs[k]@)
}

/// The transaction that carries out `command`.
pub fn to_tx(command: Command) -> (r: AnyTransaction)
    ensures
        r@ == command@,
{
    match command {
        Command::AddSalaryEmp {
            emp_id,
            name,
            address,
            salary,
        } => AnyTransaction::AddSalaryEmployee(
            AddSalaryEmployeeTxImpl { emp_id, name, address, salary },
        ),
        Command::AddHourlyEmp {
            emp_id,
            name,
            address,
            hourly_rate,
        } => AnyTransaction::AddHourlyEmployee(
            AddHourlyEmployeeTxImpl { emp_id, name, address, hourly_rate },
        ),
        Command::AddCommissionedEmp {
            emp_id,
            name,
            address,
            salary,
            commission_rate,
        } => AnyTransaction::AddCommissionedEmployee(
            AddCommissionedEmployeeTxImpl { emp_id, name, address, salary, commission_rate },
        ),
        Command::DelEmp { emp_id } => AnyTransaction::DeleteEmployee(
            DeleteEmployeeTxImpl { emp_id },
        ),
        Command::TimeCard { emp_id, date, hours } => AnyTransaction::TimeCard(
            TimeCardTxImpl { emp_id, date, hours },
        ),
        Command::SalesReceipt { emp_id, date, amount } => AnyTransaction::SalesReceipt(
            SalesReceiptTxImpl { emp_id, date, amount },
        ),
        Command::ServiceCharge { member_id, date, amount } => AnyTransaction::ServiceCharge(
            ServiceChargeTxImpl { member_id, date, amount },
        ),
        Command::ChgName { emp_id, name } => AnyTransaction::ChangeEmployeeName(
            ChangeEmployeeNameTxImpl { emp_id, name },
        ),
        Command::ChgAddress { emp_id, address } => AnyTransaction::ChangeEmployeeAddress(
            ChangeEmployeeAddressTxImpl { emp_id, address },
        ),
        Command::ChgHourly { emp_id, hourly_rate } => AnyTransaction::ChangeEmployeeHourly(
            ChangeEmployeeHourlyTxImpl { emp_id, hourly_rate },
        ),
        Command::ChgSalaried { emp_id, salary } => AnyTransaction::ChangeEmployeeSalaried(
            ChangeEmployeeSalariedTxImpl { emp_id, salary },
        ),
        Command::ChgCommissioned {
            emp_id,
            salary,
            commission_rate,
        } => AnyTransaction::ChangeEmployeeCommissioned(
            ChangeEmployeeCommissionedTxImpl { emp_id, salary, commission_rate },
        ),
        Command::ChgHold { emp_id } => AnyTransaction::ChangeEmployeeHold(
            ChangeEmployeeHoldTxImpl { emp_id },
        ),
        Command::ChgDirect { emp_id, bank, account } => AnyTransaction::ChangeEmployeeDirect(
            ChangeEmployeeDirectTxImpl { emp_id, bank, account },
        ),
        Command::ChgMail { emp_id, address } => AnyTransaction::ChangeEmployeeMail(
            ChangeEmployeeMailTxImpl { emp_id, address },
        ),
        Command::ChgMember { emp_id, member_id, dues } => AnyTransaction::ChangeUnionMember(
            ChangeUnionMemberTxImpl { emp_id, member_id, dues },
        ),
        Command::ChgNoMember { emp_id } => AnyTransaction::ChangeUnaffiliated(
            ChangeUnaffiliatedTxImpl { emp_id },
        ),
        Command::Payday { pay_date } => AnyTransaction::Payday(
            PaydayTxImpl { pay_date },
        ),
    }
}

/// Reads the commands of `input` up to the first place where none can be
/// read, and returns a transaction for each, in their order.
pub fn transactions_of(input: &str) -> (r: Vec<AnyTransaction>)
    ensures
        commands_of(r@) == transactions_at(input@, 0).0,
{
    let (commands, _) = transactions(input);
    let ghost read = commands@;
    let mut txs: Vec<AnyTransaction> = Vec::new();
    for command in it: commands
        invariant
            it.seq() == read,
            txs@.len() == it.index(),
            forall|k: int| 0 <= k < txs@.len() ==> (#[trigger] txs@[k])@ == read[k]@,
    {
        txs.push(to_tx(command));
    }
    assert(commands_of(txs@) =~= views_of(read));
    txs
}

/// The transactions of a script, in the order in which it gives them.
#[derive(Debug)]
pub struct TextParserTransactionSource {
    txs: VecDeque<AnyTransaction>,
}

impl TextParserTransactionSource {
    /// The transactions that are still to come, the next one first.
    pub closed spec fn remaining(&self) -> Seq<AnyTransaction> {
        self.txs@
    }

    /// Reads the commands of `input` up to the first place where none can be
    /// read, and holds a transaction for each.
    pub fn new(input: String) -> (r: TextParserTransactionSource)
        ensures
            commands_of(r.remaining()) == transactions_at(input@, 0).0,
    {
        let read = transactions_of(input.as_str());
        let ghost all = read@;
        let mut txs: VecDeque<AnyTransaction> = VecDeque::new();
        for tx in it: read
            invariant
                it.seq() == all,
                txs@ == all.take(it.index()),
        {
            txs.push_back(tx);
            assert(all.take(it.index() + 1) == all.take(it.index()).push(all[it.index()]));
        }
        assert(all.take(all.len() as int) == all);
        TextParserTransactionSource { txs }
    }

    /// The source that hands out `txs`, the first one first.
    pub fn from_transactions(txs: VecDeque<AnyTransaction>) -> (r: TextParserTransactionSource)
        ensures
            r.remaining() == txs@,
    {
        TextParserTransactionSource { txs }
    }
}

impl<Ctx: PayrollDao> TransactionSource<Ctx> for TextParserTransactionSource {
    type Tx = AnyTransaction;

    open spec fn pending(&self) -> Seq<AnyTransaction> {
        self.remaining()
    }

    fn get_transaction(&mut self) -> (r: Option<AnyTransaction>) {
        self.txs.pop_front()
    }
}

} // verus!
