//! An application that runs the transactions of one script.

use vstd::prelude::*;
use std::collections::VecDeque;
use crate::dao::PayrollDao;
use crate::laws::law_run_is_script_effect;
use crate::laws::law_run_may_leave;
use crate::mock_tx_impl::AnyTransaction;
use crate::parser::transactions_at;
use crate::semantics::script_effect;
use crate::semantics::script_may_leave;
use crate::text_parser_tx_source::commands_of;
use crate::text_parser_tx_source::transactions_of;
use crate::text_parser_tx_source::TextParserTransactionSource;
use crate::tx_app::TransactionApplication;
use crate::tx_app::TransactionSource;

verus! {

/// The transactions of one script, ready to run any number of times.
#[derive(Debug)]
pub struct TestPayrollApp {
    txs: Vec<AnyTransaction>,
}

impl TestPayrollApp {
    /// The transactions of the application, the first one first.
    pub closed spec fn transactions(&self) -> Seq<AnyTransaction> {
        self.txs@
    }

    /// Reads the commands of `script` up to the first place where none can be
    /// read, and holds a transaction for each.
    pub fn new(script: &str) -> (r: TestPayrollApp)
        ensures
            commands_of(r.transactions()) == transactions_at(script@, 0).0,
    {
        TestPayrollApp { txs: transactions_of(script) }
    }
}

impl<Ctx: PayrollDao> TransactionApplication<Ctx> for TestPayrollApp {
    type Source = TextParserTransactionSource;

    open spec fn script(&self) -> Seq<AnyTransaction> {
        self.transactions()
    }

    fn tx_source(&self) -> (r: TextParserTransactionSource) {
        let mut copies: VecDeque<AnyTransaction> = VecDeque::new();
        let mut i: usize = 0;
        while i < self.txs.len()
            invariant
                i <= self.txs.len(),
                copies@ == self.txs@.take(i as int),
            decreases self.txs.len() - i,
        {
            copies.push_back(self.txs[i].clone());
            assert(self.txs@.take(i + 1) == self.txs@.take(i as int).push(self.txs@[i as int]));
            i = i + 1;
        }
        assert(self.txs@.take(i as int) == self.txs@);
        let r = TextParserTransactionSource::from_transactions(copies);
        assert(<TextParserTransactionSource as TransactionSource<Ctx>>::pending(&r)
            == r.remaining());
        assert(<TestPayrollApp as TransactionApplication<Ctx>>::script(self)
            == self.transactions());
        r
    }
}

/// Runs the commands of `script` against `ctx`, one after the other, up to
/// the first place in the script where no command can be read. A command
/// that fails does not stop the run.
pub fn run_script<Ctx: PayrollDao>(script: &str, ctx: &mut Ctx)
    ensures
        final(ctx).dependable() == old(ctx).dependable(),
        script_may_leave(transactions_at(script@, 0).0, old(ctx).state(), final(ctx).state()),
        old(ctx).dependable() ==> final(ctx).state() == script_effect(
            transactions_at(script@, 0).0,
            old(ctx).state(),
        ),
{
    let mut app = TestPayrollApp::new(script);
    let _ = app.run(ctx);
    proof {
        law_run_is_script_effect::<Ctx>(app.transactions(), old(ctx).state());
        law_run_may_leave::<Ctx>(app.transactions(), old(ctx).state(), ctx.state());
    }
}

} // verus!
