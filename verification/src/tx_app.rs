//! Transactions as values, where they come from, and the driver that runs them.

use vstd::prelude::*;
use crate::abstract_tx::UsecaseError;
use crate::dao::PayrollDao;
use crate::dao::PayrollState;

verus! {

/// One operation on a store that ends in success or in a failure.
pub trait Transaction<Ctx: PayrollDao> {
    /// What the store holds after the transaction ran on a store that held `s`.
    spec fn applied(&self, s: PayrollState) -> PayrollState;

    /// Whether the transaction succeeds on a store that holds `s`.
    spec fn succeeds(&self, s: PayrollState) -> bool;

    /// Whether `e` is the failure with which the transaction ends on a store
    /// that holds `s`, where it does not succeed.
    spec fn fails_with(&self, s: PayrollState, e: UsecaseError) -> bool;

    /// Whether the transaction may break off with the failure `e` on a store
    /// that held `s` and is not dependable, and leave it holding `after`.
    spec fn breaks_off(&self, s: PayrollState, after: PayrollState, e: UsecaseError) -> bool;

    /// Either the transaction does what `applied`, `succeeds` and
    /// `fails_with` say; or the store is not dependable, and the transaction
    /// breaks off.
    fn execute(&self, ctx: &mut Ctx) -> (r: Result<(), UsecaseError>)
        ensures
            final(ctx).dependable() == old(ctx).dependable(),
            ({
                ||| final(ctx).state() == self.applied(old(ctx).state()) && match r {
                    Ok(_) => self.succeeds(old(ctx).state()),
                    Err(e) => !self.succeeds(old(ctx).state()) && self.fails_with(
                        old(ctx).state(),
                        e,
                    ),
                }
                ||| !old(ctx).dependable() && (r matches Err(e) && self.breaks_off(
                    old(ctx).state(),
                    final(ctx).state(),
                    e,
                ))
            }),
    ;
}

/// Whether `tx`, run on a store that held `s`, may leave it holding `after`:
/// as it does on a dependable store, or as it does where it breaks off.
pub open spec fn may_leave<Ctx: PayrollDao, T: Transaction<Ctx>>(
    tx: T,
    s: PayrollState,
    after: PayrollState,
) -> bool {
    after == tx.applied(s) || exists|e: UsecaseError| tx.breaks_off(s, after, e)
}

/// Whether `txs`, run one after the other on a store that held `s`, whether
/// they succeeded or not, may leave it holding `after`.
pub open spec fn may_run_to<Ctx: PayrollDao, T: Transaction<Ctx>>(
    txs: Seq<T>,
    s: PayrollState,
    after: PayrollState,
) -> bool
    decreases txs.len(),
{
    if txs.len() == 0 {
        after == s
    } else {
        exists|mid: PayrollState| #[trigger]
            may_leave::<Ctx, T>(txs[0], s, mid) && may_run_to::<Ctx, T>(
                txs.drop_first(),
                mid,
                after,
            )
    }
}

/// What the store holds after `txs` ran one after the other, whether they
/// succeeded or not, on a store that held `s`.
pub open spec fn run_all<Ctx: PayrollDao, T: Transaction<Ctx>>(
    txs: Seq<T>,
    s: PayrollState,
) -> PayrollState
    decreases txs.len(),
{
    if txs.len() == 0 {
        s
    } else {
        run_all::<Ctx, T>(txs.drop_first(), txs[0].applied(s))
    }
}

/// A finite supply of transactions, handed out one at a time.
pub trait TransactionSource<Ctx: PayrollDao> {
    type Tx: Transaction<Ctx>;

    /// The transactions that are still to come, the next one first.
    spec fn pending(&self) -> Seq<Self::Tx>;

    /// The next transaction, or `None` when all were handed out.
    fn get_transaction(&mut self) -> (r: Option<Self::Tx>)
        ensures
            match r {
                Some(tx) => old(self).pending().len() > 0 && tx == old(self).pending()[0]
                    && final(self).pending() == old(self).pending().drop_first(),
                None => old(self).pending().len() == 0 && final(self).pending().len() == 0,
            },
    ;
}

/// An application: a supply of transactions, run against a store.
pub trait TransactionApplication<Ctx: PayrollDao> {
    type Source: TransactionSource<Ctx>;

    /// The transactions that the application supplies, the first one first.
    spec fn script(&self) -> Seq<<Self::Source as TransactionSource<Ctx>>::Tx>;

    fn tx_source(&self) -> (r: Self::Source)
        ensures
            r.pending() == self.script(),
    ;

    /// Runs every transaction of the application in turn. A transaction that
    /// fails does not stop the run: its failure is dropped and the next one
    /// runs on the store as the failed one left it.
    fn run(&mut self, ctx: &mut Ctx) -> (r: Result<(), UsecaseError>)
        ensures
            r is Ok,
            final(self).script() == old(self).script(),
            final(ctx).dependable() == old(ctx).dependable(),
            may_run_to::<Ctx, <Self::Source as TransactionSource<Ctx>>::Tx>(
                old(self).script(),
                old(ctx).state(),
                final(ctx).state(),
            ),
            old(ctx).dependable() ==> final(ctx).state() == run_all::<
                Ctx,
                <Self::Source as TransactionSource<Ctx>>::Tx,
            >(old(self).script(), old(ctx).state()),
    {
        let mut tx_source = self.tx_source();
        loop
            invariant
                self.script() == old(self).script(),
                ctx.dependable() == old(ctx).dependable(),
                forall|after: PayrollState| #[trigger]
                    may_run_to::<Ctx, <Self::Source as TransactionSource<Ctx>>::Tx>(
                        tx_source.pending(),
                        ctx.state(),
                        after,
                    ) ==> may_run_to::<Ctx, <Self::Source as TransactionSource<Ctx>>::Tx>(
                        self.script(),
                        old(ctx).state(),
                        after,
                    ),
                old(ctx).dependable() ==> run_all::<
                    Ctx,
                    <Self::Source as TransactionSource<Ctx>>::Tx,
                >(tx_source.pending(), ctx.state()) == run_all::<
                    Ctx,
                    <Self::Source as TransactionSource<Ctx>>::Tx,
                >(self.script(), old(ctx).state()),
            ensures
                tx_source.pending().len() == 0,
            decreases tx_source.pending().len(),
        {
            let ghost before = ctx.state();
            let ghost pending = tx_source.pending();
            match tx_source.get_transaction() {
                Some(tx) => {
                    let _ = tx.execute(ctx);
                    proof {
                        let now = ctx.state();
                        assert(may_leave::<Ctx, <Self::Source as TransactionSource<Ctx>>::Tx>(
                            pending[0],
                            before,
                            now,
                        ));
                        assert forall|after: PayrollState| #[trigger]
                            may_run_to::<Ctx, <Self::Source as TransactionSource<Ctx>>::Tx>(
                                pending.drop_first(),
                                now,
                                after,
                            ) implies may_run_to::<
                            Ctx,
                            <Self::Source as TransactionSource<Ctx>>::Tx,
                        >(self.script(), old(ctx).state(), after) by {
                            assert(may_run_to::<Ctx, <Self::Source as TransactionSource<Ctx>>::Tx>(
                                pending,
                                before,
                                after,
                            ));
                        }
                    }
                },
                None => {
                    proof {
                        assert forall|after: PayrollState| #[trigger]
                            may_run_to::<Ctx, <Self::Source as TransactionSource<Ctx>>::Tx>(
                                tx_source.pending(),
                                ctx.state(),
                                after,
                            ) implies may_run_to::<
                            Ctx,
                            <Self::Source as TransactionSource<Ctx>>::Tx,
                        >(self.script(), old(ctx).state(), after) by {
                            assert(may_run_to::<Ctx, <Self::Source as TransactionSource<Ctx>>::Tx>(
                                pending,
                                before,
                                after,
                            ));
                        }
                    }
                    break ;
                },
            }
        }
        assert(may_run_to::<Ctx, <Self::Source as TransactionSource<Ctx>>::Tx>(
            tx_source.pending(),
            ctx.state(),
            ctx.state(),
        ));
        Ok(())
    }
}

} // verus!
