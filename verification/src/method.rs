//! The three payment methods.

use vstd::prelude::*;
use crate::payroll_domain::Paycheck;
use crate::payroll_domain::PaymentMethod;

verus! {

/// What a payment method holds, its texts as sequences of characters.
pub enum MethodView {
    Hold,
    Mail { address: Seq<char> },
    Direct { bank: Seq<char>, account: Seq<char> },
}

#[derive(Debug, PartialEq)]
pub enum PaymentMethodImpl {
    /// The paymaster holds the check.
    Hold,
    /// The check is sent by mail.
    Mail { address: String },
    /// The net pay is deposited in a bank account.
    Direct { bank: String, account: String },
}

impl View for PaymentMethodImpl {
    type V = MethodView;

    open spec fn view(&self) -> MethodView {
        match self {
            PaymentMethodImpl::Hold => MethodView::Hold,
            PaymentMethodImpl::Mail { address } => MethodView::Mail { address: address@ },
            PaymentMethodImpl::Direct { bank, account } => MethodView::Direct {
                bank: bank@,
                account: account@,
            },
        }
    }
}

impl Clone for PaymentMethodImpl {
    fn clone(&self) -> (r: PaymentMethodImpl)
        ensures
            r@ == self@,
    {
        match self {
            PaymentMethodImpl::Hold => PaymentMethodImpl::Hold,
            PaymentMethodImpl::Mail { address } => PaymentMethodImpl::Mail {
                address: address.clone(),
            },
            PaymentMethodImpl::Direct { bank, account } => PaymentMethodImpl::Direct {
                bank: bank.clone(),
                account: account.clone(),
            },
        }
    }
}

/// An order to pay out one paycheck by one method.
#[derive(Debug, PartialEq)]
pub struct Disbursement {
    pub method: PaymentMethodImpl,
    pub paycheck: Paycheck,
}

/// What a disbursement holds.
pub struct DisbursementView {
    pub method: MethodView,
    pub paycheck: Paycheck,
}

impl View for Disbursement {
    type V = DisbursementView;

    open spec fn view(&self) -> DisbursementView {
        DisbursementView { method: self.method@, paycheck: self.paycheck }
    }
}

impl PaymentMethodImpl {
    /// The order to pay out `pc` by this method.
    pub fn order(&self, pc: Paycheck) -> (r: Disbursement)
        ensures
            r@ == (DisbursementView { method: self@, paycheck: pc }),
    {
        Disbursement { method: self.clone(), paycheck: pc }
    }
}

impl PaymentMethod for PaymentMethodImpl {
    open spec fn instruction(&self, pc: Paycheck) -> DisbursementView {
        DisbursementView { method: self@, paycheck: pc }
    }

    fn pay(&self, pc: &Paycheck) -> (r: Disbursement) {
        self.order(*pc)
    }
}

} // verus!
