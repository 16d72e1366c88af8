//! Union membership and what it takes from a paycheck.

use vstd::prelude::*;
use crate::amount::cap;
use crate::amount::Amount;
use crate::calendar::fridays_between;
use crate::calendar::Date;
use crate::calendar::Period;
use crate::payroll_domain::Affiliation;
use crate::payroll_domain::MemberId;
use crate::payroll_domain::Paycheck;

verus! {

/// One charge that the union makes against a member.
#[derive(Clone, Copy, Debug, PartialEq, Eq, Structural)]
pub struct ServiceCharge {
    pub date: Date,
    pub amount: Amount,
}

impl ServiceCharge {
    pub fn new(date: Date, amount: Amount) -> (r: ServiceCharge)
        ensures
            r.date == date,
            r.amount == amount,
    {
        ServiceCharge { date, amount }
    }
}

/// The sum, in thousandths, of those of `charges` whose date lies in `period`.
pub open spec fn charges_due(charges: Seq<ServiceCharge>, period: Period) -> nat
    decreases charges.len(),
{
    if charges.len() == 0 {
        0
    } else {
        let charge = charges.last();
        charges_due(charges.drop_last(), period) + if period.covers(charge.date.day_number()) {
            charge.amount.value()
        } else {
            0
        }
    }
}

/// The dues, in thousandths, that fall in `period`: `dues` once for each of its Fridays.
pub open spec fn dues_due(dues: Amount, period: Period) -> nat {
    dues.value() * fridays_between(period.start.day_number(), period.end.day_number())
}

/// What an affiliation holds, its service charges as a sequence.
pub enum AffiliationView {
    Unaffiliated,
    Union { member_id: MemberId, dues: Amount, service_charges: Seq<ServiceCharge> },
}

impl AffiliationView {
    /// The deductions for `period` in thousandths, before they are held at the cap.
    pub open spec fn deductions(self, period: Period) -> nat {
        match self {
            AffiliationView::Unaffiliated => 0,
            AffiliationView::Union { member_id, dues, service_charges } => dues_due(dues, period)
                + charges_due(service_charges, period),
        }
    }
}

#[derive(Debug, PartialEq)]
pub enum AffiliationImpl {
    /// No union takes anything from the pay.
    Unaffiliated,
    /// A union member pays the weekly dues and the service charges made against them.
    Union { member_id: MemberId, dues: Amount, service_charges: Vec<ServiceCharge> },
}

impl View for AffiliationImpl {
    type V = AffiliationView;

    open spec fn view(&self) -> AffiliationView {
        match self {
            AffiliationImpl::Unaffiliated => AffiliationView::Unaffiliated,
            AffiliationImpl::Union { member_id, dues, service_charges } => AffiliationView::Union {
                member_id: *member_id,
                dues: *dues,
                service_charges: service_charges@,
            },
        }
    }
}

impl AffiliationImpl {
    /// Adds a service charge after those already held.
    pub fn add_service_charge(&mut self, sc: ServiceCharge)
        requires
            old(self)@ is Union,
        ensures
            final(self)@ == (AffiliationView::Union {
                member_id: old(self)@->member_id,
                dues: old(self)@->dues,
                service_charges: old(self)@->service_charges.push(sc),
            }),
    {
        match self {
            AffiliationImpl::Unaffiliated => {},
            AffiliationImpl::Union { service_charges, .. } => {
                service_charges.push(sc);
            },
        }
    }

    /// The number under which the union knows the member.
    pub fn get_member_id(&self) -> (r: MemberId)
        requires
            self@ is Union,
        ensures
            r == self@->member_id,
    {
        match self {
            AffiliationImpl::Unaffiliated => 0,
            AffiliationImpl::Union { member_id, .. } => *member_id,
        }
    }
}

impl Clone for AffiliationImpl {
    fn clone(&self) -> (r: AffiliationImpl)
        ensures
            r@ == self@,
    {
        match self {
            AffiliationImpl::Unaffiliated => AffiliationImpl::Unaffiliated,
            AffiliationImpl::Union { member_id, dues, service_charges } => {
                let mut copy: Vec<ServiceCharge> = Vec::new();
                let mut i: usize = 0;
                while i < service_charges.len()
                    invariant
                        i <= service_charges.len(),
                        copy@ == service_charges@.take(i as int),
                    decreases service_charges.len() - i,
                {
                    copy.push(service_charges[i]);
                    assert(service_charges@.take(i + 1) == service_charges@.take(i as int).push(
                        service_charges@[i as int],
                    ));
                    i = i + 1;
                }
                assert(service_charges@.take(i as int) == service_charges@);
                AffiliationImpl::Union {
                    member_id: *member_id,
                    dues: *dues,
                    service_charges: copy,
                }
            },
        }
    }
}

impl AffiliationImpl {
    /// The deductions for `period`, held at the cap.
    pub fn deductions_for(&self, period: Period) -> (r: Amount)
        ensures
            r.value() == cap(self@.deductions(period)),
    {
        match self {
            AffiliationImpl::Unaffiliated => Amount::zero(),
            AffiliationImpl::Union { dues, service_charges, .. } => {
                let total_dues: Amount = dues.times(period.count_fridays());
                let mut charges: Amount = Amount::zero();
                let mut i: usize = 0;
                while i < service_charges.len()
                    invariant
                        i <= service_charges.len(),
                        charges.value() == cap(
                            charges_due(service_charges@.take(i as int), period),
                        ),
                    decreases service_charges.len() - i,
                {
                    let sc: ServiceCharge = service_charges[i];
                    assert(service_charges@.take(i + 1).drop_last() == service_charges@.take(
                        i as int,
                    ));
                    if period.contains(&sc.date) {
                        charges = charges.plus(sc.amount);
                    }
                    i = i + 1;
                }
                assert(service_charges@.take(i as int) == service_charges@);
                total_dues.plus(charges)
            },
        }
    }
}

impl Affiliation for AffiliationImpl {
    open spec fn deductions(&self, period: Period) -> nat {
        self@.deductions(period)
    }

    fn calculate_deductions(&self, pc: &Paycheck) -> (r: Amount) {
        self.deductions_for(pc.get_period())
    }
}

} // verus!
