//! The storage port: what the transactions ask of a store, and what a store
//! owes them.

use vstd::prelude::*;
use vstd::string::StringExecFns;
use crate::payroll_domain::Employee;
use crate::payroll_domain::EmployeeId;
use crate::payroll_domain::EmployeeView;
use crate::payroll_domain::MemberId;
use crate::payroll_domain::Paycheck;

verus! {

/// A failure of the store, with a text that describes it.
#[derive(Debug, PartialEq, Eq)]
pub enum DaoError {
    InsertError(String),
    DeleteError(String),
    FetchError(String),
    UpdateError(String),
}

impl Clone for DaoError {
    fn clone(&self) -> (r: DaoError)
        ensures
            r == *self,
    {
        match self {
            DaoError::InsertError(text) => DaoError::InsertError(text.clone()),
            DaoError::DeleteError(text) => DaoError::DeleteError(text.clone()),
            DaoError::FetchError(text) => DaoError::FetchError(text.clone()),
            DaoError::UpdateError(text) => DaoError::UpdateError(text.clone()),
        }
    }
}

impl DaoError {
    /// The text that describes the failure.
    pub open spec fn detail(self) -> Seq<char> {
        match self {
            DaoError::InsertError(text) => text@,
            DaoError::DeleteError(text) => text@,
            DaoError::FetchError(text) => text@,
            DaoError::UpdateError(text) => text@,
        }
    }

    /// The words that name the kind of failure.
    pub open spec fn heading(self) -> Seq<char> {
        match self {
            DaoError::InsertError(_) => "insert error: "@,
            DaoError::DeleteError(_) => "delete error: "@,
            DaoError::FetchError(_) => "fetch error: "@,
            DaoError::UpdateError(_) => "update error: "@,
        }
    }

    /// The failure in words: the kind, then the text that describes it.
    pub fn message(&self) -> (r: String)
        ensures
            r@ == self.heading() + self.detail(),
    {
        match self {
            DaoError::InsertError(text) => String::from_str("insert error: ").concat(
                text.as_str(),
            ),
            DaoError::DeleteError(text) => String::from_str("delete error: ").concat(
                text.as_str(),
            ),
            DaoError::FetchError(text) => String::from_str("fetch error: ").concat(text.as_str()),
            DaoError::UpdateError(text) => String::from_str("update error: ").concat(
                text.as_str(),
            ),
        }
    }
}

/// What a store holds: the employees by their id, the union index from member
/// id to employee id, and the paychecks recorded for each employee id, oldest
/// first.
pub struct PayrollState {
    pub employees: Map<EmployeeId, EmployeeView>,
    pub union_members: Map<MemberId, EmployeeId>,
    pub paychecks: Map<EmployeeId, Seq<Paycheck>>,
}

impl PayrollState {
    /// The store that holds nothing.
    pub open spec fn empty() -> PayrollState {
        PayrollState {
            employees: Map::empty(),
            union_members: Map::empty(),
            paychecks: Map::empty(),
        }
    }

    /// Whether every employee stands under its own id.
    pub open spec fn keyed_by_id(self) -> bool {
        forall|emp_id: EmployeeId| #[trigger]
            self.employees.contains_key(emp_id) ==> self.employees[emp_id].emp_id == emp_id
    }

    /// Whether the union index leads to each employee id from one member id at most.
    pub open spec fn one_member_id_each(self) -> bool {
        forall|a: MemberId, b: MemberId|
            self.union_members.contains_key(a) && self.union_members.contains_key(b)
                && #[trigger] self.union_members[a] == #[trigger] self.union_members[b] ==> a == b
    }

    /// The state in which `emp` stands under its own id, in place of whoever
    /// stood there.
    pub open spec fn with_employee(self, emp: EmployeeView) -> PayrollState {
        PayrollState { employees: self.employees.insert(emp.emp_id, emp), ..self }
    }

    /// The state in which no employee stands under `emp_id`.
    pub open spec fn without_employee(self, emp_id: EmployeeId) -> PayrollState {
        PayrollState { employees: self.employees.remove(emp_id), ..self }
    }

    /// Whether the union index leads to `emp_id` from some member id.
    pub open spec fn is_member(self, emp_id: EmployeeId) -> bool {
        exists|member_id: MemberId| #[trigger]
            self.union_members.contains_key(member_id) && self.union_members[member_id] == emp_id
    }

    /// The state in which the union index leads from `member_id` to `emp_id`.
    pub open spec fn with_member(self, member_id: MemberId, emp_id: EmployeeId) -> PayrollState {
        PayrollState { union_members: self.union_members.insert(member_id, emp_id), ..self }
    }

    /// The state in which the union index knows no `member_id`.
    pub open spec fn without_member(self, member_id: MemberId) -> PayrollState {
        PayrollState { union_members: self.union_members.remove(member_id), ..self }
    }

    /// The paychecks recorded for `emp_id`, oldest first; none where none was recorded.
    pub open spec fn paychecks_of(self, emp_id: EmployeeId) -> Seq<Paycheck> {
        if self.paychecks.contains_key(emp_id) {
            self.paychecks[emp_id]
        } else {
            Seq::empty()
        }
    }

    /// The state in which `pc` is recorded for `emp_id` after those recorded before.
    pub open spec fn with_paycheck(self, emp_id: EmployeeId, pc: Paycheck) -> PayrollState {
        PayrollState {
            paychecks: self.paychecks.insert(emp_id, self.paychecks_of(emp_id).push(pc)),
            ..self
        }
    }

    /// Whether `listed` are the employees of this state: each stands in it
    /// under its id, none is listed twice and none is left out.
    pub open spec fn lists(self, listed: Seq<EmployeeView>) -> bool {
        &&& forall|i: int|
            0 <= i < listed.len() ==> self.employees.contains_key(#[trigger] listed[i].emp_id)
                && self.employees[listed[i].emp_id] == listed[i]
        &&& forall|i: int, j: int|
            0 <= i < j < listed.len() ==> #[trigger] listed[i].emp_id != #[trigger] listed[j].emp_id
        &&& forall|emp_id: EmployeeId| #[trigger]
            self.employees.contains_key(emp_id) ==> exists|i: int|
                0 <= i < listed.len() && #[trigger] listed[i].emp_id == emp_id
    }
}

/// The views of `employees`, in their order.
pub open spec fn views_of(employees: Seq<Employee>) -> Seq<EmployeeView> {
    Seq::new(employees.len(), |i: int| employees[i]@)
}

/// A store of employees, union members and paychecks.
///
/// Every operation fails on exactly the inputs named here, and leaves the
/// store as it was when it fails. Two of them, listing the employees and
/// recording a paycheck, need no input to fail on a store that is not
/// dependable.
pub trait PayrollDao {
    /// What the store holds.
    spec fn state(&self) -> PayrollState;

    /// Whether the store can be relied on to list its employees and to record
    /// a paycheck whenever it is asked to. Nothing that is done to a store
    /// changes this.
    spec fn dependable(&self) -> bool;

    /// Stores a new employee under its id. Fails where the id is taken.
    fn insert(&mut self, emp: Employee) -> (r: Result<EmployeeId, DaoError>)
        ensures
            final(self).dependable() == old(self).dependable(),
            match r {
                Ok(emp_id) => emp_id == emp@.emp_id && !old(self).state().employees.contains_key(
                    emp_id,
                ) && final(self).state() == old(self).state().with_employee(emp@),
                Err(e) => e is InsertError && old(self).state().employees.contains_key(
                    emp@.emp_id,
                ) && final(self).state() == old(self).state(),
            },
    ;

    /// Removes the employee with this id. Fails where there is none.
    fn delete(&mut self, emp_id: EmployeeId) -> (r: Result<(), DaoError>)
        ensures
            final(self).dependable() == old(self).dependable(),
            match r {
                Ok(_) => old(self).state().employees.contains_key(emp_id) && final(self).state()
                    == old(self).state().without_employee(emp_id),
                Err(e) => e is DeleteError && !old(self).state().employees.contains_key(emp_id)
                    && final(self).state() == old(self).state(),
            },
    ;

    /// A copy of the employee with this id. Fails where there is none.
    fn fetch(&self, emp_id: EmployeeId) -> (r: Result<Employee, DaoError>)
        ensures
            match r {
                Ok(emp) => self.state().employees.contains_key(emp_id) && emp@
                    == self.state().employees[emp_id] && emp@.emp_id == emp_id,
                Err(e) => e is FetchError && !self.state().employees.contains_key(emp_id),
            },
    ;

    /// Stores `emp` in place of the employee with its id. Fails where there is none.
    fn update(&mut self, emp: Employee) -> (r: Result<(), DaoError>)
        ensures
            final(self).dependable() == old(self).dependable(),
            match r {
                Ok(_) => old(self).state().employees.contains_key(emp@.emp_id)
                    && final(self).state() == old(self).state().with_employee(emp@),
                Err(e) => e is UpdateError && !old(self).state().employees.contains_key(
                    emp@.emp_id,
                ) && final(self).state() == old(self).state(),
            },
    ;

    /// Copies of all employees, each once, in no particular order. A
    /// dependable store never fails.
    fn fetch_all(&self) -> (r: Result<Vec<Employee>, DaoError>)
        ensures
            match r {
                Ok(listed) => self.state().lists(views_of(listed@)),
                Err(e) => e is FetchError && !self.dependable(),
            },
    ;

    /// Enters `member_id` in the union index, leading to `emp_id`. Fails where
    /// the index knows the member id, or leads to the employee id already.
    fn add_union_member(&mut self, member_id: MemberId, emp_id: EmployeeId) -> (r: Result<
        (),
        DaoError,
    >)
        ensures
            final(self).dependable() == old(self).dependable(),
            match r {
                Ok(_) => !old(self).state().union_members.contains_key(member_id)
                    && !old(self).state().is_member(emp_id)
                    && final(self).state() == old(self).state().with_member(member_id, emp_id),
                Err(e) => e is InsertError && (old(self).state().union_members.contains_key(
                    member_id,
                ) || old(self).state().is_member(emp_id))
                    && final(self).state() == old(self).state(),
            },
    ;

    /// Takes `member_id` out of the union index. Fails where the index does not know it.
    fn remove_union_member(&mut self, member_id: MemberId) -> (r: Result<(), DaoError>)
        ensures
            final(self).dependable() == old(self).dependable(),
            match r {
                Ok(_) => old(self).state().union_members.contains_key(member_id)
                    && final(self).state() == old(self).state().without_member(member_id),
                Err(e) => e is DeleteError && !old(self).state().union_members.contains_key(
                    member_id,
                ) && final(self).state() == old(self).state(),
            },
    ;

    /// The employee id to which the union index leads from `member_id`. Fails
    /// where the index does not know it.
    fn find_union_member(&self, member_id: MemberId) -> (r: Result<EmployeeId, DaoError>)
        ensures
            match r {
                Ok(emp_id) => self.state().union_members.contains_key(member_id) && emp_id
                    == self.state().union_members[member_id],
                Err(e) => e is FetchError && !self.state().union_members.contains_key(member_id),
            },
    ;

    /// Records `pc` for `emp_id`, after the paychecks recorded before. A
    /// dependable store never fails.
    fn record_paycheck(&mut self, emp_id: EmployeeId, pc: Paycheck) -> (r: Result<(), DaoError>)
        ensures
            final(self).dependable() == old(self).dependable(),
            match r {
                Ok(_) => final(self).state() == old(self).state().with_paycheck(emp_id, pc),
                Err(e) => e is UpdateError && !old(self).dependable() && final(self).state()
                    == old(self).state(),
            },
    ;
}

} // verus!
