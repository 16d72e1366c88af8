//! A store that keeps everything in memory.

use vstd::prelude::*;
use vstd::std_specs::hash::spec_hash_map_iter;
use vstd::std_specs::iter::IteratorSpec;
use vstd::string::StringExecFns;
use std::collections::HashMap;
use crate::dao::views_of;
use crate::dao::DaoError;
use crate::dao::PayrollDao;
use crate::dao::PayrollState;
use crate::payroll_domain::Employee;
use crate::payroll_domain::EmployeeId;
use crate::payroll_domain::MemberId;
use crate::payroll_domain::Paycheck;
use crate::text::decimal;
use crate::text::numbered;

verus! {

broadcast use vstd::std_specs::hash::group_hash_axioms;

/// The employees by id, the union index by member id, and the recorded
/// paychecks by employee id.
#[derive(Debug)]
pub struct MockDb {
    employees: HashMap<EmployeeId, Employee>,
    union_members: HashMap<MemberId, EmployeeId>,
    paychecks: HashMap<EmployeeId, Vec<Paycheck>>,
}

/// The text of a failure about the key `id`: what kind of key it is, the key
/// in decimal digits, and what is wrong with it.
pub open spec fn about_key(key: Seq<char>, id: u32, what: Seq<char>) -> Seq<char> {
    key + decimal(id as nat) + what
}

/// The text of a failure about the key `id`.
fn key_text(key: &str, id: u32, what: &str) -> (r: String)
    ensures
        r@ == about_key(key@, id, what@),
{
    numbered(key, id).concat(what)
}

impl MockDb {
    /// Every employee stands under its own id.
    #[verifier::type_invariant]
    spec fn keyed_by_own_id(self) -> bool {
        forall|emp_id: EmployeeId| #[trigger]
            self.employees@.contains_key(emp_id) ==> self.employees@[emp_id]@.emp_id == emp_id
    }

    /// A store that holds nothing.
    pub fn new() -> (r: MockDb)
        ensures
            r.state() == PayrollState::empty(),
    {
        let r = MockDb {
            employees: HashMap::new(),
            union_members: HashMap::new(),
            paychecks: HashMap::new(),
        };
        assert(r.state().employees =~= Map::empty());
        assert(r.state().paychecks =~= Map::empty());
        r
    }

    /// Copies of the paychecks recorded for `emp_id`, oldest first.
    pub fn paychecks_of(&self, emp_id: EmployeeId) -> (r: Vec<Paycheck>)
        ensures
            r@ == self.state().paychecks_of(emp_id),
    {
        let mut copies: Vec<Paycheck> = Vec::new();
        match self.paychecks.get(&emp_id) {
            Some(recorded) => {
                let mut i: usize = 0;
                while i < recorded.len()
                    invariant
                        i <= recorded.len(),
                        copies@ == recorded@.take(i as int),
                    decreases recorded.len() - i,
                {
                    copies.push(recorded[i]);
                    assert(recorded@.take(i + 1) == recorded@.take(i as int).push(
                        recorded@[i as int],
                    ));
                    i = i + 1;
                }
                assert(recorded@.take(i as int) == recorded@);
            },
            None => {},
        }
        copies
    }

    /// Hands out what the store holds, and leaves it empty.
    fn take(&mut self) -> (r: MockDb)
        ensures
            r == *old(self),
    {
        let mut taken = MockDb::new();
        std::mem::swap(self, &mut taken);
        taken
    }

    /// Whether the union index leads to `emp_id`.
    fn leads_to(&self, emp_id: EmployeeId) -> (r: bool)
        ensures
            r == self.state().is_member(emp_id),
    {
        let mut found: bool = false;
        let ghost pairs = spec_hash_map_iter(&self.union_members).remaining();
        for pair in it: self.union_members.iter()
            invariant
                it.seq() == pairs,
                found <==> exists|j: int| 0 <= j < it.index() && *(#[trigger] pairs[j]).1 == emp_id,
        {
            if *pair.1 == emp_id {
                found = true;
            }
        }
        proof {
            if found {
                let j = choose|j: int| 0 <= j < pairs.len() && *(#[trigger] pairs[j]).1 == emp_id;
                let member_id = *pairs[j].0;
                assert(self.union_members@.contains_key(member_id));
                assert(self.state().union_members.contains_key(member_id)
                    && self.state().union_members[member_id] == emp_id);
            }
            if self.state().is_member(emp_id) {
                let member_id = choose|member_id: MemberId| #[trigger]
                    self.state().union_members.contains_key(member_id)
                        && self.state().union_members[member_id] == emp_id;
                let pair = (&member_id, &self.union_members@[member_id]);
                assert(pairs.contains(pair));
                let j = choose|j: int| 0 <= j < pairs.len() && pairs[j] == pair;
                assert(*pairs[j].1 == emp_id);
            }
        }
        found
    }
}

impl PayrollDao for MockDb {
    closed spec fn state(&self) -> PayrollState {
        PayrollState {
            employees: self.employees@.map_values(|emp: Employee| emp@),
            union_members: self.union_members@,
            paychecks: self.paychecks@.map_values(|list: Vec<Paycheck>| list@),
        }
    }

    open spec fn dependable(&self) -> bool {
        true
    }

    fn insert(&mut self, emp: Employee) -> (r: Result<EmployeeId, DaoError>)
        ensures
            r matches Err(e) ==> e.detail() == about_key(
                "emp_id="@,
                emp@.emp_id,
                " already exists"@,
            ),
    {
        proof {
            use_type_invariant(&*self);
        }
        let emp_id = emp.get_emp_id();
        if self.employees.contains_key(&emp_id) {
            return Err(DaoError::InsertError(key_text("emp_id=", emp_id, " already exists")));
        }
        let ghost view = emp@;
        let MockDb { mut employees, union_members, paychecks } = self.take();
        employees.insert(emp_id, emp);
        *self = MockDb { employees, union_members, paychecks };
        assert(self.state().employees =~= old(self).state().employees.insert(emp_id, view));
        Ok(emp_id)
    }

    fn delete(&mut self, emp_id: EmployeeId) -> (r: Result<(), DaoError>)
        ensures
            r matches Err(e) ==> e.detail() == about_key("emp_id="@, emp_id, " not found"@),
    {
        proof {
            use_type_invariant(&*self);
        }
        if !self.employees.contains_key(&emp_id) {
            return Err(DaoError::DeleteError(key_text("emp_id=", emp_id, " not found")));
        }
        let MockDb { mut employees, union_members, paychecks } = self.take();
        employees.remove(&emp_id);
        *self = MockDb { employees, union_members, paychecks };
        assert(self.state().employees =~= old(self).state().employees.remove(emp_id));
        Ok(())
    }

    fn fetch(&self, emp_id: EmployeeId) -> (r: Result<Employee, DaoError>)
        ensures
            r matches Err(e) ==> e.detail() == about_key("emp_id="@, emp_id, " not found"@),
    {
        proof {
            use_type_invariant(self);
        }
        match self.employees.get(&emp_id) {
            Some(emp) => Ok(emp.clone()),
            None => Err(DaoError::FetchError(key_text("emp_id=", emp_id, " not found"))),
        }
    }

    fn update(&mut self, emp: Employee) -> (r: Result<(), DaoError>)
        ensures
            r matches Err(e) ==> e.detail() == about_key("emp_id="@, emp@.emp_id, " not found"@),
    {
        proof {
            use_type_invariant(&*self);
        }
        let emp_id = emp.get_emp_id();
        if !self.employees.contains_key(&emp_id) {
            return Err(DaoError::UpdateError(key_text("emp_id=", emp_id, " not found")));
        }
        let ghost view = emp@;
        let MockDb { mut employees, union_members, paychecks } = self.take();
        employees.insert(emp_id, emp);
        *self = MockDb { employees, union_members, paychecks };
        assert(self.state().employees =~= old(self).state().employees.insert(emp_id, view));
        Ok(())
    }

    fn fetch_all(&self) -> (r: Result<Vec<Employee>, DaoError>)
        ensures
            r is Ok,
    {
        proof {
            use_type_invariant(self);
        }
        let mut all: Vec<Employee> = Vec::new();
        let ghost pairs = spec_hash_map_iter(&self.employees).remaining();
        for pair in it: self.employees.iter()
            invariant
                it.seq() == pairs,
                all@.len() == it.index(),
                forall|j: int| 0 <= j < all@.len() ==> (#[trigger] all@[j])@ == (*pairs[j].1)@,
        {
            all.push(pair.1.clone());
        }
        proof {
            let listed = views_of(all@);
            let s = self.state();
            assert forall|i: int| 0 <= i < listed.len() implies s.employees.contains_key(
                #[trigger] listed[i].emp_id,
            ) && s.employees[listed[i].emp_id] == listed[i] by {
                assert(self.employees@.contains_key(*pairs[i].0));
            }
            assert forall|i: int, j: int| 0 <= i < j < listed.len() implies (
            #[trigger] listed[i].emp_id) != #[trigger] listed[j].emp_id by {
                assert(self.employees@.contains_key(*pairs[i].0));
                assert(self.employees@.contains_key(*pairs[j].0));
                if listed[i].emp_id == listed[j].emp_id {
                    assert(pairs[i] == pairs[j]);
                }
            }
            assert forall|emp_id: EmployeeId| #[trigger]
                s.employees.contains_key(emp_id) implies exists|i: int|
                0 <= i < listed.len() && #[trigger] listed[i].emp_id == emp_id by {
                assert(pairs.contains((&emp_id, &self.employees@[emp_id])));
                let i = choose|i: int|
                    0 <= i < pairs.len() && pairs[i] == (&emp_id, &self.employees@[emp_id]);
                assert(listed[i].emp_id == emp_id);
            }
        }
        Ok(all)
    }

    fn add_union_member(&mut self, member_id: MemberId, emp_id: EmployeeId) -> (r: Result<
        (),
        DaoError,
    >)
        ensures
            r matches Err(e) ==> e.detail() == if old(self).state().union_members.contains_key(
                member_id,
            ) {
                about_key("member_id="@, member_id, " already exists"@)
            } else {
                about_key("emp_id="@, emp_id, " already exists"@)
            },
    {
        proof {
            use_type_invariant(&*self);
        }
        if self.union_members.contains_key(&member_id) {
            return Err(
                DaoError::InsertError(key_text("member_id=", member_id, " already exists")),
            );
        }
        if self.leads_to(emp_id) {
            return Err(DaoError::InsertError(key_text("emp_id=", emp_id, " already exists")));
        }
        let MockDb { employees, mut union_members, paychecks } = self.take();
        union_members.insert(member_id, emp_id);
        *self = MockDb { employees, union_members, paychecks };
        Ok(())
    }

    fn remove_union_member(&mut self, member_id: MemberId) -> (r: Result<(), DaoError>)
        ensures
            r matches Err(e) ==> e.detail() == about_key("member_id="@, member_id, " not found"@),
    {
        proof {
            use_type_invariant(&*self);
        }
        if !self.union_members.contains_key(&member_id) {
            return Err(DaoError::DeleteError(key_text("member_id=", member_id, " not found")));
        }
        let MockDb { employees, mut union_members, paychecks } = self.take();
        union_members.remove(&member_id);
        *self = MockDb { employees, union_members, paychecks };
        Ok(())
    }

    fn find_union_member(&self, member_id: MemberId) -> (r: Result<EmployeeId, DaoError>)
        ensures
            r matches Err(e) ==> e.detail() == "member_id: "@ + decimal(member_id as nat),
    {
        match self.union_members.get(&member_id) {
            Some(emp_id) => Ok(*emp_id),
            None => Err(DaoError::FetchError(numbered("member_id: ", member_id))),
        }
    }

    fn record_paycheck(&mut self, emp_id: EmployeeId, pc: Paycheck) -> (r: Result<(), DaoError>)
        ensures
            r is Ok,
    {
        proof {
            use_type_invariant(&*self);
        }
        let MockDb { employees, union_members, mut paychecks } = self.take();
        let mut recorded: Vec<Paycheck> = match paychecks.remove(&emp_id) {
            Some(list) => list,
            None => Vec::new(),
        };
        recorded.push(pc);
        paychecks.insert(emp_id, recorded);
        *self = MockDb { employees, union_members, paychecks };
        assert(self.state().paychecks =~= old(self).state().paychecks.insert(
            emp_id,
            old(self).state().paychecks_of(emp_id).push(pc),
        ));
        Ok(())
    }
}

} // verus!
