use payroll::abstract_tx::UsecaseError;
use payroll::amount::Amount;
use payroll::calendar::Date;
use payroll::dao::DaoError;
use payroll::dao::PayrollDao;
use payroll::dao::PayrollState;
use payroll::mock_app::run_script;
use payroll::mock_db::MockDb;
use payroll::mock_tx_impl::PaydayTxImpl;
use payroll::payroll_domain::Employee;
use payroll::payroll_domain::Paycheck;
use payroll::tx_app::Transaction;
use payroll::tx_impl::AddSalaryEmployeeTx;
use payroll::tx_impl::ChangeEmployeeNameTx;
use payroll::tx_impl::PaydayTx;

/// A store that fails to list its employees when told to, and to record a
/// paycheck once it has recorded as many as it was allowed.
struct FlakyDb {
    inner: MockDb,
    lists: bool,
    records_left: usize,
}

impl FlakyDb {
    fn new(lists: bool, records_left: usize) -> FlakyDb {
        FlakyDb { inner: MockDb::new(), lists, records_left }
    }
}

impl PayrollDao for FlakyDb {
    // the two descriptions of the store are read by the verifier alone
    fn state(&self) -> PayrollState {
        unreachable!()
    }

    fn dependable(&self) -> bool {
        unreachable!()
    }

    fn insert(&mut self, emp: Employee) -> Result<u32, DaoError> {
        self.inner.insert(emp)
    }

    fn delete(&mut self, emp_id: u32) -> Result<(), DaoError> {
        self.inner.delete(emp_id)
    }

    fn fetch(&self, emp_id: u32) -> Result<Employee, DaoError> {
        self.inner.fetch(emp_id)
    }

    fn update(&mut self, emp: Employee) -> Result<(), DaoError> {
        self.inner.update(emp)
    }

    fn fetch_all(&self) -> Result<Vec<Employee>, DaoError> {
        if self.lists {
            self.inner.fetch_all()
        } else {
            Err(DaoError::FetchError("the list is not at hand".to_string()))
        }
    }

    fn add_union_member(&mut self, member_id: u32, emp_id: u32) -> Result<(), DaoError> {
        self.inner.add_union_member(member_id, emp_id)
    }

    fn remove_union_member(&mut self, member_id: u32) -> Result<(), DaoError> {
        self.inner.remove_union_member(member_id)
    }

    fn find_union_member(&self, member_id: u32) -> Result<u32, DaoError> {
        self.inner.find_union_member(member_id)
    }

    fn record_paycheck(&mut self, emp_id: u32, pc: Paycheck) -> Result<(), DaoError> {
        if self.records_left == 0 {
            return Err(DaoError::UpdateError("the book is full".to_string()));
        }
        self.records_left -= 1;
        self.inner.record_paycheck(emp_id, pc)
    }
}

fn amount(x: f64) -> Amount {
    Amount::from_thousandths((x * 1000.0).round() as u64)
}

fn last_of_may() -> Date {
    Date::from_ymd(2024, 5, 31).unwrap()
}

fn staffed(mut db: FlakyDb) -> FlakyDb {
    for emp_id in 1..=3 {
        AddSalaryEmployeeTx::execute(&mut db, emp_id, "x", "y", amount(1000.0)).unwrap();
    }
    db
}

fn recorded(db: &FlakyDb) -> usize {
    (1..=3).map(|emp_id| db.inner.paychecks_of(emp_id).len()).sum()
}

#[test]
fn a_payday_fails_where_the_employees_cannot_be_listed() {
    let mut db = staffed(FlakyDb::new(false, 10));
    assert_eq!(
        PaydayTx::execute(&mut db, last_of_may()),
        Err(UsecaseError::GetAllFailed(DaoError::FetchError(
            "the list is not at hand".to_string()
        )))
    );
    assert_eq!(recorded(&db), 0);
    assert_eq!(
        PaydayTxImpl { pay_date: last_of_may() }.execute(&mut db),
        Err(UsecaseError::GetAllFailed(DaoError::FetchError(
            "the list is not at hand".to_string()
        )))
    );
}

#[test]
fn a_payday_breaks_off_where_a_paycheck_cannot_be_recorded() {
    let full = UsecaseError::UpdateEmployeeFailed(DaoError::UpdateError(
        "the book is full".to_string(),
    ));
    for records_left in 0..3 {
        let mut db = staffed(FlakyDb::new(true, records_left));
        assert_eq!(PaydayTx::execute(&mut db, last_of_may()), Err(full.clone()));
        assert_eq!(recorded(&db), records_left);
    }
    let mut db = staffed(FlakyDb::new(true, 3));
    assert_eq!(PaydayTx::execute(&mut db, last_of_may()).unwrap().len(), 3);
    assert_eq!(recorded(&db), 3);
    assert_eq!(PaydayTx::execute(&mut db, last_of_may()), Err(full));
    assert_eq!(recorded(&db), 3);
}

#[test]
fn a_payday_on_which_nobody_is_due_needs_no_record() {
    let mut db = staffed(FlakyDb::new(true, 0));
    let day_before = Date::from_ymd(2024, 5, 30).unwrap();
    assert_eq!(PaydayTx::execute(&mut db, day_before), Ok(vec![]));
    assert_eq!(recorded(&db), 0);
}

#[test]
fn a_script_goes_on_after_a_payday_that_broke_off() {
    let mut db = staffed(FlakyDb::new(true, 1));
    run_script("Payday 2024-05-31\nChgEmp 2 Name \"Ann\"\nPayday 2024-05-31", &mut db);
    assert_eq!(recorded(&db), 1);
    assert_eq!(db.fetch(2).unwrap().name, "Ann");
    assert_eq!(ChangeEmployeeNameTx::execute(&mut db, 2, "Bea"), Ok(()));
    assert_eq!(db.fetch(2).unwrap().name, "Bea");
}
