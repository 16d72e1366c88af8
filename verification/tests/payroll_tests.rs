use payroll::abstract_tx::AddEmployeeTx;
use payroll::abstract_tx::ChangeAffiliationTx;
use payroll::abstract_tx::ChangeEmployeePaymentClassificationTx;
use payroll::abstract_tx::ChangeEmployeePaymentMethodTx;
use payroll::abstract_tx::ChangeEmployeeTx;
use payroll::abstract_tx::EmployeeChange;
use payroll::abstract_tx::UsecaseError;
use payroll::affiliation::AffiliationImpl;
use payroll::affiliation::ServiceCharge;
use payroll::amount::Amount;
use payroll::amount::SignedAmount;
use payroll::calendar::Date;
use payroll::calendar::Period;
use payroll::classification::PaymentClassificationImpl;
use payroll::classification::SalesReceipt;
use payroll::classification::TimeCard;
use payroll::dao::DaoError;
use payroll::dao::PayrollDao;
use payroll::dao::PayrollState;
use payroll::method::Disbursement;
use payroll::method::PaymentMethodImpl;
use payroll::mock_db::MockDb;
use payroll::payroll_domain::Affiliation;
use payroll::payroll_domain::Employee;
use payroll::payroll_domain::EmployeeView;
use payroll::payroll_domain::Paycheck;
use payroll::payroll_domain::PaymentClassification;
use payroll::payroll_domain::PaymentMethod;
use payroll::schedule::PaymentScheduleImpl;
use payroll::tx_impl::AddCommissionedEmployeeTx;
use payroll::tx_impl::AddHourlyEmployeeTx;
use payroll::tx_impl::AddSalaryEmployeeTx;
use payroll::tx_impl::ChangeEmployeeAddressTx;
use payroll::tx_impl::ChangeEmployeeCommissionedTx;
use payroll::tx_impl::ChangeEmployeeDirectTx;
use payroll::tx_impl::ChangeEmployeeHoldTx;
use payroll::tx_impl::ChangeEmployeeHourlyTx;
use payroll::tx_impl::ChangeEmployeeMailTx;
use payroll::tx_impl::ChangeEmployeeNameTx;
use payroll::tx_impl::ChangeEmployeeSalariedTx;
use payroll::tx_impl::ChangeUnaffiliatedTx;
use payroll::tx_impl::ChangeUnionMemberTx;
use payroll::tx_impl::DeleteEmployeeTx;
use payroll::tx_impl::MembershipEntry;
use payroll::tx_impl::PaydayTx;
use payroll::tx_impl::SalesReceiptTx;
use payroll::tx_impl::ServiceChargeTx;
use payroll::tx_impl::TimeCardTx;

/// The amount that the decimal number `x` stands for.
fn amount(x: f64) -> Amount {
    Amount::from_thousandths((x * 1000.0).round() as u64)
}

/// The decimal number that `a` stands for.
fn units(a: Amount) -> f64 {
    a.thousandths() as f64 / 1000.0
}

fn signed_units(a: SignedAmount) -> f64 {
    a.thousandths() as f64 / 1000.0
}

fn ymd(year: i32, month: u32, day: u32) -> Date {
    Date::from_ymd(year, month, day).unwrap()
}

fn salaried(salary: f64) -> PaymentClassificationImpl {
    PaymentClassificationImpl::Salaried { salary: amount(salary) }
}

fn no_timecards(rate: f64) -> PaymentClassificationImpl {
    PaymentClassificationImpl::Hourly { hourly_rate: amount(rate), timecards: vec![] }
}

fn no_receipts(salary: f64, rate: f64) -> PaymentClassificationImpl {
    PaymentClassificationImpl::Commissioned {
        salary: amount(salary),
        commission_rate: amount(rate),
        sales_receipts: vec![],
    }
}

fn not_found(emp_id: u32) -> UsecaseError {
    UsecaseError::NotFound(DaoError::FetchError(format!("emp_id={} not found", emp_id)))
}

/// A change that removes the employee it is applied to from the store.
struct Vanish {
    emp_id: u32,
}

impl EmployeeChange<MockDb> for Vanish {
    // the four descriptions of the change are read by the verifier alone
    fn applies(&self, _: PayrollState, _: EmployeeView) -> bool {
        unreachable!()
    }

    fn store_after(&self, _: PayrollState, _: EmployeeView) -> PayrollState {
        unreachable!()
    }

    fn employee_after(&self, _: PayrollState, _: EmployeeView) -> EmployeeView {
        unreachable!()
    }

    fn fails_with(&self, _: PayrollState, _: EmployeeView, _: UsecaseError) -> bool {
        unreachable!()
    }

    fn apply(self, ctx: &mut MockDb, _emp: &mut Employee) -> Result<(), UsecaseError> {
        ctx.delete(self.emp_id).unwrap();
        Ok(())
    }
}

/// A change that fails after it has entered a member id in the union index.
struct HalfDone {
    member_id: u32,
    emp_id: u32,
}

impl EmployeeChange<MockDb> for HalfDone {
    // the four descriptions of the change are read by the verifier alone
    fn applies(&self, _: PayrollState, _: EmployeeView) -> bool {
        unreachable!()
    }

    fn store_after(&self, _: PayrollState, _: EmployeeView) -> PayrollState {
        unreachable!()
    }

    fn employee_after(&self, _: PayrollState, _: EmployeeView) -> EmployeeView {
        unreachable!()
    }

    fn fails_with(&self, _: PayrollState, _: EmployeeView, _: UsecaseError) -> bool {
        unreachable!()
    }

    fn apply(self, ctx: &mut MockDb, _emp: &mut Employee) -> Result<(), UsecaseError> {
        ctx.add_union_member(self.member_id, self.emp_id).unwrap();
        Err(UsecaseError::UnexpectedAffiliation("half done".to_string()))
    }
}

#[test]
fn an_added_employee_is_stored_as_requested() {
    let mut db = MockDb::new();
    assert_eq!(AddSalaryEmployeeTx::execute(&mut db, 1, "Bob", "Home", amount(1000.0)), Ok(1));
    assert_eq!(
        db.fetch(1),
        Ok(Employee::new(
            1,
            "Bob",
            "Home",
            salaried(1000.0),
            PaymentScheduleImpl::Monthly,
            PaymentMethodImpl::Hold,
            AffiliationImpl::Unaffiliated,
        ))
    );
    assert_eq!(AddHourlyEmployeeTx::execute(&mut db, 2, "Ann", "Flat", amount(15.25)), Ok(2));
    assert_eq!(
        db.fetch(2),
        Ok(Employee::new(
            2,
            "Ann",
            "Flat",
            no_timecards(15.25),
            PaymentScheduleImpl::Weekly,
            PaymentMethodImpl::Hold,
            AffiliationImpl::Unaffiliated,
        ))
    );
    assert_eq!(
        AddCommissionedEmployeeTx::execute(&mut db, 3, "Cy", "Loft", amount(420.0), amount(0.25)),
        Ok(3)
    );
    assert_eq!(
        db.fetch(3),
        Ok(Employee::new(
            3,
            "Cy",
            "Loft",
            no_receipts(420.0, 0.25),
            PaymentScheduleImpl::Biweekly,
            PaymentMethodImpl::Hold,
            AffiliationImpl::Unaffiliated,
        ))
    );
    assert_eq!(
        AddEmployeeTx::execute(
            &mut db,
            4,
            "Di",
            "Barn",
            salaried(1.0),
            PaymentScheduleImpl::Weekly
        ),
        Ok(4)
    );
    let di = db.fetch(4).unwrap();
    assert_eq!(di.classification, salaried(1.0));
    assert_eq!(di.schedule, PaymentScheduleImpl::Weekly);
    assert_eq!(di.method, PaymentMethodImpl::Hold);
    assert_eq!(di.affiliation, AffiliationImpl::Unaffiliated);
    assert_eq!(db.fetch_all().unwrap().len(), 4);
}

#[test]
fn an_id_is_given_once() {
    let mut db = MockDb::new();
    assert_eq!(AddSalaryEmployeeTx::execute(&mut db, 1, "Bob", "Home", amount(1000.0)), Ok(1));
    let taken = UsecaseError::RegisterEmployeeFailed(DaoError::InsertError(
        "emp_id=1 already exists".to_string(),
    ));
    assert_eq!(
        AddHourlyEmployeeTx::execute(&mut db, 1, "Ann", "Flat", amount(15.25)),
        Err(taken.clone())
    );
    assert_eq!(
        AddCommissionedEmployeeTx::execute(&mut db, 1, "Cy", "Loft", amount(1.0), amount(1.0)),
        Err(taken.clone())
    );
    assert_eq!(AddSalaryEmployeeTx::execute(&mut db, 1, "Bob", "Home", amount(1.0)), Err(taken));
    assert_eq!(db.fetch(1).unwrap().name, "Bob");
    assert_eq!(db.fetch(1).unwrap().classification, salaried(1000.0));
    assert_eq!(db.fetch_all().unwrap().len(), 1);
}

#[test]
fn a_changed_name_is_the_name() {
    let mut db = MockDb::new();
    AddSalaryEmployeeTx::execute(&mut db, 1, "Bob", "Home", amount(1000.0)).unwrap();
    AddSalaryEmployeeTx::execute(&mut db, 2, "Ann", "Flat", amount(900.0)).unwrap();
    assert_eq!(ChangeEmployeeNameTx::execute(&mut db, 1, "X"), Ok(()));
    assert_eq!(db.fetch(1).unwrap().name, "X");
    let once = db.fetch(1).unwrap();
    assert_eq!(ChangeEmployeeNameTx::execute(&mut db, 1, "X"), Ok(()));
    assert_eq!(db.fetch(1).unwrap(), once);
    assert_eq!(once.address, "Home");
    assert_eq!(once.classification, salaried(1000.0));
    assert_eq!(db.fetch(2).unwrap().name, "Ann");
    assert_eq!(ChangeEmployeeNameTx::execute(&mut db, 3, "X"), Err(not_found(3)));
    assert_eq!(ChangeEmployeeNameTx::execute(&mut db, 1, ""), Ok(()));
    assert_eq!(db.fetch(1).unwrap().name, "");
}

#[test]
fn a_changed_address_is_the_address() {
    let mut db = MockDb::new();
    AddSalaryEmployeeTx::execute(&mut db, 1, "Bob", "Home", amount(1000.0)).unwrap();
    assert_eq!(ChangeEmployeeAddressTx::execute(&mut db, 1, "123 Wall St."), Ok(()));
    let bob = db.fetch(1).unwrap();
    assert_eq!(bob.address, "123 Wall St.");
    assert_eq!(bob.name, "Bob");
    assert_eq!(ChangeEmployeeAddressTx::execute(&mut db, 9, "nowhere"), Err(not_found(9)));
}

#[test]
fn a_new_classification_replaces_the_old_and_its_schedule() {
    let mut db = MockDb::new();
    AddHourlyEmployeeTx::execute(&mut db, 1, "Ann", "Flat", amount(15.25)).unwrap();
    TimeCardTx::execute(&mut db, 1, ymd(2024, 9, 26), amount(8.0)).unwrap();
    assert_eq!(ChangeEmployeeSalariedTx::execute(&mut db, 1, amount(1000.0)), Ok(()));
    let ann = db.fetch(1).unwrap();
    assert_eq!(ann.classification, salaried(1000.0));
    assert_eq!(ann.schedule, PaymentScheduleImpl::Monthly);
    assert_eq!(ChangeEmployeeHourlyTx::execute(&mut db, 1, amount(15.25)), Ok(()));
    let ann = db.fetch(1).unwrap();
    assert_eq!(ann.classification, no_timecards(15.25));
    assert_eq!(ann.schedule, PaymentScheduleImpl::Weekly);
    assert_eq!(
        ChangeEmployeeCommissionedTx::execute(&mut db, 1, amount(420.0), amount(0.25)),
        Ok(())
    );
    let ann = db.fetch(1).unwrap();
    assert_eq!(ann.classification, no_receipts(420.0, 0.25));
    assert_eq!(ann.schedule, PaymentScheduleImpl::Biweekly);
    assert_eq!(ann.name, "Ann");
    assert_eq!(
        ChangeEmployeePaymentClassificationTx::execute(
            &mut db,
            1,
            salaried(5.0),
            PaymentScheduleImpl::Weekly
        ),
        Ok(())
    );
    let ann = db.fetch(1).unwrap();
    assert_eq!(ann.classification, salaried(5.0));
    assert_eq!(ann.schedule, PaymentScheduleImpl::Weekly);
    assert_eq!(ChangeEmployeeSalariedTx::execute(&mut db, 2, amount(1.0)), Err(not_found(2)));
    assert_eq!(ChangeEmployeeHourlyTx::execute(&mut db, 2, amount(1.0)), Err(not_found(2)));
    assert_eq!(
        ChangeEmployeeCommissionedTx::execute(&mut db, 2, amount(1.0), amount(1.0)),
        Err(not_found(2))
    );
}

#[test]
fn a_new_method_replaces_the_old() {
    let mut db = MockDb::new();
    AddSalaryEmployeeTx::execute(&mut db, 1, "Bob", "Home", amount(1000.0)).unwrap();
    assert_eq!(ChangeEmployeeMailTx::execute(&mut db, 1, "bob@gmail.com"), Ok(()));
    assert_eq!(
        db.fetch(1).unwrap().method,
        PaymentMethodImpl::Mail { address: "bob@gmail.com".to_string() }
    );
    assert_eq!(ChangeEmployeeDirectTx::execute(&mut db, 1, "mufg", "1234567"), Ok(()));
    assert_eq!(
        db.fetch(1).unwrap().method,
        PaymentMethodImpl::Direct { bank: "mufg".to_string(), account: "1234567".to_string() }
    );
    assert_eq!(ChangeEmployeeHoldTx::execute(&mut db, 1), Ok(()));
    assert_eq!(db.fetch(1).unwrap().method, PaymentMethodImpl::Hold);
    assert_eq!(
        ChangeEmployeePaymentMethodTx::execute(
            &mut db,
            1,
            PaymentMethodImpl::Mail { address: "a".to_string() }
        ),
        Ok(())
    );
    assert_eq!(db.fetch(1).unwrap().method, PaymentMethodImpl::Mail { address: "a".to_string() });
    assert_eq!(db.fetch(1).unwrap().classification, salaried(1000.0));
    assert_eq!(ChangeEmployeeMailTx::execute(&mut db, 2, "x"), Err(not_found(2)));
    assert_eq!(ChangeEmployeeDirectTx::execute(&mut db, 2, "x", "y"), Err(not_found(2)));
    assert_eq!(ChangeEmployeeHoldTx::execute(&mut db, 2), Err(not_found(2)));
}

#[test]
fn time_cards_are_kept_in_the_order_of_entry() {
    let mut db = MockDb::new();
    AddHourlyEmployeeTx::execute(&mut db, 1, "Ann", "Flat", amount(15.25)).unwrap();
    assert_eq!(TimeCardTx::execute(&mut db, 1, ymd(2024, 9, 26), amount(8.0)), Ok(()));
    assert_eq!(TimeCardTx::execute(&mut db, 1, ymd(2024, 9, 24), amount(10.0)), Ok(()));
    assert_eq!(TimeCardTx::execute(&mut db, 1, ymd(2024, 9, 26), amount(8.0)), Ok(()));
    assert_eq!(
        db.fetch(1).unwrap().classification,
        PaymentClassificationImpl::Hourly {
            hourly_rate: amount(15.25),
            timecards: vec![
                TimeCard::new(ymd(2024, 9, 26), amount(8.0)),
                TimeCard::new(ymd(2024, 9, 24), amount(10.0)),
                TimeCard::new(ymd(2024, 9, 26), amount(8.0)),
            ],
        }
    );
    assert_eq!(
        TimeCardTx::execute(&mut db, 2, ymd(2024, 9, 26), amount(8.0)),
        Err(not_found(2))
    );
}

#[test]
fn a_time_card_for_a_salaried_employee_is_refused() {
    let mut db = MockDb::new();
    AddSalaryEmployeeTx::execute(&mut db, 1, "Bob", "Home", amount(1000.0)).unwrap();
    AddCommissionedEmployeeTx::execute(&mut db, 2, "Cy", "Loft", amount(420.0), amount(0.25))
        .unwrap();
    let bob = db.fetch(1).unwrap();
    let cy = db.fetch(2).unwrap();
    assert_eq!(
        TimeCardTx::execute(&mut db, 1, ymd(2024, 9, 26), amount(8.0)),
        Err(UsecaseError::UnexpectedPaymentClassification("expected hourly emp_id: 1".to_string()))
    );
    assert_eq!(
        TimeCardTx::execute(&mut db, 2, ymd(2024, 9, 26), amount(8.0)),
        Err(UsecaseError::UnexpectedPaymentClassification("expected hourly emp_id: 2".to_string()))
    );
    assert_eq!(db.fetch(1).unwrap(), bob);
    assert_eq!(db.fetch(2).unwrap(), cy);
}

#[test]
fn sales_receipts_are_kept_in_the_order_of_entry() {
    let mut db = MockDb::new();
    AddCommissionedEmployeeTx::execute(&mut db, 2, "Cy", "Loft", amount(420.0), amount(0.25))
        .unwrap();
    assert_eq!(SalesReceiptTx::execute(&mut db, 2, ymd(2024, 10, 1), amount(12300.0)), Ok(()));
    assert_eq!(SalesReceiptTx::execute(&mut db, 2, ymd(2024, 9, 1), amount(1.0)), Ok(()));
    assert_eq!(
        db.fetch(2).unwrap().classification,
        PaymentClassificationImpl::Commissioned {
            salary: amount(420.0),
            commission_rate: amount(0.25),
            sales_receipts: vec![
                SalesReceipt::new(ymd(2024, 10, 1), amount(12300.0)),
                SalesReceipt::new(ymd(2024, 9, 1), amount(1.0)),
            ],
        }
    );
    assert_eq!(
        SalesReceiptTx::execute(&mut db, 3, ymd(2024, 10, 1), amount(1.0)),
        Err(not_found(3))
    );
}

#[test]
fn a_sales_receipt_for_an_employee_off_commission_is_refused() {
    let mut db = MockDb::new();
    AddSalaryEmployeeTx::execute(&mut db, 1, "Bob", "Home", amount(1000.0)).unwrap();
    AddHourlyEmployeeTx::execute(&mut db, 2, "Ann", "Flat", amount(15.25)).unwrap();
    let bob = db.fetch(1).unwrap();
    let ann = db.fetch(2).unwrap();
    assert_eq!(
        SalesReceiptTx::execute(&mut db, 1, ymd(2024, 9, 26), amount(8.0)),
        Err(UsecaseError::UnexpectedPaymentClassification(
            "expected commissioned emp_id: 1".to_string()
        ))
    );
    assert_eq!(
        SalesReceiptTx::execute(&mut db, 2, ymd(2024, 9, 26), amount(8.0)),
        Err(UsecaseError::UnexpectedPaymentClassification(
            "expected commissioned emp_id: 2".to_string()
        ))
    );
    assert_eq!(db.fetch(1).unwrap(), bob);
    assert_eq!(db.fetch(2).unwrap(), ann);
}

#[test]
fn a_removed_employee_is_not_found() {
    let mut db = MockDb::new();
    AddSalaryEmployeeTx::execute(&mut db, 1, "Bob", "Home", amount(1000.0)).unwrap();
    AddSalaryEmployeeTx::execute(&mut db, 2, "Ann", "Flat", amount(900.0)).unwrap();
    assert_eq!(DeleteEmployeeTx::execute(&mut db, 1), Ok(()));
    assert_eq!(db.fetch(1), Err(DaoError::FetchError("emp_id=1 not found".to_string())));
    assert_eq!(db.fetch(2).unwrap().name, "Ann");
    assert_eq!(
        DeleteEmployeeTx::execute(&mut db, 1),
        Err(UsecaseError::UnregisterEmployeeFailed(DaoError::DeleteError(
            "emp_id=1 not found".to_string()
        )))
    );
    assert_eq!(AddSalaryEmployeeTx::execute(&mut db, 1, "Bo", "Hut", amount(1.0)), Ok(1));
    assert_eq!(db.fetch(1).unwrap().name, "Bo");
}

#[test]
fn removing_an_employee_leaves_the_union_index() {
    let mut db = MockDb::new();
    AddSalaryEmployeeTx::execute(&mut db, 1, "Bob", "Home", amount(1000.0)).unwrap();
    ChangeUnionMemberTx::execute(&mut db, 1, 7234, amount(9.45)).unwrap();
    DeleteEmployeeTx::execute(&mut db, 1).unwrap();
    assert_eq!(db.find_union_member(7234), Ok(1));
    assert_eq!(
        ServiceChargeTx::execute(&mut db, 7234, ymd(2024, 9, 25), amount(50.0)),
        Err(not_found(1))
    );
}

#[test]
fn a_union_member_is_entered_in_the_index() {
    let mut db = MockDb::new();
    AddSalaryEmployeeTx::execute(&mut db, 1, "Bob", "Home", amount(1000.0)).unwrap();
    AddSalaryEmployeeTx::execute(&mut db, 2, "Ann", "Flat", amount(900.0)).unwrap();
    assert_eq!(ChangeUnionMemberTx::execute(&mut db, 1, 7234, amount(9.45)), Ok(()));
    assert_eq!(db.find_union_member(7234), Ok(1));
    assert_eq!(
        db.fetch(1).unwrap().affiliation,
        AffiliationImpl::Union { member_id: 7234, dues: amount(9.45), service_charges: vec![] }
    );
    assert_eq!(db.fetch(1).unwrap().affiliation.get_member_id(), 7234);
    assert_eq!(
        ChangeUnionMemberTx::execute(&mut db, 2, 7234, amount(1.0)),
        Err(UsecaseError::AddUnionMemberFailed(DaoError::InsertError(
            "member_id=7234 already exists".to_string()
        )))
    );
    assert_eq!(db.fetch(2).unwrap().affiliation, AffiliationImpl::Unaffiliated);
    assert_eq!(
        ChangeUnionMemberTx::execute(&mut db, 1, 99, amount(1.0)),
        Err(UsecaseError::AddUnionMemberFailed(DaoError::InsertError(
            "emp_id=1 already exists".to_string()
        )))
    );
    assert_eq!(
        db.find_union_member(99),
        Err(DaoError::FetchError("member_id: 99".to_string()))
    );
    assert_eq!(
        db.fetch(1).unwrap().affiliation,
        AffiliationImpl::Union { member_id: 7234, dues: amount(9.45), service_charges: vec![] }
    );
    assert_eq!(ChangeUnionMemberTx::execute(&mut db, 3, 5, amount(1.0)), Err(not_found(3)));
    assert_eq!(db.find_union_member(5), Err(DaoError::FetchError("member_id: 5".to_string())));
    assert_eq!(ChangeUnionMemberTx::execute(&mut db, 2, 5, amount(2.0)), Ok(()));
    assert_eq!(db.find_union_member(5), Ok(2));
}

#[test]
fn leaving_the_union_takes_the_member_out_of_the_index() {
    let mut db = MockDb::new();
    AddSalaryEmployeeTx::execute(&mut db, 1, "Bob", "Home", amount(1000.0)).unwrap();
    ChangeUnionMemberTx::execute(&mut db, 1, 7234, amount(9.45)).unwrap();
    ServiceChargeTx::execute(&mut db, 7234, ymd(2024, 9, 25), amount(50.0)).unwrap();
    assert_eq!(ChangeUnaffiliatedTx::execute(&mut db, 1), Ok(()));
    assert_eq!(db.fetch(1).unwrap().affiliation, AffiliationImpl::Unaffiliated);
    assert_eq!(
        db.find_union_member(7234),
        Err(DaoError::FetchError("member_id: 7234".to_string()))
    );
    assert_eq!(ChangeUnionMemberTx::execute(&mut db, 1, 7234, amount(9.45)), Ok(()));
    assert_eq!(
        db.fetch(1).unwrap().affiliation,
        AffiliationImpl::Union { member_id: 7234, dues: amount(9.45), service_charges: vec![] }
    );
    assert_eq!(ChangeUnaffiliatedTx::execute(&mut db, 2), Err(not_found(2)));
}

#[test]
fn leaving_the_union_without_being_in_it_is_refused() {
    let mut db = MockDb::new();
    AddSalaryEmployeeTx::execute(&mut db, 1, "Bob", "Home", amount(1000.0)).unwrap();
    let bob = db.fetch(1).unwrap();
    assert_eq!(
        ChangeUnaffiliatedTx::execute(&mut db, 1),
        Err(UsecaseError::UnexpectedAffiliation("expected unaffiliated emp_id: 1".to_string()))
    );
    assert_eq!(db.fetch(1).unwrap(), bob);
}

#[test]
fn leaving_the_union_with_a_member_id_that_the_index_lacks_is_refused() {
    let mut db = MockDb::new();
    let member = Employee::new(
        1,
        "Bob",
        "Home",
        salaried(1000.0),
        PaymentScheduleImpl::Monthly,
        PaymentMethodImpl::Hold,
        AffiliationImpl::Union { member_id: 7, dues: amount(1.0), service_charges: vec![] },
    );
    assert_eq!(db.insert(member.clone()), Ok(1));
    assert_eq!(
        ChangeUnaffiliatedTx::execute(&mut db, 1),
        Err(UsecaseError::RemoveUnionMemberFailed(DaoError::DeleteError(
            "member_id=7 not found".to_string()
        )))
    );
    assert_eq!(db.fetch(1).unwrap(), member);
}

#[test]
fn service_charges_are_kept_in_the_order_of_entry() {
    let mut db = MockDb::new();
    AddSalaryEmployeeTx::execute(&mut db, 1, "Bob", "Home", amount(1000.0)).unwrap();
    ChangeUnionMemberTx::execute(&mut db, 1, 7234, amount(9.45)).unwrap();
    assert_eq!(ServiceChargeTx::execute(&mut db, 7234, ymd(2024, 9, 25), amount(50.0)), Ok(()));
    assert_eq!(ServiceChargeTx::execute(&mut db, 7234, ymd(2024, 9, 2), amount(1.5)), Ok(()));
    assert_eq!(
        db.fetch(1).unwrap().affiliation,
        AffiliationImpl::Union {
            member_id: 7234,
            dues: amount(9.45),
            service_charges: vec![
                ServiceCharge::new(ymd(2024, 9, 25), amount(50.0)),
                ServiceCharge::new(ymd(2024, 9, 2), amount(1.5)),
            ],
        }
    );
    assert_eq!(
        ServiceChargeTx::execute(&mut db, 1, ymd(2024, 9, 25), amount(50.0)),
        Err(UsecaseError::NotFound(DaoError::FetchError("member_id: 1".to_string())))
    );
}

#[test]
fn a_service_charge_against_one_who_is_no_member_is_refused() {
    let mut db = MockDb::new();
    AddSalaryEmployeeTx::execute(&mut db, 1, "Bob", "Home", amount(1000.0)).unwrap();
    assert_eq!(db.add_union_member(5, 1), Ok(()));
    let bob = db.fetch(1).unwrap();
    assert_eq!(
        ServiceChargeTx::execute(&mut db, 5, ymd(2024, 9, 25), amount(50.0)),
        Err(UsecaseError::UnexpectedAffiliation("expected union emp_id: 1".to_string()))
    );
    assert_eq!(db.fetch(1).unwrap(), bob);
}

#[test]
fn a_change_is_stored_only_where_it_succeeds() {
    let mut db = MockDb::new();
    AddSalaryEmployeeTx::execute(&mut db, 1, "Bob", "Home", amount(1000.0)).unwrap();
    let bob = db.fetch(1).unwrap();
    assert_eq!(
        ChangeEmployeeTx::execute(&mut db, 1, HalfDone { member_id: 5, emp_id: 1 }),
        Err(UsecaseError::UnexpectedAffiliation("half done".to_string()))
    );
    assert_eq!(db.fetch(1).unwrap(), bob);
    assert_eq!(db.find_union_member(5), Ok(1));
    assert_eq!(
        ChangeAffiliationTx::execute(
            &mut db,
            1,
            HalfDone { member_id: 6, emp_id: 2 },
            AffiliationImpl::Union { member_id: 6, dues: amount(1.0), service_charges: vec![] }
        ),
        Err(UsecaseError::UnexpectedAffiliation("half done".to_string()))
    );
    assert_eq!(db.fetch(1).unwrap(), bob);
    assert_eq!(db.find_union_member(6), Ok(2));
    assert_eq!(
        ChangeEmployeeTx::execute(&mut db, 2, HalfDone { member_id: 8, emp_id: 2 }),
        Err(not_found(2))
    );
    assert_eq!(db.find_union_member(8), Err(DaoError::FetchError("member_id: 8".to_string())));
}

#[test]
fn a_change_that_loses_the_employee_fails_at_the_update() {
    let mut db = MockDb::new();
    AddSalaryEmployeeTx::execute(&mut db, 1, "Bob", "Home", amount(1000.0)).unwrap();
    assert_eq!(
        ChangeEmployeeTx::execute(&mut db, 1, Vanish { emp_id: 1 }),
        Err(UsecaseError::UpdateEmployeeFailed(DaoError::UpdateError(
            "emp_id=1 not found".to_string()
        )))
    );
    assert_eq!(db.fetch(1), Err(DaoError::FetchError("emp_id=1 not found".to_string())));
}

#[test]
fn an_affiliation_is_replaced_after_the_membership_was_recorded() {
    let mut db = MockDb::new();
    AddSalaryEmployeeTx::execute(&mut db, 1, "Bob", "Home", amount(1000.0)).unwrap();
    assert_eq!(
        ChangeAffiliationTx::execute(
            &mut db,
            1,
            MembershipEntry { member_id: 6, emp_id: 1 },
            AffiliationImpl::Union { member_id: 6, dues: amount(1.0), service_charges: vec![] }
        ),
        Ok(())
    );
    assert_eq!(db.find_union_member(6), Ok(1));
    assert_eq!(
        db.fetch(1).unwrap().affiliation,
        AffiliationImpl::Union { member_id: 6, dues: amount(1.0), service_charges: vec![] }
    );
}

#[test]
fn the_store_fails_as_the_port_says() {
    let mut db = MockDb::new();
    let bob = Employee::new(
        1,
        "Bob",
        "Home",
        salaried(1000.0),
        PaymentScheduleImpl::Monthly,
        PaymentMethodImpl::Hold,
        AffiliationImpl::Unaffiliated,
    );
    assert_eq!(
        db.update(bob.clone()),
        Err(DaoError::UpdateError("emp_id=1 not found".to_string()))
    );
    assert_eq!(db.delete(1), Err(DaoError::DeleteError("emp_id=1 not found".to_string())));
    assert_eq!(db.fetch(1), Err(DaoError::FetchError("emp_id=1 not found".to_string())));
    assert_eq!(db.fetch_all(), Ok(vec![]));
    assert_eq!(db.insert(bob.clone()), Ok(1));
    assert_eq!(
        db.insert(bob.clone()),
        Err(DaoError::InsertError("emp_id=1 already exists".to_string()))
    );
    assert_eq!(db.fetch_all(), Ok(vec![bob.clone()]));
    let mut bo = bob.clone();
    bo.set_name("Bo");
    assert_eq!(db.update(bo.clone()), Ok(()));
    assert_eq!(db.fetch(1), Ok(bo));
    assert_eq!(
        db.remove_union_member(3),
        Err(DaoError::DeleteError("member_id=3 not found".to_string()))
    );
    assert_eq!(db.add_union_member(3, 1), Ok(()));
    assert_eq!(
        db.add_union_member(3, 2),
        Err(DaoError::InsertError("member_id=3 already exists".to_string()))
    );
    assert_eq!(
        db.add_union_member(4, 1),
        Err(DaoError::InsertError("emp_id=1 already exists".to_string()))
    );
    assert_eq!(db.add_union_member(4, 2), Ok(()));
    assert_eq!(db.find_union_member(3), Ok(1));
    assert_eq!(db.find_union_member(4), Ok(2));
    assert_eq!(db.remove_union_member(3), Ok(()));
    assert_eq!(db.find_union_member(3), Err(DaoError::FetchError("member_id: 3".to_string())));
    assert_eq!(db.add_union_member(9, 1), Ok(()));
    assert_eq!(db.delete(1), Ok(()));
    assert_eq!(db.fetch_all(), Ok(vec![]));
    assert_eq!(db.paychecks_of(1), vec![]);
    let pc = Paycheck::new(Period::new(ymd(2024, 9, 1), ymd(2024, 9, 30)));
    assert_eq!(db.record_paycheck(1, pc), Ok(()));
    assert_eq!(db.record_paycheck(1, pc), Ok(()));
    assert_eq!(db.paychecks_of(1), vec![pc, pc]);
    assert_eq!(db.paychecks_of(2), vec![]);
}

#[test]
fn fetch_all_lists_every_employee_once() {
    let mut db = MockDb::new();
    for emp_id in 0..50 {
        AddSalaryEmployeeTx::execute(&mut db, emp_id, "x", "y", amount(emp_id as f64)).unwrap();
    }
    DeleteEmployeeTx::execute(&mut db, 17).unwrap();
    let mut ids: Vec<u32> = db.fetch_all().unwrap().iter().map(|emp| emp.get_emp_id()).collect();
    ids.sort();
    let expected: Vec<u32> = (0..50).filter(|emp_id| *emp_id != 17).collect();
    assert_eq!(ids, expected);
    for emp in db.fetch_all().unwrap() {
        assert_eq!(emp.classification, salaried(emp.get_emp_id() as f64));
    }
}

#[test]
fn hourly_pay_without_overtime() {
    let rate = 15.25;
    let hourly = PaymentClassificationImpl::Hourly {
        hourly_rate: amount(rate),
        timecards: vec![TimeCard::new(ymd(2024, 9, 26), amount(8.0))],
    };
    let pc = Paycheck::new(Period::new(ymd(2024, 9, 21), ymd(2024, 9, 27)));
    assert_eq!(units(hourly.calculate_pay(&pc)), 8.0 * rate);
    assert_eq!(hourly.calculate_pay(&pc), Amount::from_thousandths(122_000));
}

#[test]
fn hourly_pay_with_overtime() {
    let rate = 15.25;
    let hourly = PaymentClassificationImpl::Hourly {
        hourly_rate: amount(rate),
        timecards: vec![TimeCard::new(ymd(2024, 9, 26), amount(10.0))],
    };
    let pc = Paycheck::new(Period::new(ymd(2024, 9, 21), ymd(2024, 9, 27)));
    assert_eq!(units(hourly.calculate_pay(&pc)), 8.0 * rate + 2.0 * rate * 1.5);
    assert_eq!(hourly.calculate_pay(&pc), Amount::from_thousandths(167_750));
}

#[test]
fn hourly_pay_counts_the_time_cards_of_the_period() {
    let hourly = PaymentClassificationImpl::Hourly {
        hourly_rate: amount(10.0),
        timecards: vec![
            TimeCard::new(ymd(2024, 9, 20), amount(8.0)),
            TimeCard::new(ymd(2024, 9, 21), amount(1.0)),
            TimeCard::new(ymd(2024, 9, 27), amount(9.0)),
            TimeCard::new(ymd(2024, 9, 28), amount(8.0)),
            TimeCard::new(ymd(2024, 9, 24), amount(0.5)),
            TimeCard::new(ymd(2024, 9, 24), amount(0.0)),
        ],
    };
    let pc = Paycheck::new(Period::new(ymd(2024, 9, 21), ymd(2024, 9, 27)));
    assert_eq!(units(hourly.calculate_pay(&pc)), 10.0 + 80.0 + 15.0 + 5.0);
    assert_eq!(hourly.pay_for(Period::new(ymd(2024, 9, 21), ymd(2024, 9, 27))), amount(110.0));
    assert_eq!(no_timecards(10.0).calculate_pay(&pc), amount(0.0));
    let none = Paycheck::new(Period::new(ymd(2024, 9, 27), ymd(2024, 9, 21)));
    assert_eq!(hourly.calculate_pay(&none), amount(0.0));
}

#[test]
fn salaried_pay_is_the_salary() {
    let pc = Paycheck::new(Period::new(ymd(2024, 9, 1), ymd(2024, 9, 30)));
    assert_eq!(salaried(1000.0).calculate_pay(&pc), amount(1000.0));
    assert_eq!(salaried(0.0).calculate_pay(&pc), amount(0.0));
}

#[test]
fn commissioned_pay_is_salary_and_commission() {
    let commissioned = PaymentClassificationImpl::Commissioned {
        salary: amount(420.0),
        commission_rate: amount(0.25),
        sales_receipts: vec![
            SalesReceipt::new(ymd(2024, 10, 1), amount(12300.0)),
            SalesReceipt::new(ymd(2024, 9, 20), amount(99999.0)),
            SalesReceipt::new(ymd(2024, 10, 5), amount(99999.0)),
        ],
    };
    let pc = Paycheck::new(Period::new(ymd(2024, 9, 21), ymd(2024, 10, 4)));
    assert_eq!(units(commissioned.calculate_pay(&pc)), 420.0 + 12300.0 * 0.25);
    assert_eq!(units(commissioned.calculate_pay(&pc)), 3495.0);
    assert_eq!(no_receipts(420.0, 0.25).calculate_pay(&pc), amount(420.0));
}

#[test]
fn union_deductions_are_dues_for_each_friday_and_the_charges_of_the_period() {
    let union = AffiliationImpl::Union {
        member_id: 7234,
        dues: amount(9.75),
        service_charges: vec![
            ServiceCharge::new(ymd(2024, 9, 25), amount(50.0)),
            ServiceCharge::new(ymd(2024, 9, 20), amount(1000.0)),
            ServiceCharge::new(ymd(2024, 10, 5), amount(1000.0)),
        ],
    };
    let period = Period::new(ymd(2024, 9, 21), ymd(2024, 10, 4));
    assert_eq!(period.count_fridays(), 2);
    let pc = Paycheck::new(period);
    assert_eq!(units(union.calculate_deductions(&pc)), 2.0 * 9.75 + 50.0);
    assert_eq!(units(union.calculate_deductions(&pc)), 69.5);
    assert_eq!(union.deductions_for(period), amount(69.5));
    let month = Paycheck::new(Period::new(ymd(2024, 9, 1), ymd(2024, 9, 30)));
    assert_eq!(units(union.calculate_deductions(&month)), 4.0 * 9.75 + 1050.0);
    assert_eq!(AffiliationImpl::Unaffiliated.calculate_deductions(&pc), amount(0.0));
}

#[test]
fn records_are_added_to_the_variant_that_keeps_them() {
    let mut hourly = no_timecards(1.0);
    hourly.add_timecard(TimeCard::new(ymd(2024, 9, 26), amount(8.0)));
    hourly.add_timecard(TimeCard::new(ymd(2024, 9, 25), amount(7.0)));
    assert_eq!(
        hourly,
        PaymentClassificationImpl::Hourly {
            hourly_rate: amount(1.0),
            timecards: vec![
                TimeCard::new(ymd(2024, 9, 26), amount(8.0)),
                TimeCard::new(ymd(2024, 9, 25), amount(7.0)),
            ],
        }
    );
    assert_eq!(hourly.clone(), hourly);
    let mut commissioned = no_receipts(1.0, 2.0);
    commissioned.add_sales_receipt(SalesReceipt::new(ymd(2024, 9, 26), amount(8.0)));
    assert_eq!(
        commissioned,
        PaymentClassificationImpl::Commissioned {
            salary: amount(1.0),
            commission_rate: amount(2.0),
            sales_receipts: vec![SalesReceipt::new(ymd(2024, 9, 26), amount(8.0))],
        }
    );
    assert_eq!(commissioned.clone(), commissioned);
    let mut union =
        AffiliationImpl::Union { member_id: 3, dues: amount(1.0), service_charges: vec![] };
    union.add_service_charge(ServiceCharge::new(ymd(2024, 9, 26), amount(8.0)));
    assert_eq!(
        union,
        AffiliationImpl::Union {
            member_id: 3,
            dues: amount(1.0),
            service_charges: vec![ServiceCharge::new(ymd(2024, 9, 26), amount(8.0))],
        }
    );
    assert_eq!(union.clone(), union);
    assert_eq!(union.get_member_id(), 3);
}

#[test]
fn payday_enters_gross_deductions_and_net() {
    let emp = Employee::new(
        1,
        "Bob",
        "Home",
        salaried(100.0),
        PaymentScheduleImpl::Weekly,
        PaymentMethodImpl::Direct { bank: "mufg".to_string(), account: "1234567".to_string() },
        AffiliationImpl::Union {
            member_id: 7,
            dues: amount(9.75),
            service_charges: vec![ServiceCharge::new(ymd(2024, 9, 25), amount(150.0))],
        },
    );
    assert!(emp.is_pay_date(ymd(2024, 9, 27)));
    assert!(!emp.is_pay_date(ymd(2024, 9, 30)));
    let period = emp.get_pay_period(ymd(2024, 9, 27));
    assert_eq!(period, Period::new(ymd(2024, 9, 21), ymd(2024, 9, 27)));
    let mut pc = Paycheck::new(period);
    assert_eq!(pc.get_period(), period);
    assert_eq!(pc.get_gross_pay(), amount(0.0));
    assert_eq!(pc.get_deductions(), amount(0.0));
    assert_eq!(pc.get_net_pay(), SignedAmount::from_thousandths(0));
    let order = emp.payday(&mut pc);
    assert_eq!(units(pc.get_gross_pay()), 100.0);
    assert_eq!(units(pc.get_deductions()), 159.75);
    assert_eq!(signed_units(pc.get_net_pay()), -59.75);
    assert_eq!(pc.get_period(), period);
    assert_eq!(
        order,
        Disbursement {
            method: PaymentMethodImpl::Direct {
                bank: "mufg".to_string(),
                account: "1234567".to_string()
            },
            paycheck: pc,
        }
    );
    assert_eq!(emp.method.pay(&pc), order);
    assert_eq!(PaymentMethodImpl::Hold.pay(&pc).method, PaymentMethodImpl::Hold);
    assert_eq!(
        PaymentMethodImpl::Mail { address: "a".to_string() }.order(pc),
        Disbursement { method: PaymentMethodImpl::Mail { address: "a".to_string() }, paycheck: pc }
    );
}

#[test]
fn a_paycheck_is_set_field_by_field() {
    let period = Period::new(ymd(2024, 9, 1), ymd(2024, 9, 30));
    let mut pc = Paycheck::new(period);
    pc.set_gross_pay(amount(3.0));
    assert_eq!((pc.get_gross_pay(), pc.get_deductions()), (amount(3.0), amount(0.0)));
    pc.set_deductions(amount(2.0));
    assert_eq!((pc.get_gross_pay(), pc.get_deductions()), (amount(3.0), amount(2.0)));
    pc.set_net_pay(SignedAmount::from_thousandths(-7));
    assert_eq!(pc.get_net_pay().thousandths(), -7);
    assert_eq!((pc.get_gross_pay(), pc.get_deductions()), (amount(3.0), amount(2.0)));
    assert_eq!(pc.get_period(), period);
}

#[test]
fn an_employee_is_set_field_by_field() {
    let mut emp = Employee::new(
        1,
        "Bob",
        "Home",
        salaried(100.0),
        PaymentScheduleImpl::Monthly,
        PaymentMethodImpl::Hold,
        AffiliationImpl::Unaffiliated,
    );
    assert_eq!(emp.get_emp_id(), 1);
    emp.set_name("Bo");
    emp.set_address("Hut");
    emp.set_classification(no_timecards(3.0));
    emp.set_schedule(PaymentScheduleImpl::Weekly);
    emp.set_method(PaymentMethodImpl::Mail { address: "a".to_string() });
    emp.set_affiliation(AffiliationImpl::Union {
        member_id: 3,
        dues: amount(1.0),
        service_charges: vec![],
    });
    assert_eq!(
        emp,
        Employee::new(
            1,
            "Bo",
            "Hut",
            no_timecards(3.0),
            PaymentScheduleImpl::Weekly,
            PaymentMethodImpl::Mail { address: "a".to_string() },
            AffiliationImpl::Union { member_id: 3, dues: amount(1.0), service_charges: vec![] },
        )
    );
    assert_eq!(emp.get_classification(), &no_timecards(3.0));
    assert_eq!(emp.get_affiliation().get_member_id(), 3);
    assert_eq!(emp.clone(), emp);
}

#[test]
fn a_payday_on_which_nobody_is_due_records_nothing() {
    let mut db = MockDb::new();
    AddSalaryEmployeeTx::execute(&mut db, 1, "Bob", "Home", amount(1000.0)).unwrap();
    AddHourlyEmployeeTx::execute(&mut db, 2, "Ann", "Flat", amount(15.25)).unwrap();
    AddCommissionedEmployeeTx::execute(&mut db, 3, "Cy", "Loft", amount(420.0), amount(0.25))
        .unwrap();
    TimeCardTx::execute(&mut db, 2, ymd(2024, 9, 25), amount(8.0)).unwrap();
    assert_eq!(PaydayTx::execute(&mut db, ymd(2024, 9, 26)), Ok(vec![]));
    for emp_id in 1..=3 {
        assert_eq!(db.paychecks_of(emp_id), vec![]);
    }
    assert_eq!(PaydayTx::execute(&mut MockDb::new(), ymd(2024, 9, 27)), Ok(vec![]));
}

#[test]
fn a_commissioned_employee_is_paid_salary_and_commission() {
    let mut db = MockDb::new();
    AddCommissionedEmployeeTx::execute(&mut db, 3, "Cy", "Loft", amount(420.0), amount(0.25))
        .unwrap();
    SalesReceiptTx::execute(&mut db, 3, ymd(2024, 10, 1), amount(12300.0)).unwrap();
    let orders = PaydayTx::execute(&mut db, ymd(2024, 10, 4)).unwrap();
    let recorded = db.paychecks_of(3);
    assert_eq!(recorded.len(), 1);
    assert_eq!(recorded[0].get_period(), Period::new(ymd(2024, 9, 21), ymd(2024, 10, 4)));
    assert_eq!(units(recorded[0].get_gross_pay()), 420.0 + 12300.0 * 0.25);
    assert_eq!(units(recorded[0].get_gross_pay()), 3495.0);
    assert_eq!(units(recorded[0].get_deductions()), 0.0);
    assert_eq!(signed_units(recorded[0].get_net_pay()), 3495.0);
    assert_eq!(
        orders,
        vec![(3, Disbursement { method: PaymentMethodImpl::Hold, paycheck: recorded[0] })]
    );
}

#[test]
fn a_payday_pays_those_who_are_due() {
    let mut db = MockDb::new();
    AddSalaryEmployeeTx::execute(&mut db, 1, "Bob", "Home", amount(1000.0)).unwrap();
    AddHourlyEmployeeTx::execute(&mut db, 2, "Ann", "Flat", amount(15.25)).unwrap();
    AddCommissionedEmployeeTx::execute(&mut db, 3, "Cy", "Loft", amount(420.0), amount(0.25))
        .unwrap();
    TimeCardTx::execute(&mut db, 2, ymd(2024, 5, 28), amount(10.0)).unwrap();
    TimeCardTx::execute(&mut db, 2, ymd(2024, 5, 24), amount(8.0)).unwrap();
    ChangeUnionMemberTx::execute(&mut db, 2, 7234, amount(9.75)).unwrap();
    ServiceChargeTx::execute(&mut db, 7234, ymd(2024, 5, 30), amount(50.0)).unwrap();
    ChangeEmployeeMailTx::execute(&mut db, 2, "ann@flat").unwrap();
    // the last of May 2024 is a Friday in an even week
    let pay_date = ymd(2024, 5, 31);
    let mut orders = PaydayTx::execute(&mut db, pay_date).unwrap();
    orders.sort_by_key(|order| order.0);
    assert_eq!(orders.len(), 3);
    let bob = db.paychecks_of(1);
    let ann = db.paychecks_of(2);
    let cy = db.paychecks_of(3);
    assert_eq!((bob.len(), ann.len(), cy.len()), (1, 1, 1));
    assert_eq!(bob[0].get_period(), Period::new(ymd(2024, 5, 1), pay_date));
    assert_eq!(units(bob[0].get_gross_pay()), 1000.0);
    assert_eq!(signed_units(bob[0].get_net_pay()), 1000.0);
    assert_eq!(ann[0].get_period(), Period::new(ymd(2024, 5, 25), pay_date));
    assert_eq!(units(ann[0].get_gross_pay()), 167.75);
    assert_eq!(units(ann[0].get_deductions()), 59.75);
    assert_eq!(signed_units(ann[0].get_net_pay()), 108.0);
    assert_eq!(cy[0].get_period(), Period::new(ymd(2024, 5, 18), pay_date));
    assert_eq!(units(cy[0].get_gross_pay()), 420.0);
    assert_eq!(
        orders,
        vec![
            (1, Disbursement { method: PaymentMethodImpl::Hold, paycheck: bob[0] }),
            (
                2,
                Disbursement {
                    method: PaymentMethodImpl::Mail { address: "ann@flat".to_string() },
                    paycheck: ann[0]
                }
            ),
            (3, Disbursement { method: PaymentMethodImpl::Hold, paycheck: cy[0] }),
        ]
    );
    let again = PaydayTx::execute(&mut db, pay_date).unwrap();
    assert_eq!(again.len(), 3);
    assert_eq!(db.paychecks_of(2), vec![ann[0], ann[0]]);
    let next_friday = PaydayTx::execute(&mut db, ymd(2024, 6, 7)).unwrap();
    assert_eq!(next_friday.len(), 1);
    assert_eq!(next_friday[0].0, 2);
    assert_eq!(db.paychecks_of(2).len(), 3);
    assert_eq!(units(db.paychecks_of(2)[2].get_gross_pay()), 0.0);
    assert_eq!(signed_units(db.paychecks_of(2)[2].get_net_pay()), -9.75);
    assert_eq!(db.paychecks_of(1).len(), 2);
    assert_eq!(db.paychecks_of(3).len(), 2);
}

#[test]
fn failures_say_what_failed() {
    assert_eq!(
        DaoError::InsertError("emp_id=1 already exists".to_string()).message(),
        "insert error: emp_id=1 already exists"
    );
    assert_eq!(DaoError::DeleteError("x".to_string()).message(), "delete error: x");
    assert_eq!(DaoError::FetchError("x".to_string()).message(), "fetch error: x");
    assert_eq!(DaoError::UpdateError(String::new()).message(), "update error: ");
    let inner = DaoError::FetchError("emp_id=1 not found".to_string());
    assert_eq!(
        UsecaseError::RegisterEmployeeFailed(inner.clone()).message(),
        "register employee failed: fetch error: emp_id=1 not found"
    );
    assert_eq!(
        UsecaseError::UnregisterEmployeeFailed(inner.clone()).message(),
        "unregister employee failed: fetch error: emp_id=1 not found"
    );
    assert_eq!(
        UsecaseError::NotFound(inner.clone()).message(),
        "employee not found: fetch error: emp_id=1 not found"
    );
    assert_eq!(
        UsecaseError::GetAllFailed(inner.clone()).message(),
        "can't get all employees: fetch error: emp_id=1 not found"
    );
    assert_eq!(
        UsecaseError::UnexpectedPaymentClassification("expected hourly emp_id: 1".to_string())
            .message(),
        "unexpected payment classification: expected hourly emp_id: 1"
    );
    assert_eq!(
        UsecaseError::UpdateEmployeeFailed(inner.clone()).message(),
        "update employee failed: fetch error: emp_id=1 not found"
    );
    assert_eq!(
        UsecaseError::UnexpectedAffiliation("expected union emp_id: 1".to_string()).message(),
        "unexpected affiliation: expected union emp_id: 1"
    );
    assert_eq!(
        UsecaseError::AddUnionMemberFailed(inner.clone()).message(),
        "add union member failed: fetch error: emp_id=1 not found"
    );
    assert_eq!(
        UsecaseError::RemoveUnionMemberFailed(inner.clone()).message(),
        "remove union member failed: fetch error: emp_id=1 not found"
    );
    assert_eq!(UsecaseError::NotFound(inner.clone()).clone(), UsecaseError::NotFound(inner));
}
