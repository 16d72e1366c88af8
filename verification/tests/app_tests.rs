use payroll::affiliation::AffiliationImpl;
use payroll::amount::Amount;
use payroll::calendar::Date;
use payroll::calendar::Period;
use payroll::classification::PaymentClassificationImpl;
use payroll::classification::TimeCard;
use payroll::dao::DaoError;
use payroll::dao::PayrollDao;
use payroll::method::PaymentMethodImpl;
use payroll::mock_app::run_script;
use payroll::mock_app::TestPayrollApp;
use payroll::mock_db::MockDb;
use payroll::mock_tx_impl::AddCommissionedEmployeeTxImpl;
use payroll::mock_tx_impl::AddHourlyEmployeeTxImpl;
use payroll::mock_tx_impl::AddSalaryEmployeeTxImpl;
use payroll::mock_tx_impl::AnyTransaction;
use payroll::mock_tx_impl::ChangeEmployeeAddressTxImpl;
use payroll::mock_tx_impl::ChangeEmployeeCommissionedTxImpl;
use payroll::mock_tx_impl::ChangeEmployeeDirectTxImpl;
use payroll::mock_tx_impl::ChangeEmployeeHoldTxImpl;
use payroll::mock_tx_impl::ChangeEmployeeHourlyTxImpl;
use payroll::mock_tx_impl::ChangeEmployeeMailTxImpl;
use payroll::mock_tx_impl::ChangeEmployeeNameTxImpl;
use payroll::mock_tx_impl::ChangeEmployeeSalariedTxImpl;
use payroll::mock_tx_impl::ChangeUnaffiliatedTxImpl;
use payroll::mock_tx_impl::ChangeUnionMemberTxImpl;
use payroll::mock_tx_impl::DeleteEmployeeTxImpl;
use payroll::mock_tx_impl::PaydayTxImpl;
use payroll::mock_tx_impl::SalesReceiptTxImpl;
use payroll::mock_tx_impl::ServiceChargeTxImpl;
use payroll::mock_tx_impl::TimeCardTxImpl;
use payroll::parser::Command;
use payroll::abstract_tx::UsecaseError;
use payroll::schedule::PaymentScheduleImpl;
use payroll::text_parser_tx_source::to_tx;
use payroll::text_parser_tx_source::transactions_of;
use payroll::text_parser_tx_source::TextParserTransactionSource;
use payroll::tx_app::Transaction;
use payroll::tx_app::TransactionApplication;
use payroll::tx_app::TransactionSource;
use payroll::tx_factory_impl::TransactionFactoryImpl;

/// The amount that the decimal number `x` stands for.
fn amount(x: f64) -> Amount {
    Amount::from_thousandths((x * 1000.0).round() as u64)
}

fn units(a: Amount) -> f64 {
    a.thousandths() as f64 / 1000.0
}

fn ymd(year: i32, month: u32, day: u32) -> Date {
    Date::from_ymd(year, month, day).unwrap()
}

const SCRIPT: &str = r#"
# the staff
AddEmp 1 "Bob" "Home" S 1000.0
AddEmp 2 "Ann" "Flat" H 15.25
AddEmp 3 "Cy" "Loft" C 420.0 0.25
AddEmp 4 "Di" "Barn" S 1.0

# what happened in May
TimeCard 2 2024-05-28 10.0
TimeCard 1 2024-05-28 10.0
SalesReceipt 3 2024-05-20 12300.0
ChgEmp 2 Member 7234 Dues 9.75
ServiceCharge 7234 2024-05-30 50.0
ChgEmp 1 Name "Robert"
ChgEmp 1 Address "123 Wall St."
ChgEmp 3 Direct "mufg" "1234567"
ChgEmp 4 Hourly 20.0
ChgEmp 4 Mail "di@barn"
ChgEmp 4 Member 7234 Dues 1.0
DelEmp 9
DelEmp 4
Payday 2024-05-31
ChgEmp 2 NoMember
ChgEmp 2 Salaried 2000.0
ChgEmp 3 Hold
ChgEmp 1 Commissioned 10.0 0.5
"#;

fn check_the_ledger(db: &MockDb) {
    let bob = db.fetch(1).unwrap();
    assert_eq!(bob.name, "Robert");
    assert_eq!(bob.address, "123 Wall St.");
    assert_eq!(
        bob.classification,
        PaymentClassificationImpl::Commissioned {
            salary: amount(10.0),
            commission_rate: amount(0.5),
            sales_receipts: vec![],
        }
    );
    assert_eq!(bob.schedule, PaymentScheduleImpl::Biweekly);
    let ann = db.fetch(2).unwrap();
    assert_eq!(ann.affiliation, AffiliationImpl::Unaffiliated);
    assert_eq!(
        ann.classification,
        PaymentClassificationImpl::Salaried { salary: amount(2000.0) }
    );
    assert_eq!(ann.schedule, PaymentScheduleImpl::Monthly);
    let cy = db.fetch(3).unwrap();
    assert_eq!(cy.method, PaymentMethodImpl::Hold);
    assert_eq!(db.fetch(4), Err(DaoError::FetchError("emp_id=4 not found".to_string())));
    assert_eq!(
        db.find_union_member(7234),
        Err(DaoError::FetchError("member_id: 7234".to_string()))
    );
    let paid = db.paychecks_of(1);
    assert_eq!(paid.len(), 1);
    assert_eq!(paid[0].get_period(), Period::new(ymd(2024, 5, 1), ymd(2024, 5, 31)));
    assert_eq!(units(paid[0].get_gross_pay()), 1000.0);
    let paid = db.paychecks_of(2);
    assert_eq!(paid.len(), 1);
    assert_eq!(units(paid[0].get_gross_pay()), 167.75);
    assert_eq!(units(paid[0].get_deductions()), 59.75);
    assert_eq!(paid[0].get_net_pay().thousandths(), 108_000);
    let paid = db.paychecks_of(3);
    assert_eq!(paid.len(), 1);
    assert_eq!(units(paid[0].get_gross_pay()), 3495.0);
    assert_eq!(db.paychecks_of(4), vec![]);
}

#[test]
fn an_application_runs_its_script() {
    let mut app = TestPayrollApp::new(SCRIPT);
    let mut db = MockDb::new();
    assert_eq!(app.run(&mut db), Ok(()));
    check_the_ledger(&db);
}

#[test]
fn an_application_runs_its_script_again() {
    let mut app = TestPayrollApp::new("AddEmp 1 \"Bob\" \"Home\" S 1000.0\nPayday 2024-05-31");
    let mut db = MockDb::new();
    assert_eq!(app.run(&mut db), Ok(()));
    assert_eq!(app.run(&mut db), Ok(()));
    assert_eq!(db.fetch_all().unwrap().len(), 1);
    assert_eq!(db.paychecks_of(1).len(), 2);
    let mut other = MockDb::new();
    assert_eq!(app.run(&mut other), Ok(()));
    assert_eq!(other.paychecks_of(1).len(), 1);
}

#[test]
fn an_application_without_commands_does_nothing() {
    let mut db = MockDb::new();
    assert_eq!(TestPayrollApp::new("").run(&mut db), Ok(()));
    assert_eq!(TestPayrollApp::new("# nothing\n").run(&mut db), Ok(()));
    assert_eq!(TestPayrollApp::new("Hello").run(&mut db), Ok(()));
    assert_eq!(db.fetch_all(), Ok(vec![]));
}

#[test]
fn a_source_hands_out_its_transactions_in_order() {
    let mut source = TextParserTransactionSource::new(
        "DelEmp 1 ChgEmp 2 Hold\nPayday 2024-05-31 rest".to_string(),
    );
    assert_eq!(
        TransactionSource::<MockDb>::get_transaction(&mut source),
        Some(AnyTransaction::DeleteEmployee(DeleteEmployeeTxImpl { emp_id: 1 }))
    );
    assert_eq!(
        TransactionSource::<MockDb>::get_transaction(&mut source),
        Some(AnyTransaction::ChangeEmployeeHold(ChangeEmployeeHoldTxImpl { emp_id: 2 }))
    );
    assert_eq!(
        TransactionSource::<MockDb>::get_transaction(&mut source),
        Some(AnyTransaction::Payday(PaydayTxImpl { pay_date: ymd(2024, 5, 31) }))
    );
    assert_eq!(TransactionSource::<MockDb>::get_transaction(&mut source), None);
    assert_eq!(TransactionSource::<MockDb>::get_transaction(&mut source), None);
    let mut empty = TextParserTransactionSource::new(String::new());
    assert_eq!(TransactionSource::<MockDb>::get_transaction(&mut empty), None);
}

#[test]
fn a_source_runs_like_the_application() {
    let mut source = TextParserTransactionSource::new(SCRIPT.to_string());
    let mut db = MockDb::new();
    let mut failures: Vec<UsecaseError> = Vec::new();
    while let Some(tx) = TransactionSource::<MockDb>::get_transaction(&mut source) {
        if let Err(e) = tx.execute(&mut db) {
            failures.push(e);
        }
    }
    check_the_ledger(&db);
    assert_eq!(
        failures,
        vec![
            UsecaseError::UnexpectedPaymentClassification("expected hourly emp_id: 1".to_string()),
            UsecaseError::AddUnionMemberFailed(DaoError::InsertError(
                "member_id=7234 already exists".to_string()
            )),
            UsecaseError::UnregisterEmployeeFailed(DaoError::DeleteError(
                "emp_id=9 not found".to_string()
            )),
        ]
    );
}

#[test]
fn each_command_has_its_transaction() {
    let name = || "Bob".to_string();
    let home = || "Home".to_string();
    let day = ymd(2021, 1, 1);
    assert_eq!(
        to_tx(Command::AddSalaryEmp {
            emp_id: 1,
            name: name(),
            address: home(),
            salary: amount(1.0)
        }),
        AnyTransaction::AddSalaryEmployee(AddSalaryEmployeeTxImpl {
            emp_id: 1,
            name: name(),
            address: home(),
            salary: amount(1.0)
        })
    );
    assert_eq!(
        to_tx(Command::AddHourlyEmp {
            emp_id: 1,
            name: name(),
            address: home(),
            hourly_rate: amount(2.0)
        }),
        AnyTransaction::AddHourlyEmployee(AddHourlyEmployeeTxImpl {
            emp_id: 1,
            name: name(),
            address: home(),
            hourly_rate: amount(2.0)
        })
    );
    assert_eq!(
        to_tx(Command::AddCommissionedEmp {
            emp_id: 1,
            name: name(),
            address: home(),
            salary: amount(3.0),
            commission_rate: amount(4.0)
        }),
        AnyTransaction::AddCommissionedEmployee(AddCommissionedEmployeeTxImpl {
            emp_id: 1,
            name: name(),
            address: home(),
            salary: amount(3.0),
            commission_rate: amount(4.0)
        })
    );
    assert_eq!(
        to_tx(Command::DelEmp { emp_id: 5 }),
        AnyTransaction::DeleteEmployee(DeleteEmployeeTxImpl { emp_id: 5 })
    );
    assert_eq!(
        to_tx(Command::TimeCard { emp_id: 5, date: day, hours: amount(8.0) }),
        AnyTransaction::TimeCard(TimeCardTxImpl { emp_id: 5, date: day, hours: amount(8.0) })
    );
    assert_eq!(
        to_tx(Command::SalesReceipt { emp_id: 5, date: day, amount: amount(8.0) }),
        AnyTransaction::SalesReceipt(SalesReceiptTxImpl {
            emp_id: 5,
            date: day,
            amount: amount(8.0)
        })
    );
    assert_eq!(
        to_tx(Command::ServiceCharge { member_id: 6, date: day, amount: amount(8.0) }),
        AnyTransaction::ServiceCharge(ServiceChargeTxImpl {
            member_id: 6,
            date: day,
            amount: amount(8.0)
        })
    );
    assert_eq!(
        to_tx(Command::ChgName { emp_id: 5, name: name() }),
        AnyTransaction::ChangeEmployeeName(ChangeEmployeeNameTxImpl { emp_id: 5, name: name() })
    );
    assert_eq!(
        to_tx(Command::ChgAddress { emp_id: 5, address: home() }),
        AnyTransaction::ChangeEmployeeAddress(ChangeEmployeeAddressTxImpl {
            emp_id: 5,
            address: home()
        })
    );
    assert_eq!(
        to_tx(Command::ChgHourly { emp_id: 5, hourly_rate: amount(2.0) }),
        AnyTransaction::ChangeEmployeeHourly(ChangeEmployeeHourlyTxImpl {
            emp_id: 5,
            hourly_rate: amount(2.0)
        })
    );
    assert_eq!(
        to_tx(Command::ChgSalaried { emp_id: 5, salary: amount(2.0) }),
        AnyTransaction::ChangeEmployeeSalaried(ChangeEmployeeSalariedTxImpl {
            emp_id: 5,
            salary: amount(2.0)
        })
    );
    assert_eq!(
        to_tx(Command::ChgCommissioned {
            emp_id: 5,
            salary: amount(2.0),
            commission_rate: amount(3.0)
        }),
        AnyTransaction::ChangeEmployeeCommissioned(ChangeEmployeeCommissionedTxImpl {
            emp_id: 5,
            salary: amount(2.0),
            commission_rate: amount(3.0)
        })
    );
    assert_eq!(
        to_tx(Command::ChgHold { emp_id: 5 }),
        AnyTransaction::ChangeEmployeeHold(ChangeEmployeeHoldTxImpl { emp_id: 5 })
    );
    assert_eq!(
        to_tx(Command::ChgDirect { emp_id: 5, bank: name(), account: home() }),
        AnyTransaction::ChangeEmployeeDirect(ChangeEmployeeDirectTxImpl {
            emp_id: 5,
            bank: name(),
            account: home()
        })
    );
    assert_eq!(
        to_tx(Command::ChgMail { emp_id: 5, address: home() }),
        AnyTransaction::ChangeEmployeeMail(ChangeEmployeeMailTxImpl { emp_id: 5, address: home() })
    );
    assert_eq!(
        to_tx(Command::ChgMember { emp_id: 5, member_id: 6, dues: amount(7.0) }),
        AnyTransaction::ChangeUnionMember(ChangeUnionMemberTxImpl {
            emp_id: 5,
            member_id: 6,
            dues: amount(7.0)
        })
    );
    assert_eq!(
        to_tx(Command::ChgNoMember { emp_id: 5 }),
        AnyTransaction::ChangeUnaffiliated(ChangeUnaffiliatedTxImpl { emp_id: 5 })
    );
    assert_eq!(
        to_tx(Command::Payday { pay_date: day }),
        AnyTransaction::Payday(PaydayTxImpl { pay_date: day })
    );
}

#[test]
fn a_factory_makes_each_transaction() {
    let factory = TransactionFactoryImpl::new();
    let name = || "Bob".to_string();
    let home = || "Home".to_string();
    let day = ymd(2021, 1, 1);
    assert_eq!(
        factory.mk_add_salary_employee_tx(1, name(), home(), amount(1.0)),
        to_tx(Command::AddSalaryEmp {
            emp_id: 1,
            name: name(),
            address: home(),
            salary: amount(1.0)
        })
    );
    assert_eq!(
        factory.mk_add_hourly_employee_tx(1, name(), home(), amount(1.0)),
        to_tx(Command::AddHourlyEmp {
            emp_id: 1,
            name: name(),
            address: home(),
            hourly_rate: amount(1.0)
        })
    );
    assert_eq!(
        factory.mk_add_commissioned_employee_tx(1, name(), home(), amount(1.0), amount(2.0)),
        to_tx(Command::AddCommissionedEmp {
            emp_id: 1,
            name: name(),
            address: home(),
            salary: amount(1.0),
            commission_rate: amount(2.0)
        })
    );
    assert_eq!(factory.mk_delete_employee_tx(1), to_tx(Command::DelEmp { emp_id: 1 }));
    assert_eq!(
        factory.mk_timecard_tx(1, day, amount(8.0)),
        to_tx(Command::TimeCard { emp_id: 1, date: day, hours: amount(8.0) })
    );
    assert_eq!(
        factory.mk_sales_receipt_tx(1, day, amount(8.0)),
        to_tx(Command::SalesReceipt { emp_id: 1, date: day, amount: amount(8.0) })
    );
    assert_eq!(
        factory.mk_change_name_tx(1, name()),
        to_tx(Command::ChgName { emp_id: 1, name: name() })
    );
    assert_eq!(
        factory.mk_change_address_tx(1, home()),
        to_tx(Command::ChgAddress { emp_id: 1, address: home() })
    );
    assert_eq!(
        factory.mk_change_salaried_tx(1, amount(2.0)),
        to_tx(Command::ChgSalaried { emp_id: 1, salary: amount(2.0) })
    );
    assert_eq!(
        factory.mk_change_hourly_tx(1, amount(2.0)),
        to_tx(Command::ChgHourly { emp_id: 1, hourly_rate: amount(2.0) })
    );
    assert_eq!(
        factory.mk_change_commissioned_tx(1, amount(2.0), amount(3.0)),
        to_tx(Command::ChgCommissioned {
            emp_id: 1,
            salary: amount(2.0),
            commission_rate: amount(3.0)
        })
    );
    assert_eq!(
        factory.mk_change_direct_tx(1, name(), home()),
        to_tx(Command::ChgDirect { emp_id: 1, bank: name(), account: home() })
    );
    assert_eq!(
        factory.mk_change_mail_tx(1, home()),
        to_tx(Command::ChgMail { emp_id: 1, address: home() })
    );
    assert_eq!(factory.mk_change_hold_tx(1), to_tx(Command::ChgHold { emp_id: 1 }));
    assert_eq!(
        factory.mk_change_union_member_tx(1, 2, amount(3.0)),
        to_tx(Command::ChgMember { emp_id: 1, member_id: 2, dues: amount(3.0) })
    );
    assert_eq!(factory.mk_change_unaffiliated_tx(1), to_tx(Command::ChgNoMember { emp_id: 1 }));
    assert_eq!(
        factory.mk_service_charge_tx(2, day, amount(8.0)),
        to_tx(Command::ServiceCharge { member_id: 2, date: day, amount: amount(8.0) })
    );
    assert_eq!(factory.mk_payday_tx(day), to_tx(Command::Payday { pay_date: day }));
}

#[test]
fn transactions_as_values_do_what_the_transactions_do() {
    let mut db = MockDb::new();
    let add = AddHourlyEmployeeTxImpl {
        emp_id: 2,
        name: "Ann".to_string(),
        address: "Flat".to_string(),
        hourly_rate: amount(15.25),
    };
    assert_eq!(add.execute(&mut db), Ok(()));
    assert_eq!(
        add.execute(&mut db),
        Err(UsecaseError::RegisterEmployeeFailed(DaoError::InsertError(
            "emp_id=2 already exists".to_string()
        )))
    );
    assert_eq!(add.clone(), add);
    let card = TimeCardTxImpl { emp_id: 2, date: ymd(2024, 5, 28), hours: amount(10.0) };
    assert_eq!(card.execute(&mut db), Ok(()));
    assert_eq!(
        db.fetch(2).unwrap().classification,
        PaymentClassificationImpl::Hourly {
            hourly_rate: amount(15.25),
            timecards: vec![TimeCard::new(ymd(2024, 5, 28), amount(10.0))],
        }
    );
    let payday = AnyTransaction::Payday(PaydayTxImpl { pay_date: ymd(2024, 5, 31) });
    assert_eq!(payday.execute(&mut db), Ok(()));
    assert_eq!(payday.clone(), payday);
    assert_eq!(db.paychecks_of(2).len(), 1);
    assert_eq!(units(db.paychecks_of(2)[0].get_gross_pay()), 167.75);
    let gone = AnyTransaction::DeleteEmployee(DeleteEmployeeTxImpl { emp_id: 2 });
    assert_eq!(gone.execute(&mut db), Ok(()));
    assert_eq!(
        gone.execute(&mut db),
        Err(UsecaseError::UnregisterEmployeeFailed(DaoError::DeleteError(
            "emp_id=2 not found".to_string()
        )))
    );
}

#[test]
fn a_script_is_run_against_a_store() {
    let mut db = MockDb::new();
    run_script(SCRIPT, &mut db);
    check_the_ledger(&db);
    run_script("DelEmp 1\nDelEmp 2 oops DelEmp 3", &mut db);
    assert_eq!(db.fetch(1), Err(DaoError::FetchError("emp_id=1 not found".to_string())));
    assert_eq!(db.fetch(2), Err(DaoError::FetchError("emp_id=2 not found".to_string())));
    assert_eq!(db.fetch(3).unwrap().name, "Cy");
}

#[test]
fn the_transactions_of_a_script_come_in_its_order() {
    assert_eq!(
        transactions_of("Payday 2024-05-31 DelEmp 1\n# done\n"),
        vec![
            AnyTransaction::Payday(PaydayTxImpl { pay_date: ymd(2024, 5, 31) }),
            AnyTransaction::DeleteEmployee(DeleteEmployeeTxImpl { emp_id: 1 }),
        ]
    );
    assert_eq!(transactions_of(""), vec![]);
}
