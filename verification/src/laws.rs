//! What holds of the ledger whatever it holds: laws that relate the
//! transactions to each other and to the calendar.

use vstd::prelude::*;
use crate::abstract_tx::new_employee;
use crate::abstract_tx::UsecaseError;
use crate::affiliation::charges_due;
use crate::affiliation::AffiliationView;
use crate::affiliation::ServiceCharge;
use crate::amount::day_pay;
use crate::amount::scaled_product;
use crate::amount::Amount;
use crate::calendar::fridays_between;
use crate::calendar::in_calendar;
use crate::calendar::is_friday;
use crate::calendar::Date;
use crate::calendar::Period;
use crate::classification::commissions;
use crate::classification::timecards_pay;
use crate::classification::ClassificationView;
use crate::classification::SalesReceipt;
use crate::classification::TimeCard;
use crate::dao::PayrollDao;
use crate::dao::PayrollState;
use crate::method::DisbursementView;
use crate::method::MethodView;
use crate::parser::after_digits;
use crate::parser::digit_of;
use crate::parser::digits_value;
use crate::parser::id_at;
use crate::parser::number_at;
use crate::mock_tx_impl::AnyTransaction;
use crate::parser::CommandView;
use crate::payroll_domain::EmployeeId;
use crate::payroll_domain::EmployeeView;
use crate::payroll_domain::MemberId;
use crate::payroll_domain::PaymentSchedule;
use crate::schedule::PaymentScheduleImpl;
use crate::semantics::command_breaks_off;
use crate::semantics::command_effect;
use crate::semantics::command_may_leave;
use crate::semantics::command_succeeds;
use crate::semantics::script_effect;
use crate::semantics::script_may_leave;
use crate::text::decimal;
use crate::text::digit_char;
use crate::text_parser_tx_source::commands_of;
use crate::tx_app::may_leave;
use crate::tx_app::may_run_to;
use crate::tx_app::run_all;
use crate::tx_app::Transaction;
use crate::tx_impl::broke_off_at;
use crate::tx_impl::is_due;
use crate::tx_impl::orders_due;
use crate::tx_impl::renamed;
use crate::tx_impl::settled;

verus! {

/// An employee who was just added stands in the store under their id with the
/// classification and schedule that were asked for, is paid by held check and
/// belongs to no union.
pub proof fn law_new_employee_as_requested(
    s: PayrollState,
    emp_id: EmployeeId,
    name: Seq<char>,
    address: Seq<char>,
    classification: ClassificationView,
    schedule: PaymentScheduleImpl,
)
    ensures
        ({
            let after = s.with_employee(
                new_employee(emp_id, name, address, classification, schedule),
            );
            &&& after.employees.contains_key(emp_id)
            &&& after.employees[emp_id].emp_id == emp_id
            &&& after.employees[emp_id].name == name
            &&& after.employees[emp_id].address == address
            &&& after.employees[emp_id].classification == classification
            &&& after.employees[emp_id].schedule == schedule
            &&& after.employees[emp_id].method == MethodView::Hold
            &&& after.employees[emp_id].affiliation == AffiliationView::Unaffiliated
        }),
{
}

/// After the name of an employee was changed, the employee bears the new
/// name, whatever the name was before; all else about the employee is as it
/// was, and no other employee has changed.
pub proof fn law_rename_sticks(s: PayrollState, emp_id: EmployeeId, name: Seq<char>)
    requires
        s.keyed_by_id(),
        s.employees.contains_key(emp_id),
    ensures
        renamed(s, emp_id, name).employees.contains_key(emp_id),
        renamed(s, emp_id, name).employees[emp_id] == (EmployeeView {
            name,
            ..s.employees[emp_id]
        }),
        forall|other: EmployeeId|
            other != emp_id ==> renamed(s, emp_id, name).employees.contains_key(other)
                == s.employees.contains_key(other) && renamed(s, emp_id, name).employees[other]
                == s.employees[other],
{
}

/// Changing the name of an employee twice to the same name leaves the store
/// as changing it once does.
pub proof fn law_rename_idempotent(s: PayrollState, emp_id: EmployeeId, name: Seq<char>)
    requires
        s.keyed_by_id(),
        s.employees.contains_key(emp_id),
    ensures
        renamed(renamed(s, emp_id, name), emp_id, name) == renamed(s, emp_id, name),
{
    let once = renamed(s, emp_id, name);
    let twice = renamed(once, emp_id, name);
    assert(twice.employees =~= once.employees);
}

/// An employee who was removed is no longer in the store, so a fetch of
/// their id fails; every other employee is as before.
pub proof fn law_removed_is_gone(s: PayrollState, emp_id: EmployeeId)
    ensures
        !s.without_employee(emp_id).employees.contains_key(emp_id),
        forall|other: EmployeeId|
            other != emp_id ==> s.without_employee(emp_id).employees.contains_key(other)
                == s.employees.contains_key(other) && s.without_employee(
                emp_id,
            ).employees[other] == s.employees[other],
{
}

/// A payday on which no employee is due records no paycheck and orders no
/// payment.
pub proof fn law_payday_without_due(
    s: PayrollState,
    pay_date: Date,
    ids: Seq<EmployeeId>,
    orders: Seq<DisbursementView>,
)
    requires
        forall|emp_id: EmployeeId| !is_due(s, emp_id, pay_date),
        orders_due(s, pay_date, ids, orders),
    ensures
        settled(s, pay_date) == s,
        ids.len() == 0,
        orders.len() == 0,
{
    assert(settled(s, pay_date).paychecks =~= s.paychecks);
    if ids.len() > 0 {
        assert(is_due(s, ids[0], pay_date));
    }
}

/// A payday leaves the employees and the union index as they were, adds
/// exactly one paycheck for each employee who is due, and none for anyone else.
pub proof fn law_payday_one_paycheck_each(s: PayrollState, pay_date: Date, emp_id: EmployeeId)
    ensures
        settled(s, pay_date).employees == s.employees,
        settled(s, pay_date).union_members == s.union_members,
        is_due(s, emp_id, pay_date) ==> settled(s, pay_date).paychecks_of(emp_id)
            == s.paychecks_of(emp_id).push(s.employees[emp_id].paycheck_due(pay_date)),
        !is_due(s, emp_id, pay_date) ==> settled(s, pay_date).paychecks_of(emp_id)
            == s.paychecks_of(emp_id),
{
}

/// On every paycheck that a payday computes, net pay is gross pay less deductions.
pub proof fn law_net_is_gross_less_deductions(emp: EmployeeView, period: Period)
    ensures
        emp.paycheck_for(period).net_pay.value() == emp.paycheck_for(period).gross_pay.value()
            - emp.paycheck_for(period).deductions.value(),
        emp.paycheck_for(period).period == period,
        emp.affiliation is Unaffiliated ==> emp.paycheck_for(period).net_pay.value()
            == emp.paycheck_for(period).gross_pay.value(),
{
}

/// The period of a weekly pay date holds the pay date and the six days
/// before it, and no other day of the calendar.
pub proof fn law_weekly_period_is_trailing_week(payday: Date, day: int)
    requires
        in_calendar(payday.day_number()),
        in_calendar(day),
    ensures
        ({
            let emp_start = PaymentScheduleImpl::Weekly.period_start(payday.day_number());
            emp_start <= day <= payday.day_number() <==> payday.day_number() - 6 <= day
                <= payday.day_number()
        }),
{
}

/// The period of a biweekly pay date holds the pay date and the thirteen
/// days before it, and no other day of the calendar.
pub proof fn law_biweekly_period_is_trailing_fortnight(payday: Date, day: int)
    requires
        in_calendar(payday.day_number()),
        in_calendar(day),
    ensures
        ({
            let emp_start = PaymentScheduleImpl::Biweekly.period_start(payday.day_number());
            emp_start <= day <= payday.day_number() <==> payday.day_number() - 13 <= day
                <= payday.day_number()
        }),
{
}

/// A weekly schedule pays on Fridays and on no other day; a biweekly one on
/// no other day either.
pub proof fn law_weekly_pays_on_fridays(day: int)
    ensures
        PaymentScheduleImpl::Weekly.pays_on(day) <==> is_friday(day),
        PaymentScheduleImpl::Biweekly.pays_on(day) ==> is_friday(day),
{
}

/// The Fridays of a range are those of its first part and those of the rest.
pub proof fn law_fridays_add_up(start: int, middle: int, end: int)
    requires
        start <= middle + 1,
        middle <= end,
    ensures
        fridays_between(start, end) == fridays_between(start, middle) + fridays_between(
            middle + 1,
            end,
        ),
    decreases end - middle,
{
    if middle < end {
        law_fridays_add_up(start, middle, end - 1);
    }
}

/// Any seven days in a row hold exactly one Friday: a union member who is
/// paid weekly owes the dues once on each paycheck.
pub proof fn law_one_friday_a_week(end: int)
    ensures
        fridays_between(end - 6, end) == 1,
{
    reveal_with_fuel(fridays_between, 8);
}

/// Any fourteen days in a row hold exactly two Fridays: a union member who
/// is paid every other week owes the dues twice on each paycheck.
pub proof fn law_two_fridays_a_fortnight(end: int)
    ensures
        fridays_between(end - 13, end) == 2,
{
    law_fridays_add_up(end - 13, end - 7, end);
    law_one_friday_a_week(end - 7);
    law_one_friday_a_week(end);
}

/// Storing an employee keeps every employee under their own id.
pub proof fn law_employees_stay_keyed(s: PayrollState, emp: EmployeeView, emp_id: EmployeeId)
    requires
        s.keyed_by_id(),
    ensures
        s.with_employee(emp).keyed_by_id(),
        s.without_employee(emp_id).keyed_by_id(),
{
}

/// The union index stays one to one: entering a member id that it does not
/// know, for an employee to whom it does not lead, and taking a member id
/// out, both leave it leading to each employee from one member id at most.
pub proof fn law_union_index_stays_one_to_one(
    s: PayrollState,
    member_id: MemberId,
    emp_id: EmployeeId,
)
    requires
        s.one_member_id_each(),
    ensures
        !s.is_member(emp_id) ==> s.with_member(member_id, emp_id).one_member_id_each(),
        s.without_member(member_id).one_member_id_each(),
{
    if !s.is_member(emp_id) {
        let after = s.with_member(member_id, emp_id);
        assert forall|a: MemberId, b: MemberId|
            after.union_members.contains_key(a) && after.union_members.contains_key(b)
                && #[trigger] after.union_members[a]
                == #[trigger] after.union_members[b] implies a == b by {
            if a != b {
                if a == member_id {
                    assert(s.union_members.contains_key(b) && s.union_members[b] == emp_id);
                } else if b == member_id {
                    assert(s.union_members.contains_key(a) && s.union_members[a] == emp_id);
                }
            }
        }
    }
}

/// Whatever command is carried out, and whether it succeeds or not, every
/// employee still stands under their own id afterwards, and the union index
/// still leads to each employee from one member id at most.
pub proof fn law_commands_keep_the_store_in_order(command: CommandView, s: PayrollState)
    requires
        s.keyed_by_id(),
        s.one_member_id_each(),
    ensures
        command_effect(command, s).keyed_by_id(),
        command_effect(command, s).one_member_id_each(),
{
    match command {
        CommandView::ChgMember { emp_id, member_id, dues } => {
            if command_succeeds(command, s) {
                law_union_index_stays_one_to_one(s, member_id, emp_id);
            }
        },
        CommandView::ChgNoMember { emp_id } => {
            if command_succeeds(command, s) {
                law_union_index_stays_one_to_one(
                    s,
                    s.employees[emp_id].affiliation->member_id,
                    emp_id,
                );
            }
        },
        _ => {},
    }
}

/// A command that does not succeed leaves the store as it was.
pub proof fn law_failed_command_changes_nothing(command: CommandView, s: PayrollState)
    requires
        !command_succeeds(command, s),
    ensures
        command_effect(command, s) == s,
{
}

/// A whole script keeps the store in order as each of its commands does.
pub proof fn law_scripts_keep_the_store_in_order(commands: Seq<CommandView>, s: PayrollState)
    requires
        s.keyed_by_id(),
        s.one_member_id_each(),
    ensures
        script_effect(commands, s).keyed_by_id(),
        script_effect(commands, s).one_member_id_each(),
    decreases commands.len(),
{
    if commands.len() > 0 {
        law_commands_keep_the_store_in_order(commands[0], s);
        law_scripts_keep_the_store_in_order(commands.drop_first(), command_effect(commands[0], s));
    }
}

/// Running transactions one after the other does to a store what the
/// commands that they carry out do to it in turn.
pub proof fn law_run_is_script_effect<Ctx: PayrollDao>(txs: Seq<AnyTransaction>, s: PayrollState)
    ensures
        run_all::<Ctx, AnyTransaction>(txs, s) == script_effect(commands_of(txs), s),
    decreases txs.len(),
{
    if txs.len() > 0 {
        law_run_is_script_effect::<Ctx>(txs.drop_first(), command_effect(txs[0]@, s));
        assert(commands_of(txs.drop_first()) =~= commands_of(txs).drop_first());
    }
}

/// What transactions may leave in a store when they run one after the other,
/// the commands that they carry out may leave in it in turn.
pub proof fn law_run_may_leave<Ctx: PayrollDao>(
    txs: Seq<AnyTransaction>,
    s: PayrollState,
    after: PayrollState,
)
    requires
        may_run_to::<Ctx, AnyTransaction>(txs, s, after),
    ensures
        script_may_leave(commands_of(txs), s, after),
    decreases txs.len(),
{
    if txs.len() > 0 {
        let mid = choose|mid: PayrollState| #[trigger]
            may_leave::<Ctx, AnyTransaction>(txs[0], s, mid) && may_run_to::<Ctx, AnyTransaction>(
                txs.drop_first(),
                mid,
                after,
            );
        law_run_may_leave::<Ctx>(txs.drop_first(), mid, after);
        assert(commands_of(txs.drop_first()) =~= commands_of(txs).drop_first());
        assert(command_may_leave(commands_of(txs)[0], s, mid)) by {
            if mid != <AnyTransaction as Transaction<Ctx>>::applied(&txs[0], s) {
                let e = choose|e: UsecaseError|
                    <AnyTransaction as Transaction<Ctx>>::breaks_off(&txs[0], s, mid, e);
                assert(command_breaks_off(txs[0]@, s, mid, e));
            }
        }
    }
}

/// What a script does to a dependable store is among what it may leave in
/// any store.
pub proof fn law_script_effect_is_possible(commands: Seq<CommandView>, s: PayrollState)
    ensures
        script_may_leave(commands, s, script_effect(commands, s)),
    decreases commands.len(),
{
    if commands.len() > 0 {
        let mid = command_effect(commands[0], s);
        law_script_effect_is_possible(commands.drop_first(), mid);
        assert(command_may_leave(commands[0], s, mid));
    }
}

/// Whatever a script leaves in a store, dependable or not, every employee
/// still stands under their own id in it, and the union index still leads to
/// each employee from one member id at most.
pub proof fn law_whatever_is_left_is_in_order(
    commands: Seq<CommandView>,
    s: PayrollState,
    after: PayrollState,
)
    requires
        s.keyed_by_id(),
        s.one_member_id_each(),
        script_may_leave(commands, s, after),
    ensures
        after.keyed_by_id(),
        after.one_member_id_each(),
    decreases commands.len(),
{
    if commands.len() > 0 {
        let mid = choose|mid: PayrollState| #[trigger]
            command_may_leave(commands[0], s, mid) && script_may_leave(
                commands.drop_first(),
                mid,
                after,
            );
        if mid == command_effect(commands[0], s) {
            law_commands_keep_the_store_in_order(commands[0], s);
        } else {
            let e = choose|e: UsecaseError| command_breaks_off(commands[0], s, mid, e);
            assert(mid.employees == s.employees && mid.union_members == s.union_members) by {
                if mid != s {
                    let (listed, n) = choose|listed: Seq<EmployeeView>, n: int| #[trigger]
                        broke_off_at(s, mid, commands[0]->pay_date, listed, n);
                }
            }
        }
        law_whatever_is_left_is_in_order(commands.drop_first(), mid, after);
    }
}

/// A day of eight hours or less is paid at the plain rate: hours times rate,
/// rounded down to a whole thousandth. Eight hours are paid eight times the
/// rate exactly.
pub proof fn law_plain_hours_at_plain_rate(hours: nat, rate: nat)
    requires
        hours <= 8000,
    ensures
        day_pay(hours, rate) == scaled_product(hours, rate),
        day_pay(8000, rate) == 8 * rate,
{
    assert((2 * hours) * rate == 2 * (hours * rate)) by (nonlinear_arith);
    assert((2 * (hours * rate)) / 2000 == (hours * rate) / 1000) by (nonlinear_arith);
    assert((2 * 8000) * rate == 2000 * (8 * rate)) by (nonlinear_arith);
    assert((2000 * (8 * rate)) / 2000 == 8 * rate) by (nonlinear_arith);
}

/// Each whole hour beyond eight is paid one and a half times the rate: a day
/// of ten hours is paid eight times the rate and twice the rate and a half.
pub proof fn law_overtime_at_rate_and_a_half(extra_hours: nat, rate: nat)
    ensures
        day_pay(8000 + 1000 * extra_hours, rate) == 8 * rate + (3 * extra_hours * rate) / 2,
        day_pay(10000, rate) == 8 * rate + 3 * rate,
{
    let hours = 8000 + 1000 * extra_hours;
    assert((2 * 8000 + 3 * (1000 * extra_hours)) * rate == 2000 * (8 * rate) + 1000 * (3
        * extra_hours * rate)) by (nonlinear_arith);
    assert((2000 * (8 * rate) + 1000 * (3 * extra_hours * rate)) / 2000 == 8 * rate + (3
        * extra_hours * rate) / 2) by (nonlinear_arith);
    assert((2 * 8000 + 3 * 2000) * rate == 2000 * (11 * rate)) by (nonlinear_arith);
    assert((2000 * (11 * rate)) / 2000 == 11 * rate) by (nonlinear_arith);
}

/// An employee paid by the hour, with one time card in the period, earns the
/// pay of that day; a time card outside the period earns nothing.
pub proof fn law_hourly_pay_of_one_time_card(rate: Amount, card: TimeCard, period: Period)
    ensures
        (ClassificationView::Hourly { hourly_rate: rate, timecards: seq![card] }).gross_pay(period)
            == if period.covers(card.date.day_number()) {
            day_pay(card.hours.value(), rate.value())
        } else {
            0
        },
{
    assert(seq![card].drop_last() =~= Seq::<TimeCard>::empty());
    reveal_with_fuel(timecards_pay, 2);
}

/// An employee on commission, with one sales receipt in the period, earns the
/// salary and the commission on that sale; a receipt outside the period earns
/// no commission.
pub proof fn law_commissioned_pay_of_one_receipt(
    salary: Amount,
    rate: Amount,
    receipt: SalesReceipt,
    period: Period,
)
    ensures
        (ClassificationView::Commissioned {
            salary,
            commission_rate: rate,
            sales_receipts: seq![receipt],
        }).gross_pay(period) == salary.value() + if period.covers(receipt.date.day_number()) {
            scaled_product(receipt.amount.value(), rate.value())
        } else {
            0
        },
{
    assert(seq![receipt].drop_last() =~= Seq::<SalesReceipt>::empty());
    reveal_with_fuel(commissions, 2);
}

/// A union member owes the dues once for each Friday of the period, and each
/// service charge of the period: with one charge in the period, the dues
/// times the Fridays and that charge.
pub proof fn law_union_deductions_of_one_charge(
    member_id: MemberId,
    dues: Amount,
    charge: ServiceCharge,
    period: Period,
)
    ensures
        (AffiliationView::Union {
            member_id,
            dues,
            service_charges: seq![charge],
        }).deductions(period) == dues.value() * fridays_between(
            period.start.day_number(),
            period.end.day_number(),
        ) + if period.covers(charge.date.day_number()) {
            charge.amount.value()
        } else {
            0
        },
        AffiliationView::Unaffiliated.deductions(period) == 0,
{
    assert(seq![charge].drop_last() =~= Seq::<ServiceCharge>::empty());
    reveal_with_fuel(charges_due, 2);
}

/// Every character of a number written in decimal digits is a digit, and
/// stands for the digit that was written.
pub proof fn law_decimal_is_digits(n: nat)
    ensures
        decimal(n).len() >= 1,
        forall|k: int| 0 <= k < decimal(n).len() ==> digit_of(#[trigger] decimal(n)[k]) is Some,
        digit_of(decimal(n).last()) == Some(n % 10),
    decreases n,
{
    if n >= 10 {
        law_decimal_is_digits(n / 10);
    }
}

/// A run of digits that ends at `j` is skipped up to `j`.
proof fn lemma_digits_are_skipped(s: Seq<char>, i: int, j: int)
    requires
        0 <= i <= j <= s.len(),
        forall|k: int| i <= k < j ==> digit_of(#[trigger] s[k]) is Some,
        j == s.len() || digit_of(s[j]) is None,
    ensures
        after_digits(s, i) == j,
    decreases j - i,
{
    if i < j {
        lemma_digits_are_skipped(s, i + 1, j);
    }
}

/// What the digits up to `j` spell does not depend on what follows them.
proof fn lemma_value_of_prefix(s: Seq<char>, t: Seq<char>, j: int)
    requires
        0 <= j <= s.len(),
        j <= t.len(),
        forall|k: int| 0 <= k < j ==> s[k] == t[k],
    ensures
        digits_value(s, 0, j) == digits_value(t, 0, j),
    decreases j,
{
    if j > 0 {
        lemma_value_of_prefix(s, t, j - 1);
    }
}

/// The decimal digits of a number spell that number.
proof fn lemma_decimal_spells(n: nat)
    ensures
        digits_value(decimal(n), 0, decimal(n).len() as int) == n,
    decreases n,
{
    law_decimal_is_digits(n);
    if n >= 10 {
        let front = decimal(n / 10);
        lemma_decimal_spells(n / 10);
        law_decimal_is_digits(n / 10);
        lemma_value_of_prefix(decimal(n), front, front.len() as int);
        assert(decimal(n).len() == front.len() + 1);
        assert(decimal(n)[front.len() as int] == digit_char(n % 10));
    } else {
        assert(digits_value(decimal(n), 0, 1) == digits_value(decimal(n), 0, 0) * 10 + digit_of(
            decimal(n)[0],
        ).unwrap());
    }
}

/// A number written in decimal digits is read back as the same number,
/// whatever follows it, as long as no digit follows it at once.
pub proof fn law_written_number_is_read(n: nat, rest: Seq<char>, limit: nat)
    requires
        n <= limit,
        rest.len() == 0 || digit_of(rest[0]) is None,
    ensures
        number_at(decimal(n) + rest, 0, limit) == Some((n, decimal(n).len() as int)),
        n <= u32::MAX ==> id_at(decimal(n) + rest, 0) == Some((n as u32, decimal(n).len() as int)),
{
    let s = decimal(n) + rest;
    let len = decimal(n).len() as int;
    law_decimal_is_digits(n);
    assert forall|k: int| 0 <= k < len implies digit_of(#[trigger] s[k]) is Some by {
        assert(s[k] == decimal(n)[k]);
    }
    if rest.len() > 0 {
        assert(s[len] == rest[0]);
    }
    lemma_digits_are_skipped(s, 0, len);
    lemma_decimal_spells(n);
    lemma_value_of_prefix(s, decimal(n), len);
    if n <= u32::MAX {
        assert(number_at(s, 0, 0xffff_ffff) == Some((n, len)));
    }
}

} // verus!
