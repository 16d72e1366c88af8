//! The script language: one command to a transaction, with blanks and
//! `#` comments between them.
//!
//! ```text
//! AddEmp <id> "<name>" "<address>" S <salary>
//! AddEmp <id> "<name>" "<address>" H <rate>
//! AddEmp <id> "<name>" "<address>" C <salary> <rate>
//! DelEmp <id>
//! TimeCard <id> <date> <hours>
//! SalesReceipt <id> <date> <amount>
//! ServiceCharge <member id> <date> <amount>
//! ChgEmp <id> Name "<name>" | Address "<address>" | Hourly <rate>
//!     | Salaried <salary> | Commissioned <salary> <rate> | Hold
//!     | Direct "<bank>" "<account>" | Mail "<address>" | Member <member id> Dues <dues>
//!     | NoMember
//! Payday <date>
//! ```
//!
//! Ids are decimal numbers, dates are written `YYYY-MM-DD`, amounts are
//! decimal numbers with or without a fraction, and texts stand between
//! double quotes. Blanks between the parts of a command may be left out.

use vstd::prelude::*;
use vstd::string::StrSliceExecFns;
use crate::amount::cap;
use crate::amount::Amount;
use crate::calendar::day_number_of;
use crate::calendar::Date;
use crate::payroll_domain::EmployeeId;
use crate::payroll_domain::MemberId;

verus! {

/// Whether `c` is a blank: a space, a tab, a line feed or a carriage return.
pub open spec fn is_blank(c: char) -> bool {
    c == ' ' || c == '\t' || c == '\n' || c == '\r'
}

/// The digit that `c` stands for, if it is one of `0` to `9`.
pub open spec fn digit_of(c: char) -> Option<nat> {
    if c == '0' {
        Some(0)
    } else if c == '1' {
        Some(1)
    } else if c == '2' {
        Some(2)
    } else if c == '3' {
        Some(3)
    } else if c == '4' {
        Some(4)
    } else if c == '5' {
        Some(5)
    } else if c == '6' {
        Some(6)
    } else if c == '7' {
        Some(7)
    } else if c == '8' {
        Some(8)
    } else if c == '9' {
        Some(9)
    } else {
        None
    }
}

/// The first position at or after `i` that holds no blank.
pub open spec fn after_blanks(s: Seq<char>, i: int) -> int
    decreases s.len() - i,
{
    if 0 <= i < s.len() && is_blank(s[i]) {
        after_blanks(s, i + 1)
    } else {
        i
    }
}

/// The first position at or after `i` that holds no digit.
pub open spec fn after_digits(s: Seq<char>, i: int) -> int
    decreases s.len() - i,
{
    if 0 <= i < s.len() && digit_of(s[i]) is Some {
        after_digits(s, i + 1)
    } else {
        i
    }
}

/// The number that the digits from `i` up to `j` spell.
pub open spec fn digits_value(s: Seq<char>, i: int, j: int) -> nat
    decreases j - i,
{
    if j <= i {
        0
    } else {
        digits_value(s, i, j - 1) * 10 + digit_of(s[j - 1]).unwrap()
    }
}

/// Whether a line feed stands at or after `i`.
pub open spec fn line_ends(s: Seq<char>, i: int) -> bool
    decreases s.len() - i,
{
    if 0 <= i < s.len() {
        s[i] == '\n' || line_ends(s, i + 1)
    } else {
        false
    }
}

/// The first position at or after `i` at which a command can start: behind
/// all blanks and comments. A comment runs from `#` to the end of its line;
/// a `#` whose line never ends starts none. With `in_comment`, `i` lies
/// inside a comment.
pub open spec fn after_ignored(s: Seq<char>, i: int, in_comment: bool) -> int
    decreases s.len() - i,
{
    if !(0 <= i < s.len()) {
        i
    } else if in_comment {
        after_ignored(s, i + 1, s[i] != '\n')
    } else if is_blank(s[i]) {
        after_ignored(s, i + 1, false)
    } else if s[i] == '#' && line_ends(s, i) {
        after_ignored(s, i + 1, true)
    } else {
        i
    }
}

/// The position behind `word`, where `word` stands at `i`.
pub open spec fn keyword_at(s: Seq<char>, i: int, word: Seq<char>) -> Option<int> {
    if 0 <= i && i + word.len() <= s.len() && s.subrange(i, i + word.len()) == word {
        Some(i + word.len())
    } else {
        None
    }
}

/// The number written in digits at `i`, and the position behind it; `None`
/// where no digit stands at `i` or the number is greater than `limit`.
pub open spec fn number_at(s: Seq<char>, i: int, limit: nat) -> Option<(nat, int)> {
    let j = after_digits(s, i);
    if j > i && digits_value(s, i, j) <= limit {
        Some((digits_value(s, i, j), j))
    } else {
        None
    }
}

/// The whole number, with or without a minus sign, written at `i`, and the
/// position behind it; `None` where none stands there or it does not lie
/// between -2147483647 and 2147483647.
pub open spec fn signed_at(s: Seq<char>, i: int) -> Option<(int, int)> {
    if 0 <= i < s.len() && s[i] == '-' {
        match number_at(s, i + 1, 0x7fff_ffff) {
            Some((n, j)) => Some((-(n as int), j)),
            None => None,
        }
    } else {
        match number_at(s, i, 0x7fff_ffff) {
            Some((n, j)) => Some((n as int, j)),
            None => None,
        }
    }
}

/// The thousandths that the digits of a fraction from `i` up to `j` stand for:
/// the first three count, what follows them is dropped.
pub open spec fn fraction_value(s: Seq<char>, i: int, j: int) -> nat {
    (if i < j {
        digit_of(s[i]).unwrap() * 100
    } else {
        0
    }) + (if i + 1 < j {
        digit_of(s[i + 1]).unwrap() * 10
    } else {
        0
    }) + (if i + 2 < j {
        digit_of(s[i + 2]).unwrap()
    } else {
        0
    })
}

/// The id written in digits at `i`, and the position behind it; `None` where
/// no digit stands at `i` or the number is greater than 4294967295.
pub open spec fn id_at(s: Seq<char>, i: int) -> Option<(u32, int)> {
    match number_at(s, i, 0xffff_ffff) {
        Some((n, j)) => Some((n as u32, j)),
        None => None,
    }
}

/// The amount of `thousandths`, held at the cap.
pub open spec fn capped(thousandths: nat) -> Amount {
    Amount { thousandths: cap(thousandths) as u64 }
}

/// The amount written at `i`, and the position behind it: digits, and after
/// them a point and more digits or nothing. The amount is held at the cap.
/// `None` where no digit stands at `i`.
pub open spec fn amount_at(s: Seq<char>, i: int) -> Option<(Amount, int)> {
    let j = after_digits(s, i);
    if j <= i {
        None
    } else if j < s.len() && s[j] == '.' && after_digits(s, j + 1) > j + 1 {
        let k = after_digits(s, j + 1);
        Some((capped(digits_value(s, i, j) * 1000 + fraction_value(s, j + 1, k)), k))
    } else {
        Some((capped(digits_value(s, i, j) * 1000), j))
    }
}

/// The first position at or after `i` that holds a double quote, or the
/// length of `s` where there is none.
pub open spec fn closing_quote(s: Seq<char>, i: int) -> int
    decreases s.len() - i,
{
    if 0 <= i < s.len() && s[i] != '"' {
        closing_quote(s, i + 1)
    } else {
        i
    }
}

/// The text between the double quote at `i` and the next one, and the
/// position behind that; `None` where no double quote stands at `i` or none
/// follows it.
pub open spec fn text_at(s: Seq<char>, i: int) -> Option<(Seq<char>, int)> {
    if 0 <= i < s.len() && s[i] == '"' && closing_quote(s, i + 1) < s.len() {
        Some((s.subrange(i + 1, closing_quote(s, i + 1)), closing_quote(s, i + 1) + 1))
    } else {
        None
    }
}

/// The date written at `i` as year, month and day with `-` between them, and
/// the position behind it; `None` where none is written there or the
/// calendar has no such date.
pub open spec fn date_at(s: Seq<char>, i: int) -> Option<(Date, int)> {
    match signed_at(s, i) {
        None => None,
        Some((year, at1)) => match keyword_at(s, at1, seq!['-']) {
            None => None,
            Some(at2) => match id_at(s, at2) {
                None => None,
                Some((month, at3)) => match keyword_at(s, at3, seq!['-']) {
                    None => None,
                    Some(at4) => match id_at(s, at4) {
                        None => None,
                        Some((day, at5)) => match day_number_of(year, month as int, day as int) {
                            None => None,
                            Some(n) => Some((Date::on_day(n), at5)),
                        },
                    },
                },
            },
        },
    }
}

/// Blanks are skipped forward, and not past the end.
pub proof fn lemma_blanks_forward(s: Seq<char>, i: int)
    requires
        0 <= i <= s.len(),
    ensures
        i <= after_blanks(s, i) <= s.len(),
    decreases s.len() - i,
{
    if i < s.len() && is_blank(s[i]) {
        lemma_blanks_forward(s, i + 1);
    }
}

/// Digits are skipped forward, and not past the end.
pub proof fn lemma_digits_forward(s: Seq<char>, i: int)
    requires
        0 <= i <= s.len(),
    ensures
        i <= after_digits(s, i) <= s.len(),
    decreases s.len() - i,
{
    if i < s.len() && digit_of(s[i]) is Some {
        lemma_digits_forward(s, i + 1);
    }
}

/// The closing quote is sought forward, and not past the end.
pub proof fn lemma_quote_forward(s: Seq<char>, i: int)
    requires
        0 <= i <= s.len(),
    ensures
        i <= closing_quote(s, i) <= s.len(),
    decreases s.len() - i,
{
    if i < s.len() && s[i] != '"' {
        lemma_quote_forward(s, i + 1);
    }
}

/// Blanks and comments are skipped forward, and not past the end.
pub proof fn lemma_ignored_forward(s: Seq<char>, i: int, in_comment: bool)
    requires
        0 <= i <= s.len(),
    ensures
        i <= after_ignored(s, i, in_comment) <= s.len(),
    decreases s.len() - i,
{
    if i < s.len() {
        if in_comment || is_blank(s[i]) || (s[i] == '#' && line_ends(s, i)) {
            lemma_ignored_forward(s, i + 1, if in_comment {
                s[i] != '\n'
            } else {
                !is_blank(s[i])
            });
        }
    }
}

/// What is read at `i` ends behind `i`, and not past the end: a number, an
/// id, an amount, a text and a date each take at least one character.
pub proof fn lemma_parts_forward(s: Seq<char>, i: int)
    requires
        0 <= i <= s.len(),
    ensures
        forall|limit: nat|
            (#[trigger] number_at(s, i, limit)) matches Some((_, j)) ==> i < j <= s.len(),
        signed_at(s, i) matches Some((_, j)) ==> i < j <= s.len(),
        id_at(s, i) matches Some((_, j)) ==> i < j <= s.len(),
        amount_at(s, i) matches Some((_, j)) ==> i < j <= s.len(),
        text_at(s, i) matches Some((_, j)) ==> i < j <= s.len(),
{
    lemma_digits_forward(s, i);
    if i < s.len() {
        lemma_digits_forward(s, i + 1);
        lemma_quote_forward(s, i + 1);
    }
    let j = after_digits(s, i);
    if j < s.len() {
        lemma_digits_forward(s, j + 1);
    }
}

/// A date that is read at `i` ends behind `i`, and not past the end.
pub proof fn lemma_date_forward(s: Seq<char>, i: int)
    requires
        0 <= i <= s.len(),
    ensures
        date_at(s, i) matches Some((_, j)) ==> i < j <= s.len(),
{
    lemma_parts_forward(s, i);
    match signed_at(s, i) {
        Some((_, at1)) => match keyword_at(s, at1, seq!['-']) {
            Some(at2) => {
                lemma_parts_forward(s, at2);
                match id_at(s, at2) {
                    Some((_, at3)) => match keyword_at(s, at3, seq!['-']) {
                        Some(at4) => {
                            lemma_parts_forward(s, at4);
                        },
                        None => {},
                    },
                    None => {},
                }
            },
            None => {},
        },
        None => {},
    }
}

/// A script as it is read: its text, and its characters one by one.
struct Script<'a> {
    text: &'a str,
    chars: Vec<char>,
}

impl<'a> Script<'a> {
    #[verifier::type_invariant]
    spec fn chars_of_text(self) -> bool {
        self.chars@ == self.text@
    }

    /// The characters of the script.
    closed spec fn view(&self) -> Seq<char> {
        self.chars@
    }

    fn new(text: &'a str) -> (r: Script<'a>)
        ensures
            r.view() == text@,
    {
        let mut chars: Vec<char> = Vec::new();
        let ghost all = text@;
        for c in it: text.chars()
            invariant
                it.seq() == all,
                chars@ == all.take(it.index()),
        {
            chars.push(c);
            assert(all.take(it.index() + 1) == all.take(it.index()).push(all[it.index()]));
        }
        assert(all.take(all.len() as int) == all);
        Script { text, chars }
    }

    /// How many characters the script has.
    fn len(&self) -> (r: usize)
        ensures
            r == self.view().len(),
    {
        self.chars.len()
    }

    /// The character at `pos`.
    fn at(&self, pos: usize) -> (r: char)
        requires
            pos < self.view().len(),
        ensures
            r == self.view()[pos as int],
    {
        self.chars[pos]
    }

    /// The text from `from` up to `to`.
    fn slice(&self, from: usize, to: usize) -> (r: String)
        requires
            from <= to <= self.view().len(),
        ensures
            r@ == self.view().subrange(from as int, to as int),
    {
        proof {
            use_type_invariant(self);
        }
        self.text.substring_char(from, to).to_owned()
    }

    /// Skips the blanks at `pos`.
    fn blanks(&self, pos: usize) -> (r: usize)
        requires
            pos <= self.view().len(),
        ensures
            pos <= r <= self.view().len(),
            r == after_blanks(self.view(), pos as int),
    {
        let mut p: usize = pos;
        while p < self.len() && is_blank_char(self.at(p))
            invariant
                pos <= p <= self.view().len(),
                after_blanks(self.view(), p as int) == after_blanks(self.view(), pos as int),
            decreases self.view().len() - p,
        {
            p = p + 1;
        }
        p
    }

    /// Skips the blanks and comments at `pos`.
    fn ignored(&self, pos: usize) -> (r: usize)
        requires
            pos <= self.view().len(),
        ensures
            pos <= r <= self.view().len(),
            r == after_ignored(self.view(), pos as int, false),
    {
        let mut p: usize = pos;
        loop
            invariant
                pos <= p <= self.view().len(),
                after_ignored(self.view(), p as int, false) == after_ignored(
                    self.view(),
                    pos as int,
                    false,
                ),
            ensures
                pos <= p <= self.view().len(),
                p == after_ignored(self.view(), pos as int, false),
            decreases self.view().len() - p,
        {
            if p >= self.len() {
                break ;
            }
            let c = self.at(p);
            if is_blank_char(c) {
                p = p + 1;
            } else if c == '#' {
                let mut q: usize = p;
                while q < self.len() && self.at(q) != '\n'
                    invariant
                        p <= q <= self.view().len(),
                        forall|k: int| p <= k < q ==> self.view()[k] != '\n',
                    decreases self.view().len() - q,
                {
                    q = q + 1;
                }
                proof {
                    lemma_line(self.view(), p as int, q as int);
                }
                if q >= self.len() {
                    break ;
                }
                proof {
                    lemma_comment(self.view(), p as int + 1, q as int);
                }
                p = q + 1;
            } else {
                break ;
            }
        }
        p
    }

    /// Reads `word` at `pos`.
    fn keyword(&self, pos: usize, word: &str) -> (r: Option<usize>)
        requires
            pos <= self.view().len(),
        ensures
            match r {
                Some(next) => keyword_at(self.view(), pos as int, word@) == Some(next as int)
                    && pos <= next <= self.view().len(),
                None => keyword_at(self.view(), pos as int, word@) is None,
            },
    {
        let n: usize = word.unicode_len();
        let len: usize = self.len();
        if n > len - pos {
            return None;
        }
        let mut k: usize = 0;
        while k < n
            invariant
                k <= n,
                n == word@.len(),
                pos + n <= len,
                len == self.view().len(),
                forall|j: int| 0 <= j < k ==> self.view()[pos + j] == word@[j],
            decreases n - k,
        {
            if self.at(pos + k) != word.get_char(k) {
                assert(self.view().subrange(pos as int, pos + n)[k as int] != word@[k as int]);
                return None;
            }
            k = k + 1;
        }
        assert(self.view().subrange(pos as int, pos + n) =~= word@);
        Some(pos + n)
    }

    /// Skips the digits at `pos`.
    fn digits(&self, pos: usize) -> (r: usize)
        requires
            pos <= self.view().len(),
        ensures
            pos <= r <= self.view().len(),
            r == after_digits(self.view(), pos as int),
            forall|k: int| pos <= k < r ==> digit_of(#[trigger] self.view()[k]) is Some,
    {
        let mut p: usize = pos;
        while p < self.len() && digit(self.at(p)).is_some()
            invariant
                pos <= p <= self.view().len(),
                after_digits(self.view(), p as int) == after_digits(self.view(), pos as int),
                forall|k: int| pos <= k < p ==> digit_of(#[trigger] self.view()[k]) is Some,
            decreases self.view().len() - p,
        {
            p = p + 1;
        }
        p
    }

    /// The number that the digits from `from` up to `to` spell, held at the cap.
    fn value(&self, from: usize, to: usize) -> (r: u64)
        requires
            from <= to <= self.view().len(),
            forall|k: int| from <= k < to ==> digit_of(#[trigger] self.view()[k]) is Some,
        ensures
            r == cap(digits_value(self.view(), from as int, to as int)),
    {
        let mut value: u64 = 0;
        let mut p: usize = from;
        while p < to
            invariant
                from <= p <= to <= self.view().len(),
                forall|k: int| from <= k < to ==> digit_of(#[trigger] self.view()[k]) is Some,
                value == cap(digits_value(self.view(), from as int, p as int)),
            decreases to - p,
        {
            let d: u64 = match digit(self.at(p)) {
                Some(d) => d,
                None => 0,
            };
            let wide: u128 = value as u128 * 10 + d as u128;
            value = if wide >= u64::MAX as u128 {
                u64::MAX
            } else {
                wide as u64
            };
            p = p + 1;
        }
        value
    }

    /// Reads a number of at most `limit` at `pos`.
    fn number(&self, pos: usize, limit: u64) -> (r: Option<(u64, usize)>)
        requires
            pos <= self.view().len(),
            limit < u64::MAX,
        ensures
            match r {
                Some((n, next)) => number_at(self.view(), pos as int, limit as nat) == Some(
                    (n as nat, next as int),
                ) && pos < next <= self.view().len() && n <= limit,
                None => number_at(self.view(), pos as int, limit as nat) is None,
            },
    {
        let end: usize = self.digits(pos);
        if end == pos {
            return None;
        }
        let n: u64 = self.value(pos, end);
        if n > limit {
            None
        } else {
            Some((n, end))
        }
    }

    /// Reads a whole number with or without a minus sign at `pos`.
    fn signed(&self, pos: usize) -> (r: Option<(i32, usize)>)
        requires
            pos <= self.view().len(),
        ensures
            match r {
                Some((n, next)) => signed_at(self.view(), pos as int) == Some(
                    (n as int, next as int),
                ) && pos < next <= self.view().len(),
                None => signed_at(self.view(), pos as int) is None,
            },
    {
        if pos < self.len() && self.at(pos) == '-' {
            match self.number(pos + 1, 0x7fff_ffff) {
                Some((n, next)) => Some((-(n as i32), next)),
                None => None,
            }
        } else {
            match self.number(pos, 0x7fff_ffff) {
                Some((n, next)) => Some((n as i32, next)),
                None => None,
            }
        }
    }

    /// Reads an id at `pos`.
    fn id(&self, pos: usize) -> (r: Option<(u32, usize)>)
        requires
            pos <= self.view().len(),
        ensures
            match r {
                Some((n, next)) => id_at(self.view(), pos as int) == Some((n, next as int))
                    && pos < next <= self.view().len(),
                None => id_at(self.view(), pos as int) is None,
            },
    {
        match self.number(pos, 0xffff_ffff) {
            Some((n, next)) => Some((n as u32, next)),
            None => None,
        }
    }

    /// Reads an amount at `pos`.
    fn amount(&self, pos: usize) -> (r: Option<(Amount, usize)>)
        requires
            pos <= self.view().len(),
        ensures
            match r {
                Some((amount, next)) => amount_at(self.view(), pos as int) == Some(
                    (amount, next as int),
                ) && pos < next <= self.view().len(),
                None => amount_at(self.view(), pos as int) is None,
            },
    {
        let end: usize = self.digits(pos);
        if end == pos {
            return None;
        }
        let whole: u64 = self.value(pos, end);
        let mut thousandths: u128 = whole as u128 * 1000;
        let mut next: usize = end;
        if end < self.len() && self.at(end) == '.' {
            let last: usize = self.digits(end + 1);
            if last > end + 1 {
                let ghost s = self.view();
                let d1: u128 = match digit(self.at(end + 1)) {
                    Some(d) => d as u128,
                    None => 0,
                };
                thousandths = thousandths + d1 * 100;
                if last - end > 2 {
                    let d2: u128 = match digit(self.at(end + 2)) {
                        Some(d) => d as u128,
                        None => 0,
                    };
                    thousandths = thousandths + d2 * 10;
                }
                if last - end > 3 {
                    let d3: u128 = match digit(self.at(end + 3)) {
                        Some(d) => d as u128,
                        None => 0,
                    };
                    thousandths = thousandths + d3;
                }
                assert(thousandths == whole * 1000 + fraction_value(s, end + 1, last as int));
                next = last;
            }
        }
        let amount = if thousandths >= u64::MAX as u128 {
            Amount::from_thousandths(u64::MAX)
        } else {
            Amount::from_thousandths(thousandths as u64)
        };
        Some((amount, next))
    }

    /// Reads a text between double quotes at `pos`.
    fn text(&self, pos: usize) -> (r: Option<(String, usize)>)
        requires
            pos <= self.view().len(),
        ensures
            match r {
                Some((text, next)) => text_at(self.view(), pos as int) == Some(
                    (text@, next as int),
                ) && pos < next <= self.view().len(),
                None => text_at(self.view(), pos as int) is None,
            },
    {
        if pos >= self.len() || self.at(pos) != '"' {
            return None;
        }
        let mut p: usize = pos + 1;
        while p < self.len() && self.at(p) != '"'
            invariant
                pos + 1 <= p <= self.view().len(),
                closing_quote(self.view(), p as int) == closing_quote(self.view(), pos + 1),
            decreases self.view().len() - p,
        {
            p = p + 1;
        }
        if p >= self.len() {
            return None;
        }
        Some((self.slice(pos + 1, p), p + 1))
    }

    /// Reads a date at `pos`.
    fn date(&self, pos: usize) -> (r: Option<(Date, usize)>)
        requires
            pos <= self.view().len(),
        ensures
            match r {
                Some((date, next)) => date_at(self.view(), pos as int) == Some((date, next as int))
                    && pos < next <= self.view().len(),
                None => date_at(self.view(), pos as int) is None,
            },
    {
        proof {
            reveal_strlit("-");
            assert("-"@ =~= seq!['-']);
        }
        let (year, at1) = match self.signed(pos) {
            Some(found) => found,
            None => {
                return None;
            },
        };
        let at2 = match self.keyword(at1, "-") {
            Some(found) => found,
            None => {
                return None;
            },
        };
        let (month, at3) = match self.id(at2) {
            Some(found) => found,
            None => {
                return None;
            },
        };
        let at4 = match self.keyword(at3, "-") {
            Some(found) => found,
            None => {
                return None;
            },
        };
        let (day, at5) = match self.id(at4) {
            Some(found) => found,
            None => {
                return None;
            },
        };
        match Date::from_ymd(year, month, day) {
            Some(date) => Some((date, at5)),
            None => None,
        }
    }
}

/// Whether `c` is a blank.
fn is_blank_char(c: char) -> (r: bool)
    ensures
        r == is_blank(c),
{
    c == ' ' || c == '\t' || c == '\n' || c == '\r'
}

/// The digit that `c` stands for, if it is one.
fn digit(c: char) -> (r: Option<u64>)
    ensures
        match r {
            Some(d) => digit_of(c) == Some(d as nat) && d <= 9,
            None => digit_of(c) is None,
        },
{
    if c == '0' {
        Some(0)
    } else if c == '1' {
        Some(1)
    } else if c == '2' {
        Some(2)
    } else if c == '3' {
        Some(3)
    } else if c == '4' {
        Some(4)
    } else if c == '5' {
        Some(5)
    } else if c == '6' {
        Some(6)
    } else if c == '7' {
        Some(7)
    } else if c == '8' {
        Some(8)
    } else if c == '9' {
        Some(9)
    } else {
        None
    }
}

/// Where no line feed stands from `i` up to `j`, a line ends at or after `i`
/// exactly if one ends at or after `j`.
proof fn lemma_line(s: Seq<char>, i: int, j: int)
    requires
        0 <= i <= j <= s.len(),
        forall|k: int| i <= k < j ==> s[k] != '\n',
    ensures
        line_ends(s, i) == line_ends(s, j),
    decreases j - i,
{
    if i < j {
        lemma_line(s, i + 1, j);
    }
}

/// Inside a comment whose line ends at `j`, what is ignored ends where it
/// ends behind that line.
proof fn lemma_comment(s: Seq<char>, i: int, j: int)
    requires
        0 <= i <= j < s.len(),
        forall|k: int| i <= k < j ==> s[k] != '\n',
        s[j] == '\n',
    ensures
        after_ignored(s, i, true) == after_ignored(s, j + 1, false),
    decreases j - i,
{
    if i < j {
        lemma_comment(s, i + 1, j);
    }
}


/// One command of a script.
#[derive(Debug, PartialEq)]
pub enum Command {
    /// `AddEmp <id> "<name>" "<address>" S <salary>`
    AddSalaryEmp { emp_id: EmployeeId, name: String, address: String, salary: Amount },
    /// `AddEmp <id> "<name>" "<address>" H <rate>`
    AddHourlyEmp { emp_id: EmployeeId, name: String, address: String, hourly_rate: Amount },
    /// `AddEmp <id> "<name>" "<address>" C <salary> <rate>`
    AddCommissionedEmp {
        emp_id: EmployeeId,
        name: String,
        address: String,
        salary: Amount,
        commission_rate: Amount,
    },
    /// `DelEmp <id>`
    DelEmp { emp_id: EmployeeId },
    /// `TimeCard <id> <date> <hours>`
    TimeCard { emp_id: EmployeeId, date: Date, hours: Amount },
    /// `SalesReceipt <id> <date> <amount>`
    SalesReceipt { emp_id: EmployeeId, date: Date, amount: Amount },
    /// `ServiceCharge <member id> <date> <amount>`
    ServiceCharge { member_id: MemberId, date: Date, amount: Amount },
    /// `ChgEmp <id> Name "<name>"`
    ChgName { emp_id: EmployeeId, name: String },
    /// `ChgEmp <id> Address "<address>"`
    ChgAddress { emp_id: EmployeeId, address: String },
    /// `ChgEmp <id> Hourly <rate>`
    ChgHourly { emp_id: EmployeeId, hourly_rate: Amount },
    /// `ChgEmp <id> Salaried <salary>`
    ChgSalaried { emp_id: EmployeeId, salary: Amount },
    /// `ChgEmp <id> Commissioned <salary> <rate>`
    ChgCommissioned { emp_id: EmployeeId, salary: Amount, commission_rate: Amount },
    /// `ChgEmp <id> Hold`
    ChgHold { emp_id: EmployeeId },
    /// `ChgEmp <id> Direct "<bank>" "<account>"`
    ChgDirect { emp_id: EmployeeId, bank: String, account: String },
    /// `ChgEmp <id> Mail "<address>"`
    ChgMail { emp_id: EmployeeId, address: String },
    /// `ChgEmp <id> Member <member id> Dues <dues>`
    ChgMember { emp_id: EmployeeId, member_id: MemberId, dues: Amount },
    /// `ChgEmp <id> NoMember`
    ChgNoMember { emp_id: EmployeeId },
    /// `Payday <date>`
    Payday { pay_date: Date },
}

/// What a command holds, its texts as sequences of characters.
pub enum CommandView {
    AddSalaryEmp { emp_id: EmployeeId, name: Seq<char>, address: Seq<char>, salary: Amount },
    AddHourlyEmp { emp_id: EmployeeId, name: Seq<char>, address: Seq<char>, hourly_rate: Amount },
    AddCommissionedEmp {
        emp_id: EmployeeId,
        name: Seq<char>,
        address: Seq<char>,
        salary: Amount,
        commission_rate: Amount,
    },
    DelEmp { emp_id: EmployeeId },
    TimeCard { emp_id: EmployeeId, date: Date, hours: Amount },
    SalesReceipt { emp_id: EmployeeId, date: Date, amount: Amount },
    ServiceCharge { member_id: MemberId, date: Date, amount: Amount },
    ChgName { emp_id: EmployeeId, name: Seq<char> },
    ChgAddress { emp_id: EmployeeId, address: Seq<char> },
    ChgHourly { emp_id: EmployeeId, hourly_rate: Amount },
    ChgSalaried { emp_id: EmployeeId, salary: Amount },
    ChgCommissioned { emp_id: EmployeeId, salary: Amount, commission_rate: Amount },
    ChgHold { emp_id: EmployeeId },
    ChgDirect { emp_id: EmployeeId, bank: Seq<char>, account: Seq<char> },
    ChgMail { emp_id: EmployeeId, address: Seq<char> },
    ChgMember { emp_id: EmployeeId, member_id: MemberId, dues: Amount },
    ChgNoMember { emp_id: EmployeeId },
    Payday { pay_date: Date },
}

impl View for Command {
    type V = CommandView;

    open spec fn view(&self) -> CommandView {
        match self {
            Command::AddSalaryEmp { emp_id, name, address, salary } => CommandView::AddSalaryEmp {
                emp_id: *emp_id,
                name: name@,
                address: address@,
                salary: *salary,
            },
            Command::AddHourlyEmp {
                emp_id,
                name,
                address,
                hourly_rate,
            } => CommandView::AddHourlyEmp {
                emp_id: *emp_id,
                name: name@,
                address: address@,
                hourly_rate: *hourly_rate,
            },
            Command::AddCommissionedEmp {
                emp_id,
                name,
                address,
                salary,
                commission_rate,
            } => CommandView::AddCommissionedEmp {
                emp_id: *emp_id,
                name: name@,
                address: address@,
                salary: *salary,
                commission_rate: *commission_rate,
            },
            Command::DelEmp { emp_id } => CommandView::DelEmp { emp_id: *emp_id },
            Command::TimeCard { emp_id, date, hours } => CommandView::TimeCard {
                emp_id: *emp_id,
                date: *date,
                hours: *hours,
            },
            Command::SalesReceipt { emp_id, date, amount } => CommandView::SalesReceipt {
                emp_id: *emp_id,
                date: *date,
                amount: *amount,
            },
            Command::ServiceCharge { member_id, date, amount } => CommandView::ServiceCharge {
                member_id: *member_id,
                date: *date,
                amount: *amount,
            },
            Command::ChgName { emp_id, name } => CommandView::ChgName {
                emp_id: *emp_id,
                name: name@,
            },
            Command::ChgAddress { emp_id, address } => CommandView::ChgAddress {
                emp_id: *emp_id,
                address: address@,
            },
            Command::ChgHourly { emp_id, hourly_rate } => CommandView::ChgHourly {
                emp_id: *emp_id,
                hourly_rate: *hourly_rate,
            },
            Command::ChgSalaried { emp_id, salary } => CommandView::ChgSalaried {
                emp_id: *emp_id,
                salary: *salary,
            },
            Command::ChgCommissioned {
                emp_id,
                salary,
                commission_rate,
            } => CommandView::ChgCommissioned {
                emp_id: *emp_id,
                salary: *salary,
                commission_rate: *commission_rate,
            },
            Command::ChgHold { emp_id } => CommandView::ChgHold { emp_id: *emp_id },
            Command::ChgDirect { emp_id, bank, account } => CommandView::ChgDirect {
                emp_id: *emp_id,
                bank: bank@,
                account: account@,
            },
            Command::ChgMail { emp_id, address } => CommandView::ChgMail {
                emp_id: *emp_id,
                address: address@,
            },
            Command::ChgMember { emp_id, member_id, dues } => CommandView::ChgMember {
                emp_id: *emp_id,
                member_id: *member_id,
                dues: *dues,
            },
            Command::ChgNoMember { emp_id } => CommandView::ChgNoMember { emp_id: *emp_id },
            Command::Payday { pay_date } => CommandView::Payday { pay_date: *pay_date },
        }
    }
}

/// Whether what was read, `r`, is what the grammar gives, `expected`.
pub open spec fn agrees(r: Option<(Command, usize)>, expected: Option<(CommandView, int)>) -> bool {
    match r {
        Some((command, next)) => expected == Some((command@, next as int)),
        None => expected is None,
    }
}

/// The command `AddEmp <id> "<name>" "<address>" S <salary>` at `i`, and the
/// position behind it.
pub open spec fn add_salary_emp_at(s: Seq<char>, i: int) -> Option<(CommandView, int)> {
    match keyword_at(s, i, "AddEmp"@) {
        None => None,
        Some(at1) => match id_at(s, after_blanks(s, at1)) {
            None => None,
            Some((emp_id, at2)) => match text_at(s, after_blanks(s, at2)) {
                None => None,
                Some((name, at3)) => match text_at(s, after_blanks(s, at3)) {
                    None => None,
                    Some((address, at4)) => match keyword_at(s, after_blanks(s, at4), "S"@) {
                        None => None,
                        Some(at5) => match amount_at(s, after_blanks(s, at5)) {
                            None => None,
                            Some((salary, at6)) => Some(
                                (
                                    CommandView::AddSalaryEmp { emp_id, name, address, salary },
                                    at6,
                                ),
                            ),
                        },
                    },
                },
            },
        },
    }
}

/// The command `AddEmp <id> "<name>" "<address>" H <rate>` at `i`, and the
/// position behind it.
pub open spec fn add_hourly_emp_at(s: Seq<char>, i: int) -> Option<(CommandView, int)> {
    match keyword_at(s, i, "AddEmp"@) {
        None => None,
        Some(at1) => match id_at(s, after_blanks(s, at1)) {
            None => None,
            Some((emp_id, at2)) => match text_at(s, after_blanks(s, at2)) {
                None => None,
                Some((name, at3)) => match text_at(s, after_blanks(s, at3)) {
                    None => None,
                    Some((address, at4)) => match keyword_at(s, after_blanks(s, at4), "H"@) {
                        None => None,
                        Some(at5) => match amount_at(s, after_blanks(s, at5)) {
                            None => None,
                            Some((hourly_rate, at6)) => Some(
                                (
                                    CommandView::AddHourlyEmp {
                                        emp_id,
                                        name,
                                        address,
                                        hourly_rate,
                                    },
                                    at6,
                                ),
                            ),
                        },
                    },
                },
            },
        },
    }
}

/// The command `AddEmp <id> "<name>" "<address>" C <salary> <rate>` at `i`, and
/// the position behind it.
pub open spec fn add_commissioned_emp_at(s: Seq<char>, i: int) -> Option<(CommandView, int)> {
    match keyword_at(s, i, "AddEmp"@) {
        None => None,
        Some(at1) => match id_at(s, after_blanks(s, at1)) {
            None => None,
            Some((emp_id, at2)) => match text_at(s, after_blanks(s, at2)) {
                None => None,
                Some((name, at3)) => match text_at(s, after_blanks(s, at3)) {
                    None => None,
                    Some((address, at4)) => match keyword_at(s, after_blanks(s, at4), "C"@) {
                        None => None,
                        Some(at5) => match amount_at(s, after_blanks(s, at5)) {
                            None => None,
                            Some((salary, at6)) => match amount_at(s, after_blanks(s, at6)) {
                                None => None,
                                Some((commission_rate, at7)) => Some(
                                    (
                                        CommandView::AddCommissionedEmp {
                                            emp_id,
                                            name,
                                            address,
                                            salary,
                                            commission_rate,
                                        },
                                        at7,
                                    ),
                                ),
                            },
                        },
                    },
                },
            },
        },
    }
}

/// The command `DelEmp <id>` at `i`, and the position behind it.
pub open spec fn del_emp_at(s: Seq<char>, i: int) -> Option<(CommandView, int)> {
    match keyword_at(s, i, "DelEmp"@) {
        None => None,
        Some(at1) => match id_at(s, after_blanks(s, at1)) {
            None => None,
            Some((emp_id, at2)) => Some((CommandView::DelEmp { emp_id }, at2)),
        },
    }
}

/// The command `TimeCard <id> <date> <hours>` at `i`, and the position behind
/// it.
pub open spec fn time_card_at(s: Seq<char>, i: int) -> Option<(CommandView, int)> {
    match keyword_at(s, i, "TimeCard"@) {
        None => None,
        Some(at1) => match id_at(s, after_blanks(s, at1)) {
            None => None,
            Some((emp_id, at2)) => match date_at(s, after_blanks(s, at2)) {
                None => None,
                Some((date, at3)) => match amount_at(s, after_blanks(s, at3)) {
                    None => None,
                    Some((hours, at4)) => Some(
                        (
                            CommandView::TimeCard { emp_id, date, hours },
                            at4,
                        ),
                    ),
                },
            },
        },
    }
}

/// The command `SalesReceipt <id> <date> <amount>` at `i`, and the position
/// behind it.
pub open spec fn sales_receipt_at(s: Seq<char>, i: int) -> Option<(CommandView, int)> {
    match keyword_at(s, i, "SalesReceipt"@) {
        None => None,
        Some(at1) => match id_at(s, after_blanks(s, at1)) {
            None => None,
            Some((emp_id, at2)) => match date_at(s, after_blanks(s, at2)) {
                None => None,
                Some((date, at3)) => match amount_at(s, after_blanks(s, at3)) {
                    None => None,
                    Some((amount, at4)) => Some(
                        (
                            CommandView::SalesReceipt { emp_id, date, amount },
                            at4,
                        ),
                    ),
                },
            },
        },
    }
}

/// The command `ServiceCharge <member id> <date> <amount>` at `i`, and the
/// position behind it.
pub open spec fn service_charge_at(s: Seq<char>, i: int) -> Option<(CommandView, int)> {
    match keyword_at(s, i, "ServiceCharge"@) {
        None => None,
        Some(at1) => match id_at(s, after_blanks(s, at1)) {
            None => None,
            Some((member_id, at2)) => match date_at(s, after_blanks(s, at2)) {
                None => None,
                Some((date, at3)) => match amount_at(s, after_blanks(s, at3)) {
                    None => None,
                    Some((amount, at4)) => Some(
                        (
                            CommandView::ServiceCharge { member_id, date, amount },
                            at4,
                        ),
                    ),
                },
            },
        },
    }
}

/// The command `ChgEmp <id> Name "<name>"` at `i`, and the position behind it.
pub open spec fn chg_name_at(s: Seq<char>, i: int) -> Option<(CommandView, int)> {
    match keyword_at(s, i, "ChgEmp"@) {
        None => None,
        Some(at1) => match id_at(s, after_blanks(s, at1)) {
            None => None,
            Some((emp_id, at2)) => match keyword_at(s, after_blanks(s, at2), "Name"@) {
                None => None,
                Some(at3) => match text_at(s, after_blanks(s, at3)) {
                    None => None,
                    Some((name, at4)) => Some((CommandView::ChgName { emp_id, name }, at4)),
                },
            },
        },
    }
}

/// The command `ChgEmp <id> Address "<address>"` at `i`, and the position
/// behind it.
pub open spec fn chg_address_at(s: Seq<char>, i: int) -> Option<(CommandView, int)> {
    match keyword_at(s, i, "ChgEmp"@) {
        None => None,
        Some(at1) => match id_at(s, after_blanks(s, at1)) {
            None => None,
            Some((emp_id, at2)) => match keyword_at(s, after_blanks(s, at2), "Address"@) {
                None => None,
                Some(at3) => match text_at(s, after_blanks(s, at3)) {
                    None => None,
                    Some((address, at4)) => Some(
                        (
                            CommandView::ChgAddress { emp_id, address },
                            at4,
                        ),
                    ),
                },
            },
        },
    }
}

/// The command `ChgEmp <id> Hourly <rate>` at `i`, and the position behind it.
pub open spec fn chg_hourly_at(s: Seq<char>, i: int) -> Option<(CommandView, int)> {
    match keyword_at(s, i, "ChgEmp"@) {
        None => None,
        Some(at1) => match id_at(s, after_blanks(s, at1)) {
            None => None,
            Some((emp_id, at2)) => match keyword_at(s, after_blanks(s, at2), "Hourly"@) {
                None => None,
                Some(at3) => match amount_at(s, after_blanks(s, at3)) {
                    None => None,
                    Some((hourly_rate, at4)) => Some(
                        (
                            CommandView::ChgHourly { emp_id, hourly_rate },
                            at4,
                        ),
                    ),
                },
            },
        },
    }
}

/// The command `ChgEmp <id> Salaried <salary>` at `i`, and the position behind
/// it.
pub open spec fn chg_salaried_at(s: Seq<char>, i: int) -> Option<(CommandView, int)> {
    match keyword_at(s, i, "ChgEmp"@) {
        None => None,
        Some(at1) => match id_at(s, after_blanks(s, at1)) {
            None => None,
            Some((emp_id, at2)) => match keyword_at(s, after_blanks(s, at2), "Salaried"@) {
                None => None,
                Some(at3) => match amount_at(s, after_blanks(s, at3)) {
                    None => None,
                    Some((salary, at4)) => Some((CommandView::ChgSalaried { emp_id, salary }, at4)),
                },
            },
        },
    }
}

/// The command `ChgEmp <id> Commissioned <salary> <rate>` at `i`, and the
/// position behind it.
pub open spec fn chg_commissioned_at(s: Seq<char>, i: int) -> Option<(CommandView, int)> {
    match keyword_at(s, i, "ChgEmp"@) {
        None => None,
        Some(at1) => match id_at(s, after_blanks(s, at1)) {
            None => None,
            Some((emp_id, at2)) => match keyword_at(s, after_blanks(s, at2), "Commissioned"@) {
                None => None,
                Some(at3) => match amount_at(s, after_blanks(s, at3)) {
                    None => None,
                    Some((salary, at4)) => match amount_at(s, after_blanks(s, at4)) {
                        None => None,
                        Some((commission_rate, at5)) => Some(
                            (
                                CommandView::ChgCommissioned { emp_id, salary, commission_rate },
                                at5,
                            ),
                        ),
                    },
                },
            },
        },
    }
}

/// The command `ChgEmp <id> Hold` at `i`, and the position behind it.
pub open spec fn chg_hold_at(s: Seq<char>, i: int) -> Option<(CommandView, int)> {
    match keyword_at(s, i, "ChgEmp"@) {
        None => None,
        Some(at1) => match id_at(s, after_blanks(s, at1)) {
            None => None,
            Some((emp_id, at2)) => match keyword_at(s, after_blanks(s, at2), "Hold"@) {
                None => None,
                Some(at3) => Some((CommandView::ChgHold { emp_id }, at3)),
            },
        },
    }
}

/// The command `ChgEmp <id> Direct "<bank>" "<account>"` at `i`, and the
/// position behind it.
pub open spec fn chg_direct_at(s: Seq<char>, i: int) -> Option<(CommandView, int)> {
    match keyword_at(s, i, "ChgEmp"@) {
        None => None,
        Some(at1) => match id_at(s, after_blanks(s, at1)) {
            None => None,
            Some((emp_id, at2)) => match keyword_at(s, after_blanks(s, at2), "Direct"@) {
                None => None,
                Some(at3) => match text_at(s, after_blanks(s, at3)) {
                    None => None,
                    Some((bank, at4)) => match text_at(s, after_blanks(s, at4)) {
                        None => None,
                        Some((account, at5)) => Some(
                            (
                                CommandView::ChgDirect { emp_id, bank, account },
                                at5,
                            ),
                        ),
                    },
                },
            },
        },
    }
}

/// The command `ChgEmp <id> Mail "<address>"` at `i`, and the position behind
/// it.
pub open spec fn chg_mail_at(s: Seq<char>, i: int) -> Option<(CommandView, int)> {
    match keyword_at(s, i, "ChgEmp"@) {
        None => None,
        Some(at1) => match id_at(s, after_blanks(s, at1)) {
            None => None,
            Some((emp_id, at2)) => match keyword_at(s, after_blanks(s, at2), "Mail"@) {
                None => None,
                Some(at3) => match text_at(s, after_blanks(s, at3)) {
                    None => None,
                    Some((address, at4)) => Some((CommandView::ChgMail { emp_id, address }, at4)),
                },
            },
        },
    }
}

/// The command `ChgEmp <id> Member <member id> Dues <dues>` at `i`, and the
/// position behind it.
pub open spec fn chg_member_at(s: Seq<char>, i: int) -> Option<(CommandView, int)> {
    match keyword_at(s, i, "ChgEmp"@) {
        None => None,
        Some(at1) => match id_at(s, after_blanks(s, at1)) {
            None => None,
            Some((emp_id, at2)) => match keyword_at(s, after_blanks(s, at2), "Member"@) {
                None => None,
                Some(at3) => match id_at(s, after_blanks(s, at3)) {
                    None => None,
                    Some((member_id, at4)) => match keyword_at(s, after_blanks(s, at4), "Dues"@) {
                        None => None,
                        Some(at5) => match amount_at(s, after_blanks(s, at5)) {
                            None => None,
                            Some((dues, at6)) => Some(
                                (
                                    CommandView::ChgMember { emp_id, member_id, dues },
                                    at6,
                                ),
                            ),
                        },
                    },
                },
            },
        },
    }
}

/// The command `ChgEmp <id> NoMember` at `i`, and the position behind it.
pub open spec fn chg_no_member_at(s: Seq<char>, i: int) -> Option<(CommandView, int)> {
    match keyword_at(s, i, "ChgEmp"@) {
        None => None,
        Some(at1) => match id_at(s, after_blanks(s, at1)) {
            None => None,
            Some((emp_id, at2)) => match keyword_at(s, after_blanks(s, at2), "NoMember"@) {
                None => None,
                Some(at3) => Some((CommandView::ChgNoMember { emp_id }, at3)),
            },
        },
    }
}

/// The command `Payday <date>` at `i`, and the position behind it.
pub open spec fn payday_at(s: Seq<char>, i: int) -> Option<(CommandView, int)> {
    match keyword_at(s, i, "Payday"@) {
        None => None,
        Some(at1) => match date_at(s, after_blanks(s, at1)) {
            None => None,
            Some((pay_date, at2)) => Some((CommandView::Payday { pay_date }, at2)),
        },
    }
}

/// The first command at or after `i`, behind blanks and comments, and the
/// position behind it.
pub open spec fn transaction_at(s: Seq<char>, i: int) -> Option<(CommandView, int)> {
    let p = after_ignored(s, i, false);
    if add_salary_emp_at(s, p) is Some {
        add_salary_emp_at(s, p)
    } else if add_hourly_emp_at(s, p) is Some {
        add_hourly_emp_at(s, p)
    } else if add_commissioned_emp_at(s, p) is Some {
        add_commissioned_emp_at(s, p)
    } else if del_emp_at(s, p) is Some {
        del_emp_at(s, p)
    } else if time_card_at(s, p) is Some {
        time_card_at(s, p)
    } else if sales_receipt_at(s, p) is Some {
        sales_receipt_at(s, p)
    } else if service_charge_at(s, p) is Some {
        service_charge_at(s, p)
    } else if chg_name_at(s, p) is Some {
        chg_name_at(s, p)
    } else if chg_address_at(s, p) is Some {
        chg_address_at(s, p)
    } else if chg_hourly_at(s, p) is Some {
        chg_hourly_at(s, p)
    } else if chg_salaried_at(s, p) is Some {
        chg_salaried_at(s, p)
    } else if chg_commissioned_at(s, p) is Some {
        chg_commissioned_at(s, p)
    } else if chg_hold_at(s, p) is Some {
        chg_hold_at(s, p)
    } else if chg_direct_at(s, p) is Some {
        chg_direct_at(s, p)
    } else if chg_mail_at(s, p) is Some {
        chg_mail_at(s, p)
    } else if chg_member_at(s, p) is Some {
        chg_member_at(s, p)
    } else if chg_no_member_at(s, p) is Some {
        chg_no_member_at(s, p)
    } else {
        payday_at(s, p)
    }
}

/// The commands that follow one another from `i` on, up to the first place
/// where none can be read, and the position behind the last of them.
pub open spec fn transactions_at(s: Seq<char>, i: int) -> (Seq<CommandView>, int)
    decreases s.len() - i,
{
    match transaction_at(s, i) {
        Some((command, next)) => if i < next <= s.len() {
            let (rest, end) = transactions_at(s, next);
            (seq![command] + rest, end)
        } else {
            (Seq::empty(), i)
        },
        None => (Seq::empty(), i),
    }
}

/// The views of `commands`, in their order.
pub open spec fn views_of(commands: Seq<Command>) -> Seq<CommandView> {
    Seq::new(commands.len(), |k: int| commands[k]@)
}

/// The command `AddEmp <id> "<name>" "<address>" S <salary>`, read at `i`, ends
/// behind `i`, and not past the end.
proof fn lemma_add_salary_emp_forward(s: Seq<char>, i: int)
    requires
        0 <= i <= s.len(),
    ensures
        add_salary_emp_at(s, i) matches Some((_, j)) ==> i < j <= s.len(),
{
    reveal_strlit("AddEmp");
    reveal_strlit("S");
    match keyword_at(s, i, "AddEmp"@) {
        Some(at1) => {
            lemma_blanks_forward(s, at1);
            lemma_parts_forward(s, after_blanks(s, at1));
            match id_at(s, after_blanks(s, at1)) {
                Some((_, at2)) => {
                    lemma_blanks_forward(s, at2);
                    lemma_parts_forward(s, after_blanks(s, at2));
                    match text_at(s, after_blanks(s, at2)) {
                        Some((_, at3)) => {
                            lemma_blanks_forward(s, at3);
                            lemma_parts_forward(s, after_blanks(s, at3));
                            match text_at(s, after_blanks(s, at3)) {
                                Some((_, at4)) => {
                                    lemma_blanks_forward(s, at4);
                                    match keyword_at(s, after_blanks(s, at4), "S"@) {
                                        Some(at5) => {
                                            lemma_blanks_forward(s, at5);
                                            lemma_parts_forward(s, after_blanks(s, at5));
                                        },
                                        None => {},
                                    }
                                },
                                None => {},
                            }
                        },
                        None => {},
                    }
                },
                None => {},
            }
        },
        None => {},
    }
}

/// The command `AddEmp <id> "<name>" "<address>" H <rate>`, read at `i`, ends
/// behind `i`, and not past the end.
proof fn lemma_add_hourly_emp_forward(s: Seq<char>, i: int)
    requires
        0 <= i <= s.len(),
    ensures
        add_hourly_emp_at(s, i) matches Some((_, j)) ==> i < j <= s.len(),
{
    reveal_strlit("AddEmp");
    reveal_strlit("H");
    match keyword_at(s, i, "AddEmp"@) {
        Some(at1) => {
            lemma_blanks_forward(s, at1);
            lemma_parts_forward(s, after_blanks(s, at1));
            match id_at(s, after_blanks(s, at1)) {
                Some((_, at2)) => {
                    lemma_blanks_forward(s, at2);
                    lemma_parts_forward(s, after_blanks(s, at2));
                    match text_at(s, after_blanks(s, at2)) {
                        Some((_, at3)) => {
                            lemma_blanks_forward(s, at3);
                            lemma_parts_forward(s, after_blanks(s, at3));
                            match text_at(s, after_blanks(s, at3)) {
                                Some((_, at4)) => {
                                    lemma_blanks_forward(s, at4);
                                    match keyword_at(s, after_blanks(s, at4), "H"@) {
                                        Some(at5) => {
                                            lemma_blanks_forward(s, at5);
                                            lemma_parts_forward(s, after_blanks(s, at5));
                                        },
                                        None => {},
                                    }
                                },
                                None => {},
                            }
                        },
                        None => {},
                    }
                },
                None => {},
            }
        },
        None => {},
    }
}

/// The command `AddEmp <id> "<name>" "<address>" C <salary> <rate>`, read at
/// `i`, ends behind `i`, and not past the end.
proof fn lemma_add_commissioned_emp_forward(s: Seq<char>, i: int)
    requires
        0 <= i <= s.len(),
    ensures
        add_commissioned_emp_at(s, i) matches Some((_, j)) ==> i < j <= s.len(),
{
    reveal_strlit("AddEmp");
    reveal_strlit("C");
    match keyword_at(s, i, "AddEmp"@) {
        Some(at1) => {
            lemma_blanks_forward(s, at1);
            lemma_parts_forward(s, after_blanks(s, at1));
            match id_at(s, after_blanks(s, at1)) {
                Some((_, at2)) => {
                    lemma_blanks_forward(s, at2);
                    lemma_parts_forward(s, after_blanks(s, at2));
                    match text_at(s, after_blanks(s, at2)) {
                        Some((_, at3)) => {
                            lemma_blanks_forward(s, at3);
                            lemma_parts_forward(s, after_blanks(s, at3));
                            match text_at(s, after_blanks(s, at3)) {
                                Some((_, at4)) => {
                                    lemma_blanks_forward(s, at4);
                                    match keyword_at(s, after_blanks(s, at4), "C"@) {
                                        Some(at5) => {
                                            lemma_blanks_forward(s, at5);
                                            lemma_parts_forward(s, after_blanks(s, at5));
                                            match amount_at(s, after_blanks(s, at5)) {
                                                Some((_, at6)) => {
                                                    lemma_blanks_forward(s, at6);
                                                    lemma_parts_forward(s, after_blanks(s, at6));
                                                },
                                                None => {},
                                            }
                                        },
                                        None => {},
                                    }
                                },
                                None => {},
                            }
                        },
                        None => {},
                    }
                },
                None => {},
            }
        },
        None => {},
    }
}

/// The command `DelEmp <id>`, read at `i`, ends behind `i`, and not past the
/// end.
proof fn lemma_del_emp_forward(s: Seq<char>, i: int)
    requires
        0 <= i <= s.len(),
    ensures
        del_emp_at(s, i) matches Some((_, j)) ==> i < j <= s.len(),
{
    reveal_strlit("DelEmp");
    match keyword_at(s, i, "DelEmp"@) {
        Some(at1) => {
            lemma_blanks_forward(s, at1);
            lemma_parts_forward(s, after_blanks(s, at1));
        },
        None => {},
    }
}

/// The command `TimeCard <id> <date> <hours>`, read at `i`, ends behind `i`,
/// and not past the end.
proof fn lemma_time_card_forward(s: Seq<char>, i: int)
    requires
        0 <= i <= s.len(),
    ensures
        time_card_at(s, i) matches Some((_, j)) ==> i < j <= s.len(),
{
    reveal_strlit("TimeCard");
    match keyword_at(s, i, "TimeCard"@) {
        Some(at1) => {
            lemma_blanks_forward(s, at1);
            lemma_parts_forward(s, after_blanks(s, at1));
            match id_at(s, after_blanks(s, at1)) {
                Some((_, at2)) => {
                    lemma_blanks_forward(s, at2);
                    lemma_date_forward(s, after_blanks(s, at2));
                    match date_at(s, after_blanks(s, at2)) {
                        Some((_, at3)) => {
                            lemma_blanks_forward(s, at3);
                            lemma_parts_forward(s, after_blanks(s, at3));
                        },
                        None => {},
                    }
                },
                None => {},
            }
        },
        None => {},
    }
}

/// The command `SalesReceipt <id> <date> <amount>`, read at `i`, ends behind
/// `i`, and not past the end.
proof fn lemma_sales_receipt_forward(s: Seq<char>, i: int)
    requires
        0 <= i <= s.len(),
    ensures
        sales_receipt_at(s, i) matches Some((_, j)) ==> i < j <= s.len(),
{
    reveal_strlit("SalesReceipt");
    match keyword_at(s, i, "SalesReceipt"@) {
        Some(at1) => {
            lemma_blanks_forward(s, at1);
            lemma_parts_forward(s, after_blanks(s, at1));
            match id_at(s, after_blanks(s, at1)) {
                Some((_, at2)) => {
                    lemma_blanks_forward(s, at2);
                    lemma_date_forward(s, after_blanks(s, at2));
                    match date_at(s, after_blanks(s, at2)) {
                        Some((_, at3)) => {
                            lemma_blanks_forward(s, at3);
                            lemma_parts_forward(s, after_blanks(s, at3));
                        },
                        None => {},
                    }
                },
                None => {},
            }
        },
        None => {},
    }
}

/// The command `ServiceCharge <member id> <date> <amount>`, read at `i`, ends
/// behind `i`, and not past the end.
proof fn lemma_service_charge_forward(s: Seq<char>, i: int)
    requires
        0 <= i <= s.len(),
    ensures
        service_charge_at(s, i) matches Some((_, j)) ==> i < j <= s.len(),
{
    reveal_strlit("ServiceCharge");
    match keyword_at(s, i, "ServiceCharge"@) {
        Some(at1) => {
            lemma_blanks_forward(s, at1);
            lemma_parts_forward(s, after_blanks(s, at1));
            match id_at(s, after_blanks(s, at1)) {
                Some((_, at2)) => {
                    lemma_blanks_forward(s, at2);
                    lemma_date_forward(s, after_blanks(s, at2));
                    match date_at(s, after_blanks(s, at2)) {
                        Some((_, at3)) => {
                            lemma_blanks_forward(s, at3);
                            lemma_parts_forward(s, after_blanks(s, at3));
                        },
                        None => {},
                    }
                },
                None => {},
            }
        },
        None => {},
    }
}

/// The command `ChgEmp <id> Name "<name>"`, read at `i`, ends behind `i`, and
/// not past the end.
proof fn lemma_chg_name_forward(s: Seq<char>, i: int)
    requires
        0 <= i <= s.len(),
    ensures
        chg_name_at(s, i) matches Some((_, j)) ==> i < j <= s.len(),
{
    reveal_strlit("ChgEmp");
    reveal_strlit("Name");
    match keyword_at(s, i, "ChgEmp"@) {
        Some(at1) => {
            lemma_blanks_forward(s, at1);
            lemma_parts_forward(s, after_blanks(s, at1));
            match id_at(s, after_blanks(s, at1)) {
                Some((_, at2)) => {
                    lemma_blanks_forward(s, at2);
                    match keyword_at(s, after_blanks(s, at2), "Name"@) {
                        Some(at3) => {
                            lemma_blanks_forward(s, at3);
                            lemma_parts_forward(s, after_blanks(s, at3));
                        },
                        None => {},
                    }
                },
                None => {},
            }
        },
        None => {},
    }
}

/// The command `ChgEmp <id> Address "<address>"`, read at `i`, ends behind `i`,
/// and not past the end.
proof fn lemma_chg_address_forward(s: Seq<char>, i: int)
    requires
        0 <= i <= s.len(),
    ensures
        chg_address_at(s, i) matches Some((_, j)) ==> i < j <= s.len(),
{
    reveal_strlit("ChgEmp");
    reveal_strlit("Address");
    match keyword_at(s, i, "ChgEmp"@) {
        Some(at1) => {
            lemma_blanks_forward(s, at1);
            lemma_parts_forward(s, after_blanks(s, at1));
            match id_at(s, after_blanks(s, at1)) {
                Some((_, at2)) => {
                    lemma_blanks_forward(s, at2);
                    match keyword_at(s, after_blanks(s, at2), "Address"@) {
                        Some(at3) => {
                            lemma_blanks_forward(s, at3);
                            lemma_parts_forward(s, after_blanks(s, at3));
                        },
                        None => {},
                    }
                },
                None => {},
            }
        },
        None => {},
    }
}

/// The command `ChgEmp <id> Hourly <rate>`, read at `i`, ends behind `i`, and
/// not past the end.
proof fn lemma_chg_hourly_forward(s: Seq<char>, i: int)
    requires
        0 <= i <= s.len(),
    ensures
        chg_hourly_at(s, i) matches Some((_, j)) ==> i < j <= s.len(),
{
    reveal_strlit("ChgEmp");
    reveal_strlit("Hourly");
    match keyword_at(s, i, "ChgEmp"@) {
        Some(at1) => {
            lemma_blanks_forward(s, at1);
            lemma_parts_forward(s, after_blanks(s, at1));
            match id_at(s, after_blanks(s, at1)) {
                Some((_, at2)) => {
                    lemma_blanks_forward(s, at2);
                    match keyword_at(s, after_blanks(s, at2), "Hourly"@) {
                        Some(at3) => {
                            lemma_blanks_forward(s, at3);
                            lemma_parts_forward(s, after_blanks(s, at3));
                        },
                        None => {},
                    }
                },
                None => {},
            }
        },
        None => {},
    }
}

/// The command `ChgEmp <id> Salaried <salary>`, read at `i`, ends behind `i`,
/// and not past the end.
proof fn lemma_chg_salaried_forward(s: Seq<char>, i: int)
    requires
        0 <= i <= s.len(),
    ensures
        chg_salaried_at(s, i) matches Some((_, j)) ==> i < j <= s.len(),
{
    reveal_strlit("ChgEmp");
    reveal_strlit("Salaried");
    match keyword_at(s, i, "ChgEmp"@) {
        Some(at1) => {
            lemma_blanks_forward(s, at1);
            lemma_parts_forward(s, after_blanks(s, at1));
            match id_at(s, after_blanks(s, at1)) {
                Some((_, at2)) => {
                    lemma_blanks_forward(s, at2);
                    match keyword_at(s, after_blanks(s, at2), "Salaried"@) {
                        Some(at3) => {
                            lemma_blanks_forward(s, at3);
                            lemma_parts_forward(s, after_blanks(s, at3));
                        },
                        None => {},
                    }
                },
                None => {},
            }
        },
        None => {},
    }
}

/// The command `ChgEmp <id> Commissioned <salary> <rate>`, read at `i`, ends
/// behind `i`, and not past the end.
proof fn lemma_chg_commissioned_forward(s: Seq<char>, i: int)
    requires
        0 <= i <= s.len(),
    ensures
        chg_commissioned_at(s, i) matches Some((_, j)) ==> i < j <= s.len(),
{
    reveal_strlit("ChgEmp");
    reveal_strlit("Commissioned");
    match keyword_at(s, i, "ChgEmp"@) {
        Some(at1) => {
            lemma_blanks_forward(s, at1);
            lemma_parts_forward(s, after_blanks(s, at1));
            match id_at(s, after_blanks(s, at1)) {
                Some((_, at2)) => {
                    lemma_blanks_forward(s, at2);
                    match keyword_at(s, after_blanks(s, at2), "Commissioned"@) {
                        Some(at3) => {
                            lemma_blanks_forward(s, at3);
                            lemma_parts_forward(s, after_blanks(s, at3));
                            match amount_at(s, after_blanks(s, at3)) {
                                Some((_, at4)) => {
                                    lemma_blanks_forward(s, at4);
                                    lemma_parts_forward(s, after_blanks(s, at4));
                                },
                                None => {},
                            }
                        },
                        None => {},
                    }
                },
                None => {},
            }
        },
        None => {},
    }
}

/// The command `ChgEmp <id> Hold`, read at `i`, ends behind `i`, and not past
/// the end.
proof fn lemma_chg_hold_forward(s: Seq<char>, i: int)
    requires
        0 <= i <= s.len(),
    ensures
        chg_hold_at(s, i) matches Some((_, j)) ==> i < j <= s.len(),
{
    reveal_strlit("ChgEmp");
    reveal_strlit("Hold");
    match keyword_at(s, i, "ChgEmp"@) {
        Some(at1) => {
            lemma_blanks_forward(s, at1);
            lemma_parts_forward(s, after_blanks(s, at1));
            match id_at(s, after_blanks(s, at1)) {
                Some((_, at2)) => {
                    lemma_blanks_forward(s, at2);
                },
                None => {},
            }
        },
        None => {},
    }
}

/// The command `ChgEmp <id> Direct "<bank>" "<account>"`, read at `i`, ends
/// behind `i`, and not past the end.
proof fn lemma_chg_direct_forward(s: Seq<char>, i: int)
    requires
        0 <= i <= s.len(),
    ensures
        chg_direct_at(s, i) matches Some((_, j)) ==> i < j <= s.len(),
{
    reveal_strlit("ChgEmp");
    reveal_strlit("Direct");
    match keyword_at(s, i, "ChgEmp"@) {
        Some(at1) => {
            lemma_blanks_forward(s, at1);
            lemma_parts_forward(s, after_blanks(s, at1));
            match id_at(s, after_blanks(s, at1)) {
                Some((_, at2)) => {
                    lemma_blanks_forward(s, at2);
                    match keyword_at(s, after_blanks(s, at2), "Direct"@) {
                        Some(at3) => {
                            lemma_blanks_forward(s, at3);
                            lemma_parts_forward(s, after_blanks(s, at3));
                            match text_at(s, after_blanks(s, at3)) {
                                Some((_, at4)) => {
                                    lemma_blanks_forward(s, at4);
                                    lemma_parts_forward(s, after_blanks(s, at4));
                                },
                                None => {},
                            }
                        },
                        None => {},
                    }
                },
                None => {},
            }
        },
        None => {},
    }
}

/// The command `ChgEmp <id> Mail "<address>"`, read at `i`, ends behind `i`,
/// and not past the end.
proof fn lemma_chg_mail_forward(s: Seq<char>, i: int)
    requires
        0 <= i <= s.len(),
    ensures
        chg_mail_at(s, i) matches Some((_, j)) ==> i < j <= s.len(),
{
    reveal_strlit("ChgEmp");
    reveal_strlit("Mail");
    match keyword_at(s, i, "ChgEmp"@) {
        Some(at1) => {
            lemma_blanks_forward(s, at1);
            lemma_parts_forward(s, after_blanks(s, at1));
            match id_at(s, after_blanks(s, at1)) {
                Some((_, at2)) => {
                    lemma_blanks_forward(s, at2);
                    match keyword_at(s, after_blanks(s, at2), "Mail"@) {
                        Some(at3) => {
                            lemma_blanks_forward(s, at3);
                            lemma_parts_forward(s, after_blanks(s, at3));
                        },
                        None => {},
                    }
                },
                None => {},
            }
        },
        None => {},
    }
}

/// The command `ChgEmp <id> Member <member id> Dues <dues>`, read at `i`, ends
/// behind `i`, and not past the end.
proof fn lemma_chg_member_forward(s: Seq<char>, i: int)
    requires
        0 <= i <= s.len(),
    ensures
        chg_member_at(s, i) matches Some((_, j)) ==> i < j <= s.len(),
{
    reveal_strlit("ChgEmp");
    reveal_strlit("Member");
    reveal_strlit("Dues");
    match keyword_at(s, i, "ChgEmp"@) {
        Some(at1) => {
            lemma_blanks_forward(s, at1);
            lemma_parts_forward(s, after_blanks(s, at1));
            match id_at(s, after_blanks(s, at1)) {
                Some((_, at2)) => {
                    lemma_blanks_forward(s, at2);
                    match keyword_at(s, after_blanks(s, at2), "Member"@) {
                        Some(at3) => {
                            lemma_blanks_forward(s, at3);
                            lemma_parts_forward(s, after_blanks(s, at3));
                            match id_at(s, after_blanks(s, at3)) {
                                Some((_, at4)) => {
                                    lemma_blanks_forward(s, at4);
                                    match keyword_at(s, after_blanks(s, at4), "Dues"@) {
                                        Some(at5) => {
                                            lemma_blanks_forward(s, at5);
                                            lemma_parts_forward(s, after_blanks(s, at5));
                                        },
                                        None => {},
                                    }
                                },
                                None => {},
                            }
                        },
                        None => {},
                    }
                },
                None => {},
            }
        },
        None => {},
    }
}

/// The command `ChgEmp <id> NoMember`, read at `i`, ends behind `i`, and not
/// past the end.
proof fn lemma_chg_no_member_forward(s: Seq<char>, i: int)
    requires
        0 <= i <= s.len(),
    ensures
        chg_no_member_at(s, i) matches Some((_, j)) ==> i < j <= s.len(),
{
    reveal_strlit("ChgEmp");
    reveal_strlit("NoMember");
    match keyword_at(s, i, "ChgEmp"@) {
        Some(at1) => {
            lemma_blanks_forward(s, at1);
            lemma_parts_forward(s, after_blanks(s, at1));
            match id_at(s, after_blanks(s, at1)) {
                Some((_, at2)) => {
                    lemma_blanks_forward(s, at2);
                },
                None => {},
            }
        },
        None => {},
    }
}

/// The command `Payday <date>`, read at `i`, ends behind `i`, and not past the
/// end.
proof fn lemma_payday_forward(s: Seq<char>, i: int)
    requires
        0 <= i <= s.len(),
    ensures
        payday_at(s, i) matches Some((_, j)) ==> i < j <= s.len(),
{
    reveal_strlit("Payday");
    match keyword_at(s, i, "Payday"@) {
        Some(at1) => {
            lemma_blanks_forward(s, at1);
            lemma_date_forward(s, after_blanks(s, at1));
        },
        None => {},
    }
}

/// Every command that is read takes at least one character, and none is
/// read past the end: reading commands one after the other comes to an end,
/// and stops only where no command can be read.
pub proof fn law_commands_take_text(s: Seq<char>, i: int)
    requires
        0 <= i <= s.len(),
    ensures
        transaction_at(s, i) matches Some((_, next)) ==> i < next <= s.len(),
{
    lemma_ignored_forward(s, i, false);
    let p = after_ignored(s, i, false);
    lemma_add_salary_emp_forward(s, p);
    lemma_add_hourly_emp_forward(s, p);
    lemma_add_commissioned_emp_forward(s, p);
    lemma_del_emp_forward(s, p);
    lemma_time_card_forward(s, p);
    lemma_sales_receipt_forward(s, p);
    lemma_service_charge_forward(s, p);
    lemma_chg_name_forward(s, p);
    lemma_chg_address_forward(s, p);
    lemma_chg_hourly_forward(s, p);
    lemma_chg_salaried_forward(s, p);
    lemma_chg_commissioned_forward(s, p);
    lemma_chg_hold_forward(s, p);
    lemma_chg_direct_forward(s, p);
    lemma_chg_mail_forward(s, p);
    lemma_chg_member_forward(s, p);
    lemma_chg_no_member_forward(s, p);
    lemma_payday_forward(s, p);
}

/// Reading commands one after the other stops at a place at or behind the
/// start, not past the end, where no command can be read.
pub proof fn law_reading_stops_where_nothing_is_read(s: Seq<char>, i: int)
    requires
        0 <= i <= s.len(),
    ensures
        i <= transactions_at(s, i).1 <= s.len(),
        transaction_at(s, transactions_at(s, i).1) is None,
    decreases s.len() - i,
{
    law_commands_take_text(s, i);
    match transaction_at(s, i) {
        Some((_, next)) => {
            law_reading_stops_where_nothing_is_read(s, next);
        },
        None => {},
    }
}

/// Reads the command `AddEmp <id> "<name>" "<address>" S <salary>` at `pos`.
fn add_salary_emp_in(script: &Script, pos: usize) -> (r: Option<(Command, usize)>)
    requires
        pos <= script.view().len(),
    ensures
        agrees(r, add_salary_emp_at(script.view(), pos as int)),
        r matches Some((_, next)) ==> pos < next <= script.view().len(),
{
    proof {
        reveal_strlit("AddEmp");
    }
    let at1 = match script.keyword(pos, "AddEmp") {
        Some(found) => found,
        None => {
            return None;
        },
    };
    let (emp_id, at2) = match script.id(script.blanks(at1)) {
        Some(found) => found,
        None => {
            return None;
        },
    };
    let (name, at3) = match script.text(script.blanks(at2)) {
        Some(found) => found,
        None => {
            return None;
        },
    };
    let (address, at4) = match script.text(script.blanks(at3)) {
        Some(found) => found,
        None => {
            return None;
        },
    };
    let at5 = match script.keyword(script.blanks(at4), "S") {
        Some(found) => found,
        None => {
            return None;
        },
    };
    let (salary, at6) = match script.amount(script.blanks(at5)) {
        Some(found) => found,
        None => {
            return None;
        },
    };
    Some((Command::AddSalaryEmp { emp_id, name, address, salary }, at6))
}

/// Reads the command `AddEmp <id> "<name>" "<address>" H <rate>` at `pos`.
fn add_hourly_emp_in(script: &Script, pos: usize) -> (r: Option<(Command, usize)>)
    requires
        pos <= script.view().len(),
    ensures
        agrees(r, add_hourly_emp_at(script.view(), pos as int)),
        r matches Some((_, next)) ==> pos < next <= script.view().len(),
{
    proof {
        reveal_strlit("AddEmp");
    }
    let at1 = match script.keyword(pos, "AddEmp") {
        Some(found) => found,
        None => {
            return None;
        },
    };
    let (emp_id, at2) = match script.id(script.blanks(at1)) {
        Some(found) => found,
        None => {
            return None;
        },
    };
    let (name, at3) = match script.text(script.blanks(at2)) {
        Some(found) => found,
        None => {
            return None;
        },
    };
    let (address, at4) = match script.text(script.blanks(at3)) {
        Some(found) => found,
        None => {
            return None;
        },
    };
    let at5 = match script.keyword(script.blanks(at4), "H") {
        Some(found) => found,
        None => {
            return None;
        },
    };
    let (hourly_rate, at6) = match script.amount(script.blanks(at5)) {
        Some(found) => found,
        None => {
            return None;
        },
    };
    Some((Command::AddHourlyEmp { emp_id, name, address, hourly_rate }, at6))
}

/// Reads the command `AddEmp <id> "<name>" "<address>" C <salary> <rate>` at
/// `pos`.
fn add_commissioned_emp_in(script: &Script, pos: usize) -> (r: Option<(Command, usize)>)
    requires
        pos <= script.view().len(),
    ensures
        agrees(r, add_commissioned_emp_at(script.view(), pos as int)),
        r matches Some((_, next)) ==> pos < next <= script.view().len(),
{
    proof {
        reveal_strlit("AddEmp");
    }
    let at1 = match script.keyword(pos, "AddEmp") {
        Some(found) => found,
        None => {
            return None;
        },
    };
    let (emp_id, at2) = match script.id(script.blanks(at1)) {
        Some(found) => found,
        None => {
            return None;
        },
    };
    let (name, at3) = match script.text(script.blanks(at2)) {
        Some(found) => found,
        None => {
            return None;
        },
    };
    let (address, at4) = match script.text(script.blanks(at3)) {
        Some(found) => found,
        None => {
            return None;
        },
    };
    let at5 = match script.keyword(script.blanks(at4), "C") {
        Some(found) => found,
        None => {
            return None;
        },
    };
    let (salary, at6) = match script.amount(script.blanks(at5)) {
        Some(found) => found,
        None => {
            return None;
        },
    };
    let (commission_rate, at7) = match script.amount(script.blanks(at6)) {
        Some(found) => found,
        None => {
            return None;
        },
    };
    Some((Command::AddCommissionedEmp { emp_id, name, address, salary, commission_rate }, at7))
}

/// Reads the command `DelEmp <id>` at `pos`.
fn del_emp_in(script: &Script, pos: usize) -> (r: Option<(Command, usize)>)
    requires
        pos <= script.view().len(),
    ensures
        agrees(r, del_emp_at(script.view(), pos as int)),
        r matches Some((_, next)) ==> pos < next <= script.view().len(),
{
    proof {
        reveal_strlit("DelEmp");
    }
    let at1 = match script.keyword(pos, "DelEmp") {
        Some(found) => found,
        None => {
            return None;
        },
    };
    let (emp_id, at2) = match script.id(script.blanks(at1)) {
        Some(found) => found,
        None => {
            return None;
        },
    };
    Some((Command::DelEmp { emp_id }, at2))
}

/// Reads the command `TimeCard <id> <date> <hours>` at `pos`.
fn time_card_in(script: &Script, pos: usize) -> (r: Option<(Command, usize)>)
    requires
        pos <= script.view().len(),
    ensures
        agrees(r, time_card_at(script.view(), pos as int)),
        r matches Some((_, next)) ==> pos < next <= script.view().len(),
{
    proof {
        reveal_strlit("TimeCard");
    }
    let at1 = match script.keyword(pos, "TimeCard") {
        Some(found) => found,
        None => {
            return None;
        },
    };
    let (emp_id, at2) = match script.id(script.blanks(at1)) {
        Some(found) => found,
        None => {
            return None;
        },
    };
    let (date, at3) = match script.date(script.blanks(at2)) {
        Some(found) => found,
        None => {
            return None;
        },
    };
    let (hours, at4) = match script.amount(script.blanks(at3)) {
        Some(found) => found,
        None => {
            return None;
        },
    };
    Some((Command::TimeCard { emp_id, date, hours }, at4))
}

/// Reads the command `SalesReceipt <id> <date> <amount>` at `pos`.
fn sales_receipt_in(script: &Script, pos: usize) -> (r: Option<(Command, usize)>)
    requires
        pos <= script.view().len(),
    ensures
        agrees(r, sales_receipt_at(script.view(), pos as int)),
        r matches Some((_, next)) ==> pos < next <= script.view().len(),
{
    proof {
        reveal_strlit("SalesReceipt");
    }
    let at1 = match script.keyword(pos, "SalesReceipt") {
        Some(found) => found,
        None => {
            return None;
        },
    };
    let (emp_id, at2) = match script.id(script.blanks(at1)) {
        Some(found) => found,
        None => {
            return None;
        },
    };
    let (date, at3) = match script.date(script.blanks(at2)) {
        Some(found) => found,
        None => {
            return None;
        },
    };
    let (amount, at4) = match script.amount(script.blanks(at3)) {
        Some(found) => found,
        None => {
            return None;
        },
    };
    Some((Command::SalesReceipt { emp_id, date, amount }, at4))
}

/// Reads the command `ServiceCharge <member id> <date> <amount>` at `pos`.
fn service_charge_in(script: &Script, pos: usize) -> (r: Option<(Command, usize)>)
    requires
        pos <= script.view().len(),
    ensures
        agrees(r, service_charge_at(script.view(), pos as int)),
        r matches Some((_, next)) ==> pos < next <= script.view().len(),
{
    proof {
        reveal_strlit("ServiceCharge");
    }
    let at1 = match script.keyword(pos, "ServiceCharge") {
        Some(found) => found,
        None => {
            return None;
        },
    };
    let (member_id, at2) = match script.id(script.blanks(at1)) {
        Some(found) => found,
        None => {
            return None;
        },
    };
    let (date, at3) = match script.date(script.blanks(at2)) {
        Some(found) => found,
        None => {
            return None;
        },
    };
    let (amount, at4) = match script.amount(script.blanks(at3)) {
        Some(found) => found,
        None => {
            return None;
        },
    };
    Some((Command::ServiceCharge { member_id, date, amount }, at4))
}

/// Reads the command `ChgEmp <id> Name "<name>"` at `pos`.
fn chg_name_in(script: &Script, pos: usize) -> (r: Option<(Command, usize)>)
    requires
        pos <= script.view().len(),
    ensures
        agrees(r, chg_name_at(script.view(), pos as int)),
        r matches Some((_, next)) ==> pos < next <= script.view().len(),
{
    proof {
        reveal_strlit("ChgEmp");
    }
    let at1 = match script.keyword(pos, "ChgEmp") {
        Some(found) => found,
        None => {
            return None;
        },
    };
    let (emp_id, at2) = match script.id(script.blanks(at1)) {
        Some(found) => found,
        None => {
            return None;
        },
    };
    let at3 = match script.keyword(script.blanks(at2), "Name") {
        Some(found) => found,
        None => {
            return None;
        },
    };
    let (name, at4) = match script.text(script.blanks(at3)) {
        Some(found) => found,
        None => {
            return None;
        },
    };
    Some((Command::ChgName { emp_id, name }, at4))
}

/// Reads the command `ChgEmp <id> Address "<address>"` at `pos`.
fn chg_address_in(script: &Script, pos: usize) -> (r: Option<(Command, usize)>)
    requires
        pos <= script.view().len(),
    ensures
        agrees(r, chg_address_at(script.view(), pos as int)),
        r matches Some((_, next)) ==> pos < next <= script.view().len(),
{
    proof {
        reveal_strlit("ChgEmp");
    }
    let at1 = match script.keyword(pos, "ChgEmp") {
        Some(found) => found,
        None => {
            return None;
        },
    };
    let (emp_id, at2) = match script.id(script.blanks(at1)) {
        Some(found) => found,
        None => {
            return None;
        },
    };
    let at3 = match script.keyword(script.blanks(at2), "Address") {
        Some(found) => found,
        None => {
            return None;
        },
    };
    let (address, at4) = match script.text(script.blanks(at3)) {
        Some(found) => found,
        None => {
            return None;
        },
    };
    Some((Command::ChgAddress { emp_id, address }, at4))
}

/// Reads the command `ChgEmp <id> Hourly <rate>` at `pos`.
fn chg_hourly_in(script: &Script, pos: usize) -> (r: Option<(Command, usize)>)
    requires
        pos <= script.view().len(),
    ensures
        agrees(r, chg_hourly_at(script.view(), pos as int)),
        r matches Some((_, next)) ==> pos < next <= script.view().len(),
{
    proof {
        reveal_strlit("ChgEmp");
    }
    let at1 = match script.keyword(pos, "ChgEmp") {
        Some(found) => found,
        None => {
            return None;
        },
    };
    let (emp_id, at2) = match script.id(script.blanks(at1)) {
        Some(found) => found,
        None => {
            return None;
        },
    };
    let at3 = match script.keyword(script.blanks(at2), "Hourly") {
        Some(found) => found,
        None => {
            return None;
        },
    };
    let (hourly_rate, at4) = match script.amount(script.blanks(at3)) {
        Some(found) => found,
        None => {
            return None;
        },
    };
    Some((Command::ChgHourly { emp_id, hourly_rate }, at4))
}

/// Reads the command `ChgEmp <id> Salaried <salary>` at `pos`.
fn chg_salaried_in(script: &Script, pos: usize) -> (r: Option<(Command, usize)>)
    requires
        pos <= script.view().len(),
    ensures
        agrees(r, chg_salaried_at(script.view(), pos as int)),
        r matches Some((_, next)) ==> pos < next <= script.view().len(),
{
    proof {
        reveal_strlit("ChgEmp");
    }
    let at1 = match script.keyword(pos, "ChgEmp") {
        Some(found) => found,
        None => {
            return None;
        },
    };
    let (emp_id, at2) = match script.id(script.blanks(at1)) {
        Some(found) => found,
        None => {
            return None;
        },
    };
    let at3 = match script.keyword(script.blanks(at2), "Salaried") {
        Some(found) => found,
        None => {
            return None;
        },
    };
    let (salary, at4) = match script.amount(script.blanks(at3)) {
        Some(found) => found,
        None => {
            return None;
        },
    };
    Some((Command::ChgSalaried { emp_id, salary }, at4))
}

/// Reads the command `ChgEmp <id> Commissioned <salary> <rate>` at `pos`.
fn chg_commissioned_in(script: &Script, pos: usize) -> (r: Option<(Command, usize)>)
    requires
        pos <= script.view().len(),
    ensures
        agrees(r, chg_commissioned_at(script.view(), pos as int)),
        r matches Some((_, next)) ==> pos < next <= script.view().len(),
{
    proof {
        reveal_strlit("ChgEmp");
    }
    let at1 = match script.keyword(pos, "ChgEmp") {
        Some(found) => found,
        None => {
            return None;
        },
    };
    let (emp_id, at2) = match script.id(script.blanks(at1)) {
        Some(found) => found,
        None => {
            return None;
        },
    };
    let at3 = match script.keyword(script.blanks(at2), "Commissioned") {
        Some(found) => found,
        None => {
            return None;
        },
    };
    let (salary, at4) = match script.amount(script.blanks(at3)) {
        Some(found) => found,
        None => {
            return None;
        },
    };
    let (commission_rate, at5) = match script.amount(script.blanks(at4)) {
        Some(found) => found,
        None => {
            return None;
        },
    };
    Some((Command::ChgCommissioned { emp_id, salary, commission_rate }, at5))
}

/// Reads the command `ChgEmp <id> Hold` at `pos`.
fn chg_hold_in(script: &Script, pos: usize) -> (r: Option<(Command, usize)>)
    requires
        pos <= script.view().len(),
    ensures
        agrees(r, chg_hold_at(script.view(), pos as int)),
        r matches Some((_, next)) ==> pos < next <= script.view().len(),
{
    proof {
        reveal_strlit("ChgEmp");
    }
    let at1 = match script.keyword(pos, "ChgEmp") {
        Some(found) => found,
        None => {
            return None;
        },
    };
    let (emp_id, at2) = match script.id(script.blanks(at1)) {
        Some(found) => found,
        None => {
            return None;
        },
    };
    let at3 = match script.keyword(script.blanks(at2), "Hold") {
        Some(found) => found,
        None => {
            return None;
        },
    };
    Some((Command::ChgHold { emp_id }, at3))
}

/// Reads the command `ChgEmp <id> Direct "<bank>" "<account>"` at `pos`.
fn chg_direct_in(script: &Script, pos: usize) -> (r: Option<(Command, usize)>)
    requires
        pos <= script.view().len(),
    ensures
        agrees(r, chg_direct_at(script.view(), pos as int)),
        r matches Some((_, next)) ==> pos < next <= script.view().len(),
{
    proof {
        reveal_strlit("ChgEmp");
    }
    let at1 = match script.keyword(pos, "ChgEmp") {
        Some(found) => found,
        None => {
            return None;
        },
    };
    let (emp_id, at2) = match script.id(script.blanks(at1)) {
        Some(found) => found,
        None => {
            return None;
        },
    };
    let at3 = match script.keyword(script.blanks(at2), "Direct") {
        Some(found) => found,
        None => {
            return None;
        },
    };
    let (bank, at4) = match script.text(script.blanks(at3)) {
        Some(found) => found,
        None => {
            return None;
        },
    };
    let (account, at5) = match script.text(script.blanks(at4)) {
        Some(found) => found,
        None => {
            return None;
        },
    };
    Some((Command::ChgDirect { emp_id, bank, account }, at5))
}

/// Reads the command `ChgEmp <id> Mail "<address>"` at `pos`.
fn chg_mail_in(script: &Script, pos: usize) -> (r: Option<(Command, usize)>)
    requires
        pos <= script.view().len(),
    ensures
        agrees(r, chg_mail_at(script.view(), pos as int)),
        r matches Some((_, next)) ==> pos < next <= script.view().len(),
{
    proof {
        reveal_strlit("ChgEmp");
    }
    let at1 = match script.keyword(pos, "ChgEmp") {
        Some(found) => found,
        None => {
            return None;
        },
    };
    let (emp_id, at2) = match script.id(script.blanks(at1)) {
        Some(found) => found,
        None => {
            return None;
        },
    };
    let at3 = match script.keyword(script.blanks(at2), "Mail") {
        Some(found) => found,
        None => {
            return None;
        },
    };
    let (address, at4) = match script.text(script.blanks(at3)) {
        Some(found) => found,
        None => {
            return None;
        },
    };
    Some((Command::ChgMail { emp_id, address }, at4))
}

/// Reads the command `ChgEmp <id> Member <member id> Dues <dues>` at `pos`.
fn chg_member_in(script: &Script, pos: usize) -> (r: Option<(Command, usize)>)
    requires
        pos <= script.view().len(),
    ensures
        agrees(r, chg_member_at(script.view(), pos as int)),
        r matches Some((_, next)) ==> pos < next <= script.view().len(),
{
    proof {
        reveal_strlit("ChgEmp");
    }
    let at1 = match script.keyword(pos, "ChgEmp") {
        Some(found) => found,
        None => {
            return None;
        },
    };
    let (emp_id, at2) = match script.id(script.blanks(at1)) {
        Some(found) => found,
        None => {
            return None;
        },
    };
    let at3 = match script.keyword(script.blanks(at2), "Member") {
        Some(found) => found,
        None => {
            return None;
        },
    };
    let (member_id, at4) = match script.id(script.blanks(at3)) {
        Some(found) => found,
        None => {
            return None;
        },
    };
    let at5 = match script.keyword(script.blanks(at4), "Dues") {
        Some(found) => found,
        None => {
            return None;
        },
    };
    let (dues, at6) = match script.amount(script.blanks(at5)) {
        Some(found) => found,
        None => {
            return None;
        },
    };
    Some((Command::ChgMember { emp_id, member_id, dues }, at6))
}

/// Reads the command `ChgEmp <id> NoMember` at `pos`.
fn chg_no_member_in(script: &Script, pos: usize) -> (r: Option<(Command, usize)>)
    requires
        pos <= script.view().len(),
    ensures
        agrees(r, chg_no_member_at(script.view(), pos as int)),
        r matches Some((_, next)) ==> pos < next <= script.view().len(),
{
    proof {
        reveal_strlit("ChgEmp");
    }
    let at1 = match script.keyword(pos, "ChgEmp") {
        Some(found) => found,
        None => {
            return None;
        },
    };
    let (emp_id, at2) = match script.id(script.blanks(at1)) {
        Some(found) => found,
        None => {
            return None;
        },
    };
    let at3 = match script.keyword(script.blanks(at2), "NoMember") {
        Some(found) => found,
        None => {
            return None;
        },
    };
    Some((Command::ChgNoMember { emp_id }, at3))
}

/// Reads the command `Payday <date>` at `pos`.
fn payday_in(script: &Script, pos: usize) -> (r: Option<(Command, usize)>)
    requires
        pos <= script.view().len(),
    ensures
        agrees(r, payday_at(script.view(), pos as int)),
        r matches Some((_, next)) ==> pos < next <= script.view().len(),
{
    proof {
        reveal_strlit("Payday");
    }
    let at1 = match script.keyword(pos, "Payday") {
        Some(found) => found,
        None => {
            return None;
        },
    };
    let (pay_date, at2) = match script.date(script.blanks(at1)) {
        Some(found) => found,
        None => {
            return None;
        },
    };
    Some((Command::Payday { pay_date }, at2))
}

/// Reads the first command at or after `pos`, behind blanks and comments.
fn transaction_in(script: &Script, pos: usize) -> (r: Option<(Command, usize)>)
    requires
        pos <= script.view().len(),
    ensures
        agrees(r, transaction_at(script.view(), pos as int)),
        r matches Some((_, next)) ==> pos < next <= script.view().len(),
{
    let p = script.ignored(pos);
    match add_salary_emp_in(script, p) {
        Some(found) => {
            return Some(found);
        },
        None => {},
    }
    match add_hourly_emp_in(script, p) {
        Some(found) => {
            return Some(found);
        },
        None => {},
    }
    match add_commissioned_emp_in(script, p) {
        Some(found) => {
            return Some(found);
        },
        None => {},
    }
    match del_emp_in(script, p) {
        Some(found) => {
            return Some(found);
        },
        None => {},
    }
    match time_card_in(script, p) {
        Some(found) => {
            return Some(found);
        },
        None => {},
    }
    match sales_receipt_in(script, p) {
        Some(found) => {
            return Some(found);
        },
        None => {},
    }
    match service_charge_in(script, p) {
        Some(found) => {
            return Some(found);
        },
        None => {},
    }
    match chg_name_in(script, p) {
        Some(found) => {
            return Some(found);
        },
        None => {},
    }
    match chg_address_in(script, p) {
        Some(found) => {
            return Some(found);
        },
        None => {},
    }
    match chg_hourly_in(script, p) {
        Some(found) => {
            return Some(found);
        },
        None => {},
    }
    match chg_salaried_in(script, p) {
        Some(found) => {
            return Some(found);
        },
        None => {},
    }
    match chg_commissioned_in(script, p) {
        Some(found) => {
            return Some(found);
        },
        None => {},
    }
    match chg_hold_in(script, p) {
        Some(found) => {
            return Some(found);
        },
        None => {},
    }
    match chg_direct_in(script, p) {
        Some(found) => {
            return Some(found);
        },
        None => {},
    }
    match chg_mail_in(script, p) {
        Some(found) => {
            return Some(found);
        },
        None => {},
    }
    match chg_member_in(script, p) {
        Some(found) => {
            return Some(found);
        },
        None => {},
    }
    match chg_no_member_in(script, p) {
        Some(found) => {
            return Some(found);
        },
        None => {},
    }
    payday_in(script, p)
}

/// Reads the command `AddEmp <id> "<name>" "<address>" S <salary>` at the start
/// of `input`. Returns the command and how many characters it takes.
pub fn add_salary_emp(input: &str) -> (r: Option<(Command, usize)>)
    ensures
        agrees(r, add_salary_emp_at(input@, 0)),
{
    let script = Script::new(input);
    add_salary_emp_in(&script, 0)
}

/// Reads the command `AddEmp <id> "<name>" "<address>" H <rate>` at the start
/// of `input`. Returns the command and how many characters it takes.
pub fn add_hourly_emp(input: &str) -> (r: Option<(Command, usize)>)
    ensures
        agrees(r, add_hourly_emp_at(input@, 0)),
{
    let script = Script::new(input);
    add_hourly_emp_in(&script, 0)
}

/// Reads the command `AddEmp <id> "<name>" "<address>" C <salary> <rate>` at
/// the start of `input`. Returns the command and how many characters it takes.
pub fn add_commissioned_emp(input: &str) -> (r: Option<(Command, usize)>)
    ensures
        agrees(r, add_commissioned_emp_at(input@, 0)),
{
    let script = Script::new(input);
    add_commissioned_emp_in(&script, 0)
}

/// Reads the command `DelEmp <id>` at the start of `input`. Returns the command
/// and how many characters it takes.
pub fn del_emp(input: &str) -> (r: Option<(Command, usize)>)
    ensures
        agrees(r, del_emp_at(input@, 0)),
{
    let script = Script::new(input);
    del_emp_in(&script, 0)
}

/// Reads the command `TimeCard <id> <date> <hours>` at the start of `input`.
/// Returns the command and how many characters it takes.
pub fn time_card(input: &str) -> (r: Option<(Command, usize)>)
    ensures
        agrees(r, time_card_at(input@, 0)),
{
    let script = Script::new(input);
    time_card_in(&script, 0)
}

/// Reads the command `SalesReceipt <id> <date> <amount>` at the start of
/// `input`. Returns the command and how many characters it takes.
pub fn sales_receipt(input: &str) -> (r: Option<(Command, usize)>)
    ensures
        agrees(r, sales_receipt_at(input@, 0)),
{
    let script = Script::new(input);
    sales_receipt_in(&script, 0)
}

/// Reads the command `ServiceCharge <member id> <date> <amount>` at the start
/// of `input`. Returns the command and how many characters it takes.
pub fn service_charge(input: &str) -> (r: Option<(Command, usize)>)
    ensures
        agrees(r, service_charge_at(input@, 0)),
{
    let script = Script::new(input);
    service_charge_in(&script, 0)
}

/// Reads the command `ChgEmp <id> Name "<name>"` at the start of `input`.
/// Returns the command and how many characters it takes.
pub fn chg_name(input: &str) -> (r: Option<(Command, usize)>)
    ensures
        agrees(r, chg_name_at(input@, 0)),
{
    let script = Script::new(input);
    chg_name_in(&script, 0)
}

/// Reads the command `ChgEmp <id> Address "<address>"` at the start of `input`.
/// Returns the command and how many characters it takes.
pub fn chg_address(input: &str) -> (r: Option<(Command, usize)>)
    ensures
        agrees(r, chg_address_at(input@, 0)),
{
    let script = Script::new(input);
    chg_address_in(&script, 0)
}

/// Reads the command `ChgEmp <id> Hourly <rate>` at the start of `input`.
/// Returns the command and how many characters it takes.
pub fn chg_hourly(input: &str) -> (r: Option<(Command, usize)>)
    ensures
        agrees(r, chg_hourly_at(input@, 0)),
{
    let script = Script::new(input);
    chg_hourly_in(&script, 0)
}

/// Reads the command `ChgEmp <id> Salaried <salary>` at the start of `input`.
/// Returns the command and how many characters it takes.
pub fn chg_salaried(input: &str) -> (r: Option<(Command, usize)>)
    ensures
        agrees(r, chg_salaried_at(input@, 0)),
{
    let script = Script::new(input);
    chg_salaried_in(&script, 0)
}

/// Reads the command `ChgEmp <id> Commissioned <salary> <rate>` at the start of
/// `input`. Returns the command and how many characters it takes.
pub fn chg_commissioned(input: &str) -> (r: Option<(Command, usize)>)
    ensures
        agrees(r, chg_commissioned_at(input@, 0)),
{
    let script = Script::new(input);
    chg_commissioned_in(&script, 0)
}

/// Reads the command `ChgEmp <id> Hold` at the start of `input`. Returns the
/// command and how many characters it takes.
pub fn chg_hold(input: &str) -> (r: Option<(Command, usize)>)
    ensures
        agrees(r, chg_hold_at(input@, 0)),
{
    let script = Script::new(input);
    chg_hold_in(&script, 0)
}

/// Reads the command `ChgEmp <id> Direct "<bank>" "<account>"` at the start of
/// `input`. Returns the command and how many characters it takes.
pub fn chg_direct(input: &str) -> (r: Option<(Command, usize)>)
    ensures
        agrees(r, chg_direct_at(input@, 0)),
{
    let script = Script::new(input);
    chg_direct_in(&script, 0)
}

/// Reads the command `ChgEmp <id> Mail "<address>"` at the start of `input`.
/// Returns the command and how many characters it takes.
pub fn chg_mail(input: &str) -> (r: Option<(Command, usize)>)
    ensures
        agrees(r, chg_mail_at(input@, 0)),
{
    let script = Script::new(input);
    chg_mail_in(&script, 0)
}

/// Reads the command `ChgEmp <id> Member <member id> Dues <dues>` at the start
/// of `input`. Returns the command and how many characters it takes.
pub fn chg_member(input: &str) -> (r: Option<(Command, usize)>)
    ensures
        agrees(r, chg_member_at(input@, 0)),
{
    let script = Script::new(input);
    chg_member_in(&script, 0)
}

/// Reads the command `ChgEmp <id> NoMember` at the start of `input`. Returns
/// the command and how many characters it takes.
pub fn chg_no_member(input: &str) -> (r: Option<(Command, usize)>)
    ensures
        agrees(r, chg_no_member_at(input@, 0)),
{
    let script = Script::new(input);
    chg_no_member_in(&script, 0)
}

/// Reads the command `Payday <date>` at the start of `input`. Returns the
/// command and how many characters it takes.
pub fn payday(input: &str) -> (r: Option<(Command, usize)>)
    ensures
        agrees(r, payday_at(input@, 0)),
{
    let script = Script::new(input);
    payday_in(&script, 0)
}

/// Reads the first command of `input`, behind blanks and comments. Returns
/// the command and how many characters were read.
pub fn transaction(input: &str) -> (r: Option<(Command, usize)>)
    ensures
        agrees(r, transaction_at(input@, 0)),
{
    let script = Script::new(input);
    transaction_in(&script, 0)
}

/// Reads the commands of `input` one after the other, up to the first place
/// where none can be read. Returns the commands and how many characters were
/// read.
pub fn transactions(input: &str) -> (r: (Vec<Command>, usize))
    ensures
        (views_of(r.0@), r.1 as int) == transactions_at(input@, 0),
{
    let script = Script::new(input);
    let ghost s = script.view();
    let mut commands: Vec<Command> = Vec::new();
    let mut pos: usize = 0;
    loop
        invariant
            s == script.view(),
            s == input@,
            pos <= s.len(),
            transactions_at(s, 0) == (
                views_of(commands@) + transactions_at(s, pos as int).0,
                transactions_at(s, pos as int).1,
            ),
        ensures
            (views_of(commands@), pos as int) == transactions_at(s, 0),
        decreases s.len() - pos,
    {
        match transaction_in(&script, pos) {
            Some((command, next)) => {
                let ghost before = views_of(commands@);
                let ghost view = command@;
                commands.push(command);
                assert(views_of(commands@) =~= before + seq![view]);
                assert(before + (seq![view] + transactions_at(s, next as int).0) =~= (before
                    + seq![view]) + transactions_at(s, next as int).0);
                pos = next;
            },
            None => {
                assert(views_of(commands@) + Seq::<CommandView>::empty() =~= views_of(commands@));
                break ;
            },
        }
    }
    (commands, pos)
}

/// Skips the blanks and comments at the start of `input`. Returns how many
/// characters were skipped.
pub fn go_through(input: &str) -> (r: usize)
    ensures
        r == after_ignored(input@, 0, false),
{
    let script = Script::new(input);
    script.ignored(0)
}

/// Reads the date at the start of `input`. Returns the date and how many
/// characters it takes.
pub fn date(input: &str) -> (r: Option<(Date, usize)>)
    ensures
        match r {
            Some((date, next)) => date_at(input@, 0) == Some((date, next as int)),
            None => date_at(input@, 0) is None,
        },
{
    let script = Script::new(input);
    script.date(0)
}

} // verus!
