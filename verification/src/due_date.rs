//! Reading a due date: three numbers separated by `-`, each of which falls
//! back to today's where it cannot be read.

use vstd::prelude::*;
use crate::calendar::{date_from_ymd, local_today, valid_ymd, CalendarDate};

verus! {

/// Whether the character is one of `0` to `9`.
pub open spec fn is_digit(c: char) -> bool {
    '0' <= c <= '9'
}

/// The number that a digit stands for.
pub open spec fn digit_value(c: char) -> nat {
    if is_digit(c) {
        (c as u32 - '0' as u32) as nat
    } else {
        0
    }
}

/// The number that a sequence of digits stands for in base ten.
pub open spec fn decimal_value(digits: Seq<char>) -> nat
    decreases digits.len(),
{
    if digits.len() == 0 {
        0
    } else {
        decimal_value(digits.drop_last()) * 10 + digit_value(digits.last())
    }
}

/// Whether every character is a digit.
pub open spec fn all_digits(text: Seq<char>) -> bool {
    forall|i: int| 0 <= i < text.len() ==> is_digit(#[trigger] text[i])
}

/// The field without a leading `+`.
pub open spec fn unsigned_part(field: Seq<char>) -> Seq<char> {
    if field.len() > 0 && field[0] == '+' {
        field.subrange(1, field.len() as int)
    } else {
        field
    }
}

/// The number that a field holds: an optional `+` and then at least one
/// digit and nothing but digits, with a value of `max` at most.
pub open spec fn parsed_number(field: Seq<char>, max: int) -> Option<int> {
    let digits = unsigned_part(field);
    if digits.len() > 0 && all_digits(digits) && decimal_value(digits) <= max {
        Some(decimal_value(digits) as int)
    } else {
        None
    }
}

/// Where the field that starts at `from` ends: at the first `-` from there
/// on, or at the end of the text.
pub open spec fn field_end(text: Seq<char>, from: int) -> int
    decreases text.len() - from,
{
    if from < 0 || from >= text.len() {
        text.len() as int
    } else if text[from] == '-' {
        from
    } else {
        field_end(text, from + 1)
    }
}

/// Where field `k` starts, counting from 0: a text with `n` separators has
/// `n + 1` fields.
pub open spec fn field_start(text: Seq<char>, k: nat) -> Option<int>
    decreases k,
{
    if k == 0 {
        Some(0)
    } else {
        match field_start(text, (k - 1) as nat) {
            Some(start) => if field_end(text, start) < text.len() {
                Some(field_end(text, start) + 1)
            } else {
                None
            },
            None => None,
        }
    }
}

/// Field `k` of the text, if it has that many.
pub open spec fn field(text: Seq<char>, k: nat) -> Option<Seq<char>> {
    match field_start(text, k) {
        Some(start) => Some(text.subrange(start, field_end(text, start))),
        None => None,
    }
}

/// The number in field `k`, where there is such a field and it holds one.
pub open spec fn component(text: Seq<char>, k: nat, max: int) -> Option<int> {
    match field(text, k) {
        Some(f) => parsed_number(f, max),
        None => None,
    }
}

/// The date that the text states, where its first three fields hold
/// numbers that make a day of the calendar.
pub open spec fn written_date(text: Seq<char>) -> Option<CalendarDate> {
    match (
        component(text, 0, i32::MAX as int),
        component(text, 1, u32::MAX as int),
        component(text, 2, u32::MAX as int),
    ) {
        (Some(year), Some(month), Some(day)) => if valid_ymd(year, month, day) {
            Some(CalendarDate { year: year as i32, month: month as u32, day: day as u32 })
        } else {
            None
        },
        _ => None,
    }
}

/// The date that a due date resolves to. Year, month and day are the
/// numbers in the first three fields; one that is missing or cannot be read
/// is taken from `today`. Where the three make no day of the calendar, the
/// date is `today`. A year is never negative, since `-` separates fields.
pub open spec fn resolved_date(text: Seq<char>, today: CalendarDate) -> CalendarDate {
    let year = match component(text, 0, i32::MAX as int) {
        Some(year) => year,
        None => today.year as int,
    };
    let month = match component(text, 1, u32::MAX as int) {
        Some(month) => month,
        None => today.month as int,
    };
    let day = match component(text, 2, u32::MAX as int) {
        Some(day) => day,
        None => today.day as int,
    };
    if valid_ymd(year, month, day) {
        CalendarDate { year: year as i32, month: month as u32, day: day as u32 }
    } else {
        today
    }
}

/// A due date that states a day of the calendar resolves to that day,
/// whatever today is; and every due date resolves to a day of the calendar.
pub proof fn lemma_resolved_date(text: Seq<char>, today: CalendarDate)
    ensures
        written_date(text) matches Some(date) ==> resolved_date(text, today) == date,
        today.wf() ==> resolved_date(text, today).wf(),
{
}

/// A longer sequence of digits stands for no smaller a number.
proof fn lemma_decimal_value_grows(digits: Seq<char>, n: int)
    requires
        0 <= n <= digits.len(),
    ensures
        decimal_value(digits.take(n)) <= decimal_value(digits),
    decreases digits.len(),
{
    if n == digits.len() {
        assert(digits.take(n) =~= digits);
    } else {
        assert(digits.drop_last().take(n) =~= digits.take(n));
        lemma_decimal_value_grows(digits.drop_last(), n);
    }
}

/// The characters of a string, in order.
fn chars_of(text: &str) -> (chars: Vec<char>)
    ensures
        chars@ == text@,
{
    let mut chars: Vec<char> = Vec::new();
    for c in it: text.chars()
        invariant
            chars@ == it.seq().take(it.index() as int),
    {
        chars.push(c);
    }
    chars
}

/// Where the field that starts at `from` ends.
fn find_field_end(chars: &Vec<char>, from: usize) -> (end: usize)
    requires
        from <= chars.len(),
    ensures
        end == field_end(chars@, from as int),
        from <= end <= chars.len(),
{
    let mut end: usize = from;
    while end < chars.len() && chars[end] != '-'
        invariant
            from <= end <= chars.len(),
            field_end(chars@, from as int) == field_end(chars@, end as int),
        decreases chars.len() - end,
    {
        end = end + 1;
    }
    end
}

/// The number in the characters from `start` up to `end`.
fn parse_field(chars: &Vec<char>, start: usize, end: usize, max: u32) -> (value: Option<u32>)
    requires
        start <= end <= chars.len(),
    ensures
        match value {
            Some(number) => parsed_number(chars@.subrange(start as int, end as int), max as int)
                == Some(number as int),
            None => parsed_number(chars@.subrange(start as int, end as int), max as int) is None,
        },
{
    let ghost field = chars@.subrange(start as int, end as int);
    let mut first: usize = start;
    if first < end && chars[first] == '+' {
        first = first + 1;
    }
    let ghost digits = chars@.subrange(first as int, end as int);
    assert(digits =~= unsigned_part(field));
    if first == end {
        return None;
    }
    let mut i: usize = first;
    let mut number: u64 = 0;
    while i < end
        invariant
            first <= i <= end <= chars.len(),
            digits == chars@.subrange(first as int, end as int),
            digits == unsigned_part(chars@.subrange(start as int, end as int)),
            digits.len() > 0,
            all_digits(digits.take(i - first)),
            number == decimal_value(digits.take(i - first)),
            number <= max,
        decreases end - i,
    {
        let c: char = chars[i];
        assert(digits[i - first] == c);
        if c < '0' || c > '9' {
            assert(!is_digit(digits[i - first]));
            return None;
        }
        let code: u32 = c as u32;
        let ghost before = digits.take(i - first);
        let ghost longer = digits.take(i - first + 1);
        assert(longer.drop_last() =~= before);
        assert(longer.last() == c);
        number = number * 10 + (code - '0' as u32) as u64;
        if number > max as u64 {
            proof {
                lemma_decimal_value_grows(digits, i - first + 1);
            }
            return None;
        }
        assert forall|j: int| 0 <= j < longer.len() implies is_digit(#[trigger] longer[j]) by {
            if j < before.len() {
                assert(longer[j] == before[j]);
            }
        }
        i = i + 1;
    }
    assert(digits.take(i - first) =~= digits);
    Some(number as u32)
}

/// Resolves a due date against `today`.
pub fn resolve_due_date(due_date: &str, today: CalendarDate) -> (date: CalendarDate)
    ensures
        date == resolved_date(due_date@, today),
        today.wf() ==> date.wf(),
        written_date(due_date@) matches Some(written) ==> date == written,
{
    let chars = chars_of(due_date);
    proof {
        reveal_with_fuel(field_start, 3);
    }
    let end0: usize = find_field_end(&chars, 0);
    let mut year: i32 = today.year;
    let mut month: u32 = today.month;
    let mut day: u32 = today.day;
    if let Some(number) = parse_field(&chars, 0, end0, i32::MAX as u32) {
        year = number as i32;
    }
    if end0 < chars.len() {
        let end1: usize = find_field_end(&chars, end0 + 1);
        if let Some(number) = parse_field(&chars, end0 + 1, end1, u32::MAX) {
            month = number;
        }
        if end1 < chars.len() {
            let end2: usize = find_field_end(&chars, end1 + 1);
            if let Some(number) = parse_field(&chars, end1 + 1, end2, u32::MAX) {
                day = number;
            }
        }
    }
    match date_from_ymd(year, month, day) {
        Some(date) => date,
        None => today,
    }
}

/// Resolves a due date against the current date in the local time zone.
pub fn resolve_due_date_today(due_date: &str) -> (date: CalendarDate)
    ensures
        date.wf(),
        exists|today: CalendarDate| today.wf() && date == resolved_date(due_date@, today),
        written_date(due_date@) matches Some(written) ==> date == written,
{
    let today = local_today();
    resolve_due_date(due_date, today)
}

} // verus!
