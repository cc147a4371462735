//! Dates of the proleptic Gregorian calendar, their day numbers and their
//! `YYYY-MM-DD` text.

use vstd::prelude::*;

verus! {

/// A calendar date.
#[derive(Debug, Clone, Copy, PartialEq, Eq, Structural)]
pub struct CivilDate {
    pub year: i32,
    pub month: u32,
    pub day: u32,
}

pub open spec fn is_leap_year(year: int) -> bool {
    year % 4 == 0 && (year % 100 != 0 || year % 400 == 0)
}

pub open spec fn days_in_month(year: int, month: int) -> int {
    if month == 2 {
        if is_leap_year(year) {
            29
        } else {
            28
        }
    } else if month == 4 || month == 6 || month == 9 || month == 11 {
        30
    } else {
        31
    }
}

/// The days of `year` that precede the first of `month`.
pub open spec fn days_before_month(year: int, month: int) -> int
    decreases month,
{
    if month <= 1 {
        0
    } else {
        days_before_month(year, month - 1) + days_in_month(year, month - 1)
    }
}

/// The days from January 1 of year 0 to January 1 of `year`: 365 for each year
/// and one more for each leap year among them.
pub open spec fn days_before_year(year: int) -> int {
    365 * year + (year + 3) / 4 - (year + 99) / 100 + (year + 399) / 400
}

impl CivilDate {
    /// The date exists in the calendar.
    pub open spec fn is_valid(self) -> bool {
        &&& 1 <= self.month <= 12
        &&& 1 <= self.day <= days_in_month(self.year as int, self.month as int)
    }

    /// The days from January 1, 1970 to this date.
    pub open spec fn day_number(self) -> int {
        days_before_year(self.year as int) - days_before_year(1970) + days_before_month(
            self.year as int,
            self.month as int,
        ) + self.day - 1
    }

    /// This date comes before `other`.
    pub open spec fn precedes(self, other: CivilDate) -> bool {
        ||| self.year < other.year
        ||| self.year == other.year && self.month < other.month
        ||| self.year == other.year && self.month == other.month && self.day < other.day
    }
}

/// The date with the given day number.
pub open spec fn civil_date(day_number: int) -> CivilDate {
    choose|d: CivilDate| d.is_valid() && #[trigger] d.day_number() == day_number
}

pub open spec fn digit_char(n: int) -> char {
    ('0' as int + n) as char
}

/// The decimal digits of `n`, with leading zeros up to `width` digits.
pub open spec fn zero_padded(n: nat, width: nat) -> Seq<char>
    decreases n, width,
{
    if n == 0 && width == 0 {
        Seq::empty()
    } else {
        zero_padded(
            n / 10,
            if width > 0 {
                (width - 1) as nat
            } else {
                0
            },
        ).push(digit_char((n % 10) as int))
    }
}

/// A year as at least four digits; one outside 0 to 9999 carries its sign.
pub open spec fn year_text(year: int) -> Seq<char> {
    if year < 0 {
        seq!['-'] + zero_padded((-year) as nat, 4)
    } else if year <= 9999 {
        zero_padded(year as nat, 4)
    } else {
        seq!['+'] + zero_padded(year as nat, 4)
    }
}

/// A date as `YYYY-MM-DD`.
pub open spec fn date_text(date: CivilDate) -> Seq<char> {
    year_text(date.year as int) + seq!['-'] + zero_padded(date.month as nat, 2) + seq!['-']
        + zero_padded(date.day as nat, 2)
}

/// A day number close enough to 1970 for its year to fit an `i32`.
pub open spec fn within_calendar(day_number: int) -> bool {
    -1_000_000_000 <= day_number <= 1_000_000_000
}

proof fn lemma_count_of_multiples(year: int, k: int)
    requires
        k > 0,
    ensures
        (year + k) / k - (year + k - 1) / k == (if year % k == 0 {
            1int
        } else {
            0
        }),
{
    let q = year / k;
    let r = year % k;
    vstd::arithmetic::div_mod::lemma_fundamental_div_mod(year, k);
    vstd::arithmetic::div_mod::lemma_mod_bound(year, k);
    vstd::arithmetic::mul::lemma_mul_is_distributive_add(k, q, 1);
    vstd::arithmetic::mul::lemma_mul_is_commutative(k, q);
    vstd::arithmetic::mul::lemma_mul_is_commutative(k, q + 1);
    vstd::arithmetic::div_mod::lemma_fundamental_div_mod_converse(year + k, k, q + 1, r);
    if r == 0 {
        vstd::arithmetic::div_mod::lemma_fundamental_div_mod_converse(year + k - 1, k, q, k - 1);
    } else {
        vstd::arithmetic::div_mod::lemma_fundamental_div_mod_converse(
            year + k - 1,
            k,
            q + 1,
            r - 1,
        );
    }
}

proof fn lemma_months_of_a_year(year: int)
    ensures
        days_before_month(year, 12) + 31 == (if is_leap_year(year) {
            366int
        } else {
            365
        }),
{
    assert(days_before_month(year, 2) == 31) by {
        reveal_with_fuel(days_before_month, 2);
    }
    let feb = days_in_month(year, 2);
    assert(days_before_month(year, 3) == 31 + feb);
    assert(days_before_month(year, 4) == 62 + feb);
    assert(days_before_month(year, 5) == 92 + feb);
    assert(days_before_month(year, 6) == 123 + feb);
    assert(days_before_month(year, 7) == 153 + feb);
    assert(days_before_month(year, 8) == 184 + feb);
    assert(days_before_month(year, 9) == 215 + feb);
    assert(days_before_month(year, 10) == 245 + feb);
    assert(days_before_month(year, 11) == 276 + feb);
    assert(days_before_month(year, 12) == 306 + feb);
}

proof fn lemma_leap_cycle(year: int)
    ensures
        year % 100 == 0 ==> year % 4 == 0,
        year % 400 == 0 ==> year % 100 == 0,
{
    if year % 100 == 0 {
        assert(year == 100 * (year / 100));
        assert(year == 4 * (25 * (year / 100)));
    }
    if year % 400 == 0 {
        assert(year == 400 * (year / 400));
        assert(year == 100 * (4 * (year / 400)));
    }
}

#[verifier::spinoff_prover]
proof fn lemma_year_length(year: int)
    ensures
        days_before_year(year + 1) - days_before_year(year) == (if is_leap_year(year) {
            366int
        } else {
            365
        }),
        days_before_month(year, 12) + 31 == days_before_year(year + 1) - days_before_year(year),
{
    lemma_months_of_a_year(year);
    lemma_leap_cycle(year);
    lemma_count_of_multiples(year, 4);
    lemma_count_of_multiples(year, 100);
    lemma_count_of_multiples(year, 400);
}

proof fn lemma_years_add_up(a: int, b: int)
    requires
        a <= b,
    ensures
        days_before_year(a) <= days_before_year(b),
    decreases b - a,
{
    if a < b {
        lemma_years_add_up(a, b - 1);
        lemma_year_length(b - 1);
    }
}

proof fn lemma_months_add_up(year: int, a: int, b: int)
    requires
        1 <= a < b,
    ensures
        days_before_month(year, a) + days_in_month(year, a) <= days_before_month(year, b),
    decreases b - a,
{
    if a + 1 < b {
        lemma_months_add_up(year, a, b - 1);
    }
}

/// Where a date falls within its year.
proof fn lemma_day_of_year(d: CivilDate)
    requires
        d.is_valid(),
    ensures
        0 <= days_before_month(d.year as int, d.month as int) + d.day - 1 < days_before_year(
            d.year + 1,
        ) - days_before_year(d.year as int),
{
    let y = d.year as int;
    let m = d.month as int;
    lemma_year_length(y);
    if m < 12 {
        lemma_months_add_up(y, m, 12);
    }
    if m > 1 {
        lemma_months_add_up(y, 1, m);
    }
}

/// Day numbers count dates in order: an earlier date has a smaller number.
pub proof fn law_day_numbers_follow_the_calendar(a: CivilDate, b: CivilDate)
    requires
        a.is_valid(),
        b.is_valid(),
    ensures
        a.precedes(b) <==> a.day_number() < b.day_number(),
        a == b <==> a.day_number() == b.day_number(),
{
    if a.precedes(b) {
        lemma_precedes_is_smaller(a, b);
    } else if b.precedes(a) {
        lemma_precedes_is_smaller(b, a);
    }
}

proof fn lemma_precedes_is_smaller(a: CivilDate, b: CivilDate)
    requires
        a.is_valid(),
        b.is_valid(),
        a.precedes(b),
    ensures
        a.day_number() < b.day_number(),
{
    lemma_day_of_year(a);
    lemma_day_of_year(b);
    if a.year < b.year {
        lemma_years_add_up(a.year + 1, b.year as int);
    } else if a.month < b.month {
        lemma_months_add_up(a.year as int, a.month as int, b.month as int);
    }
}

/// The day after `d`.
spec fn next_date(d: CivilDate) -> CivilDate {
    if d.day < days_in_month(d.year as int, d.month as int) {
        CivilDate { year: d.year, month: d.month, day: (d.day + 1) as u32 }
    } else if d.month < 12 {
        CivilDate { year: d.year, month: (d.month + 1) as u32, day: 1 }
    } else {
        CivilDate { year: (d.year + 1) as i32, month: 1, day: 1 }
    }
}

/// The day before `d`.
spec fn previous_date(d: CivilDate) -> CivilDate {
    if d.day > 1 {
        CivilDate { year: d.year, month: d.month, day: (d.day - 1) as u32 }
    } else if d.month > 1 {
        CivilDate {
            year: d.year,
            month: (d.month - 1) as u32,
            day: days_in_month(d.year as int, d.month - 1) as u32,
        }
    } else {
        CivilDate { year: (d.year - 1) as i32, month: 12, day: 31 }
    }
}

/// Every day number belongs to a date.
proof fn lemma_every_day_has_a_date(n: int) -> (d: CivilDate)
    requires
        within_calendar(n),
    ensures
        d.is_valid(),
        d.day_number() == n,
        n >= 0 ==> 1970 <= d.year <= 1970 + n,
        n <= 0 ==> 1970 + n <= d.year <= 1970,
    decreases
            if n >= 0 {
                n
            } else {
                -n
            },
{
    let epoch = CivilDate { year: 1970, month: 1, day: 1 };
    if n == 0 {
        epoch
    } else if n > 0 {
        let d = lemma_every_day_has_a_date(n - 1);
        let y = d.year as int;
        lemma_year_length(y);
        next_date(d)
    } else {
        let d = lemma_every_day_has_a_date(n + 1);
        let y = d.year as int;
        lemma_year_length(y - 1);
        previous_date(d)
    }
}

/// The calendar goes on day by day: the day after the last of a month is the
/// first of the next one, and each day counts one more than the day before.
pub proof fn law_days_follow_one_another(date: CivilDate, next: CivilDate)
    requires
        date.is_valid(),
        ({
            let last = if date.month == 4 || date.month == 6 || date.month == 9 || date.month
                == 11 {
                30int
            } else if date.month != 2 {
                31
            } else if date.year as int % 4 == 0 && (date.year as int % 100 != 0 || date.year as int
                % 400 == 0) {
                29
            } else {
                28
            };
            if date.day < last {
                next.year == date.year && next.month == date.month && next.day == date.day + 1
            } else if date.month < 12 {
                next.year == date.year && next.month == date.month + 1 && next.day == 1
            } else {
                next.year == date.year + 1 && next.month == 1 && next.day == 1
            }
        }),
    ensures
        next.is_valid(),
        next.day_number() == date.day_number() + 1,
        (CivilDate { year: 1970, month: 1, day: 1 }).day_number() == 0,
{
    lemma_year_length(date.year as int);
}

/// A day number names exactly one date.
pub proof fn law_civil_date(n: int)
    requires
        within_calendar(n),
    ensures
        civil_date(n).is_valid(),
        civil_date(n).day_number() == n,
        forall|d: CivilDate|
            d.is_valid() && #[trigger] d.day_number() == n ==> d == civil_date(n),
{
    let d = lemma_every_day_has_a_date(n);
    assert(d.is_valid() && d.day_number() == n);
    assert forall|d: CivilDate| d.is_valid() && #[trigger] d.day_number() == n implies d
        == civil_date(n) by {
        law_day_numbers_follow_the_calendar(d, civil_date(n));
    }
}

proof fn lemma_zero_padded_is_injective(a: nat, b: nat, width: nat)
    requires
        zero_padded(a, width) == zero_padded(b, width),
    ensures
        a == b,
    decreases a, width,
{
    let ta = zero_padded(a, width);
    let tb = zero_padded(b, width);
    if (a == 0 && width == 0) || (b == 0 && width == 0) {
        assert(ta.len() == tb.len());
    } else {
        let rest: nat = if width > 0 {
            (width - 1) as nat
        } else {
            0
        };
        assert(ta.last() == digit_char((a % 10) as int));
        assert(tb.last() == digit_char((b % 10) as int));
        assert(ta.drop_last() =~= zero_padded(a / 10, rest));
        assert(tb.drop_last() =~= zero_padded(b / 10, rest));
        lemma_zero_padded_is_injective(a / 10, b / 10, rest);
    }
}

pub open spec fn is_digit(c: char) -> bool {
    '0' <= c <= '9'
}

proof fn lemma_zero_padded_shape(n: nat, width: nat)
    ensures
        zero_padded(n, width).len() >= width,
        forall|i: int|
            0 <= i < zero_padded(n, width).len() ==> is_digit(#[trigger] zero_padded(n, width)[i]),
    decreases n, width,
{
    if n != 0 || width != 0 {
        let rest: nat = if width > 0 {
            (width - 1) as nat
        } else {
            0
        };
        lemma_zero_padded_shape(n / 10, rest);
    }
}

proof fn lemma_two_digits(n: nat)
    requires
        n < 100,
    ensures
        zero_padded(n, 2).len() == 2,
{
    reveal_with_fuel(zero_padded, 3);
}

proof fn lemma_year_text_is_injective(a: int, b: int)
    requires
        year_text(a) == year_text(b),
    ensures
        a == b,
{
    let na = (if a < 0 { -a } else { a }) as nat;
    let nb = (if b < 0 { -b } else { b }) as nat;
    lemma_zero_padded_shape(na, 4);
    lemma_zero_padded_shape(nb, 4);
    assert(is_digit(zero_padded(na, 4)[0]));
    assert(is_digit(zero_padded(nb, 4)[0]));
    assert(a < 0 <==> year_text(a)[0] == '-');
    assert(b < 0 <==> year_text(b)[0] == '-');
    assert(a > 9999 <==> year_text(a)[0] == '+');
    assert(b > 9999 <==> year_text(b)[0] == '+');
    if 0 <= a <= 9999 {
        lemma_zero_padded_is_injective(na, nb, 4);
    } else {
        assert(year_text(a).drop_first() =~= zero_padded(na, 4));
        assert(year_text(b).drop_first() =~= zero_padded(nb, 4));
        lemma_zero_padded_is_injective(na, nb, 4);
    }
}

/// The text of a date tells the date: no two dates share one.
pub proof fn law_date_text_is_injective(a: CivilDate, b: CivilDate)
    requires
        a.is_valid(),
        b.is_valid(),
    ensures
        date_text(a) == date_text(b) <==> a == b,
{
    if date_text(a) == date_text(b) {
        let t = date_text(a);
        let n = t.len() as int;
        lemma_two_digits(a.month as nat);
        lemma_two_digits(a.day as nat);
        lemma_two_digits(b.month as nat);
        lemma_two_digits(b.day as nat);
        assert(t.subrange(n - 2, n) =~= zero_padded(a.day as nat, 2));
        assert(t.subrange(n - 2, n) =~= zero_padded(b.day as nat, 2));
        assert(t.subrange(n - 5, n - 3) =~= zero_padded(a.month as nat, 2));
        assert(t.subrange(n - 5, n - 3) =~= zero_padded(b.month as nat, 2));
        assert(t.subrange(0, n - 6) =~= year_text(a.year as int));
        assert(t.subrange(0, n - 6) =~= year_text(b.year as int));
        lemma_zero_padded_is_injective(a.day as nat, b.day as nat, 2);
        lemma_zero_padded_is_injective(a.month as nat, b.month as nat, 2);
        lemma_year_text_is_injective(a.year as int, b.year as int);
    }
}

/// A date of the years 0 to 9999 reads as four digits, two digits and two
/// digits, with a hyphen between them.
pub proof fn law_date_text_shape(d: CivilDate)
    requires
        d.is_valid(),
        0 <= d.year <= 9999,
    ensures
        date_text(d).len() == 10,
        date_text(d)[4] == '-',
        date_text(d)[7] == '-',
        forall|i: int|
            0 <= i < 10 && i != 4 && i != 7 ==> is_digit(#[trigger] date_text(d)[i]),
        date_text(d).subrange(0, 4) == zero_padded(d.year as nat, 4),
        date_text(d).subrange(5, 7) == zero_padded(d.month as nat, 2),
        date_text(d).subrange(8, 10) == zero_padded(d.day as nat, 2),
{
    let y = zero_padded(d.year as nat, 4);
    let m = zero_padded(d.month as nat, 2);
    let n = zero_padded(d.day as nat, 2);
    assert(y.len() == 4) by {
        reveal_with_fuel(zero_padded, 5);
    }
    lemma_two_digits(d.month as nat);
    lemma_two_digits(d.day as nat);
    lemma_zero_padded_shape(d.year as nat, 4);
    lemma_zero_padded_shape(d.month as nat, 2);
    lemma_zero_padded_shape(d.day as nat, 2);
    let t = date_text(d);
    assert(t.subrange(0, 4) =~= y);
    assert(t.subrange(5, 7) =~= m);
    assert(t.subrange(8, 10) =~= n);
    assert forall|i: int| 0 <= i < 10 && i != 4 && i != 7 implies is_digit(#[trigger] t[i]) by {
        if i < 4 {
            assert(t[i] == y[i]);
        } else if i < 7 {
            assert(t[i] == m[i - 5]);
        } else {
            assert(t[i] == n[i - 8]);
        }
    }
}

} // verus!
