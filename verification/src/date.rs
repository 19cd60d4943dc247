//! Calendar dates in the proleptic Gregorian calendar, with the day
//! arithmetic the weekly journal needs: day numbers, weekdays, and the
//! Monday that starts a date's week.

use vstd::prelude::*;

verus! {

/// A calendar date.  The journal supports years 1 through 9999, which keeps
/// every path a fixed-width `YYYY/MM-DD` form.
#[derive(Clone, Copy, Debug, PartialEq, Eq, Structural)]
pub struct Date {
    pub year: u16,
    pub month: u8,
    pub day: u8,
}

/// Gregorian leap year rule.
pub open spec fn is_leap(y: int) -> bool {
    y % 4 == 0 && (y % 100 != 0 || y % 400 == 0)
}

/// Length of a month, 1-based.
pub open spec fn days_in_month(y: int, m: int) -> int {
    if m == 2 {
        if is_leap(y) {
            29
        } else {
            28
        }
    } else if m == 4 || m == 6 || m == 9 || m == 11 {
        30
    } else {
        31
    }
}

/// Length of a year.
pub open spec fn days_in_year(y: int) -> int {
    if is_leap(y) {
        366
    } else {
        365
    }
}

/// Days in year `y` that fall before the first of month `m`.
pub open spec fn days_before_month(y: int, m: int) -> int
    decreases m,
{
    if m <= 1 {
        0
    } else {
        days_before_month(y, m - 1) + days_in_month(y, m - 1)
    }
}

/// Days that fall before January 1st of year `y`, counted from year 1.
pub open spec fn days_before_year(y: int) -> int
    decreases y,
{
    if y <= 1 {
        0
    } else {
        days_before_year(y - 1) + days_in_year(y - 1)
    }
}

impl Date {
    /// A well-formed, supported date.
    pub open spec fn wf(&self) -> bool {
        &&& 1 <= self.year <= 9999
        &&& 1 <= self.month <= 12
        &&& 1 <= self.day <= days_in_month(self.year as int, self.month as int)
    }

    /// The date's day number: days elapsed since January 1st of year 1,
    /// which was a Monday.
    pub open spec fn day_number(&self) -> int {
        days_before_year(self.year as int) + days_before_month(self.year as int, self.month as int)
            + self.day - 1
    }

    /// Days since the Monday of this date's week: 0 for a Monday, 6 for a
    /// Sunday.
    pub open spec fn weekday_offset(&self) -> int {
        self.day_number() % 7
    }
}

/// Two dates fall in the same Monday-to-Sunday week.
pub open spec fn same_week(a: Date, b: Date) -> bool {
    a.day_number() / 7 == b.day_number() / 7
}

/// The sum of the twelve month lengths is the year's length.
proof fn lemma_months_fill_year(y: int)
    ensures
        days_before_month(y, 13) == days_in_year(y),
{
    reveal_with_fuel(days_before_month, 13);
}

/// Month lengths are between 28 and 31 days.
proof fn lemma_days_in_month_bounds(y: int, m: int)
    ensures
        28 <= days_in_month(y, m) <= 31,
{
}

/// `days_before_month` grows with the month, by at least 28 days a month.
proof fn lemma_days_before_month_mono(y: int, a: int, b: int)
    requires
        1 <= a <= b,
    ensures
        days_before_month(y, a) + 28 * (b - a) <= days_before_month(y, b),
    decreases b - a,
{
    if a < b {
        lemma_days_before_month_mono(y, a, b - 1);
        lemma_days_in_month_bounds(y, b - 1);
        assert(days_before_month(y, b) == days_before_month(y, b - 1) + days_in_month(y, b - 1));
        assert(28 * (b - a) == 28 * (b - 1 - a) + 28) by (nonlinear_arith);
    }
}

/// `days_before_year` grows with the year, by at least 365 days a year.
proof fn lemma_days_before_year_mono(a: int, b: int)
    requires
        1 <= a <= b,
    ensures
        days_before_year(a) + 365 * (b - a) <= days_before_year(b),
    decreases b - a,
{
    if a < b {
        lemma_days_before_year_mono(a, b - 1);
        assert(days_before_year(b) == days_before_year(b - 1) + days_in_year(b - 1));
        assert(365 * (b - a) == 365 * (b - 1 - a) + 365) by (nonlinear_arith);
    }
}

/// A bound used to rule out arithmetic overflow: day numbers of supported
/// dates fit comfortably in 32 bits.
proof fn lemma_days_before_year_upper(y: int)
    requires
        y >= 1,
    ensures
        days_before_year(y) <= 366 * (y - 1),
    decreases y,
{
    if y > 1 {
        lemma_days_before_year_upper(y - 1);
    }
}

/// The day of the year lies strictly inside the year's length.
proof fn lemma_day_of_year_range(d: Date)
    requires
        d.wf(),
    ensures
        0 <= days_before_month(d.year as int, d.month as int) + d.day - 1 < days_in_year(
            d.year as int,
        ),
{
    lemma_days_before_month_mono(d.year as int, 1, d.month as int);
    lemma_days_before_month_mono(d.year as int, d.month as int + 1, 13);
    lemma_months_fill_year(d.year as int);
    assert(days_before_month(d.year as int, d.month as int + 1) == days_before_month(
        d.year as int,
        d.month as int,
    ) + days_in_month(d.year as int, d.month as int));
}

/// Day numbers are non-negative.
proof fn lemma_day_number_nonneg(d: Date)
    requires
        d.wf(),
    ensures
        d.day_number() >= 0,
{
    lemma_days_before_year_mono(1, d.year as int);
    lemma_day_of_year_range(d);
}

/// The day number determines the date: no two well-formed dates share one.
pub proof fn lemma_day_number_injective(a: Date, b: Date)
    requires
        a.wf(),
        b.wf(),
        a.day_number() == b.day_number(),
    ensures
        a == b,
{
    lemma_day_of_year_range(a);
    lemma_day_of_year_range(b);
    if a.year != b.year {
        if a.year < b.year {
            lemma_days_before_year_mono(a.year as int + 1, b.year as int);
            assert(days_before_year(a.year as int + 1) == days_before_year(a.year as int)
                + days_in_year(a.year as int));
        } else {
            lemma_days_before_year_mono(b.year as int + 1, a.year as int);
            assert(days_before_year(b.year as int + 1) == days_before_year(b.year as int)
                + days_in_year(b.year as int));
        }
    }
    assert(a.year == b.year);
    if a.month != b.month {
        let y = a.year as int;
        if a.month < b.month {
            lemma_days_before_month_mono(y, a.month as int + 1, b.month as int);
            assert(days_before_month(y, a.month as int + 1) == days_before_month(
                y,
                a.month as int,
            ) + days_in_month(y, a.month as int));
        } else {
            lemma_days_before_month_mono(y, b.month as int + 1, a.month as int);
            assert(days_before_month(y, b.month as int + 1) == days_before_month(
                y,
                b.month as int,
            ) + days_in_month(y, b.month as int));
        }
    }
    assert(a.month == b.month);
    assert(a.day == b.day);
}

impl Date {
    /// Whether the year is a leap year.
    pub fn leap(y: u16) -> (r: bool)
        ensures
            r == is_leap(y as int),
    {
        y % 4 == 0 && (y % 100 != 0 || y % 400 == 0)
    }

    /// The length of month `m` of year `y`.
    pub fn month_len(y: u16, m: u8) -> (r: u8)
        ensures
            r == days_in_month(y as int, m as int),
    {
        if m == 2 {
            if Self::leap(y) {
                29
            } else {
                28
            }
        } else if m == 4 || m == 6 || m == 9 || m == 11 {
            30
        } else {
            31
        }
    }

    /// The length of year `y`.
    fn year_len(y: u16) -> (r: u16)
        ensures
            r == days_in_year(y as int),
    {
        if Self::leap(y) {
            366
        } else {
            365
        }
    }

    /// Days elapsed since January 1st of year 1.
    pub fn to_day_number(&self) -> (n: u32)
        requires
            self.wf(),
        ensures
            n == self.day_number(),
    {
        proof {
            lemma_days_before_year_upper(self.year as int);
            lemma_day_number_nonneg(*self);
        }
        let mut acc: u32 = 0;
        let mut y: u16 = 1;
        while y < self.year
            invariant
                1 <= y <= self.year <= 9999,
                acc == days_before_year(y as int),
                acc <= 366 * (y as int - 1),
            decreases self.year - y,
        {
            acc = acc + Self::year_len(y) as u32;
            y = y + 1;
        }
        let mut m: u8 = 1;
        while m < self.month
            invariant
                1 <= m <= self.month <= 12,
                self.year == y,
                acc == days_before_year(y as int) + days_before_month(y as int, m as int),
                days_before_year(y as int) <= 366 * 9998,
                days_before_month(y as int, m as int) <= 31 * (m as int - 1),
            decreases self.month - m,
        {
            acc = acc + Self::month_len(y, m) as u32;
            m = m + 1;
        }
        acc + self.day as u32 - 1
    }

    /// The date one day earlier.
    pub fn prev(&self) -> (r: Date)
        requires
            self.wf(),
            self.day_number() >= 1,
        ensures
            r.wf(),
            r.day_number() == self.day_number() - 1,
    {
        if self.day > 1 {
            Date { year: self.year, month: self.month, day: self.day - 1 }
        } else if self.month > 1 {
            let m = self.month - 1;
            Date { year: self.year, month: m, day: Self::month_len(self.year, m) }
        } else {
            proof {
                if self.year == 1 {
                    assert(self.day_number() == 0);
                }
                lemma_months_fill_year(self.year as int - 1);
            }
            Date { year: self.year - 1, month: 12, day: 31 }
        }
    }

    /// Days since the Monday of this date's week.
    pub fn days_since_monday(&self) -> (k: u8)
        requires
            self.wf(),
        ensures
            k == self.weekday_offset(),
            k <= 6,
    {
        (self.to_day_number() % 7) as u8
    }

    /// The Monday on or before this date: the canonical key for the weekly
    /// log file.
    pub fn start_of_week(&self) -> (r: Date)
        requires
            self.wf(),
        ensures
            r.wf(),
            r.day_number() == self.day_number() - self.weekday_offset(),
            r.weekday_offset() == 0,
            same_week(*self, r),
    {
        let k = self.days_since_monday();
        let mut cur: Date = *self;
        let mut t: u8 = 0;
        while t < k
            invariant
                t <= k,
                k == self.weekday_offset(),
                self.wf(),
                cur.wf(),
                cur.day_number() == self.day_number() - t,
            decreases k - t,
        {
            proof {
                lemma_day_number_nonneg(*self);
                vstd::arithmetic::div_mod::lemma_fundamental_div_mod(self.day_number(), 7);
                vstd::arithmetic::div_mod::lemma_div_pos_is_pos(self.day_number(), 7);
            }
            cur = cur.prev();
            t = t + 1;
        }
        proof {
            lemma_day_number_nonneg(*self);
            vstd::arithmetic::div_mod::lemma_fundamental_div_mod(self.day_number(), 7);
            let n = self.day_number();
            let s = n - n % 7;
            assert(s == 7 * (n / 7));
            vstd::arithmetic::div_mod::lemma_div_by_multiple(n / 7, 7);
            vstd::arithmetic::div_mod::lemma_mod_multiples_basic(n / 7, 7);
        }
        cur
    }
}

/// Any two dates of one week share their week's Monday, and so share the
/// weekly file: the path below is a function of that Monday alone.
pub proof fn lemma_same_week_same_start(a: Date, b: Date, sa: Date, sb: Date)
    requires
        a.wf(),
        b.wf(),
        same_week(a, b),
        sa.wf(),
        sb.wf(),
        sa.day_number() == a.day_number() - a.weekday_offset(),
        sb.day_number() == b.day_number() - b.weekday_offset(),
    ensures
        sa == sb,
{
    let na = a.day_number();
    let nb = b.day_number();
    vstd::arithmetic::div_mod::lemma_fundamental_div_mod(na, 7);
    vstd::arithmetic::div_mod::lemma_fundamental_div_mod(nb, 7);
    assert(sa.day_number() == 7 * (na / 7));
    assert(sb.day_number() == 7 * (nb / 7));
    lemma_day_number_injective(sa, sb);
}

} // verus!
