//! Calendar dates, counted in days from 1 January of year 0.

use vstd::prelude::*;
use vstd::arithmetic::div_mod::lemma_div_is_ordered;

verus! {

/// The last year that a date can fall in.
pub const MAX_YEAR: u32 = 5_000_000;

/// The day count of 31 December of [`MAX_YEAR`].
pub const MAX_DAY: u32 = 1_826_212_865;

/// Year `y` has a 29th of February.
pub open spec fn is_leap(y: int) -> bool {
    y % 4 == 0 && (y % 100 != 0 || y % 400 == 0)
}

/// The number of leap years before year `y`.
pub open spec fn leap_years_till(y: int) -> int {
    if y <= 0 {
        0
    } else {
        (y - 1) / 4 - (y - 1) / 100 + (y - 1) / 400 + 1
    }
}

/// The day count of 1 January of year `y`.
pub open spec fn days_till(y: int) -> int {
    365 * y + leap_years_till(y)
}

/// The number of days in year `y`.
pub open spec fn year_length(y: int) -> int {
    if is_leap(y) {
        366
    } else {
        365
    }
}

/// The number of days in month `m` (0 to 11) of year `y`.
pub open spec fn month_length(y: int, m: int) -> int {
    if m == 1 {
        if is_leap(y) {
            29
        } else {
            28
        }
    } else if m == 3 || m == 5 || m == 8 || m == 10 {
        30
    } else {
        31
    }
}

/// The days before month `m` in a leap year.
pub open spec fn accumulated(m: int) -> int {
    if m <= 0 {
        0
    } else if m == 1 {
        31
    } else if m == 2 {
        60
    } else if m == 3 {
        91
    } else if m == 4 {
        121
    } else if m == 5 {
        152
    } else if m == 6 {
        182
    } else if m == 7 {
        213
    } else if m == 8 {
        244
    } else if m == 9 {
        274
    } else if m == 10 {
        305
    } else {
        335
    }
}

/// The days before month `m` in year `y`.
pub open spec fn month_start(y: int, m: int) -> int {
    accumulated(m) - if !is_leap(y) && m >= 2 {
        1int
    } else {
        0int
    }
}

/// `(y, m, d)` names a day: year `y` up to [`MAX_YEAR`], month `m` from 0
/// to 11 and day `d` from 1.
pub open spec fn valid_ymd(y: int, m: int, d: int) -> bool {
    0 <= y <= MAX_YEAR && 0 <= m <= 11 && 1 <= d <= month_length(y, m)
}

/// The day count of day `d` of month `m` of year `y`.
pub open spec fn day_count(y: int, m: int, d: int) -> int {
    days_till(y) + month_start(y, m) + d - 1
}

proof fn lemma_next_year(y: int)
    requires
        y >= 0,
    ensures
        days_till(y + 1) == days_till(y) + year_length(y),
{
    if y > 0 {
        assert(leap_years_till(y + 1) - leap_years_till(y) == if is_leap(y) { 1int } else { 0 });
    }
}

proof fn lemma_days_till_grows(a: int, b: int)
    requires
        0 <= a <= b,
    ensures
        days_till(b) - days_till(a) >= 365 * (b - a),
    decreases b - a,
{
    if a < b {
        lemma_days_till_grows(a, b - 1);
        lemma_next_year(b - 1);
    }
}

proof fn lemma_max_day()
    ensures
        MAX_DAY == days_till(MAX_YEAR + 1) - 1,
{
}

proof fn lemma_months(y: int)
    ensures
        forall|m: int|
            0 <= m < 11 ==> #[trigger] month_start(y, m + 1) == month_start(y, m) + month_length(
                y,
                m,
            ),
        month_start(y, 11) + month_length(y, 11) == year_length(y),
        month_start(y, 0) == 0,
{
}

proof fn lemma_day_count_bound(y: int, m: int, d: int)
    requires
        valid_ymd(y, m, d),
    ensures
        days_till(y) <= day_count(y, m, d) < days_till(y + 1),
        day_count(y, m, d) <= MAX_DAY,
{
    lemma_months(y);
    lemma_next_year(y);
    lemma_days_till_grows(y + 1, MAX_YEAR + 1);
    lemma_max_day();
    assert(month_start(y, m) + month_length(y, m) <= year_length(y)) by {
        if m < 11 {
            assert forall|k: int| m <= k <= 11 implies month_start(y, k) + month_length(y, k)
                <= year_length(y) by {
                lemma_month_end(y, k);
            }
        }
    }
}

proof fn lemma_month_end(y: int, m: int)
    requires
        0 <= m <= 11,
    ensures
        month_start(y, m) + month_length(y, m) <= year_length(y),
    decreases 11 - m,
{
    lemma_months(y);
    if m < 11 {
        lemma_month_end(y, m + 1);
    }
}

/// The day count of 1 January of year `y`.
fn days_till_year(y: u64) -> (r: u64)
    requires
        y <= 6_000_000,
    ensures
        r == days_till(y as int),
{
    if y == 0 {
        0
    } else {
        365 * y + (y - 1) / 4 - (y - 1) / 100 + (y - 1) / 400 + 1
    }
}

/// The days before month `month` in a leap year.
fn accumulated_days_for_month(month: u32) -> (r: Result<u32, DateError>)
    ensures
        month <= 11 ==> r == Ok::<u32, DateError>(accumulated(month as int) as u32),
        month > 11 ==> r == Err::<u32, DateError>(DateError::MonthOutOfRange { month }),
{
    match month {
        0 => Ok(0),
        1 => Ok(31),
        2 => Ok(60),
        3 => Ok(91),
        4 => Ok(121),
        5 => Ok(152),
        6 => Ok(182),
        7 => Ok(213),
        8 => Ok(244),
        9 => Ok(274),
        10 => Ok(305),
        11 => Ok(335),
        _ => Err(DateError::MonthOutOfRange { month }),
    }
}

/// Why a date cannot be made.
#[derive(Debug, Clone, Copy, PartialEq, Eq, Structural)]
pub enum DateError {
    DateOutOfRange { date: u32 },
    DayOutOfRange { day: u32, month: u32, year: u32 },
    MonthOutOfRange { month: u32 },
    YearOutOfRange { year: u32 },
}

/// A date, as the number of days since 1 January of year 0.
#[derive(Debug, Clone, Copy, PartialEq, Eq, Structural)]
pub struct Date(u32);

impl Date {
    /// The day count of the date.
    pub closed spec fn days(&self) -> u32 {
        self.0
    }

    #[verifier::type_invariant]
    spec fn in_range(&self) -> bool {
        self.0 <= MAX_DAY
    }

    /// The day count of the date.
    pub fn to_openttd_date(&self) -> (r: u32)
        ensures
            r == self.days(),
            r <= MAX_DAY,
    {
        proof {
            use_type_invariant(self);
        }
        self.0
    }

    /// The date whose day count is `date`, where it lies in range.
    pub fn from_openttd_date(date: u32) -> (r: Result<Date, DateError>)
        ensures
            date <= MAX_DAY ==> (r matches Ok(d) && d.days() == date),
            date > MAX_DAY ==> r == Err::<Date, DateError>(DateError::DateOutOfRange { date }),
    {
        if date > MAX_DAY {
            Err(DateError::DateOutOfRange { date })
        } else {
            Ok(Date(date))
        }
    }

    /// Whether year `yr` is a leap year.
    fn is_leap_year(yr: u32) -> (r: bool)
        ensures
            r == is_leap(yr as int),
    {
        yr % 4 == 0 && (yr % 100 != 0 || yr % 400 == 0)
    }

    /// The number of days in year `yr`.
    fn days_in_year(yr: u32) -> (r: u32)
        ensures
            r == year_length(yr as int),
    {
        if Date::is_leap_year(yr) {
            366
        } else {
            365
        }
    }

    /// The number of days in month `month` of year `year`.
    fn days_in_month(year: u32, month: u32) -> (r: Result<u32, DateError>)
        ensures
            month <= 11 ==> r == Ok::<u32, DateError>(
                month_length(year as int, month as int) as u32,
            ),
            month > 11 ==> r == Err::<u32, DateError>(DateError::MonthOutOfRange { month }),
    {
        match month {
            0 => Ok(31),
            1 => {
                if Date::is_leap_year(year) {
                    Ok(29)
                } else {
                    Ok(28)
                }
            },
            2 => Ok(31),
            3 => Ok(30),
            4 => Ok(31),
            5 => Ok(30),
            6 => Ok(31),
            7 => Ok(31),
            8 => Ok(30),
            9 => Ok(31),
            10 => Ok(30),
            11 => Ok(31),
            _ => Err(DateError::MonthOutOfRange { month }),
        }
    }

    /// The year, month (0 to 11) and day (from 1) of the date.
    pub fn to_ymd(&self) -> (r: (u32, u32, u32))
        ensures
            valid_ymd(r.0 as int, r.1 as int, r.2 as int),
            day_count(r.0 as int, r.1 as int, r.2 as int) == self.days(),
    {
        let days = self.to_openttd_date() as u64;
        proof {
            lemma_max_day();
            lemma_div_is_ordered(days * 400, MAX_DAY as int * 400, 146097);
        }
        // A first guess from the mean length of a year, then a correction.
        let mut yr: u64 = days * 400 / 146097;
        while days_till_year(yr) > days
            invariant
                yr <= 5_000_001,
                days <= MAX_DAY,
            decreases yr,
        {
            yr = yr - 1;
        }
        loop
            invariant
                yr <= MAX_YEAR,
                days_till(yr as int) <= days,
                days <= MAX_DAY,
            ensures
                yr <= MAX_YEAR,
                days_till(yr as int) <= days < days_till(yr + 1),
            decreases days - days_till(yr as int),
        {
            proof {
                lemma_next_year(yr as int);
                lemma_max_day();
                if yr + 1 > MAX_YEAR {
                    lemma_days_till_grows(MAX_YEAR + 1, yr + 1);
                }
            }
            if days_till_year(yr + 1) > days {
                break;
            }
            proof {
                if yr + 1 > MAX_YEAR {
                    lemma_days_till_grows(MAX_YEAR + 1, yr + 1);
                }
            }
            yr = yr + 1;
        }
        let year = yr as u32;
        let rem = (days - days_till_year(yr)) as u32;
        proof {
            lemma_next_year(yr as int);
            lemma_months(yr as int);
        }
        let mut month: u32 = 11;
        loop
            invariant
                month <= 11,
                rem < year_length(year as int),
                month == 11 || month_start(year as int, month + 1) > rem,
                year == yr,
                yr <= MAX_YEAR,
                days == self.days(),
                rem == days - days_till(yr as int),
            decreases month,
        {
            let start = accumulated_days_for_month(month).unwrap() - if !Date::is_leap_year(year)
                && month >= 2 {
                1
            } else {
                0
            };
            assert(start == month_start(year as int, month as int));
            if start <= rem {
                let day = rem - start + 1;
                assert(valid_ymd(year as int, month as int, day as int));
                return (year, month, day);
            }
            month = month - 1;
        }
    }

    /// The date of day `day` (from 1) of month `month` (0 to 11) of year
    /// `year` (0 to [`MAX_YEAR`]).
    pub fn from_ymd(year: u32, month: u32, day: u32) -> (r: Result<Date, DateError>)
        ensures
            year > MAX_YEAR ==> r == Err::<Date, DateError>(DateError::YearOutOfRange { year }),
            year <= MAX_YEAR && month > 11 ==> r == Err::<Date, DateError>(
                DateError::MonthOutOfRange { month },
            ),
            year <= MAX_YEAR && month <= 11 && (day == 0 || day > month_length(
                year as int,
                month as int,
            )) ==> r == Err::<Date, DateError>(DateError::DayOutOfRange { day, month, year }),
            valid_ymd(year as int, month as int, day as int) ==> (r matches Ok(d) && d.days()
                == day_count(year as int, month as int, day as int)),
    {
        if year > MAX_YEAR {
            return Err(DateError::YearOutOfRange { year });
        } else if month > 11 {
            return Err(DateError::MonthOutOfRange { month });
        } else if day == 0 || day > Date::days_in_month(year, month).unwrap() {
            return Err(DateError::DayOutOfRange { year, month, day });
        }
        // Day-offset in a leap year.
        let mut days = accumulated_days_for_month(month).unwrap() + day - 1;
        // Account for the missing 29th of February in non-leap years.
        if !Date::is_leap_year(year) && days >= 60 {
            days = days - 1;
        }
        proof {
            lemma_day_count_bound(year as int, month as int, day as int);
        }
        let total = days_till_year(year as u64) + days as u64;
        Ok(Date(total as u32))
    }
}

} // verus!
