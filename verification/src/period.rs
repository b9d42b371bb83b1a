//! Recurrence periods: a count of days, hours, minutes or seconds.

use crate::error::{RunError, RunErrorView};
use crate::text::{
    all_digits, chars_of, decimal_digits, decimal_value, digit_of, is_digit,
    lemma_decimal_digits_value, lemma_decimal_value_grows,
};
use vstd::prelude::*;

verus! {

/// How often the program runs.
#[derive(Debug, Clone, Copy, PartialEq, Eq, Structural)]
pub enum Period {
    Day(u64),
    Hour(u64),
    Minute(u64),
    Second(u64),
}

/// Whether `c` names a unit: `d`, `h`, `m` or `s`.
pub open spec fn is_unit(c: char) -> bool {
    c == 'd' || c == 'h' || c == 'm' || c == 's'
}

/// Whether `token` is written as a period is: one decimal digit or more,
/// then one unit letter, and nothing before, between or after.
pub open spec fn is_period_token(token: Seq<char>) -> bool {
    &&& token.len() >= 2
    &&& all_digits(token.drop_last())
    &&& is_unit(token.last())
}

/// The period of `count` units, the unit named by its letter.
pub open spec fn period_of(unit: char, count: u64) -> Period {
    if unit == 'd' {
        Period::Day(count)
    } else if unit == 'h' {
        Period::Hour(count)
    } else if unit == 'm' {
        Period::Minute(count)
    } else {
        Period::Second(count)
    }
}

/// What `token` means: the period it spells, or `None` where it is
/// not written as a period is or its number does not fit in 64 bits.
pub open spec fn parse_period(token: Seq<char>) -> Option<Period> {
    if is_period_token(token) && decimal_value(token.drop_last()) <= u64::MAX {
        Some(period_of(token.last(), decimal_value(token.drop_last()) as u64))
    } else {
        None
    }
}

impl Period {
    /// The number in front of the unit.
    pub open spec fn count(self) -> nat {
        match self {
            Period::Day(n) => n as nat,
            Period::Hour(n) => n as nat,
            Period::Minute(n) => n as nat,
            Period::Second(n) => n as nat,
        }
    }

    /// How many seconds one unit lasts.
    pub open spec fn unit_seconds(self) -> nat {
        match self {
            Period::Day(_) => 86400,
            Period::Hour(_) => 3600,
            Period::Minute(_) => 60,
            Period::Second(_) => 1,
        }
    }

    /// The length of the period in seconds, as a mathematical integer.
    pub open spec fn seconds(self) -> nat {
        self.count() * self.unit_seconds()
    }

    /// The length of the period in seconds.
    ///
    /// The caller has to know that the result fits in 64 bits;
    /// `checked_seconds` finds that out.
    pub fn to_seconds(&self) -> (secs: u64)
        requires
            self.seconds() <= u64::MAX,
        ensures
            secs == self.seconds(),
    {
        match self {
            Period::Day(days) => 86400 * *days,
            Period::Hour(hours) => 3600 * *hours,
            Period::Minute(mins) => 60 * *mins,
            Period::Second(secs) => *secs,
        }
    }

    /// Reads a period such as `1d` or `30m`.
    ///
    /// Anything else is refused, and the error holds what was given.
    pub fn from_str(token: &str) -> (parsed: Result<Period, RunError>)
        ensures
            parsed is Ok <==> is_period_token(token@) && decimal_value(token@.drop_last())
                <= u64::MAX,
            match parsed {
                Ok(period) => parse_period(token@) == Some(period),
                Err(e) => parse_period(token@) is None && e@ == RunErrorView::InvalidPeriod(
                    token@,
                ),
            },
    {
        let chars = chars_of(token);
        let len: usize = chars.len();
        if len < 2 {
            return Err(RunError::InvalidPeriod(token.to_owned()));
        }
        let unit: char = chars[len - 1];
        if !(unit == 'd' || unit == 'h' || unit == 'm' || unit == 's') {
            return Err(RunError::InvalidPeriod(token.to_owned()));
        }
        let ghost digits = chars@.drop_last();
        let mut count: u64 = 0;
        let mut i: usize = 0;
        while i < len - 1
            invariant
                len == chars@.len(),
                len >= 2,
                i <= len - 1,
                chars@ == token@,
                digits == chars@.drop_last(),
                all_digits(digits.take(i as int)),
                count == decimal_value(digits.take(i as int)),
            decreases len - 1 - i,
        {
            let ghost longer = digits.take(i + 1);
            assert(longer.drop_last() =~= digits.take(i as int));
            let next: Option<u64> = match digit_of(chars[i]) {
                Some(d) => match count.checked_mul(10) {
                    Some(tens) => tens.checked_add(d as u64),
                    None => None,
                },
                None => {
                    assert(!is_digit(digits[i as int]));
                    return Err(RunError::InvalidPeriod(token.to_owned()));
                },
            };
            match next {
                Some(n) => {
                    count = n;
                },
                None => {
                    proof {
                        lemma_decimal_value_grows(digits, i + 1);
                    }
                    return Err(RunError::InvalidPeriod(token.to_owned()));
                },
            }
            i += 1;
        }
        assert(digits.take(i as int) =~= digits);
        Ok(
            if unit == 'd' {
                Period::Day(count)
            } else if unit == 'h' {
                Period::Hour(count)
            } else if unit == 'm' {
                Period::Minute(count)
            } else {
                Period::Second(count)
            },
        )
    }

    /// The length of the period in seconds, or `None` where that number does
    /// not fit in 64 bits.
    pub fn checked_seconds(&self) -> (secs: Option<u64>)
        ensures
            secs == (if self.seconds() <= u64::MAX {
                Some(self.seconds() as u64)
            } else {
                None
            }),
    {
        match self {
            Period::Day(days) => days.checked_mul(86400),
            Period::Hour(hours) => hours.checked_mul(3600),
            Period::Minute(mins) => mins.checked_mul(60),
            Period::Second(secs) => Some(*secs),
        }
    }
}

/// How many seconds the unit lasts that `unit` names.
pub open spec fn unit_seconds_of(unit: char) -> nat {
    if unit == 'd' {
        86400
    } else if unit == 'h' {
        3600
    } else if unit == 'm' {
        60
    } else {
        1
    }
}

/// Parsing keeps the length. A token that is written as a period is, and
/// whose number fits in 64 bits, is read as a period, and that period lasts
/// the number times the seconds of the unit: 86400 for `d`, 3600 for `h`,
/// 60 for `m`, 1 for `s`.
pub proof fn law_parsed_seconds(token: Seq<char>)
    requires
        is_period_token(token),
        decimal_value(token.drop_last()) <= u64::MAX,
    ensures
        parse_period(token) is Some,
        parse_period(token)->0.count() == decimal_value(token.drop_last()),
        parse_period(token)->0.unit_seconds() == unit_seconds_of(token.last()),
        parse_period(token)->0.seconds() == decimal_value(token.drop_last()) * unit_seconds_of(
            token.last(),
        ),
{
}

/// Nothing else is a period: a text that is empty, that has no digit or
/// another character among its digits, that ends in no unit, or that goes
/// on behind its unit, is refused.
pub proof fn law_other_text_refused(token: Seq<char>)
    requires
        !is_period_token(token),
    ensures
        parse_period(token) is None,
{
}

/// A period that is written out in digits and a unit letter is read back as
/// the same period.
pub proof fn law_written_period_reads_back(count: u64, unit: char)
    requires
        is_unit(unit),
    ensures
        parse_period(decimal_digits(count as nat).push(unit)) == Some(period_of(unit, count)),
{
    let token = decimal_digits(count as nat).push(unit);
    lemma_decimal_digits_value(count as nat);
    assert(token.drop_last() =~= decimal_digits(count as nat));
}

} // verus!
