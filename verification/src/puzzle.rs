//! Puzzle identifiers and release gating.
//!
//! A puzzle is named by a day of December (1 to 25) and a year (2015 or
//! later). It is released at midnight, US Eastern time, on its day.

use crate::text::{i64_text, int_text, nat_text, u64_text};
use chrono::{Datelike, Timelike};
use vstd::prelude::*;
use vstd::string::*;

verus! {

/// Day of December on which a puzzle appears.
pub type PuzzleDay = u32;

/// Year of an event.
pub type PuzzleYear = i32;

/// The year of the first event.
pub const FIRST_YEAR: i32 = 2015;

/// The last day of an event.
pub const LAST_DAY: u32 = 25;

/// One of the two parts of a daily puzzle.
#[derive(Debug, Clone, Copy, PartialEq, Eq, Structural)]
pub enum Exercise {
    One,
    Two,
}

impl Exercise {
    /// The part as the remote site and the solution programs write it.
    pub open spec fn text(self) -> Seq<char> {
        match self {
            Exercise::One => seq!['1'],
            Exercise::Two => seq!['2'],
        }
    }

    /// The part as text: `1` or `2`.
    pub fn to_string(&self) -> (s: String)
        ensures
            s@ == self.text(),
    {
        proof {
            reveal_strlit("1");
            reveal_strlit("2");
        }
        let s = match self {
            Exercise::One => String::from_str("1"),
            Exercise::Two => String::from_str("2"),
        };
        assert(s@ =~= self.text());
        s
    }
}

/// A puzzle that cannot be had yet, or never will be.
#[derive(Debug, Clone, Copy, PartialEq, Eq, Structural)]
pub struct PuzzleNotReleasedError {
    pub day: PuzzleDay,
    pub year: PuzzleYear,
}

impl PuzzleNotReleasedError {
    /// The text of the message.
    pub open spec fn message_text(self) -> Seq<char> {
        "Puzzle for "@ + nat_text(self.day as nat) + " "@ + int_text(self.year as int)
            + " has not been released yet."@
    }

    /// The message shown to the user.
    pub fn message(&self) -> (s: String)
        ensures
            s@ == self.message_text(),
    {
        let mut s = String::from_str("Puzzle for ");
        let day = u64_text(self.day as u64);
        s.append(day.as_str());
        s.append(" ");
        let year = i64_text(self.year as i64);
        s.append(year.as_str());
        s.append(" has not been released yet.");
        s
    }
}

/// A moment of the civil calendar in the US Eastern time zone.
#[derive(Debug, Clone, Copy, PartialEq, Eq, Structural)]
pub struct EasternTime {
    pub year: i32,
    pub month: u32,
    pub day: u32,
    pub hour: u32,
    pub minute: u32,
    pub second: u32,
}

impl EasternTime {
    /// The fields are those of a calendar date and a time of day.
    pub open spec fn wf(self) -> bool {
        &&& 1 <= self.month <= 12
        &&& 1 <= self.day <= 31
        &&& self.hour < 24
        &&& self.minute < 60
        &&& self.second < 60
    }

    /// Whether this moment is midnight of the given day of December of
    /// `year`, or later.
    pub open spec fn reached(self, day: PuzzleDay, year: PuzzleYear) -> bool {
        ||| self.year > year
        ||| self.year == year && self.month > 12
        ||| self.year == year && self.month == 12 && self.day >= day
    }

    /// Decides `reached`.
    pub fn has_reached(&self, day: PuzzleDay, year: PuzzleYear) -> (r: bool)
        ensures
            r == self.reached(day, year),
    {
        self.year > year || (self.year == year && self.month > 12) || (self.year == year
            && self.month == 12 && self.day >= day)
    }

    /// Whether `self` is `other` or later.
    pub open spec fn not_before(self, other: EasternTime) -> bool {
        let a = (self.year, self.month, self.day, self.hour, self.minute, self.second);
        let b = (other.year, other.month, other.day, other.hour, other.minute, other.second);
        ||| a.0 > b.0
        ||| a.0 == b.0 && a.1 > b.1
        ||| a.0 == b.0 && a.1 == b.1 && a.2 > b.2
        ||| a.0 == b.0 && a.1 == b.1 && a.2 == b.2 && a.3 > b.3
        ||| a.0 == b.0 && a.1 == b.1 && a.2 == b.2 && a.3 == b.3 && a.4 > b.4
        ||| a.0 == b.0 && a.1 == b.1 && a.2 == b.2 && a.3 == b.3 && a.4 == b.4 && a.5 >= b.5
    }
}

/// Whether `day` and `year` name a puzzle at all.
pub open spec fn is_puzzle(day: PuzzleDay, year: PuzzleYear) -> bool {
    1 <= day <= LAST_DAY && year >= FIRST_YEAR
}

/// The verdict on a puzzle at the moment `now`: released when it names a
/// puzzle and its midnight has been reached.
pub open spec fn puzzle_verdict(day: PuzzleDay, year: PuzzleYear, now: EasternTime) -> Result<
    (),
    PuzzleNotReleasedError,
> {
    if is_puzzle(day, year) && now.reached(day, year) {
        Ok(())
    } else {
        Err(PuzzleNotReleasedError { day, year })
    }
}

/// The verdict on an event year at the moment `now`: past years from the
/// first event on are open; the current year is open once the given day of
/// its December has been reached.
pub open spec fn year_verdict(day: PuzzleDay, year: PuzzleYear, now: EasternTime) -> Result<
    (),
    PuzzleNotReleasedError,
> {
    if year < FIRST_YEAR || year > now.year {
        Err(PuzzleNotReleasedError { day, year })
    } else if year == now.year && !now.reached(day, year) {
        Err(PuzzleNotReleasedError { day, year })
    } else {
        Ok(())
    }
}

/// Checks at the moment `now` that the puzzle of `day` and `year` exists
/// and has been released.
pub fn puzzle_release_at(day: PuzzleDay, year: PuzzleYear, now: &EasternTime) -> (r: Result<
    (),
    PuzzleNotReleasedError,
>)
    ensures
        r == puzzle_verdict(day, year, *now),
{
    if day < 1 || day > LAST_DAY || year < FIRST_YEAR {
        return Err(PuzzleNotReleasedError { day, year });
    }
    if now.has_reached(day, year) {
        Ok(())
    } else {
        Err(PuzzleNotReleasedError { day, year })
    }
}

/// Checks at the moment `now` that the event of `year` can be looked at,
/// taking `day` as the day that opens the current year.
pub fn year_release_at(day: PuzzleDay, year: PuzzleYear, now: &EasternTime) -> (r: Result<
    (),
    PuzzleNotReleasedError,
>)
    requires
        year == now.year ==> 1 <= day <= 31,
    ensures
        r == year_verdict(day, year, *now),
{
    if year < FIRST_YEAR || year > now.year {
        return Err(PuzzleNotReleasedError { day, year });
    } else if year == now.year {
        if !now.has_reached(day, year) {
            return Err(PuzzleNotReleasedError { day, year });
        }
    }
    Ok(())
}

/// Once a puzzle is released it stays released.
pub proof fn lemma_release_is_monotonic(
    day: PuzzleDay,
    year: PuzzleYear,
    earlier: EasternTime,
    later: EasternTime,
)
    requires
        later.not_before(earlier),
        puzzle_verdict(day, year, earlier) is Ok,
    ensures
        puzzle_verdict(day, year, later) is Ok,
{
}

/// A released puzzle belongs to a year that is open at the same moment.
pub proof fn lemma_released_puzzle_in_open_year(day: PuzzleDay, year: PuzzleYear, now: EasternTime)
    requires
        now.wf(),
        puzzle_verdict(day, year, now) is Ok,
    ensures
        year_verdict(day, year, now) is Ok,
{
}

/// The current moment in US Eastern time, read from the system clock with
/// `chrono::Utc::now` and moved to `chrono_tz::US::Eastern`. The fields are
/// chrono's `year`, `month`, `day`, `hour`, `minute` and `second`, whose
/// documented ranges are all that is claimed.
#[verifier::external_body]
pub fn today() -> (now: EasternTime)
    ensures
        now.wf(),
{
    let t = chrono::Utc::now().with_timezone(&chrono_tz::US::Eastern);
    EasternTime {
        year: t.year(),
        month: t.month(),
        day: t.day(),
        hour: t.hour(),
        minute: t.minute(),
        second: t.second(),
    }
}

/// Today's day of the month in US Eastern time.
pub fn today_day() -> (day: PuzzleDay)
    ensures
        1 <= day <= 31,
{
    today().day
}

/// The current year in US Eastern time.
pub fn today_year() -> (year: PuzzleYear) {
    today().year
}

/// Checks that the puzzle of `day` and `year` exists and has been released
/// by now.
pub fn valid_puzzle_release(day: PuzzleDay, year: PuzzleYear) -> (r: Result<
    (),
    PuzzleNotReleasedError,
>)
    ensures
        !is_puzzle(day, year) ==> r == Err::<(), _>(PuzzleNotReleasedError { day, year }),
        exists|now: EasternTime| now.wf() && r == puzzle_verdict(day, year, now),
{
    let now = today();
    puzzle_release_at(day, year, &now)
}

/// Checks that the event of `year` can be looked at by now.
pub fn valid_year_release(day: PuzzleDay, year: PuzzleYear) -> (r: Result<
    (),
    PuzzleNotReleasedError,
>)
    requires
        1 <= day <= 31,
    ensures
        year < FIRST_YEAR ==> r == Err::<(), _>(PuzzleNotReleasedError { day, year }),
        exists|now: EasternTime| now.wf() && r == year_verdict(day, year, now),
{
    let now = today();
    year_release_at(day, year, &now)
}

} // verus!
