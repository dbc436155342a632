//! The addresses of the remote site's pages, by year and day.

use crate::client::BASE_URL;
use crate::puzzle::PuzzleYear;
use crate::text::{i64_text, int_text, nat_text, u64_text};
use vstd::prelude::*;
use vstd::string::*;

verus! {

/// What to download for a day.
#[derive(Debug, Clone, Copy, PartialEq, Eq, Structural)]
pub enum DownloadMode {
    /// The description and the input.
    All,
    /// The input only.
    Input,
    /// The description only.
    Puzzle,
}

/// The address of a year.
pub open spec fn year_url_text(year: PuzzleYear) -> Seq<char> {
    BASE_URL@ + "/"@ + int_text(year as int)
}

fn year_url(year: PuzzleYear) -> (s: String)
    ensures
        s@ == year_url_text(year),
{
    let mut s = String::from_str(BASE_URL);
    s.append("/");
    let number = i64_text(year as i64);
    s.append(number.as_str());
    s
}

/// The address of a year's calendar.
pub fn calendar_url(year: PuzzleYear) -> (s: String)
    ensures
        s@ == year_url_text(year) + "/calendar"@,
{
    let mut s = year_url(year);
    s.append("/calendar");
    s
}

/// The address of a puzzle.
pub fn puzzle_url(year: PuzzleYear, day: u32) -> (s: String)
    ensures
        s@ == year_url_text(year) + "/day/"@ + nat_text(day as nat),
{
    let mut s = year_url(year);
    s.append("/day/");
    let number = u64_text(day as u64);
    s.append(number.as_str());
    s
}

/// The address that the answers to a puzzle are sent to.
pub fn submit_url(year: PuzzleYear, day: u32) -> (s: String)
    ensures
        s@ == year_url_text(year) + "/day/"@ + nat_text(day as nat) + "/answer"@,
{
    let mut s = puzzle_url(year, day);
    s.append("/answer");
    s
}

/// The address of a year's leaderboard: the public one, or below it the
/// private one with the given number.
pub fn leaderboard_url(year: PuzzleYear, leaderboard_id: Option<u32>) -> (s: String)
    ensures
        s@ == match leaderboard_id {
            Some(id) => year_url_text(year) + "/leaderboard"@ + "/leaderboard/private/view/"@
                + nat_text(id as nat),
            None => year_url_text(year) + "/leaderboard"@,
        },
{
    let mut base_url = year_url(year);
    base_url.append("/leaderboard");
    if let Some(leaderboard_id) = leaderboard_id {
        base_url.append("/leaderboard/private/view/");
        let number = u64_text(leaderboard_id as u64);
        base_url.append(number.as_str());
        base_url
    } else {
        base_url
    }
}

} // verus!
