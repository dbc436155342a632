//! The pages of the remote site and how they are asked for.

use crate::config::AocConfigError;
use crate::puzzle::{Exercise, PuzzleDay, PuzzleNotReleasedError, PuzzleYear};
use crate::text::{concat2, i64_text, int_text, nat_text, texts, u64_text};
use vstd::prelude::*;
use vstd::string::*;

verus! {

/// Where the remote site lives.
pub const BASE_URL: &'static str = "https://adventofcode.com";

/// A page of the remote site.
#[derive(Debug, Clone, Copy, PartialEq, Eq, Structural)]
pub enum AocPage {
    /// The description of a puzzle.
    Puzzle(PuzzleDay, PuzzleYear),
    /// The input of a puzzle.
    Input(PuzzleDay, PuzzleYear),
    /// The address that answers are sent to.
    Submit(PuzzleDay, PuzzleYear),
    /// The calendar of a year.
    Calendar(PuzzleYear),
    /// The leaderboard of a year: a private one where its number is given.
    Leaderboard(PuzzleYear, Option<u32>),
}

/// The address of a day's page.
pub open spec fn day_url(day: PuzzleDay, year: PuzzleYear) -> Seq<char> {
    BASE_URL@ + "/"@ + int_text(year as int) + "/day/"@ + nat_text(day as nat)
}

impl AocPage {
    /// The address of the page.
    pub open spec fn url(self) -> Seq<char> {
        match self {
            AocPage::Puzzle(day, year) => day_url(day, year),
            AocPage::Input(day, year) => day_url(day, year) + "/input"@,
            AocPage::Submit(day, year) => day_url(day, year) + "/answer"@,
            AocPage::Calendar(year) => BASE_URL@ + "/"@ + int_text(year as int),
            AocPage::Leaderboard(year, id) => match id {
                Some(id) => BASE_URL@ + "/"@ + int_text(year as int)
                    + "/leaderboard/private/view/"@ + nat_text(id as nat),
                None => BASE_URL@ + "/"@ + int_text(year as int) + "/leaderboard"@,
            },
        }
    }

    /// The address of the page.
    pub fn to_string(&self) -> (s: String)
        ensures
            s@ == self.url(),
    {
        match self {
            AocPage::Puzzle(day, year) => day_address(*day, *year),
            AocPage::Input(day, year) => {
                let mut s = day_address(*day, *year);
                s.append("/input");
                s
            },
            AocPage::Submit(day, year) => {
                let mut s = day_address(*day, *year);
                s.append("/answer");
                s
            },
            AocPage::Calendar(year) => year_address(*year),
            AocPage::Leaderboard(year, id) => {
                let mut s = year_address(*year);
                match id {
                    Some(id) => {
                        s.append("/leaderboard/private/view/");
                        let number = u64_text(*id as u64);
                        s.append(number.as_str());
                    },
                    None => {
                        s.append("/leaderboard");
                    },
                }
                s
            },
        }
    }
}

fn year_address(year: PuzzleYear) -> (s: String)
    ensures
        s@ == BASE_URL@ + "/"@ + int_text(year as int),
{
    let mut s = String::from_str(BASE_URL);
    s.append("/");
    let number = i64_text(year as i64);
    s.append(number.as_str());
    s
}

fn day_address(day: PuzzleDay, year: PuzzleYear) -> (s: String)
    ensures
        s@ == day_url(day, year),
{
    let mut s = year_address(year);
    s.append("/day/");
    let number = u64_text(day as u64);
    s.append(number.as_str());
    s
}

/// The cookie that carries the user's session.
pub fn session_cookie(session: &str) -> (cookie: String)
    ensures
        cookie@ == "session="@ + session@,
{
    concat2("session=", session)
}

/// The fields of the form that submits `answer` for the part `level`.
pub fn answer_form(answer: &str, level: &Exercise) -> (fields: Vec<(String, String)>)
    ensures
        fields@.len() == 2,
        fields@[0].0@ == "level"@,
        fields@[0].1@ == level.text(),
        fields@[1].0@ == "answer"@,
        fields@[1].1@ == answer@,
{
    let mut fields: Vec<(String, String)> = Vec::new();
    fields.push((String::from_str("level"), level.to_string()));
    fields.push((String::from_str("answer"), answer.to_owned()));
    fields
}

/// The systems on which a page can be opened in the browser.
#[derive(Debug, Clone, Copy, PartialEq, Eq, Structural)]
pub enum HostSystem {
    MacOs,
    Linux,
    Windows,
}

/// The command that opens an address in the user's browser.
#[derive(Debug, PartialEq, Eq)]
pub struct BrowserCall {
    pub program: String,
    pub args: Vec<String>,
}

/// The command that opens an address on a system: its program and its
/// arguments.
pub open spec fn browser_command(url: Seq<char>, system: HostSystem) -> (Seq<char>, Seq<Seq<char>>) {
    match system {
        HostSystem::MacOs => ("open"@, seq![url]),
        HostSystem::Linux => ("xdg-open"@, seq![url]),
        HostSystem::Windows => ("cmd"@, seq!["/C"@, "start"@, url]),
    }
}

/// The command that opens `page` in the user's browser.
pub fn open_page(page: &AocPage, system: HostSystem) -> (call: BrowserCall)
    ensures
        (call.program@, texts(call.args@)) == browser_command(page.url(), system),
{
    let url = page.to_string();
    let mut args: Vec<String> = Vec::new();
    let program = match system {
        HostSystem::MacOs => {
            args.push(url);
            String::from_str("open")
        },
        HostSystem::Linux => {
            args.push(url);
            String::from_str("xdg-open")
        },
        HostSystem::Windows => {
            args.push(String::from_str("/C"));
            args.push(String::from_str("start"));
            args.push(url);
            String::from_str("cmd")
        },
    };
    assert(texts(args@) =~= browser_command(page.url(), system).1);
    BrowserCall { program, args }
}

/// The command that opens the description of a puzzle in the browser.
pub fn open_puzzle_page(day: PuzzleDay, year: PuzzleYear, system: HostSystem) -> (call: BrowserCall)
    ensures
        (call.program@, texts(call.args@)) == browser_command(
            AocPage::Puzzle(day, year).url(),
            system,
        ),
{
    open_page(&AocPage::Puzzle(day, year), system)
}

/// What can go wrong when talking to the remote site.
#[derive(Debug, Clone, PartialEq, Eq)]
pub enum AocClientError {
    /// The request failed; the text says how.
    Http(String),
    /// The puzzle is not released.
    Unreleased(PuzzleNotReleasedError),
    /// The system refused an operation.
    Io(String),
    /// The page is not what was expected.
    HtmlError(String),
    /// The session is missing or not accepted.
    Session(String),
    /// The settings failed.
    Config(AocConfigError),
}

} // verus!
