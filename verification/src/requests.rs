//! Addresses by kind of page, for a client that is told the year and the
//! day with each request.

use crate::text::{nat_text, u64_text};
use vstd::prelude::*;
use vstd::string::*;

verus! {

/// A kind of page of the remote site.
#[derive(Debug, Clone, Copy, PartialEq, Eq, Structural)]
pub enum AocPage {
    Puzzle,
    Input,
    Submit,
    Calendar,
}

impl AocPage {
    /// Whether a page of this kind belongs to a day.
    pub open spec fn needs_day(self) -> bool {
        self != AocPage::Calendar
    }
}

/// The remote site.
#[derive(Debug, Clone, PartialEq, Eq)]
pub struct AocURL {
    base: String,
}

impl AocURL {
    /// The address of the site.
    pub closed spec fn base_text(&self) -> Seq<char> {
        self.base@
    }

    /// The address of a page of the site.
    pub open spec fn resolved(&self, year: u32, page: AocPage, day: Option<u32>) -> Seq<char> {
        let year_part = self.base_text() + "/"@ + nat_text(year as nat);
        match page {
            AocPage::Puzzle => year_part + "/day/"@ + nat_text(day->0 as nat),
            AocPage::Input => year_part + "/day/"@ + nat_text(day->0 as nat) + "/input"@,
            AocPage::Submit => year_part + "/day/"@ + nat_text(day->0 as nat) + "/answer"@,
            AocPage::Calendar => year_part,
        }
    }

    /// The remote site at its usual address.
    pub fn new() -> (site: AocURL)
        ensures
            site.base_text() == "https://adventofcode.com"@,
    {
        AocURL { base: String::from_str("https://adventofcode.com") }
    }

    /// The address of a page. A page of a day needs the day.
    pub fn resolve(&self, year: u32, page: AocPage, day: Option<u32>) -> (s: String)
        requires
            page.needs_day() ==> day is Some,
        ensures
            s@ == self.resolved(year, page, day),
    {
        let mut s = self.base.clone();
        s.append("/");
        let year_number = u64_text(year as u64);
        s.append(year_number.as_str());
        match page {
            AocPage::Calendar => {},
            _ => {
                s.append("/day/");
                let number = match day {
                    Some(d) => u64_text(d as u64),
                    None => String::new(),
                };
                s.append(number.as_str());
                match page {
                    AocPage::Input => {
                        s.append("/input");
                    },
                    AocPage::Submit => {
                        s.append("/answer");
                    },
                    _ => {},
                }
            },
        }
        s
    }

    /// The fields of the form that submits `answer` for the part `level`.
    pub fn answer_form(answer: &str, level: u32) -> (fields: Vec<(String, String)>)
        ensures
            fields@.len() == 2,
            fields@[0].0@ == "level"@,
            fields@[0].1@ == nat_text(level as nat),
            fields@[1].0@ == "answer"@,
            fields@[1].1@ == answer@,
    {
        let mut fields: Vec<(String, String)> = Vec::new();
        fields.push((String::from_str("level"), u64_text(level as u64)));
        fields.push((String::from_str("answer"), answer.to_owned()));
        fields
    }
}

/// A reader of the site's replies.
#[derive(Debug, Clone, Copy, PartialEq, Eq, Structural)]
pub struct AocRequestParser {}

} // verus!
