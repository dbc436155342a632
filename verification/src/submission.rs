//! What the remote site says to an answer.

use crate::parser::{
    article_markdown, article_markdown_text, first_group, first_group_text, remove_markdown_links,
    replaced_text, MARKDOWN_LINK,
};
use crate::text::{
    chars_of, concat2, concat3, contains_text, decimal_u64, has_text, nat_text, parse_u64,
    u64_text,
};
use vstd::prelude::*;
use vstd::string::*;

verus! {

/// The site's verdict on an answer.
#[derive(Debug, PartialEq, Eq)]
pub enum AocSubmissionResult {
    Correct,
    AlreadyCompleted,
    IncorrectTooHigh,
    IncorrectTooLow,
    Incorrect,
    /// Too many answers: so many seconds to wait.
    RateLimited(u64),
    Locked,
    EmptySubmission,
    InvalidFormat,
    /// None of the known replies; the text is the reply.
    Unknown(String),
}

/// A verdict without the text it may carry.
#[derive(Debug, Clone, Copy, PartialEq, Eq, Structural)]
pub enum SubmissionKind {
    Correct,
    AlreadyCompleted,
    IncorrectTooHigh,
    IncorrectTooLow,
    Incorrect,
    RateLimited(u64),
    Locked,
    EmptySubmission,
    InvalidFormat,
    Unknown,
}

/// The pattern of the site's request to wait, with the seconds as its
/// first group.
pub const WAIT_PATTERN: &'static str = r"you have to wait (\d+) seconds";

/// The verdict that a reply in Markdown carries. The phrases are looked
/// for in this order, and the first that is found decides; `wait` is the
/// number of seconds of a request to wait, where the reply holds one that
/// can be read.
pub open spec fn submission_kind(markdown: Seq<char>, wait: Option<u64>) -> SubmissionKind {
    if contains_text(markdown, "That's the right answer!"@) {
        SubmissionKind::Correct
    } else if contains_text(markdown, "You've already completed this puzzle"@) || contains_text(
        markdown,
        "You don't need to guess; you've already completed this puzzle."@,
    ) {
        SubmissionKind::AlreadyCompleted
    } else if contains_text(markdown, "too high"@) {
        SubmissionKind::IncorrectTooHigh
    } else if contains_text(markdown, "too low"@) {
        SubmissionKind::IncorrectTooLow
    } else if contains_text(markdown, "That's not the right answer"@) {
        SubmissionKind::Incorrect
    } else if wait is Some {
        SubmissionKind::RateLimited(wait->0)
    } else if contains_text(markdown, "haven't unlocked this part yet"@) {
        SubmissionKind::Locked
    } else if contains_text(markdown, "did not provide an answer"@) {
        SubmissionKind::EmptySubmission
    } else if contains_text(markdown, "isn't in the expected format"@) {
        SubmissionKind::InvalidFormat
    } else {
        SubmissionKind::Unknown
    }
}

/// The seconds to wait, from what the wait pattern captured.
pub open spec fn wait_seconds(captured: Option<Seq<char>>) -> Option<u64> {
    match captured {
        Some(digits) => decimal_u64(digits),
        None => None,
    }
}

impl AocSubmissionResult {
    /// The verdict without its text.
    pub open spec fn kind(&self) -> SubmissionKind {
        match self {
            AocSubmissionResult::Correct => SubmissionKind::Correct,
            AocSubmissionResult::AlreadyCompleted => SubmissionKind::AlreadyCompleted,
            AocSubmissionResult::IncorrectTooHigh => SubmissionKind::IncorrectTooHigh,
            AocSubmissionResult::IncorrectTooLow => SubmissionKind::IncorrectTooLow,
            AocSubmissionResult::Incorrect => SubmissionKind::Incorrect,
            AocSubmissionResult::RateLimited(seconds) => SubmissionKind::RateLimited(*seconds),
            AocSubmissionResult::Locked => SubmissionKind::Locked,
            AocSubmissionResult::EmptySubmission => SubmissionKind::EmptySubmission,
            AocSubmissionResult::InvalidFormat => SubmissionKind::InvalidFormat,
            AocSubmissionResult::Unknown(_) => SubmissionKind::Unknown,
        }
    }

    /// Whether this is the verdict of kind `kind` on the reply `markdown`:
    /// an unknown reply is carried along.
    pub open spec fn is_verdict_on(&self, markdown: Seq<char>, kind: SubmissionKind) -> bool {
        &&& self.kind() == kind
        &&& self matches AocSubmissionResult::Unknown(text) ==> text@ == markdown
    }

    /// What the user is told.
    pub open spec fn text(&self) -> Seq<char> {
        match self {
            AocSubmissionResult::Correct => "✅ Correct! That's the right answer!"@,
            AocSubmissionResult::AlreadyCompleted => "ℹ️  You've already completed this puzzle."@,
            AocSubmissionResult::IncorrectTooHigh => "❌ Your answer is too high."@,
            AocSubmissionResult::IncorrectTooLow => "❌ Your answer is too low."@,
            AocSubmissionResult::Incorrect => "❌ That's not the right answer."@,
            AocSubmissionResult::RateLimited(seconds) => "⏳ Rate limited. Please wait "@
                + nat_text(*seconds as nat) + " seconds before submitting again."@,
            AocSubmissionResult::Locked => "🔒 This part of the puzzle is not yet unlocked."@,
            AocSubmissionResult::EmptySubmission => "⚠️  You didn't provide an answer."@,
            AocSubmissionResult::InvalidFormat => "⚠️  Your answer isn't in the expected format."@,
            AocSubmissionResult::Unknown(msg) => "❓ Unknown response: "@ + msg@,
        }
    }

    /// What the user is told.
    pub fn to_string(&self) -> (s: String)
        ensures
            s@ == self.text(),
    {
        match self {
            AocSubmissionResult::Correct => String::from_str(
                "✅ Correct! That's the right answer!",
            ),
            AocSubmissionResult::AlreadyCompleted => String::from_str(
                "ℹ️  You've already completed this puzzle.",
            ),
            AocSubmissionResult::IncorrectTooHigh => String::from_str(
                "❌ Your answer is too high.",
            ),
            AocSubmissionResult::IncorrectTooLow => String::from_str("❌ Your answer is too low."),
            AocSubmissionResult::Incorrect => String::from_str("❌ That's not the right answer."),
            AocSubmissionResult::RateLimited(seconds) => {
                let number = u64_text(*seconds);
                concat3(
                    "⏳ Rate limited. Please wait ",
                    number.as_str(),
                    " seconds before submitting again.",
                )
            },
            AocSubmissionResult::Locked => String::from_str(
                "🔒 This part of the puzzle is not yet unlocked.",
            ),
            AocSubmissionResult::EmptySubmission => String::from_str(
                "⚠️  You didn't provide an answer.",
            ),
            AocSubmissionResult::InvalidFormat => String::from_str(
                "⚠️  Your answer isn't in the expected format.",
            ),
            AocSubmissionResult::Unknown(msg) => concat2("❓ Unknown response: ", msg.as_str()),
        }
    }
}

fn holds(markdown: &Vec<char>, phrase: &str) -> (r: bool)
    ensures
        r == contains_text(markdown@, phrase@),
{
    let needle = chars_of(phrase);
    has_text(markdown, &needle)
}

/// Reads the verdict off a reply in Markdown, given what the wait pattern
/// captured in it.
pub fn classify_submission(markdown: &str, captured_wait: Option<&str>) -> (r: AocSubmissionResult)
    ensures
        r.is_verdict_on(
            markdown@,
            submission_kind(
                markdown@,
                wait_seconds(
                    match captured_wait {
                        Some(digits) => Some(digits@),
                        None => None,
                    },
                ),
            ),
        ),
{
    let text = chars_of(markdown);
    if holds(&text, "That's the right answer!") {
        AocSubmissionResult::Correct
    } else if holds(&text, "You've already completed this puzzle") || holds(
        &text,
        "You don't need to guess; you've already completed this puzzle.",
    ) {
        AocSubmissionResult::AlreadyCompleted
    } else if holds(&text, "too high") {
        AocSubmissionResult::IncorrectTooHigh
    } else if holds(&text, "too low") {
        AocSubmissionResult::IncorrectTooLow
    } else if holds(&text, "That's not the right answer") {
        AocSubmissionResult::Incorrect
    } else {
        let wait: Option<u64> = match captured_wait {
            Some(digits) => parse_u64(digits),
            None => None,
        };
        if let Some(wait_secs) = wait {
            AocSubmissionResult::RateLimited(wait_secs)
        } else if holds(&text, "haven't unlocked this part yet") {
            AocSubmissionResult::Locked
        } else if holds(&text, "did not provide an answer") {
            AocSubmissionResult::EmptySubmission
        } else if holds(&text, "isn't in the expected format") {
            AocSubmissionResult::InvalidFormat
        } else {
            AocSubmissionResult::Unknown(markdown.to_owned())
        }
    }
}

/// The seconds that a reply asks to wait, if it asks and the number can
/// be read.
pub fn extract_wait_time(text: &str) -> (r: Option<u64>)
    ensures
        r == wait_seconds(first_group_text(WAIT_PATTERN@, text@)),
{
    match first_group(WAIT_PATTERN, text) {
        Some(digits) => parse_u64(digits.as_str()),
        None => None,
    }
}

/// Reads the site's verdict off the page it sent in reply to an answer:
/// the page's articles are turned into Markdown, and the verdict is read
/// off that.
pub fn parse_submission_result(text: &str) -> (r: AocSubmissionResult)
    ensures
        r.is_verdict_on(
            article_markdown_text(text@),
            submission_kind(
                article_markdown_text(text@),
                wait_seconds(first_group_text(WAIT_PATTERN@, article_markdown_text(text@))),
            ),
        ),
{
    let markdown = article_markdown(text);
    let captured = first_group(WAIT_PATTERN, markdown.as_str());
    match captured {
        Some(digits) => classify_submission(markdown.as_str(), Some(digits.as_str())),
        None => classify_submission(markdown.as_str(), None),
    }
}

/// The site's reply to an answer as text for the terminal: the articles
/// of the page as Markdown, with each link reduced to its text.
pub fn post_answer_reply(page: &str) -> (reply: String)
    ensures
        reply@ == replaced_text(MARKDOWN_LINK@, "$1"@, article_markdown_text(page@)),
{
    let markdown = article_markdown(page);
    remove_markdown_links(markdown.as_str())
}

} // verus!
