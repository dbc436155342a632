//! The commands of the tool and what each of them asks for, before
//! anything is fetched, run or written.

use crate::client::{AocClientError, AocPage};
use crate::config::{AocConfigError, ConfigOpt};
use crate::content::{AocContentFile, AocFileError, AocFileType};
use crate::editor::AocEditorError;
use crate::git::AocGitError;
use crate::lang::error::AocLanguageError;
use crate::lang::languages::LanguageType;
use crate::puzzle::{
    puzzle_release_at, puzzle_verdict, year_release_at, year_verdict, EasternTime, Exercise,
    PuzzleDay, PuzzleNotReleasedError, PuzzleYear,
};
use crate::text::{
    concat2, concat3, i64_text, int_text, lowercase, lowercase_text, nat_text, same_text, texts,
    trim, trimmed, u64_text,
};
use vstd::prelude::*;
use vstd::string::*;

verus! {

/// What the user can ask of the tool.
#[derive(Debug, Clone, PartialEq, Eq)]
pub enum AocCommand {
    /// Show the calendar of the year.
    Calendar,
    /// View the puzzle in the browser.
    View,
    /// Open the day in the editor.
    Open { language: Option<LanguageType> },
    /// Manage the packages of a language.
    Env { action: EnvAction, language: Option<LanguageType> },
    /// Manage the library files of a language.
    Lib { action: LibAction, language: Option<LanguageType> },
    /// Edit the template; with `reset`, start from the default again.
    Template { language: Option<LanguageType>, reset: bool },
    /// Run the day: one part or both, on the input, on the example (an
    /// empty `test`) or on the file that `test` names.
    Run { language: Option<LanguageType>, part: Option<Exercise>, test: Option<String> },
    /// Submit an answer.
    Submit { part: Exercise, answer: String },
    /// Open the leaderboard in the browser.
    Leaderboard { id: Option<u32> },
    /// Read or change a setting.
    Config { command: ConfigCommand },
    /// Run git on the tool's directory.
    Git { args: Vec<String> },
    /// Edit the ignore file.
    GitIgnore,
    /// Delete kept files.
    Clean { action: CleanAction },
    /// Delete everything.
    Uninstall,
}

/// What to do with a setting.
#[derive(Debug, Clone, Copy, PartialEq, Eq)]
pub enum ConfigCommand {
    /// Show the value.
    Get { key: ConfigOpt },
    /// Ask the user for the value and store it.
    Store { key: ConfigOpt },
}

/// What to do with library files.
#[derive(Debug, Clone, PartialEq, Eq)]
pub enum LibAction {
    Edit { lib: String },
    Remove { lib: Option<String>, all: bool, force: bool },
    List,
}

/// What to do with packages.
#[derive(Debug, Clone, PartialEq, Eq)]
pub enum EnvAction {
    Add { package: String },
    Remove { package: String },
    List,
    Clean { force: bool },
}

/// What to delete.
#[derive(Debug, Clone, Copy, PartialEq, Eq)]
pub enum CleanAction {
    /// Files kept from the remote site: all, a year's, or a day's.
    Cache { all: bool, year_all: bool, force: bool },
    /// Build artifacts of a language.
    Lang { language: Option<LanguageType>, force: bool },
}

/// What can go wrong with a command.
#[derive(Debug, PartialEq, Eq)]
pub enum AocCliError {
    Client(AocClientError),
    Language(AocLanguageError),
    Unreleased(PuzzleNotReleasedError),
    Config(AocConfigError),
    Io(String),
    Editor(AocEditorError),
    File(AocFileError),
    Git(AocGitError),
}

/// What has to be released before a command can go ahead.
#[derive(Debug, Clone, Copy, PartialEq, Eq, Structural)]
pub enum Prerequisite {
    /// The puzzle of the day.
    Puzzle,
    /// The event of the year.
    Year,
    /// Nothing.
    Open,
}

/// What each command needs: what works on a puzzle needs the puzzle,
/// what shows a year needs the year, and the rest needs nothing.
pub open spec fn prerequisite_of(command: AocCommand) -> Prerequisite {
    match command {
        AocCommand::Calendar => Prerequisite::Year,
        AocCommand::Leaderboard { .. } => Prerequisite::Year,
        AocCommand::View => Prerequisite::Puzzle,
        AocCommand::Submit { .. } => Prerequisite::Puzzle,
        AocCommand::Run { .. } => Prerequisite::Puzzle,
        AocCommand::Open { .. } => Prerequisite::Puzzle,
        _ => Prerequisite::Open,
    }
}

/// Whether what a command needs is there at the moment `now`.
pub open spec fn prerequisite_verdict(
    needed: Prerequisite,
    day: PuzzleDay,
    year: PuzzleYear,
    now: EasternTime,
) -> Result<(), PuzzleNotReleasedError> {
    match needed {
        Prerequisite::Puzzle => puzzle_verdict(day, year, now),
        Prerequisite::Year => year_verdict(day, year, now),
        Prerequisite::Open => Ok(()),
    }
}

/// What a command needs.
pub fn required_release(command: &AocCommand) -> (needed: Prerequisite)
    ensures
        needed == prerequisite_of(*command),
{
    match command {
        AocCommand::Calendar => Prerequisite::Year,
        AocCommand::Leaderboard { .. } => Prerequisite::Year,
        AocCommand::View => Prerequisite::Puzzle,
        AocCommand::Submit { .. } => Prerequisite::Puzzle,
        AocCommand::Run { .. } => Prerequisite::Puzzle,
        AocCommand::Open { .. } => Prerequisite::Puzzle,
        _ => Prerequisite::Open,
    }
}

/// Whether a command may go ahead for `day` and `year` at the moment
/// `now`: what it needs must have been released.
pub fn run_aocsuite(command: &AocCommand, day: PuzzleDay, year: PuzzleYear, now: &EasternTime) -> (r:
    Result<(), AocCliError>)
    requires
        prerequisite_of(*command) == Prerequisite::Year && year == now.year ==> 1 <= day <= 31,
    ensures
        match prerequisite_verdict(prerequisite_of(*command), day, year, *now) {
            Ok(()) => r is Ok,
            Err(e) => r == Err::<(), _>(AocCliError::Unreleased(e)),
        },
{
    let checked = match required_release(command) {
        Prerequisite::Puzzle => puzzle_release_at(day, year, now),
        Prerequisite::Year => year_release_at(day, year, now),
        Prerequisite::Open => Ok(()),
    };
    match checked {
        Ok(()) => Ok(()),
        Err(e) => Err(AocCliError::Unreleased(e)),
    }
}

/// The part selector handed to a solution program: the part's number, or
/// `both` where none was asked for.
pub fn part_selector(part: Option<Exercise>) -> (s: String)
    ensures
        s@ == match part {
            Some(exercise) => exercise.text(),
            None => "both"@,
        },
{
    match part {
        Some(exercise) => exercise.to_string(),
        None => String::from_str("both"),
    }
}

/// What a run reads.
#[derive(Debug, PartialEq, Eq)]
pub enum RunInput {
    /// A kept file: the puzzle's input or the example.
    Content(AocContentFile),
    /// The file that the user named.
    Given(String),
}

/// What a run reads: the puzzle's input where no test was asked for, the
/// example for a test without a file, else the file that was named.
pub fn run_input(test: Option<String>, day: PuzzleDay, year: PuzzleYear) -> (input: RunInput)
    ensures
        match test {
            None => input == RunInput::Content(
                AocContentFile { file_type: AocFileType::Input, day: Some(day), year },
            ),
            Some(file) => if file@.len() == 0 {
                input == RunInput::Content(
                    AocContentFile { file_type: AocFileType::Example, day: Some(day), year },
                )
            } else {
                input == RunInput::Given(file)
            },
        },
{
    match test {
        Some(file) => {
            if file.as_str().unicode_len() == 0 {
                RunInput::Content(AocContentFile::example(day, year))
            } else {
                RunInput::Given(file)
            }
        },
        None => RunInput::Content(AocContentFile::input(day, year)),
    }
}

/// Whether a correct answer to `part` changes the puzzle's page: the
/// first part unlocks the second.
pub fn unlocks_more(part: &Exercise) -> (r: bool)
    ensures
        r == (*part == Exercise::One),
{
    match part {
        Exercise::One => true,
        Exercise::Two => false,
    }
}

/// Whether an answer in lowercase, without white space around it, means
/// yes: nothing at all, `y` or `yes`.
pub open spec fn means_yes(answer: Seq<char>) -> bool {
    answer.len() == 0 || answer == "y"@ || answer == "yes"@
}

/// Decides `means_yes`.
pub fn is_yes(answer: &str) -> (r: bool)
    ensures
        r == means_yes(answer@),
{
    answer.unicode_len() == 0 || same_text(answer, "y") || same_text(answer, "yes")
}

/// Whether what the user typed at a question means yes, whatever the case
/// of its letters and the white space around it.
pub fn user_confirm(input: &str) -> (r: bool)
    ensures
        r == means_yes(lowercase_text(trimmed(input@))),
{
    let trimmed_input = trim(input);
    let lowered = lowercase(trimmed_input.as_str());
    is_yes(lowered.as_str())
}

/// Whether to go ahead: at once when forced, else if what the user typed
/// means yes.
pub fn user_confirm_or_force(input: Option<&str>, force: bool) -> (r: bool)
    requires
        !force ==> input is Some,
    ensures
        r == (force || means_yes(lowercase_text(trimmed(input->0@)))),
{
    if force {
        return true;
    }
    match input {
        Some(text) => user_confirm(text),
        None => false,
    }
}

/// What a cache clean-up deletes.
#[derive(Debug, PartialEq, Eq)]
pub struct CleanTarget {
    pub day: Option<PuzzleDay>,
    pub year: Option<PuzzleYear>,
    /// The question to ask before deleting.
    pub prompt: String,
}

/// How the files of a clean-up are named in the question.
pub open spec fn clean_scope_text(all: bool, year_all: bool, day: PuzzleDay, year: PuzzleYear) -> Seq<
    char,
> {
    if all {
        "all cached AoC files"@
    } else if year_all {
        "all cached AoC files for "@ + int_text(year as int)
    } else {
        "all cached AoC files for day "@ + nat_text(day as nat) + " in "@ + int_text(year as int)
    }
}

/// What a cache clean-up deletes: everything, the year's files, or the
/// day's, with the question to ask first.
pub fn clean_target(all: bool, year_all: bool, day: PuzzleDay, year: PuzzleYear) -> (target:
    CleanTarget)
    ensures
        target.day == if all || year_all {
            None
        } else {
            Some(day)
        },
        target.year == if all {
            None
        } else {
            Some(year)
        },
        target.prompt@ == "Do you want to delete "@ + clean_scope_text(all, year_all, day, year)
            + " (puzzles, inputs, examples and calendar) (Y/n) : "@,
{
    let clean_day: Option<PuzzleDay>;
    let clean_year_opt: Option<PuzzleYear>;
    let file_prompt: String;
    if all {
        clean_day = None;
        clean_year_opt = None;
        file_prompt = String::from_str("all cached AoC files");
    } else if year_all {
        clean_day = None;
        clean_year_opt = Some(year);
        let number = i64_text(year as i64);
        file_prompt = concat2("all cached AoC files for ", number.as_str());
    } else {
        clean_day = Some(day);
        clean_year_opt = Some(year);
        let mut s = String::from_str("all cached AoC files for day ");
        let day_number = u64_text(day as u64);
        s.append(day_number.as_str());
        s.append(" in ");
        let year_number = i64_text(year as i64);
        s.append(year_number.as_str());
        file_prompt = s;
    }
    let prompt = concat3(
        "Do you want to delete ",
        file_prompt.as_str(),
        " (puzzles, inputs, examples and calendar) (Y/n) : ",
    );
    CleanTarget { day: clean_day, year: clean_year_opt, prompt }
}

/// The lines of a list with a heading: `empty` alone where there is
/// nothing to list, else `heading` and each item behind two blanks.
pub open spec fn listing(items: Seq<Seq<char>>, empty: Seq<char>, heading: Seq<char>) -> Seq<
    Seq<char>,
> {
    if items.len() == 0 {
        seq![empty]
    } else {
        seq![heading] + items.map_values(|item: Seq<char>| "  "@ + item)
    }
}

fn list_lines(items: &Vec<String>, empty: &str, heading: &str) -> (lines: Vec<String>)
    ensures
        texts(lines@) == listing(texts(items@), empty@, heading@),
{
    let mut lines: Vec<String> = Vec::new();
    if items.len() == 0 {
        lines.push(String::from_str(empty));
        assert(texts(lines@) =~= listing(texts(items@), empty@, heading@));
        return lines;
    }
    lines.push(String::from_str(heading));
    let mut i: usize = 0;
    while i < items.len()
        invariant
            i <= items.len(),
            lines@.len() == i + 1,
            lines@[0]@ == heading@,
            forall|k: int| 0 <= k < i ==> (#[trigger] lines@[k + 1])@ == "  "@ + items@[k]@,
        decreases items.len() - i,
    {
        lines.push(concat2("  ", items[i].as_str()));
        i = i + 1;
    }
    assert(texts(lines@) =~= listing(texts(items@), empty@, heading@)) by {
        let want = listing(texts(items@), empty@, heading@);
        assert(want.len() == lines@.len());
        assert forall|k: int| 0 <= k < want.len() implies texts(lines@)[k] == want[k] by {
            if k > 0 {
                assert(lines@[(k - 1) + 1]@ == "  "@ + items@[k - 1]@);
            }
        }
    }
    lines
}

/// The lines that report the installed packages.
pub fn packages_report(packages: &Vec<String>) -> (lines: Vec<String>)
    ensures
        texts(lines@) == listing(texts(packages@), "No packages installed"@, "Installed packages:"@),
{
    list_lines(packages, "No packages installed", "Installed packages:")
}

/// The lines that report the library files.
pub fn libs_report(files: &Vec<String>) -> (lines: Vec<String>)
    ensures
        texts(lines@) == listing(texts(files@), "No library files found"@, "Current library names:"@),
{
    list_lines(files, "No library files found", "Current library names:")
}

/// The question before all library files of a language are deleted.
pub fn remove_all_libs_prompt(count: usize, language_name: &str) -> (s: String)
    ensures
        s@ == "Do you want to delete "@ + nat_text(count as nat) + " libary files for "@
            + language_name@ + " (Y/n) : "@,
{
    let mut s = String::from_str("Do you want to delete ");
    let number = u64_text(count as u64);
    s.append(number.as_str());
    s.append(" libary files for ");
    s.append(language_name);
    s.append(" (Y/n) : ");
    s
}

/// The question before one library file is deleted.
pub fn remove_lib_prompt(lib: &str, language_name: &str) -> (s: String)
    ensures
        s@ == "Do you want to delete the library "@ + lib@ + " for "@ + language_name@
            + " (Y/n) : "@,
{
    let mut s = String::from_str("Do you want to delete the library ");
    s.append(lib);
    s.append(" for ");
    s.append(language_name);
    s.append(" (Y/n) : ");
    s
}

/// The question before the build artifacts of a language are deleted.
pub fn clean_lang_prompt(language_name: &str) -> (s: String)
    ensures
        s@ == "Do you want to delete caches for "@ + language_name@ + "  (Y/n) : "@,
{
    concat3("Do you want to delete caches for ", language_name, "  (Y/n) : ")
}

/// The page that a command shows in the browser, if it shows one.
pub fn page_to_open(command: &AocCommand, day: PuzzleDay, year: PuzzleYear) -> (page: Option<
    AocPage,
>)
    ensures
        page == match *command {
            AocCommand::View => Some(AocPage::Puzzle(day, year)),
            AocCommand::Leaderboard { id } => Some(AocPage::Leaderboard(year, id)),
            _ => None,
        },
{
    match command {
        AocCommand::View => Some(AocPage::Puzzle(day, year)),
        AocCommand::Leaderboard { id } => Some(AocPage::Leaderboard(year, *id)),
        _ => None,
    }
}

} // verus!
