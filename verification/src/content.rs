//! The files that are fetched from the remote site and kept on disk: where
//! they live, which of them can be fetched again, and how the record of
//! what is up to date is kept.

use crate::client::{AocClientError, AocPage};
use crate::paths::{PathView, WorkPath};
use crate::puzzle::{PuzzleDay, PuzzleYear};
use crate::submission::AocSubmissionResult;
use crate::text::{concat2, i64_text, int_text, nat_text, u64_text};
use vstd::prelude::*;
use vstd::string::*;

verus! {

/// The name of the file that records, for the files beside it, whether
/// they are up to date.
pub const CACHE_FILE: &'static str = ".aoccache.json";

/// The directory of the kept files.
#[derive(Debug, PartialEq, Eq)]
pub struct AocContentDir {
    base: WorkPath,
}

/// The directory of a year's files below `base`.
pub open spec fn year_dir(base: PathView, year: PuzzleYear) -> PathView {
    base.join("year"@ + int_text(year as int))
}

/// The directory of a day's files below `base`.
pub open spec fn day_dir(base: PathView, day: PuzzleDay, year: PuzzleYear) -> PathView {
    year_dir(base, year).join("day"@ + nat_text(day as nat))
}

impl AocContentDir {
    /// The directory itself.
    pub closed spec fn base(&self) -> PathView {
        self.base@
    }

    /// The directory of the kept files: `data` in the tool's directory.
    pub fn new(aocsuite_dir: &WorkPath) -> (dir: AocContentDir)
        ensures
            dir.base() == aocsuite_dir@.join("data"@),
    {
        AocContentDir { base: aocsuite_dir.join("data") }
    }

    /// The directory itself.
    pub fn root(&self) -> (path: WorkPath)
        ensures
            path@ == self.base(),
    {
        self.base.duplicate()
    }

    /// The directory of a year's files.
    pub fn yearly_data_dir(&self, year: PuzzleYear) -> (path: WorkPath)
        ensures
            path@ == year_dir(self.base(), year),
    {
        let number = i64_text(year as i64);
        let name = concat2("year", number.as_str());
        self.base.join(name.as_str())
    }

    /// The directory of a day's files.
    pub fn daily_data_dir(&self, day: PuzzleDay, year: PuzzleYear) -> (path: WorkPath)
        ensures
            path@ == day_dir(self.base(), day, year),
    {
        let number = u64_text(day as u64);
        let name = concat2("day", number.as_str());
        self.yearly_data_dir(year).join(name.as_str())
    }
}

/// The kinds of kept files.
#[derive(Debug, Clone, Copy, PartialEq, Eq, Structural)]
pub enum AocFileType {
    Puzzle,
    Calendar,
    Input,
    Example,
}

/// A kept file.
#[derive(Debug, Clone, Copy, PartialEq, Eq, Structural)]
pub struct AocContentFile {
    pub file_type: AocFileType,
    pub day: Option<PuzzleDay>,
    pub year: PuzzleYear,
}

/// An entry to make in a record of what is up to date.
#[derive(Debug, PartialEq, Eq)]
pub struct CacheUpdate {
    /// The record.
    pub cache_file: WorkPath,
    /// The name of the file that the entry is about.
    pub key: String,
    /// Whether that file is up to date.
    pub value: bool,
}

/// What has to be done before a kept file can be read.
#[derive(Debug, PartialEq, Eq)]
pub struct ContentPlan {
    /// Where the file lives.
    pub path: WorkPath,
    /// The page to fetch it from first, if it has to be fetched.
    pub fetch: Option<AocPage>,
}

/// How a file is fetched.
#[derive(Debug, PartialEq, Eq)]
pub struct FetchPlan {
    /// The page to download.
    pub page: AocPage,
    /// Whether the page's articles are kept as Markdown, rather than the
    /// page as it came.
    pub as_markdown: bool,
    /// Where to save it, in a directory that is created if need be.
    pub save_to: WorkPath,
    /// The entry to make once it is saved.
    pub mark: Option<CacheUpdate>,
}

/// What can go wrong with the kept files.
#[derive(Debug, Clone, PartialEq, Eq)]
pub enum AocFileError {
    FileNotFound(String),
    Io(String),
    Client(AocClientError),
    InvalidFile(String),
    CleanError(String),
}

impl AocContentFile {
    /// The description of a puzzle.
    pub fn puzzle(day: PuzzleDay, year: PuzzleYear) -> (file: AocContentFile)
        ensures
            file == (AocContentFile { file_type: AocFileType::Puzzle, day: Some(day), year }),
    {
        AocContentFile { file_type: AocFileType::Puzzle, day: Some(day), year }
    }

    /// The calendar of a year.
    pub fn calendar(year: PuzzleYear) -> (file: AocContentFile)
        ensures
            file == (AocContentFile { file_type: AocFileType::Calendar, day: None, year }),
    {
        AocContentFile { file_type: AocFileType::Calendar, day: None, year }
    }

    /// The input of a puzzle.
    pub fn input(day: PuzzleDay, year: PuzzleYear) -> (file: AocContentFile)
        ensures
            file == (AocContentFile { file_type: AocFileType::Input, day: Some(day), year }),
    {
        AocContentFile { file_type: AocFileType::Input, day: Some(day), year }
    }

    /// The example input of a puzzle, which the user writes.
    pub fn example(day: PuzzleDay, year: PuzzleYear) -> (file: AocContentFile)
        ensures
            file == (AocContentFile { file_type: AocFileType::Example, day: Some(day), year }),
    {
        AocContentFile { file_type: AocFileType::Example, day: Some(day), year }
    }

    /// Whether the file changes on the remote site as the user solves
    /// puzzles.
    pub open spec fn is_updateable(self) -> bool {
        self.file_type == AocFileType::Puzzle || self.file_type == AocFileType::Calendar
    }

    /// Whether the file comes from the remote site.
    pub open spec fn is_fetchable(self) -> bool {
        self.file_type != AocFileType::Example
    }

    /// The name of the file.
    pub open spec fn name_text(self) -> Seq<char> {
        match self.file_type {
            AocFileType::Puzzle => "puzzle.md"@,
            AocFileType::Calendar => "calendar.html"@,
            AocFileType::Input => "input.txt"@,
            AocFileType::Example => "example.txt"@,
        }
    }

    /// The directory of the file: that of its day, or of its year where it
    /// has no day.
    pub open spec fn dir_in(self, base: PathView) -> PathView {
        match self.day {
            Some(day) => day_dir(base, day, self.year),
            None => year_dir(base, self.year),
        }
    }

    /// Where the file lives.
    pub open spec fn path_in(self, base: PathView) -> PathView {
        self.dir_in(base).join(self.name_text())
    }

    /// The page that the file is fetched from, if it is fetched at all.
    pub open spec fn page(self) -> Option<AocPage> {
        match self.file_type {
            AocFileType::Puzzle => Some(AocPage::Puzzle(self.day->0, self.year)),
            AocFileType::Calendar => Some(AocPage::Calendar(self.year)),
            AocFileType::Input => Some(AocPage::Input(self.day->0, self.year)),
            AocFileType::Example => None,
        }
    }

    /// A file of a day has a day.
    pub open spec fn wf(self) -> bool {
        self.file_type != AocFileType::Calendar ==> self.day is Some
    }

    /// Decides `is_updateable`.
    pub fn updateable(&self) -> (r: bool)
        ensures
            r == self.is_updateable(),
    {
        match self.file_type {
            AocFileType::Puzzle => true,
            AocFileType::Calendar => true,
            _ => false,
        }
    }

    /// Decides `is_fetchable`.
    pub fn fetchable(&self) -> (r: bool)
        ensures
            r == self.is_fetchable(),
    {
        match self.file_type {
            AocFileType::Puzzle => true,
            AocFileType::Calendar => true,
            AocFileType::Input => true,
            AocFileType::Example => false,
        }
    }

    /// The name of the file.
    pub fn filename(&self) -> (name: &'static str)
        ensures
            name@ == self.name_text(),
    {
        match self.file_type {
            AocFileType::Puzzle => "puzzle.md",
            AocFileType::Calendar => "calendar.html",
            AocFileType::Input => "input.txt",
            AocFileType::Example => "example.txt",
        }
    }

    /// The name of the file.
    pub fn to_string(&self) -> (name: String)
        ensures
            name@ == self.name_text(),
    {
        String::from_str(self.filename())
    }

    /// Where the file lives.
    pub fn local_path(&self, dir: &AocContentDir) -> (path: WorkPath)
        ensures
            path@ == self.path_in(dir.base()),
    {
        let filename = self.filename();
        match self.day {
            Some(day) => dir.daily_data_dir(day, self.year).join(filename),
            None => dir.yearly_data_dir(self.year).join(filename),
        }
    }

    /// The record of what is up to date among the files beside this one.
    pub fn cache_path(&self, dir: &AocContentDir) -> (path: WorkPath)
        ensures
            path@ == self.dir_in(dir.base()).join(CACHE_FILE@),
    {
        match self.day {
            Some(day) => dir.daily_data_dir(day, self.year).join(CACHE_FILE),
            None => dir.yearly_data_dir(self.year).join(CACHE_FILE),
        }
    }

    /// Where the file lives, and whether it has to be fetched first: it
    /// has, if it comes from the remote site and is not known to be up to
    /// date.
    pub fn to_path(&self, dir: &AocContentDir, cache_valid: bool) -> (plan: ContentPlan)
        requires
            self.wf(),
        ensures
            plan.path@ == self.path_in(dir.base()),
            plan.fetch == if !cache_valid && self.is_fetchable() {
                self.page()
            } else {
                None
            },
    {
        let path = self.local_path(dir);
        let fetch = if !cache_valid && self.fetchable() {
            match page_from_file(self) {
                Ok(page) => Some(page),
                Err(_) => None,
            }
        } else {
            None
        };
        ContentPlan { path, fetch }
    }

    /// The entry that records the file as up to date or not. Only files
    /// that change on the remote site have one.
    pub fn set_cache_status(&self, dir: &AocContentDir, val: bool) -> (update: Option<CacheUpdate>)
        ensures
            !self.is_updateable() ==> update is None,
            self.is_updateable() ==> update is Some && update->0.cache_file@ == self.dir_in(
                dir.base(),
            ).join(CACHE_FILE@) && update->0.key@ == self.name_text() && update->0.value == val,
    {
        if self.updateable() {
            Some(
                CacheUpdate {
                    cache_file: self.cache_path(dir),
                    key: self.to_string(),
                    value: val,
                },
            )
        } else {
            None
        }
    }
}

/// The page that a file is fetched from. An example cannot be fetched.
pub fn page_from_file(file: &AocContentFile) -> (r: Result<AocPage, AocFileError>)
    requires
        file.wf(),
    ensures
        match file.page() {
            Some(page) => r == Ok::<_, AocFileError>(page),
            None => r matches Err(AocFileError::InvalidFile(text)) && text@
                == "Example files cannot be downloaded"@,
        },
{
    match file.file_type {
        AocFileType::Puzzle => match file.day {
            Some(day) => Ok(AocPage::Puzzle(day, file.year)),
            None => Err(AocFileError::InvalidFile(String::new())),
        },
        AocFileType::Calendar => Ok(AocPage::Calendar(file.year)),
        AocFileType::Input => match file.day {
            Some(day) => Ok(AocPage::Input(day, file.year)),
            None => Err(AocFileError::InvalidFile(String::new())),
        },
        AocFileType::Example => Err(
            AocFileError::InvalidFile(String::from_str("Example files cannot be downloaded")),
        ),
    }
}

/// How a file is fetched: the page is downloaded, a puzzle's description
/// is turned into Markdown, the file is saved, and it is recorded as up
/// to date.
pub fn fetch_aocfile(file: &AocContentFile, dir: &AocContentDir) -> (r: Result<
    FetchPlan,
    AocFileError,
>)
    requires
        file.wf(),
    ensures
        file.page() is None ==> r is Err,
        file.page() is Some ==> r is Ok && r->Ok_0.page == file.page()->0 && r->Ok_0.as_markdown
            == (file.file_type == AocFileType::Puzzle) && r->Ok_0.save_to@ == file.path_in(
            dir.base(),
        ) && (r->Ok_0.mark is Some <==> file.is_updateable()),
{
    match page_from_file(file) {
        Err(e) => Err(e),
        Ok(page) => Ok(
            FetchPlan {
                page,
                as_markdown: file.file_type == AocFileType::Puzzle,
                save_to: file.local_path(dir),
                mark: file.set_cache_status(dir, true),
            },
        ),
    }
}

/// The files that a verdict makes stale: a correct answer changes the
/// calendar of the year, and the puzzle's page where `update_puzzle` says
/// that it gained a part.
pub open spec fn stale_files(
    correct: bool,
    day: PuzzleDay,
    year: PuzzleYear,
    update_puzzle: bool,
) -> Seq<AocContentFile> {
    if !correct {
        Seq::empty()
    } else if update_puzzle {
        seq![
            AocContentFile { file_type: AocFileType::Calendar, day: None, year },
            AocContentFile { file_type: AocFileType::Puzzle, day: Some(day), year },
        ]
    } else {
        seq![AocContentFile { file_type: AocFileType::Calendar, day: None, year }]
    }
}

/// The entries to make after the site's verdict on an answer: each stale
/// file is recorded as not up to date.
pub fn update_cache_status(
    result: &AocSubmissionResult,
    day: PuzzleDay,
    year: PuzzleYear,
    update_puzzle: bool,
    dir: &AocContentDir,
) -> (updates: Vec<CacheUpdate>)
    ensures
        updates@.len() == stale_files(result is Correct, day, year, update_puzzle).len(),
        forall|i: int|
            0 <= i < updates@.len() ==> {
                let file = stale_files(result is Correct, day, year, update_puzzle)[i];
                &&& (#[trigger] updates@[i]).cache_file@ == file.dir_in(dir.base()).join(
                    CACHE_FILE@,
                )
                &&& updates@[i].key@ == file.name_text()
                &&& !updates@[i].value
            },
{
    let mut updates: Vec<CacheUpdate> = Vec::new();
    match result {
        AocSubmissionResult::Correct => {
            let calendar_file = AocContentFile::calendar(year);
            match calendar_file.set_cache_status(dir, false) {
                Some(update) => updates.push(update),
                None => {},
            }
            if update_puzzle {
                let puzzle_file = AocContentFile::puzzle(day, year);
                match puzzle_file.set_cache_status(dir, false) {
                    Some(update) => updates.push(update),
                    None => {},
                }
            }
        },
        _ => {},
    }
    updates
}

/// The directory to delete in order to drop kept files: a day's, a
/// year's, or all of them. A day without a year names nothing.
pub fn clean_cache(year: Option<PuzzleYear>, day: Option<PuzzleDay>, dir: &AocContentDir) -> (r:
    Result<WorkPath, AocFileError>)
    ensures
        match (year, day) {
            (None, Some(_)) => r matches Err(AocFileError::CleanError(text)) && text@
                == "Year was not specified but day was"@,
            (Some(year), Some(day)) => r is Ok && r->Ok_0@ == day_dir(dir.base(), day, year),
            (Some(year), None) => r is Ok && r->Ok_0@ == year_dir(dir.base(), year),
            (None, None) => r is Ok && r->Ok_0@ == dir.base(),
        },
{
    match (year, day) {
        (None, Some(_)) => Err(
            AocFileError::CleanError(String::from_str("Year was not specified but day was")),
        ),
        (Some(year), Some(day)) => Ok(dir.daily_data_dir(day, year)),
        (Some(year), None) => Ok(dir.yearly_data_dir(year)),
        (None, None) => Ok(dir.root()),
    }
}

/// The error for a directory that was to be deleted and is not there.
pub fn missing_dir(path: &WorkPath) -> (e: AocFileError)
    ensures
        e matches AocFileError::FileNotFound(text) && text@ == crate::paths::path_text(path@),
{
    AocFileError::FileNotFound(path.display())
}

/// `serde_json::Map`, the object of a JSON document.
#[verifier::external_type_specification]
#[verifier::external_body]
#[verifier::reject_recursive_types(K)]
#[verifier::reject_recursive_types(V)]
pub struct ExJsonMap<K, V>(serde_json::Map<K, V>);

/// `serde_json::Value`, any JSON value.
#[verifier::external_type_specification]
#[verifier::external_body]
pub struct ExJsonValue(serde_json::Value);

/// What a JSON object holds, as far as a record of what is up to date is
/// read: under each key the boolean that stands there, or nothing where
/// the value is of another kind.
pub uninterp spec fn json_flags(record: serde_json::Map<String, serde_json::Value>) -> Map<
    Seq<char>,
    Option<bool>,
>;

/// A record without entries.
pub open spec fn no_flags() -> Map<Seq<char>, Option<bool>> {
    Map::empty()
}

/// The object of a record of what is up to date.
pub type JsonRecord = serde_json::Map<String, serde_json::Value>;

/// `serde_json::Map::new`: an object without entries.
#[verifier::external_body]
pub(crate) fn empty_record() -> (record: JsonRecord)
    ensures
        json_flags(record) == no_flags(),
{
    serde_json::Map::new()
}

/// The flags of the JSON object that a text writes, or nothing where the
/// text does not write a JSON object, as `serde_json` reads it.
pub uninterp spec fn parsed_flags(text: Seq<char>) -> Option<Map<Seq<char>, Option<bool>>>;

/// `serde_json::from_str` for an object: the object that a text writes,
/// or nothing where the text is not a JSON object. What the object holds
/// is given the name `parsed_flags`.
#[verifier::external_body]
pub(crate) fn parse_record(text: &str) -> (record: Option<JsonRecord>)
    ensures
        match record {
            Some(r) => parsed_flags(text@) == Some(json_flags(r)),
            None => parsed_flags(text@) is None,
        },
{
    serde_json::from_str::<JsonRecord>(text).ok()
}

/// `serde_json::Map::get`, with the value found reduced to the boolean it
/// is, if it is one.
#[verifier::external_body]
pub(crate) fn record_flag(record: &JsonRecord, key: &str) -> (flag: Option<Option<bool>>)
    ensures
        flag == if json_flags(*record).contains_key(key@) {
            Some(json_flags(*record)[key@])
        } else {
            None
        },
{
    record.get(key).map(
        |value| match value {
            serde_json::Value::Bool(b) => Some(*b),
            _ => None,
        },
    )
}

/// `serde_json::Map::insert` of a boolean: the entry under `key` is set,
/// the others stay.
#[verifier::external_body]
pub(crate) fn set_record_flag(record: &mut JsonRecord, key: &str, value: bool)
    ensures
        json_flags(*final(record)) == json_flags(*old(record)).insert(key@, Some(value)),
{
    record.insert(key.to_owned(), serde_json::Value::Bool(value));
}

/// The text that `serde_json::to_string_pretty` writes for a JSON object:
/// all that the object holds, indented by two blanks.
pub uninterp spec fn written_record(record: serde_json::Map<String, serde_json::Value>) -> Seq<
    char,
>;

/// `serde_json::to_string_pretty` of an object. The result is given the
/// name `written_record`.
#[verifier::external_body]
pub(crate) fn write_record(record: &JsonRecord) -> (text: String)
    ensures
        text@ == written_record(*record),
{
    serde_json::to_string_pretty(record).unwrap_or_default()
}

/// Whether a record says of the file `filename` that it is up to date.
pub fn record_says_valid(record: &JsonRecord, filename: &str) -> (r:
    bool)
    ensures
        r == (json_flags(*record).contains_key(filename@) && json_flags(*record)[filename@]
            == Some(true)),
{
    match record_flag(record, filename) {
        Some(Some(true)) => true,
        _ => false,
    }
}

/// Whether the flags of a record, if there is a record, say of the file
/// `filename` that it is up to date.
pub open spec fn says_valid(flags: Option<Map<Seq<char>, Option<bool>>>, filename: Seq<char>) -> bool {
    flags matches Some(f) && f.contains_key(filename) && f[filename] == Some(true)
}

/// The flags to start from when a record is updated: those of the record,
/// or none where there is no record or it cannot be read.
pub open spec fn flags_before(record_text: Option<Seq<char>>) -> Map<Seq<char>, Option<bool>> {
    match record_text {
        Some(text) => match parsed_flags(text) {
            Some(flags) => flags,
            None => no_flags(),
        },
        None => no_flags(),
    }
}

/// Whether a kept file can be used as it is, given whether it exists and
/// what the record beside it holds: `None` for a record that does not
/// exist or cannot be read. The file must exist and the record must be a
/// JSON object that holds `true` under the file's name.
pub fn cache_is_valid(file_exists: bool, record_text: Option<&str>, filename: &str) -> (r: bool)
    ensures
        r == (file_exists && says_valid(
            match record_text {
                Some(text) => parsed_flags(text@),
                None => None,
            },
            filename@,
        )),
{
    if !file_exists {
        return false;
    }
    match record_text {
        None => false,
        Some(text) => match parse_record(text) {
            Some(record) => record_says_valid(&record, filename),
            None => false,
        },
    }
}

/// The record with the entry for `filename` set to `value`: the object
/// that the record's text writes, or an empty one where there is no
/// record or its text is not an object, with that one entry set.
pub fn updated_record(record_text: Option<&str>, filename: &str, value: bool) -> (record:
    JsonRecord)
    ensures
        json_flags(record) == flags_before(
            match record_text {
                Some(text) => Some(text@),
                None => None,
            },
        ).insert(filename@, Some(value)),
{
    let mut cache_json = match record_text {
        Some(text) => match parse_record(text) {
            Some(record) => record,
            None => empty_record(),
        },
        None => empty_record(),
    };
    set_record_flag(&mut cache_json, filename, value);
    cache_json
}

/// Whether `text` is what is written for a record that holds exactly
/// `flags`.
pub open spec fn writes_flags(text: Seq<char>, flags: Map<Seq<char>, Option<bool>>) -> bool {
    exists|record: JsonRecord| text == #[trigger] written_record(record) && json_flags(record) == flags
}

/// The new text of a record after the entry for `filename` has been set
/// to `value`: the text written for the record that holds what the old
/// record held, where there was one that could be read, with that one
/// entry set.
pub fn update_cache(record_text: Option<&str>, filename: &str, value: bool) -> (text: String)
    ensures
        writes_flags(
            text@,
            flags_before(
                match record_text {
                    Some(old_text) => Some(old_text@),
                    None => None,
                },
            ).insert(filename@, Some(value)),
        ),
{
    let record = updated_record(record_text, filename, value);
    write_record(&record)
}

} // verus!
