//! A workspace with one package per day: its layout, the files of a new
//! package, and the calls that build and run one.

use crate::puzzle::{
    puzzle_release_at, puzzle_verdict, EasternTime, Exercise, PuzzleDay, PuzzleYear, FIRST_YEAR,
    LAST_DAY,
};
use crate::paths::{PathView, WorkPath};
use crate::text::{concat2, i64_text, int_text, nat_text, texts, u64_text};
use crate::urls::DownloadMode;
use vstd::prelude::*;
use vstd::string::*;

verus! {

/// A language with a workspace of packages.
#[derive(Debug, Clone, Copy, PartialEq, Eq, Structural)]
pub enum Language {
    Rust,
    Python,
}

/// The name of a language's workspace directory.
pub open spec fn language_dir_text(language: Language) -> Seq<char> {
    match language {
        Language::Rust => "rust"@,
        Language::Python => "python"@,
    }
}

/// The workspace directory of a language, relative to where the tool is
/// run.
pub fn base_language_dir(language: &Language) -> (dir: WorkPath)
    ensures
        dir@ == (PathView { base: language_dir_text(*language), parts: Seq::empty() }),
{
    let lang_dir = match language {
        Language::Rust => "rust",
        Language::Python => "python",
    };
    WorkPath::new(lang_dir)
}

/// What the user can ask of the tool.
#[derive(Debug, Clone, PartialEq, Eq)]
pub enum Command {
    Calendar,
    Init,
    Download { mode: Option<DownloadMode> },
    New { template: Option<String> },
    Open,
    Edit,
    Run { input_file: Option<String> },
    Submit { part: Exercise, answer: Option<String> },
    Leaderboard { leaderboard_id: Option<u32> },
    Config,
}

/// A command with the day and the year it is about, where they were
/// given.
#[derive(Debug, Clone, PartialEq, Eq)]
pub struct AocArgs {
    pub command: Command,
    pub day: Option<PuzzleDay>,
    pub year: Option<PuzzleYear>,
}

/// Why the day or the year of a command is refused.
#[derive(Debug, Clone, Copy, PartialEq, Eq, Structural)]
pub enum ArgFault {
    /// The day is not one of the event.
    Day(PuzzleDay),
    /// The year is before the first event or after the current one.
    Year { current: PuzzleYear, given: PuzzleYear },
}

impl ArgFault {
    /// The text of the complaint.
    pub open spec fn text(self) -> Seq<char> {
        match self {
            ArgFault::Day(day) => "Error: Day must be between 1 and 25, but got "@ + nat_text(
                day as nat,
            ),
            ArgFault::Year { current, given } => "Error: Year must be between 2015 and "@
                + int_text(current as int) + ", but got "@ + int_text(given as int),
        }
    }

    /// The complaint shown to the user.
    pub fn message(&self) -> (s: String)
        ensures
            s@ == self.text(),
    {
        match self {
            ArgFault::Day(day) => {
                let number = u64_text(*day as u64);
                concat2("Error: Day must be between 1 and 25, but got ", number.as_str())
            },
            ArgFault::Year { current, given } => {
                let mut s = String::from_str("Error: Year must be between 2015 and ");
                let current_number = i64_text(*current as i64);
                s.append(current_number.as_str());
                s.append(", but got ");
                let given_number = i64_text(*given as i64);
                s.append(given_number.as_str());
                s
            },
        }
    }
}

/// The first fault in the day and the year of a command, the day taken
/// first.
pub open spec fn arg_fault(
    day: Option<PuzzleDay>,
    year: Option<PuzzleYear>,
    current_year: PuzzleYear,
) -> Option<ArgFault> {
    if day is Some && (day->0 > LAST_DAY || day->0 == 0) {
        Some(ArgFault::Day(day->0))
    } else if year is Some && (year->0 < FIRST_YEAR || current_year < year->0) {
        Some(ArgFault::Year { current: current_year, given: year->0 })
    } else {
        None
    }
}

/// Checks the day and the year of a command: a day must be one of the
/// event's, a year one from the first event to the current year.
pub fn parse_args(args: AocArgs, current_year: PuzzleYear) -> (r: Result<AocArgs, ArgFault>)
    ensures
        match arg_fault(args.day, args.year, current_year) {
            Some(fault) => r == Err::<AocArgs, _>(fault),
            None => r == Ok::<_, ArgFault>(args),
        },
{
    if let Some(day) = args.day {
        if day > LAST_DAY || day == 0 {
            return Err(ArgFault::Day(day));
        }
    }
    if let Some(year) = args.year {
        if year < FIRST_YEAR || current_year < year {
            return Err(ArgFault::Year { current: current_year, given: year });
        }
    }
    Ok(args)
}

/// A puzzle that is not released.
#[derive(Debug, Clone, Copy, PartialEq, Eq, Structural)]
pub struct UnreleasedError {
    pub day: PuzzleDay,
    pub year: PuzzleYear,
}

impl UnreleasedError {
    /// The text of the message.
    pub open spec fn text(self) -> Seq<char> {
        "Advent of code not released yet: day: "@ + nat_text(self.day as nat) + ", year "@
            + int_text(self.year as int)
    }

    /// The message shown to the user.
    pub fn to_string(&self) -> (s: String)
        ensures
            s@ == self.text(),
    {
        let mut s = String::from_str("Advent of code not released yet: day: ");
        let day = u64_text(self.day as u64);
        s.append(day.as_str());
        s.append(", year ");
        let year = i64_text(self.year as i64);
        s.append(year.as_str());
        s
    }
}

/// A failure on a file.
#[derive(Debug, Clone, PartialEq, Eq)]
pub enum AocIoError {
    ReadError(String),
    WriteError(String),
    CreateDirError(String),
    Other(String),
}

/// A failure to start a tool.
#[derive(Debug, Clone, PartialEq, Eq)]
pub enum AocExecutionError {
    Compile(String),
    Run(String),
}

/// The day and the year that a command is about: those given, else
/// today's.
pub fn run_aocsuite(day: Option<PuzzleDay>, year: Option<PuzzleYear>, now: &EasternTime) -> (r: (
    PuzzleDay,
    PuzzleYear,
))
    ensures
        r.0 == match day {
            Some(d) => d,
            None => now.day,
        },
        r.1 == match year {
            Some(y) => y,
            None => now.year,
        },
{
    let day = match day {
        Some(d) => d,
        None => now.day,
    };
    let year = match year {
        Some(y) => y,
        None => now.year,
    };
    (day, year)
}

/// Whether a command can be carried out for `day` and `year` at the
/// moment `now`: only new packages can be made, and only for puzzles that
/// are released. `None` says that the command is not one that can be
/// carried out.
pub fn run_command(command: &Command, day: PuzzleDay, year: PuzzleYear, now: &EasternTime) -> (r:
    Option<Result<(), UnreleasedError>>)
    ensures
        !(command is New) ==> r is None,
        command is New ==> r == Some(
            match puzzle_verdict(day, year, *now) {
                Ok(()) => Ok::<(), UnreleasedError>(()),
                Err(_) => Err(UnreleasedError { day, year }),
            },
        ),
{
    match command {
        Command::New { .. } => match puzzle_release_at(day, year, now) {
            Ok(()) => Some(Ok(())),
            Err(_) => Some(Err(UnreleasedError { day, year })),
        },
        _ => None,
    }
}

/// The package of a day, relative to the workspace: a directory per year
/// and in it one per day.
pub open spec fn package_parts(day: PuzzleDay, year: PuzzleYear) -> Seq<Seq<char>> {
    seq!["year"@ + int_text(year as int), "day"@ + nat_text(day as nat)]
}

/// The package of a day, as the components of its path below the
/// workspace.
pub fn package_path_from_root(day: PuzzleDay, year: PuzzleYear) -> (parts: Vec<String>)
    ensures
        parts@.len() == 2,
        texts(parts@) == package_parts(day, year),
{
    let year_number = i64_text(year as i64);
    let day_number = u64_text(day as u64);
    let mut parts: Vec<String> = Vec::new();
    parts.push(concat2("year", year_number.as_str()));
    parts.push(concat2("day", day_number.as_str()));
    assert(texts(parts@) =~= package_parts(day, year));
    parts
}

/// The files of a package.
pub const CARGO_FILE: &'static str = "Cargo.toml";

pub const LIB_FILE: &'static str = "lib.rs";

pub const MAIN_FILE: &'static str = "main.rs";

/// Where the content of a new file comes from.
#[derive(Debug, PartialEq, Eq)]
pub enum FileSource {
    /// It is copied from this file of the template directory.
    Template(WorkPath),
    /// It is written with its default content.
    Default,
}

/// A file of a new package.
#[derive(Debug, PartialEq, Eq)]
pub struct PackageFile {
    /// Where it goes.
    pub dest: WorkPath,
    /// The file of the template directory that it is copied from, if there
    /// is a template directory and that file exists in it.
    pub template: Option<WorkPath>,
}

/// A language whose workspace holds one package per day.
pub trait LanguageRunner {
    /// The root of the workspace.
    spec fn workspace_root(&self) -> PathView;

    /// The files of a day's new package, each with the file of the
    /// template directory that it is copied from where there is a template
    /// directory.
    fn scaffold(&self, day: PuzzleDay, year: PuzzleYear, template_dir: Option<&WorkPath>) -> (files:
        Vec<PackageFile>)
        ensures
            forall|i: int|
                0 <= i < files@.len() ==> (#[trigger] files@[i]).dest@.is_under(
                    self.workspace_root(),
                ) && (files@[i].template is Some <==> template_dir is Some),
    ;

    /// The arguments that build a day's package, in the workspace.
    fn compile(&self, day: PuzzleDay, year: PuzzleYear) -> (args: Vec<String>)
        ensures
            args@.len() > 0,
    ;

    /// The binary that a build of a day's package leaves behind.
    fn run(&self, day: PuzzleDay, year: PuzzleYear) -> (binary: WorkPath)
        ensures
            binary@.is_under(self.workspace_root()),
    ;
}

/// The adapter for Rust, with a cargo workspace of one package per day.
#[derive(Debug, PartialEq, Eq)]
pub struct RustLanguage {
    root_dir: WorkPath,
}

impl RustLanguage {
    /// The root of the workspace.
    pub closed spec fn root(&self) -> PathView {
        self.root_dir@
    }

    /// The directory of a day's package.
    pub open spec fn package_dir(&self, day: PuzzleDay, year: PuzzleYear) -> PathView {
        self.root().join(package_parts(day, year)[0]).join(package_parts(day, year)[1])
    }

    /// The adapter for the workspace rooted at `root_dir`.
    pub fn new(root_dir: WorkPath) -> (r: RustLanguage)
        ensures
            r.root() == root_dir@,
    {
        RustLanguage { root_dir }
    }

    /// The manifest of the workspace, which lists the packages.
    pub fn root_cargo_path(&self) -> (path: WorkPath)
        ensures
            path@ == self.root().join(CARGO_FILE@),
    {
        self.root_dir.join(CARGO_FILE)
    }

    /// The directory of a day's package.
    pub fn package_path(&self, day: PuzzleDay, year: PuzzleYear) -> (path: WorkPath)
        ensures
            path@ == self.package_dir(day, year),
    {
        let parts = package_path_from_root(day, year);
        assert(texts(parts@)[0] == parts@[0]@);
        assert(texts(parts@)[1] == parts@[1]@);
        self.root_dir.join(parts[0].as_str()).join(parts[1].as_str())
    }

    /// The name of a day's package, as the build tool knows it.
    pub fn package_name(day: PuzzleDay, year: PuzzleYear) -> (name: String)
        ensures
            name@ == package_parts(day, year)[0] + "/"@ + package_parts(day, year)[1],
    {
        let parts = package_path_from_root(day, year);
        assert(texts(parts@)[0] == parts@[0]@);
        assert(texts(parts@)[1] == parts@[1]@);
        let mut name = parts[0].clone();
        name.append("/");
        name.append(parts[1].as_str());
        name
    }

    /// Where the content of a package's file comes from, given whether
    /// its template exists.
    pub fn handle_file(file: PackageFile, template_exists: bool) -> (source: FileSource)
        ensures
            source == match file.template {
                Some(template) => if template_exists {
                    FileSource::Template(template)
                } else {
                    FileSource::Default
                },
                None => FileSource::Default,
            },
    {
        match file.template {
            Some(template) => {
                if template_exists {
                    FileSource::Template(template)
                } else {
                    FileSource::Default
                }
            },
            None => FileSource::Default,
        }
    }
}

impl LanguageRunner for RustLanguage {
    open spec fn workspace_root(&self) -> PathView {
        self.root()
    }

    /// The files of a day's new package: the manifest, the entry point and
    /// the library, each to be copied from the template directory where
    /// that has it, else written with its default content.
    fn scaffold(&self, day: PuzzleDay, year: PuzzleYear, template_dir: Option<&WorkPath>) -> (
        files: Vec<PackageFile>)
        ensures
            files@.len() == 3,
            files@[0].dest@ == self.package_dir(day, year).join(CARGO_FILE@),
            files@[1].dest@ == self.package_dir(day, year).join(MAIN_FILE@),
            files@[2].dest@ == self.package_dir(day, year).join(LIB_FILE@),
            forall|i: int|
                0 <= i < 3 ==> match template_dir {
                    Some(dir) => (#[trigger] files@[i]).template is Some
                        && files@[i].template->0@ == dir@.join(files@[i].dest@.parts.last()),
                    None => files@[i].template is None,
                },
    {
        let package_path = self.package_path(day, year);
        let mut files: Vec<PackageFile> = Vec::new();
        files.push(package_file(&package_path, CARGO_FILE, template_dir));
        files.push(package_file(&package_path, MAIN_FILE, template_dir));
        files.push(package_file(&package_path, LIB_FILE, template_dir));
        files
    }

    /// The arguments that build a day's package with cargo.
    fn compile(&self, day: PuzzleDay, year: PuzzleYear) -> (args: Vec<String>)
        ensures
            texts(args@) == seq![
                "build"@,
                "-p"@,
                package_parts(day, year)[0] + "/"@ + package_parts(day, year)[1],
            ],
    {
        let mut args: Vec<String> = Vec::new();
        args.push(String::from_str("build"));
        args.push(String::from_str("-p"));
        args.push(RustLanguage::package_name(day, year));
        assert(texts(args@) =~= seq![
            "build"@,
            "-p"@,
            package_parts(day, year)[0] + "/"@ + package_parts(day, year)[1],
        ]);
        args
    }

    /// The binary that a debug build of a day's package leaves behind.
    fn run(&self, day: PuzzleDay, year: PuzzleYear) -> (binary: WorkPath)
        ensures
            binary@ == self.root().join("target"@).join("debug"@).join(
                package_parts(day, year)[0],
            ).join(package_parts(day, year)[1]),
    {
        let parts = package_path_from_root(day, year);
        assert(texts(parts@)[0] == parts@[0]@);
        assert(texts(parts@)[1] == parts@[1]@);
        self.root_dir.join("target").join("debug").join(parts[0].as_str()).join(
            parts[1].as_str(),
        )
    }
}

fn package_file(package_path: &WorkPath, file_name: &str, template_dir: Option<&WorkPath>) -> (file:
    PackageFile)
    ensures
        file.dest@ == package_path@.join(file_name@),
        match template_dir {
            Some(dir) => file.template is Some && file.template->0@ == dir@.join(file_name@),
            None => file.template is None,
        },
{
    let template = match template_dir {
        Some(dir) => Some(dir.join(file_name)),
        None => None,
    };
    PackageFile { dest: package_path.join(file_name), template }
}

/// The adapter of a language. Every language is served by the adapter for
/// Rust for the time being.
pub fn get_language_runner(language: &Language) -> (runner: RustLanguage)
    ensures
        runner.root() == (PathView { base: language_dir_text(*language), parts: Seq::empty() }),
{
    let language_root_dir = base_language_dir(language);
    match language {
        Language::Rust => RustLanguage::new(language_root_dir),
        Language::Python => RustLanguage::new(language_root_dir),
    }
}

/// The directory to take templates from when a new package is made: the
/// one that was asked for, else the `templates` directory of the
/// language's workspace if it exists.
pub fn scaffold(template: Option<WorkPath>, language: &Language, default_exists: bool) -> (r:
    Option<WorkPath>)
    ensures
        match template {
            Some(dir) => r == Some(dir),
            None => if default_exists {
                r is Some && r->0@ == (PathView {
                    base: language_dir_text(*language),
                    parts: seq!["templates"@],
                })
            } else {
                r is None
            },
        },
{
    match template {
        Some(dir) => Some(dir),
        None => {
            if default_exists {
                let dir = base_language_dir(language).join("templates");
                assert(dir@.parts =~= seq!["templates"@]);
                Some(dir)
            } else {
                None
            }
        },
    }
}

} // verus!
