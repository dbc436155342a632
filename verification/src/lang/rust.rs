//! The adapter for a compiled language with a build tool: Rust with cargo.
//!
//! The workspace is one package. Its entry point and the alias of the
//! active solution live under `src`, the solutions under a directory per
//! year, the template and the manifest at the root.

use crate::lang::command::{
    steps_view, tool_call, Arg, ArgView, CommandOutput, Invocation, InvocationView, Program,
    ProgramView, StepView, WorkspaceStep,
};
use crate::lang::error::AocLanguageError;
use crate::lang::packages::{parse_tree_list, tree_names};
use crate::lang::solve_file::SolveFile;
use crate::lang::traits::{
    env_view, DepManager, EnvPrepend, EnvPrependView, LibManager, PackageQuery, Solver,
};
use crate::paths::{PathView, WorkPath};
use crate::puzzle::{PuzzleDay, PuzzleYear};
use crate::text::{concat2, concat3, i64_text, int_text, nat_text, texts, u64_text};
use vstd::prelude::*;
use vstd::string::*;

verus! {

/// The manifest that a fresh workspace gets.
pub const RUST_MANIFEST: &'static str = r#"[package]
name = "aocsuite-solution-rust"
version = "0.1.0"
edition = "2024"

[dependencies]
serde_json="1.0.140"
serde = { version = "1.0.219", features = ["derive"]}
"#;

/// The stub that new solutions are copied from.
pub const RUST_TEMPLATE: &'static str = r#"/// Implement your solution here

/// Solve part 1 of the puzzle
pub fn part1(input: &str) -> String {
    // Replace this stub with actual implementation
    format!("Part 1 not implemented yet. Input length: {}", input.len())
}

/// Solve part 2 of the puzzle
pub fn part2(input: &str) -> String {
    // Replace this stub with actual implementation
    format!("Part 2 not implemented yet. Input length: {}", input.len())
}
"#;

/// The shared entry point: it reads the input file, runs the parts that
/// were asked for, times each, and writes the results as JSON.
pub const RUST_MAIN: &'static str = r#"use serde::{Deserialize, Serialize};
use std::{env, fs, path::Path, process, time::Instant};
mod solution;
use solution::{part1, part2};

#[derive(Debug)]
enum Part {
    One,
    Two,
    Both,
}

#[derive(Serialize, Deserialize)]
struct PartResult {
    answer: String,
    runtime_ms: u128,
}

#[derive(Serialize, Deserialize)]
struct OutputJson {
    part1: Option<PartResult>,
    part2: Option<PartResult>,
}

fn run_part<F>(part_fn: F, input: &str) -> PartResult
where
    F: FnOnce(&str) -> String,
{
    let start = Instant::now();
    let answer = part_fn(input);
    let runtime_ms = start.elapsed().as_millis();

    PartResult { answer, runtime_ms }
}

fn run<F1, F2>(part1_fn: F1, part2_fn: F2)
where
    F1: FnOnce(&str) -> String,
    F2: FnOnce(&str) -> String,
{
    let args: Vec<String> = env::args().collect();

    if args.len() < 3 || args.len() > 4 {
        eprintln!("Usage: {} <input_file> <output_file> [1|2|both]", args[0]);
        process::exit(1);
    }

    let input_file = &args[1];
    let output_file = &args[2];
    let part = match args.get(3).map(|s| s.as_str()) {
        Some("1") => Part::One,
        Some("2") => Part::Two,
        Some("both") | None => Part::Both,
        Some(other) => {
            eprintln!("Invalid part '{}'. Use '1', '2', or 'both'", other);
            process::exit(1);
        }
    };

    // Read input file
    let input = fs::read_to_string(input_file).unwrap_or_else(|e| {
        eprintln!("Failed to read file '{}': {}", input_file, e);
        process::exit(1);
    });

    // Ensure output directory exists
    if let Some(parent) = Path::new(output_file).parent() {
        if let Err(e) = fs::create_dir_all(parent) {
            eprintln!("Failed to create output directory: {}", e);
            process::exit(1);
        }
    }

    let mut output = OutputJson {
        part1: None,
        part2: None,
    };

    match part {
        Part::One => output.part1 = Some(run_part(part1_fn, &input)),
        Part::Two => output.part2 = Some(run_part(part2_fn, &input)),
        Part::Both => {
            output.part1 = Some(run_part(part1_fn, &input));
            output.part2 = Some(run_part(part2_fn, &input));
        }
    }

    // Write output to file
    let json_string = serde_json::to_string_pretty(&output).expect("Failed to serialize JSON");
    if let Err(e) = fs::write(output_file, json_string) {
        eprintln!("Failed to write output file '{}': {}", output_file, e);
        process::exit(1);
    }
}

fn main() {
    run(part1, part2);
}

"#;

/// Where the files of a cargo workspace rooted at `root` live.
pub open spec fn rust_layout(root: PathView, file: SolveFile) -> PathView {
    match file {
        SolveFile::Main => root.join("src"@).join("main.rs"@),
        SolveFile::TemplateSolution => root.join("template.rs"@),
        SolveFile::LinkedSolution(_) => root.join("src"@).join("solution.rs"@),
        SolveFile::Solution(day, year) => root.join("year"@ + int_text(year as int)).join(
            "day"@ + nat_text(day as nat) + ".rs"@,
        ),
    }
}

/// The binary that a release build of the workspace leaves behind.
pub open spec fn rust_binary(root: PathView) -> PathView {
    root.join("target"@).join("release"@).join("aocsuite_solution_rust"@)
}

/// The adapter for Rust.
#[derive(Debug, PartialEq, Eq)]
pub struct RustRunner {
    root_dir: WorkPath,
}

impl RustRunner {
    /// The adapter for the workspace rooted at `root_dir`.
    pub fn new(root_dir: WorkPath) -> (runner: RustRunner)
        ensures
            runner.root() == root_dir@,
    {
        RustRunner { root_dir }
    }

    /// The directory of the sources. It has to exist before anything is
    /// written to the workspace.
    pub fn src_dir(&self) -> (dir: WorkPath)
        ensures
            dir@ == self.root().join("src"@),
    {
        self.root_dir.join("src")
    }

    /// The manifest of the workspace.
    pub fn manifest_path(&self) -> (path: WorkPath)
        ensures
            path@ == self.root().join("Cargo.toml"@),
    {
        self.root_dir.join("Cargo.toml")
    }

    fn cargo(&self, args: &[&str]) -> (call: Invocation)
        ensures
            call@ == tool_call(
                "cargo"@,
                Seq::new(args@.len(), |i: int| args@[i]@),
                self.root(),
            ),
    {
        let mut call = Invocation::tool("cargo", self.root_dir.duplicate());
        let mut i: usize = 0;
        while i < args.len()
            invariant
                i <= args.len(),
                call@.program == ProgramView::Tool("cargo"@),
                call@.dir == self.root(),
                call@.args == Seq::new(i as nat, |k: int| ArgView::Text(args@[k]@)),
            decreases args.len() - i,
        {
            call.arg(args[i]);
            assert(call@.args =~= Seq::new((i + 1) as nat, |k: int| ArgView::Text(args@[k]@)));
            i = i + 1;
        }
        assert(call@.args =~= tool_call(
            "cargo"@,
            Seq::new(args@.len(), |i: int| args@[i]@),
            self.root(),
        ).args);
        call
    }
}

impl Solver for RustRunner {
    closed spec fn root(&self) -> PathView {
        self.root_dir@
    }

    open spec fn layout(&self, file: SolveFile) -> PathView {
        rust_layout(self.root(), file)
    }

    open spec fn build_call(&self) -> Option<InvocationView> {
        Some(tool_call("cargo"@, seq!["build"@, "--release"@], self.root()))
    }

    open spec fn run_call(&self, part: Seq<char>, input: ArgView, output: ArgView) -> InvocationView {
        InvocationView {
            program: ProgramView::File(rust_binary(self.root())),
            args: seq![input, output, ArgView::Text(part)],
            dir: self.root(),
        }
    }

    open spec fn solver_setup(&self) -> Seq<StepView> {
        seq![
            StepView::WriteIfAbsent {
                path: self.layout(SolveFile::Main),
                contents: self.main_text(),
            },
        ]
    }

    open spec fn main_text(&self) -> Seq<char> {
        RUST_MAIN@
    }

    open spec fn template_text(&self) -> Seq<char> {
        RUST_TEMPLATE@
    }

    open spec fn clean_call(&self) -> Option<InvocationView> {
        Some(tool_call("cargo"@, seq!["clean"@], self.root()))
    }

    fn compile(&self, _day: PuzzleDay, _year: PuzzleYear) -> (call: Option<Invocation>) {
        let call = self.cargo(&["build", "--release"]);
        assert(call@.args =~= tool_call(
            "cargo"@,
            seq!["build"@, "--release"@],
            self.root(),
        ).args);
        Some(call)
    }

    fn run(&self, _day: PuzzleDay, _year: PuzzleYear, part: &str, input: Arg, output: Arg) -> (call:
        Invocation) {
        let binary = self.root_dir.join("target").join("release").join("aocsuite_solution_rust");
        let mut call = Invocation::new(Program::File(binary), self.root_dir.duplicate());
        let ghost input_view = input@;
        let ghost output_view = output@;
        match input {
            Arg::Text(text) => call.arg(text.as_str()),
            Arg::File(path) => call.file_arg(path),
        }
        match output {
            Arg::Text(text) => call.arg(text.as_str()),
            Arg::File(path) => call.file_arg(path),
        }
        call.arg(part);
        assert(call@.args =~= seq![input_view, output_view, ArgView::Text(part@)]);
        call
    }

    fn get_solvefile_path(&self, file: &SolveFile) -> (path: WorkPath) {
        proof {
            let root = self.root();
            let at = self.layout(*file);
            assert(at.parts.subrange(0, root.parts.len() as int) =~= root.parts);
        }
        match file {
            SolveFile::Main => self.src_dir().join("main.rs"),
            SolveFile::TemplateSolution => self.root_dir.join("template.rs"),
            SolveFile::LinkedSolution(_) => self.src_dir().join("solution.rs"),
            SolveFile::Solution(day, year) => {
                let year_text = i64_text(*year as i64);
                let day_text = u64_text(*day as u64);
                let year_dir = concat2("year", year_text.as_str());
                let day_file = concat3("day", day_text.as_str(), ".rs");
                self.root_dir.join(year_dir.as_str()).join(day_file.as_str())
            },
        }
    }

    fn setup_solver(&self) -> (steps: Vec<WorkspaceStep>) {
        let mut steps: Vec<WorkspaceStep> = Vec::new();
        steps.push(
            WorkspaceStep::WriteIfAbsent {
                path: self.get_solvefile_path(&SolveFile::Main),
                contents: self.main_contents(),
            },
        );
        assert(steps_view(steps@) =~= self.solver_setup());
        steps
    }

    fn main_contents(&self) -> (s: String) {
        String::from_str(RUST_MAIN)
    }

    fn template_contents(&self) -> (s: String) {
        String::from_str(RUST_TEMPLATE)
    }

    fn clean_cache(&self) -> (call: Option<Invocation>) {
        let call = self.cargo(&["clean"]);
        assert(call@.args =~= tool_call("cargo"@, seq!["clean"@], self.root()).args);
        Some(call)
    }
}

impl LibManager for RustRunner {
    open spec fn lib_root(&self) -> PathView {
        self.root().join("src"@)
    }

    open spec fn extension_text(&self) -> Seq<char> {
        "rs"@
    }

    open spec fn reserved(&self) -> Seq<Seq<char>> {
        seq!["main"@, "solution"@]
    }

    fn get_lib_path(&self, lib_name: &str) -> (path: WorkPath) {
        let ext = self.file_extention();
        let file = concat3(lib_name, ".", ext.as_str());
        proof {
            reveal_strlit(".");
            assert("."@ =~= seq!['.']);
        }
        self.src_dir().join(file.as_str())
    }

    fn lib_dir(&self) -> (path: WorkPath) {
        self.src_dir()
    }

    fn file_extention(&self) -> (ext: String) {
        String::from_str("rs")
    }

    fn invalid_lib_names(&self) -> (names: Vec<String>) {
        let mut names: Vec<String> = Vec::new();
        names.push(String::from_str("main"));
        names.push(String::from_str("solution"));
        assert(texts(names@) =~= self.reserved());
        names
    }
}

impl DepManager for RustRunner {
    open spec fn env_setup(&self) -> Seq<StepView> {
        seq![
            StepView::WriteIfAbsent {
                path: self.root().join("Cargo.toml"@),
                contents: RUST_MANIFEST@,
            },
        ]
    }

    open spec fn add_call(&self, package: Seq<char>) -> InvocationView {
        tool_call("cargo"@, seq!["add"@, package], self.root())
    }

    open spec fn remove_call(&self, package: Seq<char>) -> InvocationView {
        tool_call("cargo"@, seq!["remove"@, package], self.root())
    }

    open spec fn env_marker(&self) -> PathView {
        self.root().join("Cargo.toml"@)
    }

    open spec fn list_call(&self) -> InvocationView {
        tool_call("cargo"@, seq!["tree"@, "--depth=1"@, "--prefix=none"@], self.root())
    }

    open spec fn listed(&self, stdout: Seq<char>) -> Seq<Seq<char>> {
        tree_names(stdout)
    }

    open spec fn editor_vars(&self) -> Seq<EnvPrependView> {
        Seq::empty()
    }

    open spec fn env_dir(&self) -> Option<PathView> {
        None
    }

    fn setup_env(&self) -> (steps: Vec<WorkspaceStep>) {
        let mut steps: Vec<WorkspaceStep> = Vec::new();
        steps.push(
            WorkspaceStep::WriteIfAbsent {
                path: self.manifest_path(),
                contents: String::from_str(RUST_MANIFEST),
            },
        );
        assert(steps_view(steps@) =~= self.env_setup());
        steps
    }

    fn editor_environment_vars(&self) -> (vars: Vec<EnvPrepend>) {
        let vars: Vec<EnvPrepend> = Vec::new();
        assert(env_view(vars@) =~= self.editor_vars());
        vars
    }

    fn add_package(&self, package: &str) -> (call: Invocation) {
        let call = self.cargo(&["add", package]);
        assert(call@.args =~= self.add_call(package@).args);
        call
    }

    fn list_packages(&self) -> (query: PackageQuery) {
        let command = self.cargo(&["tree", "--depth=1", "--prefix=none"]);
        assert(command@.args =~= self.list_call().args);
        PackageQuery { marker: self.manifest_path(), command }
    }

    fn read_packages(&self, output: &CommandOutput) -> (r: Result<Vec<String>, AocLanguageError>) {
        if !output.success {
            return Err(AocLanguageError::Command(output.stderr.clone()));
        }
        Ok(parse_tree_list(output.stdout.as_str()))
    }

    fn remove_packages(&self, package: &str) -> (call: Invocation) {
        let call = self.cargo(&["remove", package]);
        assert(call@.args =~= self.remove_call(package@).args);
        call
    }

    fn clean_env(&self) -> (dir: Option<WorkPath>) {
        None
    }
}

} // verus!
