//! The adapter for an interpreted language with a virtual environment:
//! Python with venv and pip.
//!
//! Everything lives at the root of the workspace: the entry point, the
//! template, the alias of the active solution, the library files, and the
//! environment under `venv`. The solutions live under a directory per year.

use crate::lang::command::{
    steps_view, tool_call, Arg, ArgView, CommandOutput, Invocation, InvocationView, Program,
    ProgramView, StepView, WorkspaceStep,
};
use crate::lang::error::AocLanguageError;
use crate::lang::packages::{frozen_names, parse_frozen_list};
use crate::lang::solve_file::SolveFile;
use crate::lang::traits::{
    env_view, DepManager, EnvPrepend, EnvPrependView, LibManager, PackageQuery, Solver,
};
use crate::paths::{PathView, WorkPath};
use crate::puzzle::{PuzzleDay, PuzzleYear};
use crate::text::{concat2, concat3, i64_text, int_text, nat_text, texts, u64_text};
use vstd::prelude::*;
use vstd::string::*;

verus! {

/// The stub that new solutions are copied from.
pub const PYTHON_TEMPLATE: &'static str = r#""""Implement your solution here"""

def part1(input: str) -> str:
    # Replace this stub with actual implementation
    return f"Part 1 not implemented yet. Input length: {{len(input)}}"

def part2(input: str) -> str:
    # Replace this stub with actual implementation
    return f"Part 2 not implemented yet. Input length: {{len(input)}}"

"#;

/// The shared entry point: it reads the input file, runs the parts that
/// were asked for, times each, and writes the results as JSON.
pub const PYTHON_MAIN: &'static str = r#"import sys
import json
import time
from pathlib import Path

# Import solution functions
from solution import part1, part2

def run_part(part_fn, input_data):
    """Run a part function and measure execution time."""
    start = time.perf_counter()
    answer = part_fn(input_data)
    runtime_ms = int((time.perf_counter() - start) * 1000)
    
    return {
        "answer": str(answer),
        "runtime_ms": runtime_ms
    }

def main():
    if len(sys.argv) < 3 or len(sys.argv) > 4:
        print(f"Usage: {sys.argv[0]} <input_file> <output_file> [1|2|both]", file=sys.stderr)
        sys.exit(1)
    
    input_file = sys.argv[1]
    output_file = sys.argv[2]
    part = sys.argv[3] if len(sys.argv) > 3 else "both"
    
    # Validate part argument
    if part not in ["1", "2", "both"]:
        print(f"Invalid part '{part}'. Use '1', '2', or 'both'", file=sys.stderr)
        sys.exit(1)
    
    # Read input file
    try:
        with open(input_file, 'r') as f:
            input_data = f.read()
    except IOError as e:
        print(f"Failed to read file '{input_file}': {e}", file=sys.stderr)
        sys.exit(1)
    
    # Ensure output directory exists
    output_path = Path(output_file)
    output_path.parent.mkdir(parents=True, exist_ok=True)
    
    # Prepare output structure
    output = {
        "part1": None,
        "part2": None
    }
    
    # Run requested parts
    if part == "1":
        output["part1"] = run_part(part1, input_data)
    elif part == "2":
        output["part2"] = run_part(part2, input_data)
    else:  # both
        output["part1"] = run_part(part1, input_data)
        output["part2"] = run_part(part2, input_data)
    
    # Write output to file
    try:
        with open(output_file, 'w') as f:
            json.dump(output, f, indent=2)
    except IOError as e:
        print(f"Failed to write output file '{output_file}': {e}", file=sys.stderr)
        sys.exit(1)

if __name__ == "__main__":
    main()
"#;

/// Where the files of a Python workspace rooted at `root` live.
pub open spec fn python_layout(root: PathView, file: SolveFile) -> PathView {
    match file {
        SolveFile::Main => root.join("main.py"@),
        SolveFile::TemplateSolution => root.join("template.py"@),
        SolveFile::LinkedSolution(_) => root.join("solution.py"@),
        SolveFile::Solution(day, year) => root.join("year"@ + int_text(year as int)).join(
            "day"@ + nat_text(day as nat) + ".py"@,
        ),
    }
}

/// The directory of the environment that holds its executables: `Scripts`
/// where the system lays environments out as Windows does, else `bin`.
pub open spec fn venv_bin(root: PathView, windows: bool) -> PathView {
    if windows {
        root.join("venv"@).join("Scripts"@)
    } else {
        root.join("venv"@).join("bin"@)
    }
}

/// The interpreter of the environment.
pub open spec fn venv_python(root: PathView, windows: bool) -> PathView {
    if windows {
        venv_bin(root, windows).join("python.exe"@)
    } else {
        venv_bin(root, windows).join("python"@)
    }
}

/// The package manager of the environment.
pub open spec fn venv_pip(root: PathView, windows: bool) -> PathView {
    if windows {
        venv_bin(root, windows).join("pip.exe"@)
    } else {
        venv_bin(root, windows).join("pip"@)
    }
}

/// A call of the environment's package manager with text arguments.
pub open spec fn pip_call(root: PathView, windows: bool, args: Seq<Seq<char>>) -> InvocationView {
    InvocationView {
        program: ProgramView::File(venv_pip(root, windows)),
        args: args.map_values(|a: Seq<char>| ArgView::Text(a)),
        dir: root,
    }
}

/// The adapter for Python.
#[derive(Debug, PartialEq, Eq)]
pub struct PythonRunner {
    root_dir: WorkPath,
    windows: bool,
}

impl PythonRunner {
    /// Whether the environment is laid out as on Windows.
    pub closed spec fn windows_layout(&self) -> bool {
        self.windows
    }

    /// The adapter for the workspace rooted at `root_dir`, with the
    /// environment laid out as on Unix.
    pub fn new(root_dir: WorkPath) -> (runner: PythonRunner)
        ensures
            runner.root() == root_dir@,
            !runner.windows_layout(),
    {
        PythonRunner { root_dir, windows: false }
    }

    /// The adapter for the workspace rooted at `root_dir`, with the
    /// environment laid out as on Windows.
    pub fn for_windows(root_dir: WorkPath) -> (runner: PythonRunner)
        ensures
            runner.root() == root_dir@,
            runner.windows_layout(),
    {
        PythonRunner { root_dir, windows: true }
    }

    /// The directory of the environment.
    pub fn venv_dir(&self) -> (dir: WorkPath)
        ensures
            dir@ == self.root().join("venv"@),
    {
        self.root_dir.join("venv")
    }

    fn bin_dir(&self) -> (dir: WorkPath)
        ensures
            dir@ == venv_bin(self.root(), self.windows_layout()),
    {
        if self.windows {
            self.venv_dir().join("Scripts")
        } else {
            self.venv_dir().join("bin")
        }
    }

    /// The package manager of the environment.
    pub fn get_pip_path(&self) -> (path: WorkPath)
        ensures
            path@ == venv_pip(self.root(), self.windows_layout()),
    {
        if self.windows {
            self.bin_dir().join("pip.exe")
        } else {
            self.bin_dir().join("pip")
        }
    }

    /// The interpreter of the environment: the one that sees the installed
    /// packages.
    pub fn get_python_path(&self) -> (path: WorkPath)
        ensures
            path@ == venv_python(self.root(), self.windows_layout()),
    {
        if self.windows {
            self.bin_dir().join("python.exe")
        } else {
            self.bin_dir().join("python")
        }
    }

    fn pip(&self, args: &[&str]) -> (call: Invocation)
        ensures
            call@ == pip_call(
                self.root(),
                self.windows_layout(),
                Seq::new(args@.len(), |i: int| args@[i]@),
            ),
    {
        let mut call = Invocation::new(
            Program::File(self.get_pip_path()),
            self.root_dir.duplicate(),
        );
        let mut i: usize = 0;
        while i < args.len()
            invariant
                i <= args.len(),
                call@.program == ProgramView::File(venv_pip(self.root(), self.windows_layout())),
                call@.dir == self.root(),
                call@.args == Seq::new(i as nat, |k: int| ArgView::Text(args@[k]@)),
            decreases args.len() - i,
        {
            call.arg(args[i]);
            assert(call@.args =~= Seq::new((i + 1) as nat, |k: int| ArgView::Text(args@[k]@)));
            i = i + 1;
        }
        assert(call@.args =~= pip_call(
            self.root(),
            self.windows_layout(),
            Seq::new(args@.len(), |i: int| args@[i]@),
        ).args);
        call
    }
}

impl Solver for PythonRunner {
    closed spec fn root(&self) -> PathView {
        self.root_dir@
    }

    open spec fn layout(&self, file: SolveFile) -> PathView {
        python_layout(self.root(), file)
    }

    open spec fn build_call(&self) -> Option<InvocationView> {
        None
    }

    open spec fn run_call(&self, part: Seq<char>, input: ArgView, output: ArgView) -> InvocationView {
        InvocationView {
            program: ProgramView::File(venv_python(self.root(), self.windows_layout())),
            args: seq![
                ArgView::File(self.layout(SolveFile::Main)),
                input,
                output,
                ArgView::Text(part),
            ],
            dir: self.root(),
        }
    }

    open spec fn solver_setup(&self) -> Seq<StepView> {
        seq![
            StepView::WriteIfAbsent {
                path: self.layout(SolveFile::Main),
                contents: self.main_text(),
            },
        ]
    }

    open spec fn main_text(&self) -> Seq<char> {
        PYTHON_MAIN@
    }

    open spec fn template_text(&self) -> Seq<char> {
        PYTHON_TEMPLATE@
    }

    open spec fn clean_call(&self) -> Option<InvocationView> {
        None
    }

    fn compile(&self, _day: PuzzleDay, _year: PuzzleYear) -> (call: Option<Invocation>) {
        None
    }

    fn run(&self, _day: PuzzleDay, _year: PuzzleYear, part: &str, input: Arg, output: Arg) -> (call:
        Invocation) {
        let mut call = Invocation::new(
            Program::File(self.get_python_path()),
            self.root_dir.duplicate(),
        );
        let ghost input_view = input@;
        let ghost output_view = output@;
        call.file_arg(self.get_solvefile_path(&SolveFile::Main));
        match input {
            Arg::Text(text) => call.arg(text.as_str()),
            Arg::File(path) => call.file_arg(path),
        }
        match output {
            Arg::Text(text) => call.arg(text.as_str()),
            Arg::File(path) => call.file_arg(path),
        }
        call.arg(part);
        assert(call@.args =~= seq![
            ArgView::File(self.layout(SolveFile::Main)),
            input_view,
            output_view,
            ArgView::Text(part@),
        ]);
        call
    }

    fn get_solvefile_path(&self, file: &SolveFile) -> (path: WorkPath) {
        proof {
            let root = self.root();
            let at = self.layout(*file);
            assert(at.parts.subrange(0, root.parts.len() as int) =~= root.parts);
        }
        match file {
            SolveFile::Main => self.root_dir.join("main.py"),
            SolveFile::TemplateSolution => self.root_dir.join("template.py"),
            SolveFile::LinkedSolution(_) => self.root_dir.join("solution.py"),
            SolveFile::Solution(day, year) => {
                let year_text = i64_text(*year as i64);
                let day_text = u64_text(*day as u64);
                let year_dir = concat2("year", year_text.as_str());
                let day_file = concat3("day", day_text.as_str(), ".py");
                self.root_dir.join(year_dir.as_str()).join(day_file.as_str())
            },
        }
    }

    fn setup_solver(&self) -> (steps: Vec<WorkspaceStep>) {
        let mut steps: Vec<WorkspaceStep> = Vec::new();
        steps.push(
            WorkspaceStep::WriteIfAbsent {
                path: self.get_solvefile_path(&SolveFile::Main),
                contents: self.main_contents(),
            },
        );
        assert(steps_view(steps@) =~= self.solver_setup());
        steps
    }

    fn main_contents(&self) -> (s: String) {
        String::from_str(PYTHON_MAIN)
    }

    fn template_contents(&self) -> (s: String) {
        String::from_str(PYTHON_TEMPLATE)
    }

    fn clean_cache(&self) -> (call: Option<Invocation>) {
        None
    }
}

impl LibManager for PythonRunner {
    open spec fn lib_root(&self) -> PathView {
        self.root()
    }

    open spec fn extension_text(&self) -> Seq<char> {
        "py"@
    }

    open spec fn reserved(&self) -> Seq<Seq<char>> {
        seq!["main"@, "solution"@]
    }

    fn get_lib_path(&self, lib_name: &str) -> (path: WorkPath) {
        let ext = self.file_extention();
        let file = concat3(lib_name, ".", ext.as_str());
        proof {
            reveal_strlit(".");
            assert("."@ =~= seq!['.']);
        }
        self.root_dir.join(file.as_str())
    }

    fn lib_dir(&self) -> (path: WorkPath) {
        self.root_dir.duplicate()
    }

    fn file_extention(&self) -> (ext: String) {
        String::from_str("py")
    }

    fn invalid_lib_names(&self) -> (names: Vec<String>) {
        let mut names: Vec<String> = Vec::new();
        names.push(String::from_str("main"));
        names.push(String::from_str("solution"));
        assert(texts(names@) =~= self.reserved());
        names
    }
}

impl DepManager for PythonRunner {
    open spec fn env_setup(&self) -> Seq<StepView> {
        seq![
            StepView::RunIfAbsent {
                path: self.root().join("venv"@),
                command: tool_call("python3"@, seq!["-m"@, "venv"@, "venv"@], self.root()),
            },
        ]
    }

    open spec fn add_call(&self, package: Seq<char>) -> InvocationView {
        pip_call(self.root(), self.windows_layout(), seq!["install"@, package])
    }

    open spec fn remove_call(&self, package: Seq<char>) -> InvocationView {
        pip_call(self.root(), self.windows_layout(), seq!["uninstall"@, "-y"@, package])
    }

    open spec fn env_marker(&self) -> PathView {
        self.root().join("venv"@)
    }

    open spec fn list_call(&self) -> InvocationView {
        pip_call(self.root(), self.windows_layout(), seq!["list"@, "--format=freeze"@])
    }

    open spec fn listed(&self, stdout: Seq<char>) -> Seq<Seq<char>> {
        frozen_names(stdout)
    }

    open spec fn editor_vars(&self) -> Seq<EnvPrependView> {
        seq![
            EnvPrependView {
                name: "PATH"@,
                dir: venv_bin(self.root(), self.windows_layout()),
                separator: ":"@,
            },
        ]
    }

    open spec fn env_dir(&self) -> Option<PathView> {
        Some(self.root().join("venv"@))
    }

    fn setup_env(&self) -> (steps: Vec<WorkspaceStep>) {
        let mut command = Invocation::tool("python3", self.root_dir.duplicate());
        command.arg("-m");
        command.arg("venv");
        command.arg("venv");
        assert(command@.args =~= tool_call(
            "python3"@,
            seq!["-m"@, "venv"@, "venv"@],
            self.root(),
        ).args);
        let mut steps: Vec<WorkspaceStep> = Vec::new();
        steps.push(WorkspaceStep::RunIfAbsent { path: self.venv_dir(), command });
        assert(steps_view(steps@) =~= self.env_setup());
        steps
    }

    fn editor_environment_vars(&self) -> (vars: Vec<EnvPrepend>) {
        let mut vars: Vec<EnvPrepend> = Vec::new();
        vars.push(
            EnvPrepend {
                name: String::from_str("PATH"),
                dir: self.bin_dir(),
                separator: String::from_str(":"),
            },
        );
        assert(env_view(vars@) =~= self.editor_vars());
        vars
    }

    fn add_package(&self, package: &str) -> (call: Invocation) {
        let call = self.pip(&["install", package]);
        assert(call@.args =~= self.add_call(package@).args);
        call
    }

    fn list_packages(&self) -> (query: PackageQuery) {
        let command = self.pip(&["list", "--format=freeze"]);
        assert(command@.args =~= self.list_call().args);
        PackageQuery { marker: self.venv_dir(), command }
    }

    fn read_packages(&self, output: &CommandOutput) -> (r: Result<Vec<String>, AocLanguageError>) {
        if !output.success {
            return Err(AocLanguageError::Command(output.stderr.clone()));
        }
        Ok(parse_frozen_list(output.stdout.as_str()))
    }

    fn remove_packages(&self, package: &str) -> (call: Invocation) {
        let call = self.pip(&["uninstall", "-y", package]);
        assert(call@.args =~= self.remove_call(package@).args);
        call
    }

    fn clean_env(&self) -> (dir: Option<WorkPath>) {
        Some(self.venv_dir())
    }
}

} // verus!
