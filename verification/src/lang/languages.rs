//! The languages that have an adapter, and the adapters behind one type.

use crate::lang::command::{
    Arg, ArgView, CommandOutput, Invocation, InvocationView, StepView, WorkspaceStep,
};
use crate::lang::error::AocLanguageError;
use crate::lang::python::PythonRunner;
use crate::lang::rust::RustRunner;
use crate::lang::solve_file::SolveFile;
use crate::lang::traits::{
    DepManager, EnvPrepend, EnvPrependView, LibManager, PackageQuery, Solver,
};
use crate::paths::{PathView, WorkPath};
use crate::puzzle::{PuzzleDay, PuzzleYear};
use crate::text::{lowercase, lowercase_text, same_text};
use vstd::prelude::*;
use vstd::string::*;

verus! {

/// A language that has an adapter.
#[derive(Debug, Clone, Copy, PartialEq, Eq, Structural)]
pub enum LanguageType {
    Rust,
    Python,
}

impl LanguageType {
    /// The name of the language, which is also the name of its workspace
    /// directory.
    pub open spec fn name_text(self) -> Seq<char> {
        match self {
            LanguageType::Rust => "rust"@,
            LanguageType::Python => "python"@,
        }
    }

    /// The language that a lowercase name stands for.
    pub open spec fn named(lower: Seq<char>) -> Option<LanguageType> {
        if lower == "rust"@ {
            Some(LanguageType::Rust)
        } else if lower == "python"@ {
            Some(LanguageType::Python)
        } else {
            None
        }
    }

    /// The name of the language.
    pub fn to_string(&self) -> (s: String)
        ensures
            s@ == self.name_text(),
    {
        match self {
            LanguageType::Rust => String::from_str("rust"),
            LanguageType::Python => String::from_str("python"),
        }
    }

    /// The language that a lowercase name stands for.
    pub fn from_lowercase(lower: &str) -> (r: Option<LanguageType>)
        ensures
            r == LanguageType::named(lower@),
    {
        if same_text(lower, "rust") {
            Some(LanguageType::Rust)
        } else if same_text(lower, "python") {
            Some(LanguageType::Python)
        } else {
            None
        }
    }

    /// The language that `s` names, whatever the case of its letters. An
    /// unknown name comes back in the error as it was given.
    pub fn from_str(s: &str) -> (r: Result<LanguageType, AocLanguageError>)
        ensures
            match LanguageType::named(lowercase_text(s@)) {
                Some(language) => r == Ok::<_, AocLanguageError>(language),
                None => r matches Err(AocLanguageError::LangNotFound(name)) && name@ == s@,
            },
    {
        let lower = lowercase(s);
        match LanguageType::from_lowercase(lower.as_str()) {
            Some(language) => Ok(language),
            None => Err(AocLanguageError::LangNotFound(s.to_owned())),
        }
    }

    /// The adapter of this language for the tool's data directory: its
    /// workspace is the directory named after the language.
    pub fn to_runner(&self, aocsuite_dir: &WorkPath) -> (runner: LanguageRunner)
        ensures
            runner.language() == *self,
            runner.root() == aocsuite_dir@.join(self.name_text()),
    {
        let name = self.to_string();
        let root_dir = aocsuite_dir.join(name.as_str());
        match self {
            LanguageType::Rust => LanguageRunner::Rust(RustRunner::new(root_dir)),
            LanguageType::Python => LanguageRunner::Python(PythonRunner::new(root_dir)),
        }
    }
}

/// The two lowercase names are told apart, and each names its language.
pub proof fn lemma_names_are_distinct()
    ensures
        LanguageType::named(LanguageType::Rust.name_text()) == Some(LanguageType::Rust),
        LanguageType::named(LanguageType::Python.name_text()) == Some(LanguageType::Python),
{
    reveal_strlit("rust");
    reveal_strlit("python");
    assert("rust"@.len() != "python"@.len());
}

/// An adapter of any language.
#[derive(Debug, PartialEq, Eq)]
pub enum LanguageRunner {
    Rust(RustRunner),
    Python(PythonRunner),
}

impl LanguageRunner {
    /// The language of the adapter.
    pub open spec fn language(&self) -> LanguageType {
        match self {
            LanguageRunner::Rust(_) => LanguageType::Rust,
            LanguageRunner::Python(_) => LanguageType::Python,
        }
    }

    /// The language of the adapter.
    pub fn language_type(&self) -> (language: LanguageType)
        ensures
            language == self.language(),
    {
        match self {
            LanguageRunner::Rust(_) => LanguageType::Rust,
            LanguageRunner::Python(_) => LanguageType::Python,
        }
    }

    /// The directories that have to exist before the workspace is used,
    /// outermost first.
    pub fn required_dirs(&self) -> (dirs: Vec<WorkPath>)
        ensures
            dirs@.len() >= 1,
            dirs@[0]@ == self.root(),
            self.language() == LanguageType::Rust ==> dirs@.len() == 2 && dirs@[1]@
                == self.root().join("src"@),
            self.language() == LanguageType::Python ==> dirs@.len() == 1,
    {
        let mut dirs: Vec<WorkPath> = Vec::new();
        match self {
            LanguageRunner::Rust(r) => {
                let src = r.src_dir();
                match src.parent() {
                    Some(root) => {
                        assert(root@ =~= self.root()) by {
                            assert(self.root().join("src"@).parts.drop_last() =~= self.root().parts);
                        }
                        dirs.push(root);
                    },
                    None => {
                        assert(false);
                    },
                }
                dirs.push(src);
            },
            LanguageRunner::Python(r) => {
                dirs.push(r.lib_dir());
            },
        }
        dirs
    }
}

impl Solver for LanguageRunner {
    open spec fn root(&self) -> PathView {
        match self {
            LanguageRunner::Rust(r) => r.root(),
            LanguageRunner::Python(r) => r.root(),
        }
    }

    open spec fn layout(&self, file: SolveFile) -> PathView {
        match self {
            LanguageRunner::Rust(r) => r.layout(file),
            LanguageRunner::Python(r) => r.layout(file),
        }
    }

    open spec fn build_call(&self) -> Option<InvocationView> {
        match self {
            LanguageRunner::Rust(r) => r.build_call(),
            LanguageRunner::Python(r) => r.build_call(),
        }
    }

    open spec fn run_call(&self, part: Seq<char>, input: ArgView, output: ArgView) -> InvocationView {
        match self {
            LanguageRunner::Rust(r) => r.run_call(part, input, output),
            LanguageRunner::Python(r) => r.run_call(part, input, output),
        }
    }

    open spec fn solver_setup(&self) -> Seq<StepView> {
        match self {
            LanguageRunner::Rust(r) => r.solver_setup(),
            LanguageRunner::Python(r) => r.solver_setup(),
        }
    }

    open spec fn main_text(&self) -> Seq<char> {
        match self {
            LanguageRunner::Rust(r) => r.main_text(),
            LanguageRunner::Python(r) => r.main_text(),
        }
    }

    open spec fn template_text(&self) -> Seq<char> {
        match self {
            LanguageRunner::Rust(r) => r.template_text(),
            LanguageRunner::Python(r) => r.template_text(),
        }
    }

    open spec fn clean_call(&self) -> Option<InvocationView> {
        match self {
            LanguageRunner::Rust(r) => r.clean_call(),
            LanguageRunner::Python(r) => r.clean_call(),
        }
    }

    fn compile(&self, day: PuzzleDay, year: PuzzleYear) -> (call: Option<Invocation>) {
        match self {
            LanguageRunner::Rust(r) => r.compile(day, year),
            LanguageRunner::Python(r) => r.compile(day, year),
        }
    }

    fn run(&self, day: PuzzleDay, year: PuzzleYear, part: &str, input: Arg, output: Arg) -> (call: Invocation) {
        match self {
            LanguageRunner::Rust(r) => r.run(day, year, part, input, output),
            LanguageRunner::Python(r) => r.run(day, year, part, input, output),
        }
    }

    fn get_solvefile_path(&self, file: &SolveFile) -> (path: WorkPath) {
        match self {
            LanguageRunner::Rust(r) => r.get_solvefile_path(file),
            LanguageRunner::Python(r) => r.get_solvefile_path(file),
        }
    }

    fn setup_solver(&self) -> (steps: Vec<WorkspaceStep>) {
        match self {
            LanguageRunner::Rust(r) => r.setup_solver(),
            LanguageRunner::Python(r) => r.setup_solver(),
        }
    }

    fn main_contents(&self) -> (s: String) {
        match self {
            LanguageRunner::Rust(r) => r.main_contents(),
            LanguageRunner::Python(r) => r.main_contents(),
        }
    }

    fn template_contents(&self) -> (s: String) {
        match self {
            LanguageRunner::Rust(r) => r.template_contents(),
            LanguageRunner::Python(r) => r.template_contents(),
        }
    }

    fn clean_cache(&self) -> (call: Option<Invocation>) {
        match self {
            LanguageRunner::Rust(r) => r.clean_cache(),
            LanguageRunner::Python(r) => r.clean_cache(),
        }
    }
}

impl LibManager for LanguageRunner {
    open spec fn lib_root(&self) -> PathView {
        match self {
            LanguageRunner::Rust(r) => r.lib_root(),
            LanguageRunner::Python(r) => r.lib_root(),
        }
    }

    open spec fn extension_text(&self) -> Seq<char> {
        match self {
            LanguageRunner::Rust(r) => r.extension_text(),
            LanguageRunner::Python(r) => r.extension_text(),
        }
    }

    open spec fn reserved(&self) -> Seq<Seq<char>> {
        match self {
            LanguageRunner::Rust(r) => r.reserved(),
            LanguageRunner::Python(r) => r.reserved(),
        }
    }

    fn get_lib_path(&self, lib_name: &str) -> (path: WorkPath) {
        match self {
            LanguageRunner::Rust(r) => r.get_lib_path(lib_name),
            LanguageRunner::Python(r) => r.get_lib_path(lib_name),
        }
    }

    fn lib_dir(&self) -> (path: WorkPath) {
        match self {
            LanguageRunner::Rust(r) => r.lib_dir(),
            LanguageRunner::Python(r) => r.lib_dir(),
        }
    }

    fn file_extention(&self) -> (ext: String) {
        match self {
            LanguageRunner::Rust(r) => r.file_extention(),
            LanguageRunner::Python(r) => r.file_extention(),
        }
    }

    fn invalid_lib_names(&self) -> (names: Vec<String>) {
        match self {
            LanguageRunner::Rust(r) => r.invalid_lib_names(),
            LanguageRunner::Python(r) => r.invalid_lib_names(),
        }
    }
}

impl DepManager for LanguageRunner {
    open spec fn env_setup(&self) -> Seq<StepView> {
        match self {
            LanguageRunner::Rust(r) => r.env_setup(),
            LanguageRunner::Python(r) => r.env_setup(),
        }
    }

    open spec fn add_call(&self, package: Seq<char>) -> InvocationView {
        match self {
            LanguageRunner::Rust(r) => r.add_call(package),
            LanguageRunner::Python(r) => r.add_call(package),
        }
    }

    open spec fn remove_call(&self, package: Seq<char>) -> InvocationView {
        match self {
            LanguageRunner::Rust(r) => r.remove_call(package),
            LanguageRunner::Python(r) => r.remove_call(package),
        }
    }

    open spec fn env_marker(&self) -> PathView {
        match self {
            LanguageRunner::Rust(r) => r.env_marker(),
            LanguageRunner::Python(r) => r.env_marker(),
        }
    }

    open spec fn list_call(&self) -> InvocationView {
        match self {
            LanguageRunner::Rust(r) => r.list_call(),
            LanguageRunner::Python(r) => r.list_call(),
        }
    }

    open spec fn listed(&self, stdout: Seq<char>) -> Seq<Seq<char>> {
        match self {
            LanguageRunner::Rust(r) => r.listed(stdout),
            LanguageRunner::Python(r) => r.listed(stdout),
        }
    }

    open spec fn editor_vars(&self) -> Seq<EnvPrependView> {
        match self {
            LanguageRunner::Rust(r) => r.editor_vars(),
            LanguageRunner::Python(r) => r.editor_vars(),
        }
    }

    open spec fn env_dir(&self) -> Option<PathView> {
        match self {
            LanguageRunner::Rust(r) => r.env_dir(),
            LanguageRunner::Python(r) => r.env_dir(),
        }
    }

    fn setup_env(&self) -> (steps: Vec<WorkspaceStep>) {
        match self {
            LanguageRunner::Rust(r) => r.setup_env(),
            LanguageRunner::Python(r) => r.setup_env(),
        }
    }

    fn editor_environment_vars(&self) -> (vars: Vec<EnvPrepend>) {
        match self {
            LanguageRunner::Rust(r) => r.editor_environment_vars(),
            LanguageRunner::Python(r) => r.editor_environment_vars(),
        }
    }

    fn add_package(&self, package: &str) -> (call: Invocation) {
        match self {
            LanguageRunner::Rust(r) => r.add_package(package),
            LanguageRunner::Python(r) => r.add_package(package),
        }
    }

    fn list_packages(&self) -> (query: PackageQuery) {
        match self {
            LanguageRunner::Rust(r) => r.list_packages(),
            LanguageRunner::Python(r) => r.list_packages(),
        }
    }

    fn read_packages(&self, output: &CommandOutput) -> (r: Result<Vec<String>, AocLanguageError>) {
        match self {
            LanguageRunner::Rust(r) => r.read_packages(output),
            LanguageRunner::Python(r) => r.read_packages(output),
        }
    }

    fn remove_packages(&self, package: &str) -> (call: Invocation) {
        match self {
            LanguageRunner::Rust(r) => r.remove_packages(package),
            LanguageRunner::Python(r) => r.remove_packages(package),
        }
    }

    fn clean_env(&self) -> (dir: Option<WorkPath>) {
        match self {
            LanguageRunner::Rust(r) => r.clean_env(),
            LanguageRunner::Python(r) => r.clean_env(),
        }
    }
}

} // verus!
