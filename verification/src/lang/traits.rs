//! What the rest of the crate asks of a language: a solver, a dependency
//! manager and a manager of library files.

use crate::lang::command::{
    optional_call, steps_view, Arg, ArgView, CommandOutput, Invocation, InvocationView, StepView,
    WorkspaceStep,
};
use crate::lang::error::AocLanguageError;
use crate::lang::solve_file::SolveFile;
use crate::paths::{PathView, WorkPath};
use crate::puzzle::{PuzzleDay, PuzzleYear};
use crate::text::texts;
use vstd::prelude::*;

verus! {

/// A change to one variable of the environment that an editor is started
/// in: the written form of `dir`, then `separator`, then what the variable
/// held before.
#[derive(Debug, PartialEq, Eq)]
pub struct EnvPrepend {
    pub name: String,
    pub dir: WorkPath,
    pub separator: String,
}

/// The mathematical content of an `EnvPrepend`.
pub struct EnvPrependView {
    pub name: Seq<char>,
    pub dir: PathView,
    pub separator: Seq<char>,
}

impl View for EnvPrepend {
    type V = EnvPrependView;

    open spec fn view(&self) -> EnvPrependView {
        EnvPrependView { name: self.name@, dir: self.dir@, separator: self.separator@ }
    }
}

/// The views of a sequence of environment changes.
pub open spec fn env_view(vars: Seq<EnvPrepend>) -> Seq<EnvPrependView> {
    vars.map_values(|v: EnvPrepend| v@)
}

/// How the installed packages are asked for: where nothing is at `marker`
/// there are none, and otherwise `command` lists them.
#[derive(Debug, PartialEq, Eq)]
pub struct PackageQuery {
    pub marker: WorkPath,
    pub command: Invocation,
}

/// Building and running the solutions of a language, and where its files
/// live.
pub trait Solver {
    /// The root of the language's workspace.
    spec fn root(&self) -> PathView;

    /// Where each file of the workspace lives.
    spec fn layout(&self, file: SolveFile) -> PathView;

    /// The build call, for a language that has a build step.
    spec fn build_call(&self) -> Option<InvocationView>;

    /// The call that runs the active solution.
    spec fn run_call(&self, part: Seq<char>, input: ArgView, output: ArgView) -> InvocationView;

    /// The steps that prepare the workspace for the solver.
    spec fn solver_setup(&self) -> Seq<StepView>;

    /// The default body of the entry point.
    spec fn main_text(&self) -> Seq<char>;

    /// The default body of the template.
    spec fn template_text(&self) -> Seq<char>;

    /// The call that removes build artifacts, for a language that keeps any.
    spec fn clean_call(&self) -> Option<InvocationView>;

    /// The build call for the given day: `None` where the language needs no
    /// build.
    fn compile(&self, day: PuzzleDay, year: PuzzleYear) -> (call: Option<Invocation>)
        ensures
            optional_call(call) == self.build_call(),
    ;

    /// The call that runs the active solution on `input`, has it write its
    /// results to `output`, and selects `part` (`1`, `2` or `both`).
    fn run(&self, day: PuzzleDay, year: PuzzleYear, part: &str, input: Arg, output: Arg) -> (call:
        Invocation)
        ensures
            call@ == self.run_call(part@, input@, output@),
    ;

    /// Where `file` lives. Nothing is read or written. Every file lives at
    /// or below the root, and the alias lives at one place whatever it
    /// points at.
    fn get_solvefile_path(&self, file: &SolveFile) -> (path: WorkPath)
        ensures
            path@ == self.layout(*file),
            path@.is_under(self.root()),
            file.is_link() ==> path@ == self.layout(
                SolveFile::LinkedSolution(Box::new(SolveFile::Main)),
            ),
    ;

    /// The steps that make sure the shared entry point and whatever else
    /// the solver needs are there. Each step leaves alone what exists.
    fn setup_solver(&self) -> (steps: Vec<WorkspaceStep>)
        ensures
            steps_view(steps@) == self.solver_setup(),
    ;

    /// The default body of the entry point.
    fn main_contents(&self) -> (s: String)
        ensures
            s@ == self.main_text(),
    ;

    /// The default body of the template.
    fn template_contents(&self) -> (s: String)
        ensures
            s@ == self.template_text(),
    ;

    /// The call that removes build artifacts: `None` where there are none.
    fn clean_cache(&self) -> (call: Option<Invocation>)
        ensures
            optional_call(call) == self.clean_call(),
    ;
}

/// The library files of a language: small modules the user keeps beside
/// the solutions.
pub trait LibManager {
    /// The directory that holds the library files.
    spec fn lib_root(&self) -> PathView;

    /// The extension of a source file, without the dot.
    spec fn extension_text(&self) -> Seq<char>;

    /// The names that generated files already use.
    spec fn reserved(&self) -> Seq<Seq<char>>;

    /// Where the library `lib_name` lives: in the library directory, under
    /// its name with the extension behind a dot.
    fn get_lib_path(&self, lib_name: &str) -> (path: WorkPath)
        ensures
            path@ == self.lib_root().join(lib_name@ + seq!['.'] + self.extension_text()),
    ;

    /// The directory that holds the library files.
    fn lib_dir(&self) -> (path: WorkPath)
        ensures
            path@ == self.lib_root(),
    ;

    /// The extension of a source file, without the dot.
    fn file_extention(&self) -> (ext: String)
        ensures
            ext@ == self.extension_text(),
    ;

    /// The names that no library may have.
    fn invalid_lib_names(&self) -> (names: Vec<String>)
        ensures
            texts(names@) == self.reserved(),
    ;
}

/// The packages a language's solutions depend on, kept by the language's
/// own package manager.
pub trait DepManager {
    /// The steps that create the dependency environment.
    spec fn env_setup(&self) -> Seq<StepView>;

    /// The call that adds a package.
    spec fn add_call(&self, package: Seq<char>) -> InvocationView;

    /// The call that removes a package.
    spec fn remove_call(&self, package: Seq<char>) -> InvocationView;

    /// The path without which there are no packages.
    spec fn env_marker(&self) -> PathView;

    /// The call that lists the packages.
    spec fn list_call(&self) -> InvocationView;

    /// The package names in what the list call printed.
    spec fn listed(&self, stdout: Seq<char>) -> Seq<Seq<char>>;

    /// The changes to an editor's environment.
    spec fn editor_vars(&self) -> Seq<EnvPrependView>;

    /// The directory that holds the environment, where it is a directory.
    spec fn env_dir(&self) -> Option<PathView>;

    /// The steps that create the dependency environment if it is not
    /// there. Each step leaves alone what exists.
    fn setup_env(&self) -> (steps: Vec<WorkspaceStep>)
        ensures
            steps_view(steps@) == self.env_setup(),
    ;

    /// The changes to make to the environment of an editor, so that its
    /// tools find the language's environment.
    fn editor_environment_vars(&self) -> (vars: Vec<EnvPrepend>)
        ensures
            env_view(vars@) == self.editor_vars(),
    ;

    /// The call that adds `package`.
    fn add_package(&self, package: &str) -> (call: Invocation)
        ensures
            call@ == self.add_call(package@),
    ;

    /// How to ask for the installed packages.
    fn list_packages(&self) -> (query: PackageQuery)
        ensures
            query.marker@ == self.env_marker(),
            query.command@ == self.list_call(),
    ;

    /// The installed packages, from what the list call gave: the names in
    /// its output if it succeeded, else the failure with what it wrote to
    /// standard error.
    fn read_packages(&self, output: &CommandOutput) -> (r: Result<Vec<String>, AocLanguageError>)
        ensures
            output.success ==> (r matches Ok(names) && texts(names@) == self.listed(
                output.stdout@,
            )),
            !output.success ==> (r matches Err(AocLanguageError::Command(text)) && text@
                == output.stderr@),
    ;

    /// The call that removes `package`.
    fn remove_packages(&self, package: &str) -> (call: Invocation)
        ensures
            call@ == self.remove_call(package@),
    ;

    /// The directory to delete in order to drop the environment.
    fn clean_env(&self) -> (dir: Option<WorkPath>)
        ensures
            match dir {
                Some(d) => self.env_dir() == Some(d@),
                None => self.env_dir() is None,
            },
    ;
}

/// Everything a language adapter offers.
pub trait LanguageHandler: Solver + DepManager + LibManager {

}

impl<T> LanguageHandler for T where T: Solver + DepManager + LibManager {

}

} // verus!
