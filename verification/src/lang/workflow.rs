//! What the tool does with a language, worked out for any adapter: which
//! steps prepare the workspace, which call to make, and which files to
//! touch. Nothing here runs or writes anything.

use crate::lang::command::{
    optional_call, steps_view, Arg, ArgView, CommandOutput, Invocation, StepView, WorkspaceStep,
};
use crate::config::{AocConfigError, ConfigOpt};
use crate::lang::error::AocLanguageError;
use crate::lang::languages::LanguageType;
use crate::lang::libs::{
    is_verdict, kinds_of, lib_name_fault, lib_name_of_file, lib_of_file, validate_user_lib,
};
use crate::lang::protocol::result_file;
use crate::lang::solve_file::SolveFile;
use crate::lang::traits::{env_view, EnvPrepend, LanguageHandler, PackageQuery};
use crate::paths::WorkPath;
use crate::puzzle::{PuzzleDay, PuzzleYear};
use crate::text::{concat3, keep_some, lemma_keep_some_step, lowercase_text, texts};
use vstd::prelude::*;

verus! {

/// Something to do once the workspace has been prepared.
#[derive(Debug, PartialEq, Eq)]
pub struct Plan<T> {
    /// The steps that prepare the workspace, in order.
    pub setup: Vec<WorkspaceStep>,
    /// What to do after that.
    pub action: T,
}

/// A run of the active solution.
#[derive(Debug, PartialEq, Eq)]
pub struct RunPlan {
    /// The call that runs it.
    pub call: Invocation,
    /// The file that the results come back in.
    pub result_file: WorkPath,
}

/// Where a library file lives.
#[derive(Debug, PartialEq, Eq)]
pub struct LibFile {
    /// The file.
    pub path: WorkPath,
    /// The directory to create if the file does not exist yet.
    pub dir: WorkPath,
}

/// The steps that prepare the workspace of an adapter: first the
/// solver's, then the environment's.
pub open spec fn preparation<R: LanguageHandler>(runner: &R) -> Seq<StepView> {
    runner.solver_setup() + runner.env_setup()
}

/// The language to work with: the one asked for, else the configured one.
pub fn resolve_language(explicit: Option<LanguageType>, configured: Option<&str>) -> (r: Result<
    LanguageType,
    AocLanguageError,
>)
    ensures
        explicit is Some ==> r == Ok::<_, AocLanguageError>(explicit->0),
        explicit is None && configured is None ==> r == Err::<LanguageType, _>(
            AocLanguageError::Config(AocConfigError::Get { key: ConfigOpt::Language }),
        ),
        explicit is None && configured is Some ==> match LanguageType::named(
            lowercase_text(configured->0@),
        ) {
            Some(language) => r == Ok::<_, AocLanguageError>(language),
            None => r matches Err(AocLanguageError::LangNotFound(name)) && name@
                == configured->0@,
        },
{
    match explicit {
        Some(language) => Ok(language),
        None => match configured {
            Some(name) => LanguageType::from_str(name),
            None => Err(AocLanguageError::Config(AocConfigError::Get { key: ConfigOpt::Language })),
        },
    }
}

/// The steps that prepare the workspace of `runner`. They are the same
/// each time, and each leaves alone what exists.
pub fn resolve_runner<R: LanguageHandler>(runner: &R) -> (steps: Vec<WorkspaceStep>)
    ensures
        steps_view(steps@) == preparation(runner),
{
    let mut steps = runner.setup_solver();
    let mut env = runner.setup_env();
    let ghost first = steps@;
    let ghost second = env@;
    steps.append(&mut env);
    assert(steps_view(steps@) =~= steps_view(first) + steps_view(second));
    steps
}

/// The run of the active solution on `input`: the results come back
/// through the result file in the tool's data directory.
pub fn run<R: LanguageHandler>(
    day: PuzzleDay,
    year: PuzzleYear,
    part: &str,
    input: Arg,
    aocsuite_dir: &WorkPath,
    runner: &R,
) -> (plan: Plan<RunPlan>)
    ensures
        steps_view(plan.setup@) == preparation(runner),
        plan.action.result_file@ == aocsuite_dir@.join("result.json"@),
        plan.action.call@ == runner.run_call(
            part@,
            input@,
            ArgView::File(aocsuite_dir@.join("result.json"@)),
        ),
{
    let setup = resolve_runner(runner);
    let output_file = result_file(aocsuite_dir);
    let call = runner.run(day, year, part, input, Arg::File(output_file.duplicate()));
    Plan { setup, action: RunPlan { call, result_file: output_file } }
}

/// The build of the workspace, where the language has one.
pub fn compile<R: LanguageHandler>(day: PuzzleDay, year: PuzzleYear, runner: &R) -> (plan: Plan<
    Option<Invocation>,
>)
    ensures
        steps_view(plan.setup@) == preparation(runner),
        optional_call(plan.action) == runner.build_call(),
{
    let setup = resolve_runner(runner);
    let then_call = runner.compile(day, year);
    Plan { setup, action: then_call }
}

/// The steps that put `file` in place: the entry point and the template
/// get their default bodies, a solution is copied from the template, and
/// the alias is pointed at its target once that is in place.
pub open spec fn path_steps<R: LanguageHandler>(runner: &R, file: SolveFile) -> Seq<StepView>
    decreases file,
{
    match file {
        SolveFile::Solution(_, _) => seq![
            StepView::CopyTemplateIfAbsent {
                path: runner.layout(file),
                template: runner.layout(SolveFile::TemplateSolution),
                template_contents: runner.template_text(),
            },
        ],
        SolveFile::Main => seq![
            StepView::WriteIfAbsent { path: runner.layout(file), contents: runner.main_text() },
        ],
        SolveFile::TemplateSolution => seq![
            StepView::WriteIfAbsent {
                path: runner.layout(file),
                contents: runner.template_text(),
            },
        ],
        SolveFile::LinkedSolution(inner) => path_steps(runner, *inner).push(
            StepView::Link { target: runner.layout(*inner), link: runner.layout(file) },
        ),
    }
}

/// Where `file` lives, and the steps that put it in place.
pub fn file_steps<R: LanguageHandler>(file: &SolveFile, runner: &R) -> (r: (
    WorkPath,
    Vec<WorkspaceStep>,
))
    requires
        file.wf(),
    ensures
        r.0@ == runner.layout(*file),
        steps_view(r.1@) == path_steps(runner, *file),
    decreases *file,
{
    let path = runner.get_solvefile_path(file);
    let mut steps: Vec<WorkspaceStep> = Vec::new();
    match file {
        SolveFile::Solution(_, _) => {
            steps.push(
                WorkspaceStep::CopyTemplateIfAbsent {
                    path: path.duplicate(),
                    template: runner.get_solvefile_path(&SolveFile::TemplateSolution),
                    template_contents: runner.template_contents(),
                },
            );
            assert(steps_view(steps@) =~= path_steps(runner, *file));
        },
        SolveFile::Main => {
            steps.push(
                WorkspaceStep::WriteIfAbsent {
                    path: path.duplicate(),
                    contents: runner.main_contents(),
                },
            );
            assert(steps_view(steps@) =~= path_steps(runner, *file));
        },
        SolveFile::TemplateSolution => {
            steps.push(
                WorkspaceStep::WriteIfAbsent {
                    path: path.duplicate(),
                    contents: runner.template_contents(),
                },
            );
            assert(steps_view(steps@) =~= path_steps(runner, *file));
        },
        SolveFile::LinkedSolution(linked_file) => {
            let (linked_path, linked_steps) = file_steps(&**linked_file, runner);
            steps = linked_steps;
            let ghost before = steps@;
            steps.push(WorkspaceStep::Link { target: linked_path, link: path.duplicate() });
            assert(steps_view(steps@) =~= steps_view(before).push(
                StepView::Link {
                    target: runner.layout(**linked_file),
                    link: runner.layout(*file),
                },
            ));
        },
    }
    (path, steps)
}

/// Where `file` lives, with what has to be done so that it is there. The
/// file has to be well formed: an alias points at a file, never at an
/// alias.
pub fn get_path<R: LanguageHandler>(file: &SolveFile, runner: &R) -> (plan: Plan<WorkPath>)
    requires
        file.wf(),
    ensures
        plan.action@ == runner.layout(*file),
        steps_view(plan.setup@) == preparation(runner) + path_steps(runner, *file),
{
    let mut setup = resolve_runner(runner);
    let (path, mut steps) = file_steps(file, runner);
    let ghost first = setup@;
    let ghost second = steps@;
    setup.append(&mut steps);
    assert(steps_view(setup@) =~= steps_view(first) + steps_view(second));
    Plan { setup, action: path }
}

/// The alias of a well-formed file is pointed at the file it carries, in
/// one step: at the template's own path for the template, whatever the
/// adapter. No step points an alias at an alias.
pub proof fn lemma_alias_points_at_target<R: LanguageHandler>(runner: &R, file: SolveFile)
    requires
        file.wf(),
        file.is_link(),
    ensures
        path_steps(runner, file).last() == (StepView::Link {
            target: runner.layout(file.target()),
            link: runner.layout(file),
        }),
        !file.target().is_link(),
        forall|i: int|
            0 <= i < path_steps(runner, file).len() - 1 ==> !(#[trigger] path_steps(
                runner,
                file,
            )[i] is Link),
        path_steps(runner, file).len() == 2,
{
    let inner = file.target();
    assert(path_steps(runner, file) == path_steps(runner, inner).push(
        StepView::Link { target: runner.layout(inner), link: runner.layout(file) },
    ));
    assert(path_steps(runner, inner).len() == 1);
}

/// The alias of the template is pointed at the template's own path.
pub proof fn lemma_template_alias<R: LanguageHandler>(runner: &R)
    ensures
        path_steps(runner, SolveFile::LinkedSolution(Box::new(SolveFile::TemplateSolution)))
            == seq![
            StepView::WriteIfAbsent {
                path: runner.layout(SolveFile::TemplateSolution),
                contents: runner.template_text(),
            },
            StepView::Link {
                target: runner.layout(SolveFile::TemplateSolution),
                link: runner.layout(
                    SolveFile::LinkedSolution(Box::new(SolveFile::TemplateSolution)),
                ),
            },
        ],
{
    let file = SolveFile::LinkedSolution(Box::new(SolveFile::TemplateSolution));
    assert(path_steps(runner, SolveFile::TemplateSolution).len() == 1);
    assert(path_steps(runner, file) == path_steps(runner, SolveFile::TemplateSolution).push(
        StepView::Link {
            target: runner.layout(SolveFile::TemplateSolution),
            link: runner.layout(file),
        },
    ));
    assert(path_steps(runner, file) =~= seq![
        StepView::WriteIfAbsent {
            path: runner.layout(SolveFile::TemplateSolution),
            contents: runner.template_text(),
        },
        StepView::Link {
            target: runner.layout(SolveFile::TemplateSolution),
            link: runner.layout(file),
        },
    ]);
}

/// Two answers to where a file lives are the same path: the layout depends
/// on nothing but the adapter and the file.
pub proof fn lemma_paths_are_deterministic<R: LanguageHandler>(
    runner: &R,
    file: SolveFile,
    first: WorkPath,
    second: WorkPath,
)
    requires
        first@ == runner.layout(file),
        second@ == runner.layout(file),
    ensures
        first@ == second@,
{
}

/// The call that adds `package`, after the workspace has been prepared.
pub fn add_package<R: LanguageHandler>(package: &str, runner: &R) -> (plan: Plan<Invocation>)
    ensures
        steps_view(plan.setup@) == preparation(runner),
        plan.action@ == runner.add_call(package@),
{
    let setup = resolve_runner(runner);
    Plan { setup, action: runner.add_package(package) }
}

/// The call that removes `package`, after the workspace has been
/// prepared.
pub fn remove_package<R: LanguageHandler>(package: &str, runner: &R) -> (plan: Plan<Invocation>)
    ensures
        steps_view(plan.setup@) == preparation(runner),
        plan.action@ == runner.remove_call(package@),
{
    let setup = resolve_runner(runner);
    Plan { setup, action: runner.remove_packages(package) }
}

/// How to ask for the installed packages, after the workspace has been
/// prepared.
pub fn list_packages<R: LanguageHandler>(runner: &R) -> (plan: Plan<PackageQuery>)
    ensures
        steps_view(plan.setup@) == preparation(runner),
        plan.action.marker@ == runner.env_marker(),
        plan.action.command@ == runner.list_call(),
{
    let setup = resolve_runner(runner);
    Plan { setup, action: runner.list_packages() }
}

/// The packages that are installed, given whether the path that marks
/// the environment exists and, where it does, what the list call gave:
/// none without the environment; else the names in the call's output if
/// it succeeded, and the failure with what it wrote to standard error if
/// it did not.
pub fn installed_packages<R: LanguageHandler>(
    runner: &R,
    marker_exists: bool,
    output: Option<&CommandOutput>,
) -> (r: Result<Vec<String>, AocLanguageError>)
    requires
        marker_exists ==> output is Some,
    ensures
        !marker_exists ==> (r matches Ok(names) && names@.len() == 0),
        marker_exists && output->0.success ==> (r matches Ok(names) && texts(names@)
            == runner.listed(output->0.stdout@)),
        marker_exists && !output->0.success ==> (r matches Err(AocLanguageError::Command(text))
            && text@ == output->0.stderr@),
{
    if !marker_exists {
        return Ok(Vec::new());
    }
    match output {
        Some(out) => runner.read_packages(out),
        None => Ok(Vec::new()),
    }
}

/// The changes to an editor's environment, after the workspace has been
/// prepared.
pub fn editor_enviroment_vars<R: LanguageHandler>(runner: &R) -> (plan: Plan<Vec<EnvPrepend>>)
    ensures
        steps_view(plan.setup@) == preparation(runner),
        env_view(plan.action@) == runner.editor_vars(),
{
    let setup = resolve_runner(runner);
    Plan { setup, action: runner.editor_environment_vars() }
}

/// The value of a variable after a directory has been put in front of it.
pub fn prepend_value(dir: &str, separator: &str, current: &str) -> (value: String)
    ensures
        value@ == dir@ + separator@ + current@,
{
    concat3(dir, separator, current)
}

/// Where the library `lib_name` lives, if it may have that name. Nothing
/// is said of the workspace where the name is refused.
pub fn get_lib_filepath<R: LanguageHandler>(lib_name: &str, runner: &R) -> (r: Result<
    Plan<LibFile>,
    AocLanguageError,
>)
    ensures
        is_verdict(
            match r {
                Ok(_) => Ok(()),
                Err(e) => Err(e),
            },
            lib_name_fault(lib_name@, kinds_of(lib_name@), runner.reserved()),
            lib_name@,
        ),
        r matches Ok(plan) ==> {
            &&& steps_view(plan.setup@) == preparation(runner)
            &&& plan.action.path@ == runner.lib_root().join(
                lib_name@ + seq!['.'] + runner.extension_text(),
            )
            &&& plan.action.dir@ == runner.lib_root()
        },
{
    let setup = resolve_runner(runner);
    let unallowed_names = runner.invalid_lib_names();
    match validate_user_lib(lib_name, &unallowed_names) {
        Err(e) => Err(e),
        Ok(()) => {
            let path = runner.get_lib_path(lib_name);
            let dir = runner.lib_dir();
            Ok(Plan { setup, action: LibFile { path, dir } })
        },
    }
}

/// The file to delete in order to remove the library `lib_name`, if it
/// may have that name. A file that is not there is left alone.
pub fn remove_lib_file<R: LanguageHandler>(lib_name: &str, runner: &R) -> (r: Result<
    Plan<WorkPath>,
    AocLanguageError,
>)
    ensures
        is_verdict(
            match r {
                Ok(_) => Ok(()),
                Err(e) => Err(e),
            },
            lib_name_fault(lib_name@, kinds_of(lib_name@), runner.reserved()),
            lib_name@,
        ),
        r matches Ok(plan) ==> {
            &&& steps_view(plan.setup@) == preparation(runner)
            &&& plan.action@ == runner.lib_root().join(
                lib_name@ + seq!['.'] + runner.extension_text(),
            )
        },
{
    let setup = resolve_runner(runner);
    let unallowed_names = runner.invalid_lib_names();
    match validate_user_lib(lib_name, &unallowed_names) {
        Err(e) => Err(e),
        Ok(()) => Ok(Plan { setup, action: runner.get_lib_path(lib_name) }),
    }
}

/// The library that a file of the library directory counts as: the one it
/// holds by its name, if that is a name a library may have.
pub open spec fn listed_lib(
    file_name: Seq<char>,
    extension: Seq<char>,
    reserved: Seq<Seq<char>>,
) -> Option<Seq<char>> {
    match lib_of_file(file_name, extension) {
        Some(name) => if lib_name_fault(name, kinds_of(name), reserved) is None {
            Some(name)
        } else {
            None
        },
        None => None,
    }
}

/// The libraries among the files of the library directory, in the order
/// of the files.
pub open spec fn listed_libs<R: LanguageHandler>(runner: &R, file_names: Seq<Seq<char>>) -> Seq<
    Seq<char>,
> {
    keep_some(
        file_names.map_values(
            |f: Seq<char>| listed_lib(f, runner.extension_text(), runner.reserved()),
        ),
    )
}

/// The libraries of a language, given the names of the files that its
/// library directory holds.
pub fn list_lib_files<R: LanguageHandler>(runner: &R, file_names: &Vec<String>) -> (plan: Plan<
    Vec<String>,
>)
    ensures
        steps_view(plan.setup@) == preparation(runner),
        texts(plan.action@) == listed_libs(runner, texts(file_names@)),
{
    let setup = resolve_runner(runner);
    let file_extention = runner.file_extention();
    let unallowed_names = runner.invalid_lib_names();
    let mut libs: Vec<String> = Vec::new();
    let ghost judged = texts(file_names@).map_values(
        |f: Seq<char>| listed_lib(f, runner.extension_text(), runner.reserved()),
    );
    let mut i: usize = 0;
    assert(judged.take(0) =~= Seq::empty());
    assert(texts(libs@) =~= keep_some(judged.take(0)));
    while i < file_names.len()
        invariant
            i <= file_names.len(),
            file_extention@ == runner.extension_text(),
            texts(unallowed_names@) == runner.reserved(),
            judged == texts(file_names@).map_values(
                |f: Seq<char>| listed_lib(f, runner.extension_text(), runner.reserved()),
            ),
            texts(libs@) == keep_some(judged.take(i as int)),
        decreases file_names.len() - i,
    {
        proof {
            assert(texts(file_names@)[i as int] == file_names@[i as int]@);
            lemma_keep_some_step(judged, i as int);
        }
        let ghost before = libs@;
        match lib_name_of_file(file_names[i].as_str(), file_extention.as_str()) {
            Some(name) => {
                match validate_user_lib(name.as_str(), &unallowed_names) {
                    Ok(()) => {
                        libs.push(name);
                        assert(texts(libs@) =~= texts(before).push(name@));
                    },
                    Err(_) => {},
                }
            },
            None => {},
        }
        i = i + 1;
    }
    assert(judged.take(i as int) =~= judged);
    Plan { setup, action: libs }
}

} // verus!
