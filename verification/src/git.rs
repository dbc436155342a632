//! Passing git commands through to the tool's directory.

use crate::lang::command::CommandOutput;
use crate::paths::WorkPath;
use crate::text::{begins_with, chars_of, occurs_at, same_text, texts};
use vstd::prelude::*;
use vstd::string::*;

verus! {

/// What can go wrong with a git command.
#[derive(Debug, Clone, PartialEq, Eq)]
pub enum AocGitError {
    /// Git ran and failed.
    CommandFailed { code: i32, stderr: String },
    /// The tool's directory could not be found.
    DirectoryNotFound,
    /// The system could not start git.
    Io(String),
    /// A clone was asked for in a form other than `clone <repository>`.
    Clone,
}

/// The ignore file that a fresh directory gets.
pub const DEFAULT_GITIGNORE: &'static str = r#"# AOC Suite generated files
data/
config.json

# Language specific
# Rust
Cargo.lock
target/

# Python
__pycache__/

"#;

/// The ignore file of the tool's directory, and what to write to it if it
/// is not there.
#[derive(Debug, PartialEq, Eq)]
pub struct GitIgnore {
    pub path: WorkPath,
    pub default_content: String,
}

/// What an ignore file holds until the user changes it.
pub fn get_default_gitignore_content() -> (content: &'static str)
    ensures
        content@ == DEFAULT_GITIGNORE@,
{
    DEFAULT_GITIGNORE
}

/// The ignore file of the tool's directory. It is to be written with its
/// default content if it does not exist.
pub fn get_gitignore_path(aocsuite_dir: &WorkPath) -> (r: GitIgnore)
    ensures
        r.path@ == aocsuite_dir@.join(".gitignore"@),
        r.default_content@ == DEFAULT_GITIGNORE@,
{
    GitIgnore {
        path: aocsuite_dir.join(".gitignore"),
        default_content: String::from_str(get_default_gitignore_content()),
    }
}

/// Whether one of the arguments is `flag`.
pub open spec fn has_flag(args: Seq<Seq<char>>, flag: Seq<char>) -> bool {
    args.contains(flag)
}

/// Whether one of the arguments gives a commit message: `-m`, or anything
/// that begins with `--message`.
pub open spec fn gives_message(args: Seq<Seq<char>>) -> bool {
    exists|i: int|
        0 <= i < args.len() && (#[trigger] args[i] == "-m"@ || occurs_at(args[i], "--message"@, 0))
}

/// Whether a git command needs the terminal: a commit without a message,
/// an interactive rebase, adding, checking out or resetting by patches,
/// and the diff and merge tools.
pub open spec fn interactive(args: Seq<Seq<char>>) -> bool {
    if args.len() == 0 {
        false
    } else if args[0] == "commit"@ {
        !gives_message(args)
    } else if args[0] == "rebase"@ {
        has_flag(args, "-i"@) || has_flag(args, "--interactive"@)
    } else if args[0] == "add"@ || args[0] == "checkout"@ || args[0] == "reset"@ {
        has_flag(args, "-p"@) || has_flag(args, "--patch"@)
    } else {
        args[0] == "difftool"@ || args[0] == "mergetool"@
    }
}

fn contains_arg(args: &Vec<String>, flag: &str) -> (r: bool)
    ensures
        r == has_flag(texts(args@), flag@),
{
    let mut i: usize = 0;
    while i < args.len()
        invariant
            i <= args.len(),
            forall|k: int| 0 <= k < i ==> texts(args@)[k] != flag@,
        decreases args.len() - i,
    {
        if same_text(args[i].as_str(), flag) {
            assert(texts(args@)[i as int] == flag@);
            return true;
        }
        i = i + 1;
    }
    false
}

fn any_message(args: &Vec<String>) -> (r: bool)
    ensures
        r == gives_message(texts(args@)),
{
    let prefix = chars_of("--message");
    let mut i: usize = 0;
    while i < args.len()
        invariant
            i <= args.len(),
            prefix@ == "--message"@,
            forall|k: int|
                0 <= k < i ==> !(#[trigger] texts(args@)[k] == "-m"@ || occurs_at(
                    texts(args@)[k],
                    "--message"@,
                    0,
                )),
        decreases args.len() - i,
    {
        let arg = chars_of(args[i].as_str());
        if same_text(args[i].as_str(), "-m") || begins_with(&arg, &prefix) {
            assert(texts(args@)[i as int] == args@[i as int]@);
            return true;
        }
        assert(texts(args@)[i as int] == args@[i as int]@);
        i = i + 1;
    }
    false
}

/// Decides whether a git command needs the terminal.
pub fn is_interactive_command(args: &Vec<String>) -> (r: bool)
    ensures
        r == interactive(texts(args@)),
{
    if args.len() == 0 {
        return false;
    }
    assert(texts(args@)[0] == args@[0]@);
    let command = args[0].as_str();
    if same_text(command, "commit") {
        !any_message(args)
    } else if same_text(command, "rebase") {
        contains_arg(args, "-i") || contains_arg(args, "--interactive")
    } else if same_text(command, "add") || same_text(command, "checkout") || same_text(
        command,
        "reset",
    ) {
        contains_arg(args, "-p") || contains_arg(args, "--patch")
    } else {
        same_text(command, "difftool") || same_text(command, "mergetool")
    }
}

/// Whether a git command is a clone of the one form that is supported:
/// `clone` and the repository, nothing else.
pub fn is_simple_clone(args: &Vec<String>) -> (r: Result<bool, AocGitError>)
    requires
        args@.len() > 0,
    ensures
        args@[0]@ != "clone"@ ==> r == Ok::<_, AocGitError>(false),
        args@[0]@ == "clone"@ && args@.len() != 2 ==> r == Err::<bool, _>(AocGitError::Clone),
        args@[0]@ == "clone"@ && args@.len() == 2 ==> r == Ok::<_, AocGitError>(true),
{
    if !same_text(args[0].as_str(), "clone") {
        return Ok(false);
    }
    if args.len() != 2 {
        return Err(AocGitError::Clone);
    }
    Ok(true)
}

/// How a git command is run.
#[derive(Debug, PartialEq, Eq)]
pub enum GitPlan {
    /// With the terminal handed to git, in `dir`. Nothing is captured.
    Interactive { args: Vec<String>, dir: WorkPath },
    /// With the output captured, in `dir`.
    Capture { args: Vec<String>, dir: WorkPath },
}

fn copy_args(args: &Vec<String>) -> (r: Vec<String>)
    ensures
        texts(r@) == texts(args@),
{
    let mut r: Vec<String> = Vec::new();
    let mut i: usize = 0;
    while i < args.len()
        invariant
            i <= args.len(),
            r@.len() == i,
            forall|k: int| 0 <= k < i ==> r@[k]@ == args@[k]@,
        decreases args.len() - i,
    {
        r.push(args[i].clone());
        i = i + 1;
    }
    assert(texts(r@) =~= texts(args@));
    r
}

/// How a git command is run on the tool's directory, whose ignore file is
/// made sure of first: a command that needs the terminal gets it; a clone
/// is run in the directory above with the directory's name as its target;
/// anything else is run in the directory with its output captured.
pub fn run_git_command(args: &Vec<String>, aocsuite_dir: &WorkPath) -> (r: Result<
    (GitIgnore, GitPlan),
    AocGitError,
>)
    requires
        args@.len() > 0,
        args@[0]@ == "clone"@ ==> aocsuite_dir@.parts.len() > 0,
    ensures
        match r {
            Ok((ignore, plan)) => {
                &&& ignore.path@ == aocsuite_dir@.join(".gitignore"@)
                &&& if interactive(texts(args@)) {
                    plan matches GitPlan::Interactive { args: a, dir } && texts(a@) == texts(args@)
                        && dir@ == aocsuite_dir@
                } else if args@[0]@ == "clone"@ {
                    plan matches GitPlan::Capture { args: a, dir } && texts(a@) == texts(
                        args@,
                    ).push(aocsuite_dir@.parts.last()) && dir@ == aocsuite_dir@.parent()
                } else {
                    plan matches GitPlan::Capture { args: a, dir } && texts(a@) == texts(args@)
                        && dir@ == aocsuite_dir@
                }
            },
            Err(e) => !interactive(texts(args@)) && args@[0]@ == "clone"@ && args@.len() != 2 && e
                == AocGitError::Clone,
        },
{
    let ignore = get_gitignore_path(aocsuite_dir);
    if is_interactive_command(args) {
        return Ok(
            (ignore, GitPlan::Interactive { args: copy_args(args), dir: aocsuite_dir.duplicate() }),
        );
    }
    match is_simple_clone(args) {
        Err(e) => Err(e),
        Ok(true) => {
            let mut clone_args = copy_args(args);
            let ghost before = clone_args@;
            match (aocsuite_dir.file_name(), aocsuite_dir.parent()) {
                (Some(name), Some(parent)) => {
                    clone_args.push(name);
                    assert(texts(clone_args@) =~= texts(before).push(name@));
                    Ok((ignore, GitPlan::Capture { args: clone_args, dir: parent }))
                },
                _ => Err(AocGitError::DirectoryNotFound),
            }
        },
        Ok(false) => Ok(
            (ignore, GitPlan::Capture { args: copy_args(args), dir: aocsuite_dir.duplicate() }),
        ),
    }
}

/// What a git command that ran with its output captured gave: its output
/// if it succeeded, and also if it failed without a word on standard
/// error but with something on standard output, as `git help` does; else
/// the failure with its exit code (1 where the system gave none).
pub fn run_git_command_capture(output: &CommandOutput) -> (r: Result<String, AocGitError>)
    ensures
        output.success ==> (r matches Ok(text) && text@ == output.stdout@),
        !output.success && output.stderr@.len() == 0 && output.stdout@.len() > 0 ==> (r matches Ok(
            text,
        ) && text@ == output.stdout@),
        !output.success && !(output.stderr@.len() == 0 && output.stdout@.len() > 0) ==> (
        r matches Err(AocGitError::CommandFailed { code, stderr }) && stderr@ == output.stderr@
            && code == match output.code {
            Some(c) => c,
            None => 1,
        }),
{
    if !output.success {
        let code = match output.code {
            Some(c) => c,
            None => 1,
        };
        if output.stderr.as_str().unicode_len() == 0 {
            if output.stdout.as_str().unicode_len() != 0 {
                return Ok(output.stdout.clone());
            }
        }
        return Err(AocGitError::CommandFailed { code, stderr: output.stderr.clone() });
    }
    Ok(output.stdout.clone())
}

/// What a git command that had the terminal gives back: nothing.
pub fn run_git_command_interactive() -> (r: String)
    ensures
        r@.len() == 0,
{
    String::new()
}

} // verus!
