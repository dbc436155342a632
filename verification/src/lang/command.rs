//! Calls of outside tools and steps on the workspace, as plain data. The
//! library decides what is to be run or written; its caller does it.

use crate::paths::{PathView, WorkPath};
use vstd::prelude::*;

verus! {

/// The program of a call.
#[derive(Debug, PartialEq, Eq)]
pub enum Program {
    /// A tool found through the search path, by name.
    Tool(String),
    /// An executable file of the workspace.
    File(WorkPath),
}

/// The mathematical content of a `Program`.
pub enum ProgramView {
    Tool(Seq<char>),
    File(PathView),
}

impl View for Program {
    type V = ProgramView;

    open spec fn view(&self) -> ProgramView {
        match self {
            Program::Tool(name) => ProgramView::Tool(name@),
            Program::File(path) => ProgramView::File(path@),
        }
    }
}

/// One argument of a call.
#[derive(Debug, PartialEq, Eq)]
pub enum Arg {
    /// Text handed on as it is.
    Text(String),
    /// A file of the workspace.
    File(WorkPath),
}

/// The mathematical content of an `Arg`.
pub enum ArgView {
    Text(Seq<char>),
    File(PathView),
}

impl View for Arg {
    type V = ArgView;

    open spec fn view(&self) -> ArgView {
        match self {
            Arg::Text(text) => ArgView::Text(text@),
            Arg::File(path) => ArgView::File(path@),
        }
    }
}

/// The views of a sequence of arguments.
pub open spec fn args_view(args: Seq<Arg>) -> Seq<ArgView> {
    args.map_values(|a: Arg| a@)
}

/// A call of an outside tool: the program, its arguments in order, and the
/// directory it runs in.
#[derive(Debug, PartialEq, Eq)]
pub struct Invocation {
    pub program: Program,
    pub args: Vec<Arg>,
    pub dir: WorkPath,
}

/// The mathematical content of an `Invocation`.
pub struct InvocationView {
    pub program: ProgramView,
    pub args: Seq<ArgView>,
    pub dir: PathView,
}

impl View for Invocation {
    type V = InvocationView;

    open spec fn view(&self) -> InvocationView {
        InvocationView { program: self.program@, args: args_view(self.args@), dir: self.dir@ }
    }
}

/// The view of an optional call.
pub open spec fn optional_call(call: Option<Invocation>) -> Option<InvocationView> {
    match call {
        Some(c) => Some(c@),
        None => None,
    }
}

/// A call of the tool `name` with the text arguments `args`.
pub open spec fn tool_call(name: Seq<char>, args: Seq<Seq<char>>, dir: PathView) -> InvocationView {
    InvocationView {
        program: ProgramView::Tool(name),
        args: args.map_values(|a: Seq<char>| ArgView::Text(a)),
        dir,
    }
}

impl Invocation {
    /// A call of `program` in `dir`, without arguments yet.
    pub fn new(program: Program, dir: WorkPath) -> (c: Invocation)
        ensures
            c@ == (InvocationView { program: program@, args: Seq::empty(), dir: dir@ }),
    {
        let c = Invocation { program, args: Vec::new(), dir };
        assert(args_view(c.args@) =~= Seq::<ArgView>::empty());
        c
    }

    /// A call of the tool `name` in `dir`, without arguments yet.
    pub fn tool(name: &str, dir: WorkPath) -> (c: Invocation)
        ensures
            c@ == tool_call(name@, Seq::empty(), dir@),
    {
        let c = Invocation::new(Program::Tool(name.to_owned()), dir);
        assert(c@.args =~= tool_call(name@, Seq::empty(), dir@).args);
        c
    }

    /// Adds a text argument at the end.
    pub fn arg(&mut self, text: &str)
        ensures
            final(self)@ == (InvocationView {
                args: old(self)@.args.push(ArgView::Text(text@)),
                ..old(self)@
            }),
    {
        self.args.push(Arg::Text(text.to_owned()));
        assert(args_view(self.args@) =~= args_view(old(self).args@).push(ArgView::Text(text@)));
    }

    /// Adds a workspace file as an argument at the end.
    pub fn file_arg(&mut self, path: WorkPath)
        ensures
            final(self)@ == (InvocationView {
                args: old(self)@.args.push(ArgView::File(path@)),
                ..old(self)@
            }),
    {
        self.args.push(Arg::File(path));
        assert(args_view(self.args@) =~= args_view(old(self).args@).push(ArgView::File(path@)));
    }
}

/// What came back from a call that could be started and has ended.
#[derive(Debug, Clone, PartialEq, Eq)]
pub struct CommandOutput {
    /// Whether the exit status reports success.
    pub success: bool,
    /// The exit code, where the system gives one.
    pub code: Option<i32>,
    /// What the program wrote to standard output.
    pub stdout: String,
    /// What the program wrote to standard error.
    pub stderr: String,
}

/// A step on the workspace. The caller carries it out as its variant says.
#[derive(Debug, PartialEq, Eq)]
pub enum WorkspaceStep {
    /// Write `contents` to `path` unless something is there already.
    WriteIfAbsent { path: WorkPath, contents: String },
    /// Run `command` unless something is at `path` already. The command is
    /// one that creates `path`.
    RunIfAbsent { path: WorkPath, command: Invocation },
    /// Unless something is at `path` already: create its directory, write
    /// `template_contents` to `template` unless something is there, and
    /// copy `template` to `path`.
    CopyTemplateIfAbsent { path: WorkPath, template: WorkPath, template_contents: String },
    /// Make `link` an alias of `target`, replacing what was at `link`.
    Link { target: WorkPath, link: WorkPath },
}

/// The mathematical content of a `WorkspaceStep`.
pub enum StepView {
    WriteIfAbsent { path: PathView, contents: Seq<char> },
    RunIfAbsent { path: PathView, command: InvocationView },
    CopyTemplateIfAbsent { path: PathView, template: PathView, template_contents: Seq<char> },
    Link { target: PathView, link: PathView },
}

impl View for WorkspaceStep {
    type V = StepView;

    open spec fn view(&self) -> StepView {
        match self {
            WorkspaceStep::WriteIfAbsent { path, contents } => StepView::WriteIfAbsent {
                path: path@,
                contents: contents@,
            },
            WorkspaceStep::RunIfAbsent { path, command } => StepView::RunIfAbsent {
                path: path@,
                command: command@,
            },
            WorkspaceStep::CopyTemplateIfAbsent {
                path,
                template,
                template_contents,
            } => StepView::CopyTemplateIfAbsent {
                path: path@,
                template: template@,
                template_contents: template_contents@,
            },
            WorkspaceStep::Link { target, link } => StepView::Link {
                target: target@,
                link: link@,
            },
        }
    }
}

/// The views of a sequence of steps.
pub open spec fn steps_view(steps: Seq<WorkspaceStep>) -> Seq<StepView> {
    steps.map_values(|s: WorkspaceStep| s@)
}

} // verus!
