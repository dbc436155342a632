//! The exchange of results with a solution program.
//!
//! A run starts the program, waits for it, reads the result file that the
//! program was told to write, and deletes that file. Each of these can
//! fail, and each failure ends the run with an error of its own. The
//! caller does the work and reports what happened; this module keeps the
//! state and says what is due next.

use crate::lang::command::CommandOutput;
use crate::lang::error::AocLanguageError;
use crate::paths::WorkPath;
use crate::text::{concat2, nat_text, u128_text};
use vstd::prelude::*;
use vstd::string::*;

verus! {

/// The answer to one part and the time it took to compute.
#[derive(Debug, PartialEq, Eq)]
pub struct PartResult {
    pub answer: String,
    pub runtime_ms: u128,
}

/// The results of a run: one entry for each part that was asked for.
#[derive(Debug, PartialEq, Eq)]
pub struct ExerciseOutput {
    pub part1: Option<PartResult>,
    pub part2: Option<PartResult>,
}

/// The heading above the first part.
pub open spec fn heading_one() -> Seq<char> {
    "\n┌──────────────┐\n"@ + "│   Part 1     │\n"@ + "└──────────────┘\n"@
}

/// The heading above the second part.
pub open spec fn heading_two() -> Seq<char> {
    "\n┌──────────────┐\n"@ + "│   Part 2     │\n"@ + "└──────────────┘\n"@
}

impl PartResult {
    /// The two lines that show a part's result.
    pub open spec fn text(&self) -> Seq<char> {
        "Answer: "@ + self.answer@ + "\n"@ + "Runtime: "@ + nat_text(self.runtime_ms as nat)
            + " ms\n"@
    }

    /// The two lines that show a part's result: the answer, and the
    /// runtime in milliseconds.
    pub fn to_string(&self) -> (s: String)
        ensures
            s@ == self.text(),
    {
        let mut s = String::from_str("Answer: ");
        s.append(self.answer.as_str());
        s.append("\n");
        s.append("Runtime: ");
        let ms = u128_text(self.runtime_ms);
        s.append(ms.as_str());
        s.append(" ms\n");
        s
    }
}

/// The block that shows one part, if the part is there.
pub open spec fn part_block(heading: Seq<char>, part: Option<PartResult>) -> Seq<char> {
    match part {
        Some(p) => heading + p.text() + "\n"@,
        None => Seq::<char>::empty(),
    }
}

impl ExerciseOutput {
    /// What is shown of the results: a block for each part that is there,
    /// and an empty line between two blocks.
    pub open spec fn text(&self) -> Seq<char> {
        part_block(heading_one(), self.part1) + (if self.part1 is Some && self.part2 is Some {
            "\n"@
        } else {
            Seq::<char>::empty()
        }) + part_block(heading_two(), self.part2)
    }

    /// What is shown of the results.
    pub fn to_string(&self) -> (s: String)
        ensures
            s@ == self.text(),
    {
        let mut s = String::new();
        match &self.part1 {
            Some(part_one) => {
                s.append("\n┌──────────────┐\n");
                s.append("│   Part 1     │\n");
                s.append("└──────────────┘\n");
                let shown = part_one.to_string();
                s.append(shown.as_str());
                s.append("\n");
                assert(s@ =~= part_block(heading_one(), self.part1));
            },
            None => {
                assert(s@ =~= part_block(heading_one(), self.part1));
            },
        }
        if self.part1.is_some() && self.part2.is_some() {
            s.append("\n");
        }
        let ghost second = s@;
        match &self.part2 {
            Some(part_two) => {
                s.append("\n┌──────────────┐\n");
                s.append("│   Part 2     │\n");
                s.append("└──────────────┘\n");
                let shown = part_two.to_string();
                s.append(shown.as_str());
                s.append("\n");
                assert(s@ =~= second + part_block(heading_two(), self.part2));
            },
            None => {
                assert(s@ =~= second + part_block(heading_two(), self.part2));
            },
        }
        s
    }
}

/// The file through which a solution program hands its results back: one
/// well-known file in the tool's data directory.
pub fn result_file(aocsuite_dir: &WorkPath) -> (path: WorkPath)
    ensures
        path@ == aocsuite_dir@.join("result.json"@),
{
    aocsuite_dir.join("result.json")
}

/// What the output of an ended call means: failure with what the program
/// wrote to standard error if it did not succeed; else a note for the user
/// if it wrote anything to standard output.
pub open spec fn output_verdict(
    output: CommandOutput,
    r: Result<Option<String>, AocLanguageError>,
) -> bool {
    if !output.success {
        r matches Err(AocLanguageError::Command(text)) && text@ == output.stderr@
    } else if output.stdout@.len() == 0 {
        r matches Ok(None)
    } else {
        r matches Ok(Some(note)) && note@ == "Standard out from exercise "@ + output.stdout@
    }
}

/// Judges the output of an ended call.
pub fn handle_command_output(output: &CommandOutput) -> (r: Result<
    Option<String>,
    AocLanguageError,
>)
    ensures
        output_verdict(*output, r),
{
    if !output.success {
        return Err(AocLanguageError::Command(output.stderr.clone()));
    }
    if output.stdout.as_str().unicode_len() != 0 {
        Ok(Some(concat2("Standard out from exercise ", output.stdout.as_str())))
    } else {
        Ok(None)
    }
}

/// Judges the call that created the dependency environment.
pub fn env_outcome(output: &CommandOutput) -> (r: Result<(), AocLanguageError>)
    ensures
        output.success ==> r is Ok,
        !output.success ==> (r matches Err(AocLanguageError::Env(text)) && text@
            == output.stderr@),
{
    if output.success {
        Ok(())
    } else {
        Err(AocLanguageError::Env(output.stderr.clone()))
    }
}

/// Judges the call that added `package`.
pub fn add_outcome(package: &str, output: &CommandOutput) -> (r: Result<(), AocLanguageError>)
    ensures
        output.success ==> r is Ok,
        !output.success ==> (r matches Err(AocLanguageError::DepAdd(name, text)) && name@
            == package@ && text@ == output.stderr@),
{
    if output.success {
        Ok(())
    } else {
        Err(AocLanguageError::DepAdd(package.to_owned(), output.stderr.clone()))
    }
}

/// Judges the call that removed `package`.
pub fn remove_outcome(package: &str, output: &CommandOutput) -> (r: Result<(), AocLanguageError>)
    ensures
        output.success ==> r is Ok,
        !output.success ==> (r matches Err(AocLanguageError::DepRemove(name, text)) && name@
            == package@ && text@ == output.stderr@),
{
    if output.success {
        Ok(())
    } else {
        Err(AocLanguageError::DepRemove(package.to_owned(), output.stderr.clone()))
    }
}

/// Where a run stands.
#[derive(Debug, PartialEq, Eq)]
pub enum RunState {
    /// The program was asked to start.
    Invoked,
    /// The program ended and reported success.
    Completed,
    /// The result file was read and holds these results.
    ResultRead(ExerciseOutput),
    /// The result file is gone; the run is over and these are its results.
    ResultFileDeleted(ExerciseOutput),
    /// The program could not be started; the text is the system's.
    ProcessSpawnFailed(String),
    /// The program reported failure; the text is its error output.
    CommandFailed(String),
    /// The program reported success but left no results that can be read.
    ResultParseFailed(String),
    /// The results were read but the file could not be deleted.
    CleanupFailed(String),
}

/// What the caller reports of the work it did.
#[derive(Debug, PartialEq, Eq)]
pub enum RunEvent {
    /// The program could not be started.
    SpawnFailed(String),
    /// The program ended.
    Exited(CommandOutput),
    /// The result file holds these results.
    ResultLoaded(ExerciseOutput),
    /// The result file is missing or cannot be opened.
    ResultMissing(String),
    /// The result file does not hold results.
    ResultMalformed(String),
    /// The result file was deleted.
    Deleted,
    /// The result file could not be deleted.
    DeleteFailed(String),
}

/// What is due next.
#[derive(Debug, Clone, Copy, PartialEq, Eq, Structural)]
pub enum RunAction {
    /// Wait for the program to end.
    AwaitExit,
    /// Read the result file.
    ReadResult,
    /// Delete the result file.
    DeleteResult,
    /// Nothing: the run is over.
    Stop,
}

impl RunState {
    /// What is due in this state.
    pub open spec fn due(self) -> RunAction {
        match self {
            RunState::Invoked => RunAction::AwaitExit,
            RunState::Completed => RunAction::ReadResult,
            RunState::ResultRead(_) => RunAction::DeleteResult,
            _ => RunAction::Stop,
        }
    }

    /// Whether the run is over.
    pub open spec fn is_terminal(self) -> bool {
        self.due() == RunAction::Stop
    }

    /// Whether `event` reports on what is due in this state.
    pub open spec fn expects(self, event: RunEvent) -> bool {
        match self {
            RunState::Invoked => event is SpawnFailed || event is Exited,
            RunState::Completed => event is ResultLoaded || event is ResultMissing
                || event is ResultMalformed,
            RunState::ResultRead(_) => event is Deleted || event is DeleteFailed,
            _ => false,
        }
    }

    /// The state after `event`.
    pub open spec fn after(self, event: RunEvent) -> RunState {
        match (self, event) {
            (RunState::Invoked, RunEvent::SpawnFailed(why)) => RunState::ProcessSpawnFailed(why),
            (RunState::Invoked, RunEvent::Exited(output)) => if output.success {
                RunState::Completed
            } else {
                RunState::CommandFailed(output.stderr)
            },
            (RunState::Completed, RunEvent::ResultLoaded(results)) => RunState::ResultRead(
                results,
            ),
            (RunState::Completed, RunEvent::ResultMissing(why)) => RunState::ResultParseFailed(
                why,
            ),
            (RunState::Completed, RunEvent::ResultMalformed(why)) => RunState::ResultParseFailed(
                why,
            ),
            (RunState::ResultRead(results), RunEvent::Deleted) => RunState::ResultFileDeleted(
                results,
            ),
            (RunState::ResultRead(_), RunEvent::DeleteFailed(why)) => RunState::CleanupFailed(
                why,
            ),
            (state, _) => state,
        }
    }

    /// How many steps a run in this state can still take.
    pub open spec fn steps_left(self) -> nat {
        match self {
            RunState::Invoked => 3,
            RunState::Completed => 2,
            RunState::ResultRead(_) => 1,
            _ => 0,
        }
    }

    /// The state of a run that has just been started.
    pub fn start() -> (state: RunState)
        ensures
            state == RunState::Invoked,
    {
        RunState::Invoked
    }

    /// What is due in this state.
    pub fn next_action(&self) -> (action: RunAction)
        ensures
            action == self.due(),
    {
        match self {
            RunState::Invoked => RunAction::AwaitExit,
            RunState::Completed => RunAction::ReadResult,
            RunState::ResultRead(_) => RunAction::DeleteResult,
            _ => RunAction::Stop,
        }
    }

    /// Whether `event` reports on what is due in this state.
    pub fn accepts(&self, event: &RunEvent) -> (r: bool)
        ensures
            r == self.expects(*event),
    {
        match self {
            RunState::Invoked => match event {
                RunEvent::SpawnFailed(_) => true,
                RunEvent::Exited(_) => true,
                _ => false,
            },
            RunState::Completed => match event {
                RunEvent::ResultLoaded(_) => true,
                RunEvent::ResultMissing(_) => true,
                RunEvent::ResultMalformed(_) => true,
                _ => false,
            },
            RunState::ResultRead(_) => match event {
                RunEvent::Deleted => true,
                RunEvent::DeleteFailed(_) => true,
                _ => false,
            },
            _ => false,
        }
    }

    /// Takes the run one step on. An event that does not report on what is
    /// due leaves the state as it is.
    pub fn step(self, event: RunEvent) -> (next: RunState)
        ensures
            next == self.after(event),
    {
        match (self, event) {
            (RunState::Invoked, RunEvent::SpawnFailed(why)) => RunState::ProcessSpawnFailed(why),
            (RunState::Invoked, RunEvent::Exited(output)) => if output.success {
                RunState::Completed
            } else {
                RunState::CommandFailed(output.stderr)
            },
            (RunState::Completed, RunEvent::ResultLoaded(results)) => RunState::ResultRead(
                results,
            ),
            (RunState::Completed, RunEvent::ResultMissing(why)) => RunState::ResultParseFailed(
                why,
            ),
            (RunState::Completed, RunEvent::ResultMalformed(why)) => RunState::ResultParseFailed(
                why,
            ),
            (RunState::ResultRead(results), RunEvent::Deleted) => RunState::ResultFileDeleted(
                results,
            ),
            (RunState::ResultRead(_), RunEvent::DeleteFailed(why)) => RunState::CleanupFailed(
                why,
            ),
            (state, _) => state,
        }
    }

    /// The outcome of a run that is over: its results, or the error that
    /// names the step that failed. `None` while the run goes on.
    pub open spec fn outcome(self) -> Option<Result<ExerciseOutput, AocLanguageError>> {
        match self {
            RunState::ResultFileDeleted(results) => Some(Ok(results)),
            RunState::ProcessSpawnFailed(why) => Some(Err(AocLanguageError::Io(why))),
            RunState::CommandFailed(why) => Some(Err(AocLanguageError::Command(why))),
            RunState::ResultParseFailed(why) => Some(Err(AocLanguageError::ResultJson(why))),
            RunState::CleanupFailed(why) => Some(Err(AocLanguageError::Io(why))),
            _ => None,
        }
    }

    /// The outcome of the run, once it is over.
    pub fn finish(self) -> (r: Option<Result<ExerciseOutput, AocLanguageError>>)
        ensures
            r == self.outcome(),
    {
        match self {
            RunState::ResultFileDeleted(results) => Some(Ok(results)),
            RunState::ProcessSpawnFailed(why) => Some(Err(AocLanguageError::Io(why))),
            RunState::CommandFailed(why) => Some(Err(AocLanguageError::Command(why))),
            RunState::ResultParseFailed(why) => Some(Err(AocLanguageError::ResultJson(why))),
            RunState::CleanupFailed(why) => Some(Err(AocLanguageError::Io(why))),
            _ => None,
        }
    }
}

/// Every step that reports on what is due brings the run nearer its end,
/// and a run has an outcome exactly when nothing is due any more.
pub proof fn lemma_run_progresses(state: RunState, event: RunEvent)
    requires
        state.expects(event),
    ensures
        state.after(event).steps_left() < state.steps_left(),
        state.is_terminal() <==> state.outcome() is Some,
        state.is_terminal() <==> state.steps_left() == 0,
{
}

/// A run yields results only when the result file has been read and then
/// deleted: no result file is left behind a run that succeeded.
pub proof fn lemma_success_deletes_result_file(state: RunState, event: RunEvent)
    requires
        state.after(event) != state,
        state.after(event).outcome() matches Some(Ok(_)),
    ensures
        state is ResultRead,
        event is Deleted,
        state.after(event).outcome() == Some(
            Ok::<ExerciseOutput, AocLanguageError>(state->ResultRead_0),
        ),
{
}

/// A program that reports failure, or results that cannot be read, end the
/// run with an error: there is no outcome that holds part of the results.
pub proof fn lemma_failures_are_errors(state: RunState, event: RunEvent)
    requires
        state.expects(event),
        (event matches RunEvent::Exited(output) && !output.success) || event is SpawnFailed
            || event is ResultMissing || event is ResultMalformed || event is DeleteFailed,
    ensures
        state.after(event).outcome() matches Some(Err(_)),
        event is ResultMissing || event is ResultMalformed ==> (state.after(event).outcome()
            matches Some(Err(AocLanguageError::ResultJson(_)))),
        event is Exited ==> (state.after(event).outcome() matches Some(
            Err(AocLanguageError::Command(_)),
        )),
{
}

} // verus!
