//! Which file of a language workspace is meant.

use crate::puzzle::{PuzzleDay, PuzzleYear};
use vstd::prelude::*;

verus! {

/// A file of a language workspace, named by its role.
#[derive(Debug, PartialEq, Eq)]
pub enum SolveFile {
    /// The solution of one day, which the user edits.
    Solution(PuzzleDay, PuzzleYear),
    /// The shared entry point that runs the active solution.
    Main,
    /// The alias under which the entry point finds the active solution. It
    /// carries the file it is to point at.
    LinkedSolution(Box<SolveFile>),
    /// The stub that new solutions are copied from.
    TemplateSolution,
}

impl SolveFile {
    /// Whether this is the alias.
    pub open spec fn is_link(self) -> bool {
        self is LinkedSolution
    }

    /// An alias never points at an alias.
    pub open spec fn wf(self) -> bool {
        match self {
            SolveFile::LinkedSolution(inner) => !inner.is_link(),
            _ => true,
        }
    }

    /// The file that is reached through this one: what an alias points at,
    /// and any other file itself.
    pub open spec fn target(self) -> SolveFile {
        match self {
            SolveFile::LinkedSolution(inner) => *inner,
            _ => self,
        }
    }

    /// How many aliases are stacked on the file at the bottom.
    pub open spec fn depth(self) -> nat
        decreases self,
    {
        match self {
            SolveFile::LinkedSolution(inner) => 1 + inner.depth(),
            _ => 0,
        }
    }

    /// Decides `is_link`.
    pub fn is_alias(&self) -> (r: bool)
        ensures
            r == self.is_link(),
    {
        match self {
            SolveFile::LinkedSolution(_) => true,
            _ => false,
        }
    }

    /// Decides `wf`.
    pub fn is_well_formed(&self) -> (r: bool)
        ensures
            r == self.wf(),
    {
        match self {
            SolveFile::LinkedSolution(inner) => !inner.is_alias(),
            _ => true,
        }
    }

    /// The alias for `inner`, unless `inner` is itself an alias.
    pub fn link_to(inner: SolveFile) -> (r: Option<SolveFile>)
        ensures
            inner.is_link() ==> r is None,
            !inner.is_link() ==> r == Some(SolveFile::LinkedSolution(Box::new(inner))),
            r is Some ==> r->0.wf() && r->0.target() == inner,
    {
        if inner.is_alias() {
            None
        } else {
            Some(SolveFile::LinkedSolution(Box::new(inner)))
        }
    }

    /// The file that is reached through this one, in a single step.
    pub fn resolve(&self) -> (r: &SolveFile)
        ensures
            *r == self.target(),
            self.wf() ==> !r.is_link(),
    {
        match self {
            SolveFile::LinkedSolution(inner) => inner,
            _ => self,
        }
    }

    /// A copy of this value.
    pub fn duplicate(&self) -> (r: SolveFile)
        ensures
            r == *self,
        decreases *self,
    {
        match self {
            SolveFile::Solution(day, year) => SolveFile::Solution(*day, *year),
            SolveFile::Main => SolveFile::Main,
            SolveFile::LinkedSolution(inner) => SolveFile::LinkedSolution(
                Box::new(inner.duplicate()),
            ),
            SolveFile::TemplateSolution => SolveFile::TemplateSolution,
        }
    }
}

/// Following a well-formed file once ends at a file that is no alias, and
/// following that again changes nothing.
pub proof fn lemma_target_is_final(file: SolveFile)
    requires
        file.wf(),
    ensures
        !file.target().is_link(),
        file.target().target() == file.target(),
        file.depth() <= 1,
{
    match file {
        SolveFile::LinkedSolution(inner) => {
            assert(inner.depth() == 0);
        },
        _ => {},
    }
}

} // verus!
