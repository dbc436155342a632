//! What can go wrong in a language workspace.

use crate::config::AocConfigError;
use crate::lang::solve_file::SolveFile;
use vstd::prelude::*;

verus! {

/// A failure of a language operation. Texts taken from outside (a
/// program's error output, the system's message) are carried as they came.
#[derive(Debug, PartialEq, Eq)]
pub enum AocLanguageError {
    /// A tool ran and reported failure; this is what it wrote to standard
    /// error.
    Command(String),
    /// No language of this name is known.
    LangNotFound(String),
    /// The template could not be read.
    TemplateRead { source: String, path: String },
    /// The system refused an operation on a file or could not start a
    /// program.
    Io(String),
    /// A run ended well but its result file does not hold results.
    ResultJson(String),
    /// The settings failed.
    Config(AocConfigError),
    /// The alias cannot point at this file.
    InvalidSymlinkTarget(SolveFile),
    /// This file is not to be edited.
    FileEditNotAllowed(SolveFile),
    /// This file does not exist.
    FileNotFound(SolveFile),
    /// The dependency environment could not be created.
    Env(String),
    /// The package (first) could not be added; the package manager said
    /// why (second).
    DepAdd(String, String),
    /// The package (first) could not be removed; the package manager said
    /// why (second).
    DepRemove(String, String),
    /// A library cannot have this name; the text says why.
    LibInvalid(String),
    /// Cleaning failed.
    Clean(String),
}

/// The result of a language operation.
pub type AocLanguageResult<T> = Result<T, AocLanguageError>;

} // verus!
