//! Language workspaces: where their files live, how their tools are
//! called, and what the outcome of a call means.

pub mod command;
pub mod error;
pub mod languages;
pub mod libs;
pub mod packages;
pub mod protocol;
pub mod python;
pub mod rust;
pub mod solve_file;
pub mod traits;
pub mod workflow;
pub mod workspace;
