//! Tooling for a daily programming-puzzle workflow: puzzle identifiers and
//! release gating, per-language workspace layouts, and the rules by which
//! external tool runs are turned into typed results.

pub mod calendar;
pub mod cli;
pub mod client;
pub mod config;
pub mod content;
pub mod editor;
pub mod git;
pub mod lang;
pub mod manifest;
pub mod parser;
pub mod paths;
pub mod puzzle;
pub mod requests;
pub mod scaffold;
pub mod submission;
pub mod table;
pub mod text;
pub mod urls;
