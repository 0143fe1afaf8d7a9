//! Detects which build or package tool governs a project directory from the
//! marker files it holds, resolves one tool, and renders the command line
//! that runs a named task with that tool.

pub mod tools;
pub mod scan;
pub mod resolve;
pub mod command;
pub mod pipeline;
