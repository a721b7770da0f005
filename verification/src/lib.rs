//! The decisions of a developer-workflow tool that configures, formats and
//! lints a project with external tools: which files a task works on, which
//! tools it runs over them and with what arguments, and how the run ends.
//!
//! The library runs nothing itself. A task is started with
//! [`pipeline::Pipeline::start`], which names the first tool to run; the
//! driver runs it, reports what came of it to [`pipeline::Pipeline::step`],
//! and goes on until the pipeline names the end of the run.

pub mod args;
pub mod commands;
pub mod error;
pub mod pattern;
pub mod pipeline;
pub mod selection;
pub mod text;
pub mod tool;
pub mod trace;
