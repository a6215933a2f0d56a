//! Per-repository git worktree management: the decisions, parsers and
//! formatting behind the `wt` command line tool, with their contracts.

pub mod error;
pub mod gh;
pub mod paths;
pub mod process;
pub mod text;
pub mod repo;
pub mod order;
pub mod config;
pub mod steps;
pub mod cli;
pub mod commands;
pub mod style;
pub mod ide;
