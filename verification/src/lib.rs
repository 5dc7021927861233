//! Launch planning for a per-project interpreter.
//!
//! A launcher stands in for the interpreter on the command line. It splits
//! its arguments the way the interpreter would read them, finds the
//! configuration file of the project by walking up from a start directory,
//! and derives from the two what to start, with which arguments and in which
//! environment.
//!
//! This crate is the part of the launcher that decides. It asks nothing of
//! the process or the filesystem: what is known of them is handed in as
//! plain values, and every answer is a function of those values.
//!
//! - [`grammar`]: the argument grammar as mathematics, and its laws.
//! - [`rpy`] and [`args`]: the classifier.
//! - [`path`]: paths as text.
//! - [`resolve`]: the search for the configuration file.
//! - [`plan`]: from a configuration to a launch plan.
//! - [`launch`]: the order of a launch.
//! - [`error`]: what can stop a launch.
//! - [`text`]: questions about the characters of a string.

pub mod args;
pub mod error;
pub mod grammar;
pub mod launch;
pub mod path;
pub mod plan;
pub mod resolve;
pub mod rpy;
pub mod text;
