//! What can stop a launch.

use vstd::prelude::*;

verus! {

/// Why the launcher gave up before it handed over to the interpreter.
#[derive(Debug, PartialEq, Eq)]
pub enum LaunchError {
    /// The script named on the command line is not a regular file. Holds the
    /// name as it was given.
    InputFileNotFound(String),
    /// In a mode that starts from the working directory, the working
    /// directory cannot be told.
    WorkingDirectoryUnknown,
    /// Neither the start directory nor any directory above it holds a
    /// configuration file. Holds the start directory.
    ConfigNotFound(String),
    /// The configuration file is malformed, or lacks the launcher's section
    /// or a field that the section must have.
    ConfigParseError,
    /// The interpreter is given by a path that does not resolve.
    InterpreterResolutionError,
    /// The additional binary path does not resolve.
    BinPathResolutionError,
    /// The pre-run line did not succeed.
    PreRunFailed,
    /// The interpreter could not be started. Holds what the system said.
    ProcessLaunchError(String),
}

/// The mathematical value of a [`LaunchError`].
pub enum Failure {
    InputFileNotFound(Seq<char>),
    WorkingDirectoryUnknown,
    ConfigNotFound(Seq<char>),
    ConfigParseError,
    InterpreterResolutionError,
    BinPathResolutionError,
    PreRunFailed,
    ProcessLaunchError(Seq<char>),
}

impl View for LaunchError {
    type V = Failure;

    open spec fn view(&self) -> Failure {
        match self {
            LaunchError::InputFileNotFound(name) => Failure::InputFileNotFound(name@),
            LaunchError::WorkingDirectoryUnknown => Failure::WorkingDirectoryUnknown,
            LaunchError::ConfigNotFound(start) => Failure::ConfigNotFound(start@),
            LaunchError::ConfigParseError => Failure::ConfigParseError,
            LaunchError::InterpreterResolutionError => Failure::InterpreterResolutionError,
            LaunchError::BinPathResolutionError => Failure::BinPathResolutionError,
            LaunchError::PreRunFailed => Failure::PreRunFailed,
            LaunchError::ProcessLaunchError(reason) => Failure::ProcessLaunchError(reason@),
        }
    }
}

/// What is said of a failure.
pub open spec fn message_of(failure: Failure) -> Seq<char> {
    match failure {
        Failure::InputFileNotFound(name) => "Unable to open input file: "@ + name,
        Failure::WorkingDirectoryUnknown => "Unable to get cwd"@,
        Failure::ConfigNotFound(start) => "Unable to find pyproject.toml from "@ + start,
        Failure::ConfigParseError => "Unable to read toml document or find the rpy.tool configuration in it"@,
        Failure::InterpreterResolutionError => "Unable to canonicalize interpreter path"@,
        Failure::BinPathResolutionError => "Unable to canonicalize bin path"@,
        Failure::PreRunFailed => "Unable to run pre_run step"@,
        Failure::ProcessLaunchError(reason) => reason,
    }
}

/// The line that reports a failure on the error stream, given what is said
/// of the failure.
pub open spec fn error_line_of(message: Seq<char>) -> Seq<char> {
    "[rpy] Error: "@ + message
}

impl LaunchError {
    /// What is said of this failure.
    pub fn message(&self) -> (text: String)
        ensures
            text@ == message_of(self@),
    {
        match self {
            LaunchError::InputFileNotFound(name) => {
                "Unable to open input file: ".to_owned().concat(name.as_str())
            },
            LaunchError::WorkingDirectoryUnknown => "Unable to get cwd".to_owned(),
            LaunchError::ConfigNotFound(start) => {
                "Unable to find pyproject.toml from ".to_owned().concat(start.as_str())
            },
            LaunchError::ConfigParseError => {
                "Unable to read toml document or find the rpy.tool configuration in it".to_owned()
            },
            LaunchError::InterpreterResolutionError => {
                "Unable to canonicalize interpreter path".to_owned()
            },
            LaunchError::BinPathResolutionError => "Unable to canonicalize bin path".to_owned(),
            LaunchError::PreRunFailed => "Unable to run pre_run step".to_owned(),
            LaunchError::ProcessLaunchError(reason) => reason.clone(),
        }
    }

    /// The line that reports this failure on the error stream.
    pub fn report(&self) -> (line: String)
        ensures
            line@ == error_line_of(message_of(self@)),
    {
        let message = self.message();
        error_line(message.as_str())
    }
}

/// The line that reports a failure on the error stream, given what is said
/// of the failure.
pub fn error_line(message: &str) -> (line: String)
    ensures
        line@ == error_line_of(message@),
{
    "[rpy] Error: ".to_owned().concat(message)
}

} // verus!
