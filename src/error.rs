use crate::context::decimal;
use vstd::prelude::*;

verus! {

/// Why one input source could not be processed to its end.
#[derive(Debug)]
pub enum SourceError {
    /// The source at `path` could not be opened; the message says why.
    Open { path: String, message: String },
    /// The record at `row` (or, for `row == 0` in header mode, the header) could not be parsed.
    Read { row: usize, message: String },
    /// The template failed on the record at `row`.
    Render { row: usize, message: String },
    /// The command for the record at `row` could not be started.
    Spawn { row: usize, message: String },
    /// The command for the record at `row` exited with a failure status.
    Exec { row: usize, status: String, stderr: String },
}

/// Why a run stopped before its end.
#[derive(Debug)]
pub enum RunError {
    /// No input source was given.
    NoSources,
    /// The template text does not parse.
    Template { message: String },
    /// The source at `path` failed.
    Source { path: String, error: SourceError },
}

/// The account of a source's failure, from the outermost context to the cause.
pub open spec fn source_message(e: SourceError) -> Seq<char> {
    match e {
        SourceError::Open { path, message } => "Failed to open file: "@ + path@ + ": "@ + message@,
        SourceError::Read { row, message } => "Failed to read row "@ + decimal(row as nat) + ": "@ + message@,
        SourceError::Render { row, message } =>
            "Failed to render template for row "@ + decimal(row as nat) + ": "@ + message@,
        SourceError::Spawn { row, message } =>
            "Failed to execute command for row "@ + decimal(row as nat) + ": Failed to execute command: "@ + message@,
        SourceError::Exec { row, status, stderr } =>
            "Failed to execute command for row "@ + decimal(row as nat) + ": Command failed with status "@ + status@ + ": "@ + stderr@,
    }
}

/// The account of a run's failure, from the outermost context to the cause.
pub open spec fn run_message(e: RunError) -> Seq<char> {
    match e {
        RunError::NoSources => "At least one CSV file must be provided"@,
        RunError::Template { message } => "Failed to parse template: "@ + message@,
        RunError::Source { path, error } => "Failed to process file: "@ + path@ + ": "@ + source_message(error),
    }
}

impl SourceError {
    pub fn message(&self) -> (r: String)
        ensures
            r@ == source_message(*self),
    {
        let mut s = String::new();
        match self {
            SourceError::Open { path, message } => {
                s.append("Failed to open file: ");
                s.append(path.as_str());
                s.append(": ");
                s.append(message.as_str());
            },
            SourceError::Read { row, message } => {
                s.append("Failed to read row ");
                crate::context::push_decimal(*row, &mut s);
                s.append(": ");
                s.append(message.as_str());
            },
            SourceError::Render { row, message } => {
                s.append("Failed to render template for row ");
                crate::context::push_decimal(*row, &mut s);
                s.append(": ");
                s.append(message.as_str());
            },
            SourceError::Spawn { row, message } => {
                s.append("Failed to execute command for row ");
                crate::context::push_decimal(*row, &mut s);
                s.append(": Failed to execute command: ");
                s.append(message.as_str());
            },
            SourceError::Exec { row, status, stderr } => {
                s.append("Failed to execute command for row ");
                crate::context::push_decimal(*row, &mut s);
                s.append(": Command failed with status ");
                s.append(status.as_str());
                s.append(": ");
                s.append(stderr.as_str());
            },
        }
        assert(s@ =~= source_message(*self));
        s
    }
}

impl RunError {
    pub fn message(&self) -> (r: String)
        ensures
            r@ == run_message(*self),
    {
        match self {
            RunError::NoSources => String::from_str("At least one CSV file must be provided"),
            RunError::Template { message } => {
                let mut s = String::from_str("Failed to parse template: ");
                s.append(message.as_str());
                s
            },
            RunError::Source { path, error } => {
                let mut s = String::from_str("Failed to process file: ");
                s.append(path.as_str());
                s.append(": ");
                s.append(error.message().as_str());
                assert(s@ =~= run_message(*self));
                s
            },
        }
    }
}

} // verus!
