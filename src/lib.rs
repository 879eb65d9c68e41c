//! Runs a shell command per record of comma-separated sources: each record's
//! fields are bound to variables, a template renders them into a command, and
//! the first failure anywhere ends the run.

pub mod args;
pub mod context;
pub mod error;
pub mod output;
pub mod processor;
pub mod run;
pub mod source;
pub mod template;

pub use args::Args;
pub use context::{create_indexed_context, create_named_context, RowContext};
pub use error::{RunError, SourceError};
pub use output::shows_output;
pub use processor::{CsvProcessor, RecordRead, RowOutcome};
pub use run::{Action, CommandOutcome, Run};
