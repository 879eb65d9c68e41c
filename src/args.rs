use crate::context::strings_view;
use crate::error::RunError;
use crate::run::{Action, Run};
use crate::template::compiles;
use vstd::prelude::*;

verus! {

/// What one invocation asks for: a template, whether the sources have a
/// header record, and the sources in the order they are processed.
pub struct Args {
    pub template: String,
    pub no_header: bool,
    pub files: Vec<String>,
}

impl Args {
    /// Starts the run that these arguments describe.
    pub fn start(self) -> (r: Result<(Run, Action), RunError>)
        ensures
            self.files@.len() == 0 ==> r matches Err(RunError::NoSources),
            self.files@.len() > 0 ==> (r is Ok <==> compiles(self.template@)),
            self.files@.len() > 0 && !compiles(self.template@) ==> r matches Err(RunError::Template { .. }),
            r matches Ok((run, a)) ==> {
                &&& run.wf()
                &&& run.awaiting_open()
                &&& run.source_spec() == 0
                &&& run.template_spec() == self.template@
                &&& run.paths_spec() == strings_view(self.files@)
                &&& a matches Action::Open { source } && source == 0
            },
    {
        Run::start(self.template.as_str(), !self.no_header, self.files)
    }
}

} // verus!
