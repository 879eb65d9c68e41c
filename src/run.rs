use crate::context::strings_view;
use crate::error::{RunError, SourceError};
use crate::processor::{row_command, CsvProcessor, RecordRead, RowOutcome};
use crate::source::{
    csv_error_message, csv_header, csv_header_mode, csv_header_taken, csv_reader, csv_record,
    csv_records_read, csv_source, read_header, read_record,
};
use crate::template::compiles;
use std::collections::VecDeque;
use vstd::prelude::*;

verus! {

/// What the caller is to do next.
#[derive(Debug)]
pub enum Action {
    /// Read the bytes of the source at this position and hand them to `opened`.
    Open { source: usize },
    /// Print a trace line, run `command` in the shell and hand the outcome to `executed`.
    Execute { source: usize, row: usize, record: Vec<String>, command: String },
    /// Every record of every source ran successfully.
    Done,
    /// The run stopped at the first failure.
    Fail(RunError),
}

/// How a shell command ended.
#[derive(Debug)]
pub struct CommandOutcome {
    pub success: bool,
    /// The exit status, as the shell reports it.
    pub status: String,
    /// What the command wrote to its error stream.
    pub stderr: String,
}

enum Stage {
    AwaitOpen,
    AwaitCommand,
    Stopped,
}

/// A run over a list of sources in order: records one at a time, the first
/// failure anywhere ends the run.
pub struct Run {
    processor: CsvProcessor,
    paths: Vec<String>,
    source: usize,
    row: usize,
    reader: Option<csv::Reader<VecDeque<u8>>>,
    header: Option<Vec<String>>,
    stage: Stage,
}

impl Run {
    pub closed spec fn wf(&self) -> bool {
        &&& self.processor.wf()
        &&& self.source < self.paths@.len()
        &&& (self.processor.has_header_spec() <==> self.header is Some)
        &&& (self.stage is AwaitCommand ==> self.reader is Some)
        &&& (self.stage is AwaitOpen ==> self.reader is None)
        &&& (self.reader matches Some(r) ==> {
            &&& csv_header_mode(r) == self.processor.has_header_spec()
            &&& (self.processor.has_header_spec() ==> csv_header_taken(r))
            &&& csv_records_read(r) == if self.stage is AwaitCommand { self.row + 1 } else { self.row as int }
        })
    }

    /// Ready to read the record at `row` of the current source.
    closed spec fn ready_to_read(&self) -> bool {
        &&& self.processor.wf()
        &&& self.source < self.paths@.len()
        &&& (self.processor.has_header_spec() <==> self.header is Some)
        &&& (self.reader matches Some(r) && {
            &&& csv_header_mode(r) == self.processor.has_header_spec()
            &&& (self.processor.has_header_spec() ==> csv_header_taken(r))
            &&& csv_records_read(r) == self.row
        })
    }

    pub closed spec fn has_header_spec(&self) -> bool {
        self.processor.has_header_spec()
    }

    /// The bytes of the source being read.
    pub closed spec fn data_spec(&self) -> Seq<u8> {
        match self.reader {
            Some(r) => csv_source(r),
            None => Seq::empty(),
        }
    }

    pub closed spec fn template_spec(&self) -> Seq<char> {
        self.processor.template_spec()
    }

    pub closed spec fn paths_spec(&self) -> Seq<Seq<char>> {
        strings_view(self.paths@)
    }

    /// The position of the source being read or about to be opened.
    pub closed spec fn source_spec(&self) -> nat {
        self.source as nat
    }

    /// The position of the record whose command runs now, or is the next to be read.
    pub closed spec fn row_spec(&self) -> nat {
        self.row as nat
    }

    /// The header of the current source, in header mode.
    pub closed spec fn header_spec(&self) -> Option<Seq<Seq<char>>> {
        match self.header {
            Some(h) => Some(strings_view(h@)),
            None => None,
        }
    }

    pub closed spec fn awaiting_open(&self) -> bool {
        self.stage is AwaitOpen
    }

    pub closed spec fn awaiting_command(&self) -> bool {
        self.stage is AwaitCommand
    }

    pub closed spec fn stopped(&self) -> bool {
        self.stage is Stopped
    }

    pub fn is_awaiting_open(&self) -> (r: bool)
        ensures
            r == self.awaiting_open(),
    {
        matches!(self.stage, Stage::AwaitOpen)
    }

    pub fn is_awaiting_command(&self) -> (r: bool)
        ensures
            r == self.awaiting_command(),
    {
        matches!(self.stage, Stage::AwaitCommand)
    }
}

/// The error says that the record at `row` of the source at `path` could not
/// be read.
pub open spec fn fails_reading(e: RunError, path: Seq<char>, row: nat) -> bool {
    e matches RunError::Source { path: p, error: SourceError::Read { row: r, .. } } && p@ == path && r == row
}

/// The error says that the template failed on the record at `row` of the
/// source at `path`.
pub open spec fn fails_rendering(e: RunError, path: Seq<char>, row: nat) -> bool {
    e matches RunError::Source { path: p, error: SourceError::Render { row: r, .. } } && p@ == path && r == row
}

/// What follows the read of the record at `row` of the source at `source`,
/// whose bytes are `data`, where the read gave `read`: the record's command
/// where the template renders it, a render error where it does not, the next
/// source or the end of the run where the source is exhausted, and a read
/// error where the record could not be read.
pub open spec fn read_step(
    source: nat,
    row: nat,
    t: Seq<char>,
    paths: Seq<Seq<char>>,
    header: Option<Seq<Seq<char>>>,
    data: Seq<u8>,
    read: Option<Option<Seq<Seq<char>>>>,
    post: Run,
    a: Action,
) -> bool {
    &&& post.wf()
    &&& post.template_spec() == t
    &&& post.paths_spec() == paths
    &&& match read {
        None => post.stopped() && (a matches Action::Fail(e) && fails_reading(e, paths[source as int], row)),
        Some(None) => if source + 1 < paths.len() {
            &&& post.awaiting_open()
            &&& post.source_spec() == source + 1
            &&& (a matches Action::Open { source: s } && s == source + 1)
        } else {
            post.stopped() && post.source_spec() == source && a is Done
        },
        Some(Some(rec)) => match row_command(t, header, rec) {
            Some(c) => {
                &&& post.awaiting_command()
                &&& post.source_spec() == source
                &&& post.row_spec() == row
                &&& post.header_spec() == header
                &&& post.data_spec() == data
                &&& (a matches Action::Execute { source: s, row: r, record, command }
                    && s == source && r == row && strings_view(record@) == rec && command@ == c)
            },
            None => post.stopped() && (a matches Action::Fail(e) && fails_rendering(e, paths[source as int], row)),
        },
    }
}

/// A step that reports a failure leaves the run stopped, so that no further
/// record is read, no further command runs and no further source is opened;
/// the failure is that the record could not be read, or could not be rendered.
pub proof fn lemma_failure_ends_run(
    source: nat,
    row: nat,
    t: Seq<char>,
    paths: Seq<Seq<char>>,
    header: Option<Seq<Seq<char>>>,
    data: Seq<u8>,
    read: Option<Option<Seq<Seq<char>>>>,
    post: Run,
    a: Action,
)
    requires
        read_step(source, row, t, paths, header, data, read, post, a),
        a is Fail,
    ensures
        post.stopped(),
        !post.awaiting_open(),
        !post.awaiting_command(),
        read is None ==> fails_reading(a->Fail_0, paths[source as int], row),
        read matches Some(Some(rec)) ==> row_command(t, header, rec) is None && fails_rendering(a->Fail_0, paths[source as int], row),
        read != Some(None::<Seq<Seq<char>>>),
{
}

/// A step moves to another source only after the current one is exhausted,
/// and then to the next one in order; it never skips one.
pub proof fn lemma_sources_in_order(
    source: nat,
    row: nat,
    t: Seq<char>,
    paths: Seq<Seq<char>>,
    header: Option<Seq<Seq<char>>>,
    data: Seq<u8>,
    read: Option<Option<Seq<Seq<char>>>>,
    post: Run,
    a: Action,
)
    requires
        read_step(source, row, t, paths, header, data, read, post, a),
    ensures
        a is Execute ==> post.source_spec() == source,
        a is Open ==> read == Some(None::<Seq<Seq<char>>>) && post.source_spec() == source + 1 && a->Open_source == source + 1,
        a is Done ==> read == Some(None::<Seq<Seq<char>>>) && source + 1 == paths.len(),
{
}

impl Run {
    /// Starts a run: there must be at least one source, and the template must
    /// parse; the first thing to do is to open the first source.
    pub fn start(template_str: &str, has_header: bool, paths: Vec<String>) -> (r: Result<(Run, Action), RunError>)
        ensures
            paths@.len() == 0 ==> r matches Err(RunError::NoSources),
            paths@.len() > 0 ==> (r is Ok <==> compiles(template_str@)),
            paths@.len() > 0 && !compiles(template_str@) ==> r matches Err(RunError::Template { .. }),
            r matches Ok((run, a)) ==> {
                &&& run.wf()
                &&& run.awaiting_open()
                &&& run.source_spec() == 0
                &&& run.template_spec() == template_str@
                &&& run.paths_spec() == strings_view(paths@)
                &&& a matches Action::Open { source } && source == 0
            },
    {
        if paths.len() == 0 {
            return Err(RunError::NoSources);
        }
        let processor = match CsvProcessor::new(template_str, has_header) {
            Ok(p) => p,
            Err(e) => return Err(e),
        };
        let header = if has_header { Some(Vec::new()) } else { None };
        let run = Run { processor, paths, source: 0, row: 0, reader: None, header, stage: Stage::AwaitOpen };
        Ok((run, Action::Open { source: 0 }))
    }

    fn stop_at_source(&mut self, error: SourceError) -> (a: Action)
        requires
            old(self).processor.wf(),
            old(self).source < old(self).paths@.len(),
            old(self).processor.has_header_spec() <==> old(self).header is Some,
        ensures
            final(self).wf(),
            final(self).stopped(),
            final(self).processor == old(self).processor,
            final(self).paths == old(self).paths,
            final(self).source == old(self).source,
            a matches Action::Fail(RunError::Source { path, error: e }) && path@ == old(self).paths@[old(self).source as int]@ && e == error,
    {
        self.stage = Stage::Stopped;
        self.reader = None;
        let path = self.paths[self.source].clone();
        Action::Fail(RunError::Source { path, error })
    }

    /// Reads the next record of the current source and decides what follows.
    fn next_record(&mut self) -> (a: Action)
        requires
            old(self).ready_to_read(),
        ensures
            read_step(
                old(self).source_spec(),
                old(self).row_spec(),
                old(self).template_spec(),
                old(self).paths_spec(),
                old(self).header_spec(),
                old(self).data_spec(),
                csv_record(old(self).data_spec(), old(self).has_header_spec(), old(self).row_spec()),
                *final(self),
                a,
            ),
    {
        let mut reader = self.reader.take().unwrap();
        let read = match read_record(&mut reader) {
            Ok(Some(fields)) => RecordRead::Record(fields),
            Ok(None) => RecordRead::End,
            Err(e) => RecordRead::Failed(csv_error_message(&e)),
        };
        self.reader = Some(reader);
        match self.processor.row_outcome(self.header.as_ref(), read, self.row) {
            RowOutcome::Execute { record, command } => {
                self.stage = Stage::AwaitCommand;
                Action::Execute { source: self.source, row: self.row, record, command }
            },
            RowOutcome::End => {
                self.reader = None;
                if self.source < self.paths.len() - 1 {
                    self.source = self.source + 1;
                    self.stage = Stage::AwaitOpen;
                    Action::Open { source: self.source }
                } else {
                    self.stage = Stage::Stopped;
                    Action::Done
                }
            },
            RowOutcome::Fail(e) => self.stop_at_source(e),
        }
    }

    /// The bytes of the current source were read: in header mode its first
    /// record is taken as the header, then its first data record is read.
    pub fn opened(&mut self, data: Vec<u8>) -> (a: Action)
        requires
            old(self).wf(),
            old(self).awaiting_open(),
        ensures
            old(self).has_header_spec() ==> match csv_header(data@) {
                None => final(self).wf() && final(self).stopped()
                    && (a matches Action::Fail(e) && fails_reading(e, old(self).paths_spec()[old(self).source_spec() as int], 0)),
                Some(h) => read_step(old(self).source_spec(), 0, old(self).template_spec(), old(self).paths_spec(),
                    Some(h), data@, csv_record(data@, true, 0), *final(self), a),
            },
            !old(self).has_header_spec() ==> read_step(old(self).source_spec(), 0, old(self).template_spec(),
                old(self).paths_spec(), None, data@, csv_record(data@, false, 0), *final(self), a),
            data@.len() == 0 ==> a is Open || a is Done,
    {
        let ghost bytes = data@;
        let mut reader = csv_reader(data, self.processor.has_header());
        self.row = 0;
        if self.processor.has_header() {
            match read_header(&mut reader) {
                Ok(h) => {
                    self.header = Some(h);
                },
                Err(e) => {
                    return self.stop_at_source(SourceError::Read { row: 0, message: csv_error_message(&e) });
                },
            }
        }
        self.reader = Some(reader);
        assert(self.data_spec() == bytes);
        self.next_record()
    }

    /// The current source could not be opened: the run stops, naming it.
    pub fn open_failed(&mut self, message: String) -> (a: Action)
        requires
            old(self).wf(),
            old(self).awaiting_open(),
        ensures
            final(self).stopped(),
            a matches Action::Fail(RunError::Source { path, error: SourceError::Open { path: p, message: m } })
                && path@ == old(self).paths_spec()[old(self).source_spec() as int]
                && p@ == path@
                && m == message,
    {
        let path = self.paths[self.source].clone();
        self.stop_at_source(SourceError::Open { path, message })
    }

    /// The command of the current record could not be started: the run
    /// stops, naming the source and the record.
    pub fn spawn_failed(&mut self, message: String) -> (a: Action)
        requires
            old(self).wf(),
            old(self).awaiting_command(),
        ensures
            final(self).stopped(),
            a matches Action::Fail(RunError::Source { path, error: SourceError::Spawn { row, message: m } })
                && path@ == old(self).paths_spec()[old(self).source_spec() as int]
                && row == old(self).row_spec()
                && m == message,
    {
        let row = self.row;
        self.stop_at_source(SourceError::Spawn { row, message })
    }

    /// The command of the current record ended: on failure the run stops,
    /// naming the source and the record; otherwise the next record is read.
    pub fn executed(&mut self, outcome: CommandOutcome) -> (a: Action)
        requires
            old(self).wf(),
            old(self).awaiting_command(),
            old(self).row_spec() < usize::MAX,
        ensures
            !outcome.success ==> {
                &&& final(self).stopped()
                &&& a matches Action::Fail(RunError::Source { path, error: SourceError::Exec { row, status, stderr } })
                &&& path@ == old(self).paths_spec()[old(self).source_spec() as int]
                &&& row == old(self).row_spec()
                &&& status == outcome.status
                &&& stderr == outcome.stderr
            },
            outcome.success ==> read_step(
                old(self).source_spec(),
                old(self).row_spec() + 1,
                old(self).template_spec(),
                old(self).paths_spec(),
                old(self).header_spec(),
                old(self).data_spec(),
                csv_record(old(self).data_spec(), old(self).has_header_spec(), old(self).row_spec() + 1),
                *final(self),
                a,
            ),
    {
        if !outcome.success {
            let row = self.row;
            return self.stop_at_source(SourceError::Exec { row, status: outcome.status, stderr: outcome.stderr });
        }
        self.row = self.row + 1;
        self.next_record()
    }

    /// The position of the record whose command is pending, or is read next.
    pub fn current_row(&self) -> (r: usize)
        ensures
            r == self.row_spec(),
    {
        self.row
    }

    /// The path of the source at position `source`.
    pub fn path(&self, source: usize) -> (r: Option<&String>)
        ensures
            source < self.paths_spec().len() ==> (r matches Some(p) && p@ == self.paths_spec()[source as int]),
            source >= self.paths_spec().len() ==> r is None,
    {
        if source < self.paths.len() { Some(&self.paths[source]) } else { None }
    }
}

} // verus!
