use crate::context::{
    create_indexed_context, create_named_context, indexed_pairs, map_of, named_pairs,
    strings_view,
};
use crate::error::{RunError, SourceError};
use crate::template::{
    compiles, parse_template, render_template, rendering, template_error_message,
};
use vstd::prelude::*;

verus! {

/// The name under which a row's variables are visible to the template.
pub const ROW_VARIABLE: &'static str = "row";

/// The variables of one record: named by the header where there is one,
/// by position otherwise.
pub open spec fn row_map(header: Option<Seq<Seq<char>>>, record: Seq<Seq<char>>) -> Map<Seq<char>, Seq<char>> {
    match header {
        Some(h) => map_of(named_pairs(h, record)),
        None => map_of(indexed_pairs(record)),
    }
}

pub open spec fn header_view(header: Option<&Vec<String>>) -> Option<Seq<Seq<char>>> {
    match header {
        Some(h) => Some(strings_view(h@)),
        None => None,
    }
}

/// The command text a template yields for one record.
pub open spec fn row_command(t: Seq<char>, header: Option<Seq<Seq<char>>>, record: Seq<Seq<char>>) -> Option<Seq<char>> {
    rendering(t, ROW_VARIABLE@, row_map(header, record))
}

/// What reading the next record of a source gave.
#[derive(Debug)]
pub enum RecordRead {
    /// The fields of the record.
    Record(Vec<String>),
    /// The source holds no further record.
    End,
    /// The record could not be parsed; the message says why.
    Failed(String),
}

/// What follows one read of a source.
#[derive(Debug)]
pub enum RowOutcome {
    /// Run this command for the record.
    Execute { record: Vec<String>, command: String },
    /// The source is exhausted.
    End,
    /// The source failed at this record.
    Fail(SourceError),
}

/// A template that is known to parse, and whether sources start with a header.
#[derive(Debug)]
pub struct CsvProcessor {
    template_str: String,
    has_header: bool,
}

impl CsvProcessor {
    pub closed spec fn template_spec(&self) -> Seq<char> {
        self.template_str@
    }

    pub closed spec fn has_header_spec(&self) -> bool {
        self.has_header
    }

    /// Every processor holds a template that parses.
    pub closed spec fn wf(&self) -> bool {
        compiles(self.template_str@)
    }

    /// Checks the template once, before any source is read.
    pub fn new(template_str: &str, has_header: bool) -> (r: Result<CsvProcessor, RunError>)
        ensures
            r is Ok <==> compiles(template_str@),
            match r {
                Ok(p) => p.wf() && p.template_spec() == template_str@ && p.has_header_spec() == has_header,
                Err(e) => e is Template,
            },
    {
        match parse_template(template_str) {
            Ok(()) => Ok(CsvProcessor { template_str: String::from_str(template_str), has_header }),
            Err(e) => Err(RunError::Template { message: template_error_message(&e) }),
        }
    }

    pub fn template(&self) -> (r: &str)
        ensures
            r@ == self.template_spec(),
    {
        self.template_str.as_str()
    }

    pub fn has_header(&self) -> (r: bool)
        ensures
            r == self.has_header_spec(),
    {
        self.has_header
    }

    /// Binds one record's fields and renders the template against them; a
    /// failure is reported with the record's position.
    pub fn render_row(&self, header: Option<&Vec<String>>, record: &Vec<String>, row: usize) -> (r: Result<String, SourceError>)
        ensures
            match r {
                Ok(s) => row_command(self.template_spec(), header_view(header), strings_view(record@)) == Some(s@),
                Err(e) => row_command(self.template_spec(), header_view(header), strings_view(record@)) is None
                    && (e matches SourceError::Render { row: rr, .. } ==> rr == row) && e is Render,
            },
    {
        let context = match header {
            Some(h) => create_named_context(h, record),
            None => create_indexed_context(record),
        };
        match render_template(self.template_str.as_str(), ROW_VARIABLE, &context) {
            Ok(s) => Ok(s),
            Err(e) => Err(SourceError::Render { row, message: template_error_message(&e) }),
        }
    }

    /// Decides what follows one read of the record at `row`: its command where
    /// the template renders it, a render error where it does not, the end of
    /// the source, or a read error.
    pub fn row_outcome(&self, header: Option<&Vec<String>>, read: RecordRead, row: usize) -> (r: RowOutcome)
        ensures
            match read {
                RecordRead::Record(fields) => match row_command(self.template_spec(), header_view(header), strings_view(fields@)) {
                    Some(c) => r matches RowOutcome::Execute { record, command } && record == fields && command@ == c,
                    None => r matches RowOutcome::Fail(SourceError::Render { row: rr, .. }) && rr == row,
                },
                RecordRead::End => r is End,
                RecordRead::Failed(m) => r matches RowOutcome::Fail(SourceError::Read { row: rr, message }) && rr == row && message == m,
            },
    {
        match read {
            RecordRead::Record(record) => match self.render_row(header, &record, row) {
                Ok(command) => RowOutcome::Execute { record, command },
                Err(e) => RowOutcome::Fail(e),
            },
            RecordRead::End => RowOutcome::End,
            RecordRead::Failed(message) => RowOutcome::Fail(SourceError::Read { row, message }),
        }
    }
}

} // verus!
