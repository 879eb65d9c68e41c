use crate::context::strings_view;
use std::collections::VecDeque;
use vstd::prelude::*;

verus! {

#[verifier::external_type_specification]
#[verifier::external_body]
#[verifier::reject_recursive_types(R)]
pub struct ExCsvReader<R>(csv::Reader<R>);

#[verifier::external_type_specification]
#[verifier::external_body]
pub struct ExCsvError(csv::Error);

/// The header a fresh reader in header mode takes from the bytes; `None`
/// where it cannot be read.
pub uninterp spec fn csv_header(data: Seq<u8>) -> Option<Seq<Seq<char>>>;

/// The data record at position `k` of the bytes (after the header, in header
/// mode): `None` where it cannot be read, `Some(None)` where the data is
/// exhausted before it.
pub uninterp spec fn csv_record(data: Seq<u8>, has_header: bool, k: nat) -> Option<Option<Seq<Seq<char>>>>;

/// The bytes a reader reads.
pub uninterp spec fn csv_source(r: csv::Reader<VecDeque<u8>>) -> Seq<u8>;

/// Whether a reader takes the first record as the header.
pub uninterp spec fn csv_header_mode(r: csv::Reader<VecDeque<u8>>) -> bool;

/// Whether a reader's header was taken.
pub uninterp spec fn csv_header_taken(r: csv::Reader<VecDeque<u8>>) -> bool;

/// How many data records were asked of a reader.
pub uninterp spec fn csv_records_read(r: csv::Reader<VecDeque<u8>>) -> nat;

/// Relies on csv's `ReaderBuilder::from_reader`: a reader over the bytes of one
/// source, comma-delimited, with standard quoting, where records may differ in
/// length and, in header mode, the first record is the header. Empty bytes
/// hold an empty header and no record.
#[verifier::external_body]
pub(crate) fn csv_reader(data: Vec<u8>, has_header: bool) -> (r: csv::Reader<VecDeque<u8>>)
    ensures
        csv_source(r) == data@,
        csv_header_mode(r) == has_header,
        !csv_header_taken(r),
        csv_records_read(r) == 0,
        data@.len() == 0 ==> csv_header(csv_source(r)) == Some(Seq::<Seq<char>>::empty()),
        data@.len() == 0 ==> csv_record(csv_source(r), has_header, 0) == Some(None::<Seq<Seq<char>>>),
{
    csv::ReaderBuilder::new().has_headers(has_header).flexible(true).from_reader(VecDeque::from(data))
}

/// Relies on csv's `Reader::headers`: on a fresh reader in header mode, the
/// fields of the first record.
#[verifier::external_body]
pub(crate) fn read_header(reader: &mut csv::Reader<VecDeque<u8>>) -> (r: Result<Vec<String>, csv::Error>)
    requires
        csv_header_mode(*old(reader)),
        !csv_header_taken(*old(reader)),
        csv_records_read(*old(reader)) == 0,
    ensures
        csv_source(*final(reader)) == csv_source(*old(reader)),
        csv_header_mode(*final(reader)),
        csv_header_taken(*final(reader)),
        csv_records_read(*final(reader)) == 0,
        match r {
            Ok(h) => csv_header(csv_source(*old(reader))) == Some(strings_view(h@)),
            Err(_) => csv_header(csv_source(*old(reader))) is None,
        },
{
    reader.headers().map(|h| h.iter().map(String::from).collect())
}

/// Relies on csv's `Reader::read_record`: the fields of the next data record,
/// or `None` once the source is exhausted; in header mode the header was
/// taken first.
#[verifier::external_body]
pub(crate) fn read_record(reader: &mut csv::Reader<VecDeque<u8>>) -> (r: Result<Option<Vec<String>>, csv::Error>)
    requires
        csv_header_mode(*old(reader)) ==> csv_header_taken(*old(reader)),
    ensures
        csv_source(*final(reader)) == csv_source(*old(reader)),
        csv_header_mode(*final(reader)) == csv_header_mode(*old(reader)),
        csv_header_taken(*final(reader)) == csv_header_taken(*old(reader)),
        csv_records_read(*final(reader)) == csv_records_read(*old(reader)) + 1,
        match r {
            Ok(Some(v)) => csv_record(csv_source(*old(reader)), csv_header_mode(*old(reader)), csv_records_read(*old(reader)))
                == Some(Some(strings_view(v@))),
            Ok(None) => csv_record(csv_source(*old(reader)), csv_header_mode(*old(reader)), csv_records_read(*old(reader)))
                == Some(None::<Seq<Seq<char>>>),
            Err(_) => csv_record(csv_source(*old(reader)), csv_header_mode(*old(reader)), csv_records_read(*old(reader))) is None,
        },
{
    let mut record = csv::StringRecord::new();
    let more = reader.read_record(&mut record)?;
    Ok(more.then_some(record.iter().map(String::from).collect()))
}

/// Relies on the `Display` impl of `csv::Error` for a readable message.
#[verifier::external_body]
pub(crate) fn csv_error_message(e: &csv::Error) -> String {
    e.to_string()
}

} // verus!
