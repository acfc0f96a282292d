//! CSV exports of devices and assets.

use vstd::prelude::*;
use crate::common::{uuid_text, uuid_to_string};
use crate::error::ApiError;
use crate::text::{concat_str, decimal_text, i64_text};

verus! {

/// A `csv::Writer` over an in-memory buffer. The writer's type carries an
/// `io::Write` bound that cannot be declared, so it is held here, hidden.
#[verifier::external_body]
pub struct CsvOut {
    inner: csv::Writer<Vec<u8>>,
}

/// The bytes a CSV writer with `csv`'s default settings has taken so far.
pub uninterp spec fn csv_written(w: CsvOut) -> Seq<u8>;

/// The number of fields of the first record the writer took, which every later
/// record must match (`csv`'s writers are not flexible by default); none before
/// the first record.
pub uninterp spec fn csv_field_count(w: CsvOut) -> Option<nat>;

/// Whether the writer stands between records: no record is partly written.
pub uninterp spec fn csv_between_records(w: CsvOut) -> bool;

/// A field that `csv`'s default writer quotes: one holding the delimiter `,`, the
/// quote `"`, or a line break (`\n` or `\r`).
pub open spec fn csv_needs_quotes(f: Seq<char>) -> bool {
    exists|i: int| 0 <= i < f.len() && (f[i] == ',' || f[i] == '"' || f[i] == '\n' || f[i] == '\r')
}

/// A field's text with every quote doubled.
pub open spec fn quotes_doubled(f: Seq<char>) -> Seq<char>
    decreases f.len(),
{
    if f.len() == 0 {
        f
    } else {
        quotes_doubled(f.drop_last()) + if f.last() == '"' { seq!['"', '"'] } else { seq![f.last()] }
    }
}

/// How one field is written: between quotes, its quotes doubled, when it needs
/// quoting; as it is otherwise.
pub open spec fn csv_field_text(f: Seq<char>) -> Seq<char> {
    if csv_needs_quotes(f) { seq!['"'] + quotes_doubled(f) + seq!['"'] } else { f }
}

/// The fields of a record, each as it is written, separated by commas.
pub open spec fn csv_joined(fields: Seq<Seq<char>>) -> Seq<char>
    decreases fields.len(),
{
    if fields.len() == 0 {
        Seq::<char>::empty()
    } else if fields.len() == 1 {
        csv_field_text(fields[0])
    } else {
        csv_joined(fields.drop_last()) + seq![','] + csv_field_text(fields.last())
    }
}

/// The bytes `csv` writes for one record with its default settings: the joined
/// fields (or `""` when they come to nothing, so that the line is not blank) and
/// the terminator `\n`, in UTF-8.
pub open spec fn csv_line(fields: Seq<Seq<char>>) -> Seq<u8> {
    let t = csv_joined(fields);
    vstd::utf8::encode_utf8((if t.len() == 0 { seq!['"', '"'] } else { t }) + seq!['\n'])
}

/// `csv::Writer::from_writer(vec![])`: a writer that has taken nothing and has
/// no record yet.
#[verifier::external_body]
pub(crate) fn csv_writer() -> (w: CsvOut)
    ensures
        csv_written(w) == Seq::<u8>::empty(),
        csv_field_count(w) is None,
        csv_between_records(w),
{
    CsvOut { inner: csv::Writer::from_writer(Vec::new()) }
}

pub open spec fn fields_view(r: Seq<String>) -> Seq<Seq<char>> {
    r.map_values(|s: String| s@)
}

/// `Writer::write_record` on a writer over a `Vec<u8>`. Writing into memory does
/// not fail, so the one error is a record whose field count differs from the
/// first record's. Started between records, a record that fits is taken whole:
/// its line is added, and the first record fixes the field count. Nothing is
/// stated of the writer after an error.
#[verifier::external_body]
pub(crate) fn csv_write(w: &mut CsvOut, record: &Vec<String>) -> (r: Result<(), String>)
    ensures
        csv_between_records(*old(w)) && (csv_field_count(*old(w)) is None
            || csv_field_count(*old(w)) == Some(record@.len())) ==> r is Ok,
        r is Ok ==> csv_between_records(*final(w)),
        r is Ok && csv_between_records(*old(w)) ==> {
            &&& csv_written(*final(w)) == csv_written(*old(w)) + csv_line(fields_view(record@))
            &&& csv_field_count(*final(w)) == Some(record@.len())
        },
{
    match w.inner.write_record(record) {
        Ok(()) => Ok(()),
        Err(e) => Err(e.to_string()),
    }
}

/// `Writer::into_inner` on a writer over a `Vec<u8>`: flushing into memory does
/// not fail, so every byte the writer took comes back.
#[verifier::external_body]
pub(crate) fn csv_finish(w: CsvOut) -> (r: Result<Vec<u8>, String>)
    ensures
        r is Ok,
        r matches Ok(b) ==> b@ == csv_written(w),
{
    match w.inner.into_inner() {
        Ok(b) => Ok(b),
        Err(e) => Err(e.to_string()),
    }
}

/// The lines of a list of records, one after the other.
pub open spec fn csv_lines(rows: Seq<Seq<Seq<char>>>) -> Seq<u8>
    decreases rows.len(),
{
    if rows.len() == 0 {
        Seq::<u8>::empty()
    } else {
        csv_lines(rows.drop_last()) + csv_line(rows.last())
    }
}

pub open spec fn rows_view(rows: Seq<Vec<String>>) -> Seq<Seq<Seq<char>>> {
    rows.map_values(|r: Vec<String>| fields_view(r@))
}

/// Records that all have as many fields as the first.
pub open spec fn same_width(rows: Seq<Seq<Seq<char>>>) -> bool {
    forall|i: int| 0 <= i < rows.len() ==> (#[trigger] rows[i]).len() == rows[0].len()
}

/// Writes the records as CSV. Records of one width are always written; a record
/// whose width differs from the first's is refused by the writer, which is an
/// internal error.
pub fn write_csv(rows: &Vec<Vec<String>>) -> (r: Result<Vec<u8>, ApiError>)
    ensures
        r matches Ok(b) ==> b@ == csv_lines(rows_view(rows@)),
        same_width(rows_view(rows@)) ==> r is Ok,
        r matches Err(e) ==> e is Internal,
{
    let mut w = csv_writer();
    let ghost all = rows_view(rows@);
    let mut i: usize = 0;
    while i < rows.len()
        invariant
            i <= rows@.len(),
            all == rows_view(rows@),
            csv_written(w) == csv_lines(all.subrange(0, i as int)),
            csv_between_records(w),
            i == 0 ==> csv_field_count(w) is None,
            i > 0 ==> csv_field_count(w) == Some(rows@[i - 1]@.len()),
        decreases rows@.len() - i,
    {
        proof {
            assert(all.subrange(0, i + 1).drop_last() =~= all.subrange(0, i as int));
            assert(all[i as int] == fields_view(rows@[i as int]@));
            if i > 0 {
                assert(all[i - 1] == fields_view(rows@[i - 1]@));
            }
        }
        match csv_write(&mut w, &rows[i]) {
            Ok(()) => {},
            Err(e) => {
                proof {
                    if same_width(all) {
                        assert(all[i as int].len() == all[0].len());
                        if i > 0 {
                            assert(all[i - 1].len() == all[0].len());
                        }
                    }
                }
                return Err(ApiError::Internal(concat_str("CSV write error: ", e.as_str())));
            },
        }
        i = i + 1;
    }
    assert(all.subrange(0, rows@.len() as int) =~= all);
    match csv_finish(w) {
        Ok(b) => Ok(b),
        Err(e) => Err(ApiError::Internal(concat_str("CSV finalize error: ", e.as_str()))),
    }
}

/// The header of an export: name, type, label, the profile column and creation time.
pub fn export_header(profile_column: &str) -> (r: Vec<String>)
    ensures
        fields_view(r@) == seq!["name"@, "type"@, "label"@, profile_column@, "createdTime"@],
{
    let mut r: Vec<String> = Vec::new();
    r.push("name".to_owned());
    r.push("type".to_owned());
    r.push("label".to_owned());
    r.push(profile_column.to_owned());
    r.push("createdTime".to_owned());
    assert(fields_view(r@) =~= seq!["name"@, "type"@, "label"@, profile_column@, "createdTime"@]);
    r
}

/// One exported record: name, type, label (empty when none), profile id and
/// creation time in decimal.
pub open spec fn export_fields(name: Seq<char>, kind: Seq<char>, label: Option<Seq<char>>, profile: u128, created: i64) -> Seq<Seq<char>> {
    seq![name, kind, match label { Some(l) => l, None => Seq::<char>::empty() }, uuid_text(profile), decimal_text(created as int)]
}

pub fn export_row(name: &String, kind: &String, label: &Option<String>, profile: u128, created: i64) -> (r: Vec<String>)
    ensures
        fields_view(r@) == export_fields(name@, kind@, match label { Some(l) => Some(l@), None => None }, profile, created),
{
    let mut r: Vec<String> = Vec::new();
    r.push(name.clone());
    r.push(kind.clone());
    r.push(match label { Some(l) => l.clone(), None => String::new() });
    r.push(uuid_to_string(profile));
    r.push(i64_text(created));
    assert(fields_view(r@) =~= export_fields(name@, kind@, match label { Some(l) => Some(l@), None => None }, profile, created));
    r
}

} // verus!
