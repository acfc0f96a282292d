//! Bulk import of assets and devices from CSV text.
//!
//! The CSV text is split into records by the `csv` crate; each record is then
//! turned into the fields of one entity by the column mapping, and a
//! [`BulkImport`] run decides, record by record, what the storage is asked to
//! do (look the name up, update, create, store an access token) and how each
//! record is counted: created, updated, or an error with its line number.

use vstd::prelude::*;
use crate::error::ApiError;
use crate::random::{generate_access_token, is_token_char};
use crate::text::{append_str, chars_of, concat_str, string_of, trim, trim_chars};

verus! {

// ── Request model ───────────────────────────────────────────────────────────

/// What a CSV column holds.
#[derive(Clone, Copy, PartialEq, Eq, Structural)]
pub enum BulkImportColumnType {
    Name,
    Type,
    Label,
    Description,
    AccessToken,
    ServerAttribute,
    SharedAttribute,
    Timeseries,
}

/// One column of the mapping; attribute columns carry the attribute key.
pub struct BulkImportColumn {
    pub column_type: BulkImportColumnType,
    pub key: Option<String>,
}

pub struct BulkImportMapping {
    pub columns: Vec<BulkImportColumn>,
    pub delimiter: char,
    pub header: bool,
    pub update: bool,
}

pub struct BulkImportRequest {
    pub file: String,
    pub mapping: BulkImportMapping,
}

/// Which kind of entity an import creates.
#[derive(Clone, Copy, PartialEq, Eq, Structural)]
pub enum ImportKind {
    Asset,
    Device,
}

/// One refused record: its line in the file and why.
pub struct ImportError {
    pub line: usize,
    pub message: String,
}

/// The outcome of an import: how many records created and updated an entity,
/// and the records that were refused.
pub struct BulkImportResult {
    pub created: usize,
    pub updated: usize,
    pub errors: Vec<ImportError>,
}

pub open spec fn errors_view(e: Seq<ImportError>) -> Seq<(int, Seq<char>)> {
    e.map_values(|x: ImportError| (x.line as int, x.message@))
}

impl BulkImportResult {
    pub open spec fn error_list(&self) -> Seq<(int, Seq<char>)> {
        errors_view(self.errors@)
    }

    /// Number of records accounted for.
    pub open spec fn total(&self) -> int {
        self.created + self.updated + self.errors@.len()
    }

    pub fn new() -> (r: Self)
        ensures
            r.created == 0,
            r.updated == 0,
            r.errors@.len() == 0,
    {
        BulkImportResult { created: 0, updated: 0, errors: Vec::new() }
    }

    pub fn add_created(&mut self)
        requires
            old(self).created < usize::MAX,
        ensures
            final(self).created == old(self).created + 1,
            final(self).updated == old(self).updated,
            final(self).errors@.len() == old(self).errors@.len(),
            final(self).error_list() == old(self).error_list(),
    {
        self.created = self.created + 1;
    }

    pub fn add_updated(&mut self)
        requires
            old(self).updated < usize::MAX,
        ensures
            final(self).updated == old(self).updated + 1,
            final(self).created == old(self).created,
            final(self).errors@.len() == old(self).errors@.len(),
            final(self).error_list() == old(self).error_list(),
    {
        self.updated = self.updated + 1;
    }

    pub fn add_error(&mut self, line: usize, message: String)
        ensures
            final(self).error_list() == old(self).error_list().push((line as int, message@)),
            final(self).errors@.len() == old(self).errors@.len() + 1,
            final(self).created == old(self).created,
            final(self).updated == old(self).updated,
    {
        let ghost before = self.errors@;
        self.errors.push(ImportError { line, message });
        assert(errors_view(self.errors@) =~= errors_view(before).push((line as int, message@)));
    }
}

// ── CSV records ─────────────────────────────────────────────────────────────

/// A CSV record as characters: its fields, or the text of the parse error.
pub type RecordView = Result<Seq<Seq<char>>, Seq<char>>;

pub open spec fn record_view(r: Result<Vec<String>, String>) -> RecordView {
    match r {
        Ok(fields) => Ok(fields@.map_values(|f: String| f@)),
        Err(e) => Err(e@),
    }
}

pub open spec fn records_view(rs: Seq<Result<Vec<String>, String>>) -> Seq<RecordView> {
    rs.map_values(|r: Result<Vec<String>, String>| record_view(r))
}

/// The records that `csv::Reader` yields for `data`, read with the given
/// delimiter byte and with the first record taken as a header when
/// `has_headers` holds.
pub uninterp spec fn csv_records(data: Seq<char>, delimiter: u8, has_headers: bool) -> Seq<RecordView>;

/// Reads `data` with `csv::ReaderBuilder` (the delimiter, and whether the first
/// record is a header) and collects its records: each record's fields, or the
/// `Display` text of the error for a record that could not be read. The
/// result is `csv_records` of the arguments.
#[verifier::external_body]
pub(crate) fn read_csv_records(data: &str, delimiter: u8, has_headers: bool) -> (r: Vec<Result<Vec<String>, String>>)
    ensures
        records_view(r@) == csv_records(data@, delimiter, has_headers),
{
    let mut reader = csv::ReaderBuilder::new()
        .delimiter(delimiter)
        .has_headers(has_headers)
        .from_reader(data.as_bytes());
    reader.records().map(|rec| match rec {
        Ok(r) => Ok(r.iter().map(|f| f.to_string()).collect()),
        Err(e) => Err(e.to_string()),
    }).collect()
}

/// The byte that `c as u8` gives: the low eight bits of the code point.
pub fn delimiter_byte(c: char) -> (b: u8)
    ensures
        b as int == (c as u32) % 256,
{
    let u = c as u32;
    let b = (u & 0xff) as u8;
    assert(u & 0xff == u % 256) by (bit_vector);
    b
}

// ── Fields of one record ────────────────────────────────────────────────────

/// The fields that a record supplies for one entity.
pub struct RowFields {
    pub name: String,
    pub entity_type: String,
    pub label: Option<String>,
    pub access_token: Option<String>,
    pub server_attrs: Vec<(String, String)>,
    pub shared_attrs: Vec<(String, String)>,
}

pub struct RowFieldsView {
    pub name: Seq<char>,
    pub entity_type: Seq<char>,
    pub label: Option<Seq<char>>,
    pub access_token: Option<Seq<char>>,
    pub server_attrs: Seq<(Seq<char>, Seq<char>)>,
    pub shared_attrs: Seq<(Seq<char>, Seq<char>)>,
}

pub open spec fn opt_view(o: Option<String>) -> Option<Seq<char>> {
    match o {
        Some(s) => Some(s@),
        None => None,
    }
}

pub open spec fn pairs_view(v: Seq<(String, String)>) -> Seq<(Seq<char>, Seq<char>)> {
    v.map_values(|p: (String, String)| (p.0@, p.1@))
}

impl View for RowFields {
    type V = RowFieldsView;

    open spec fn view(&self) -> RowFieldsView {
        RowFieldsView {
            name: self.name@,
            entity_type: self.entity_type@,
            label: opt_view(self.label),
            access_token: opt_view(self.access_token),
            server_attrs: pairs_view(self.server_attrs@),
            shared_attrs: pairs_view(self.shared_attrs@),
        }
    }
}

pub struct ColumnView {
    pub column_type: BulkImportColumnType,
    pub key: Option<Seq<char>>,
}

pub open spec fn columns_view(c: Seq<BulkImportColumn>) -> Seq<ColumnView> {
    c.map_values(|x: BulkImportColumn| ColumnView { column_type: x.column_type, key: opt_view(x.key) })
}

/// The fields before any column is read: no name, type `default`.
pub open spec fn empty_fields() -> RowFieldsView {
    RowFieldsView {
        name: Seq::<char>::empty(),
        entity_type: "default"@,
        label: None,
        access_token: None,
        server_attrs: Seq::empty(),
        shared_attrs: Seq::empty(),
    }
}

/// The effect of one non-blank column value on the fields. Access tokens are
/// read for devices only.
pub open spec fn apply_column(kind: ImportKind, f: RowFieldsView, col: ColumnView, v: Seq<char>) -> RowFieldsView {
    match col.column_type {
        BulkImportColumnType::Name => RowFieldsView { name: v, ..f },
        BulkImportColumnType::Type => RowFieldsView { entity_type: v, ..f },
        BulkImportColumnType::Label => RowFieldsView { label: Some(v), ..f },
        BulkImportColumnType::AccessToken => if kind == ImportKind::Device {
            RowFieldsView { access_token: Some(v), ..f }
        } else {
            f
        },
        BulkImportColumnType::ServerAttribute => match col.key {
            Some(k) => RowFieldsView { server_attrs: f.server_attrs.push((k, v)), ..f },
            None => f,
        },
        BulkImportColumnType::SharedAttribute => match col.key {
            Some(k) => RowFieldsView { shared_attrs: f.shared_attrs.push((k, v)), ..f },
            None => f,
        },
        _ => f,
    }
}

/// The trimmed value of column `i` of a record (empty when the record is
/// shorter).
pub open spec fn cell(fields: Seq<Seq<char>>, i: int) -> Seq<char> {
    if i < fields.len() {
        trim(fields[i])
    } else {
        Seq::<char>::empty()
    }
}

/// The fields after reading the first `n` columns; blank values and `-` are
/// skipped.
pub open spec fn fields_upto(kind: ImportKind, cols: Seq<ColumnView>, fields: Seq<Seq<char>>, n: nat) -> RowFieldsView
    decreases n,
{
    if n == 0 {
        empty_fields()
    } else {
        let prev = fields_upto(kind, cols, fields, (n - 1) as nat);
        let v = cell(fields, n - 1);
        if v.len() == 0 || v == seq!['-'] {
            prev
        } else {
            apply_column(kind, prev, cols[n - 1], v)
        }
    }
}

/// The fields that a record supplies, read through all columns.
pub open spec fn row_fields(kind: ImportKind, cols: Seq<ColumnView>, fields: Seq<Seq<char>>) -> RowFieldsView {
    fields_upto(kind, cols, fields, cols.len())
}

/// Whether column `j` of a record holds a value: the record reaches it and its
/// trimmed text is neither blank nor `-`.
pub open spec fn holds_value(fields: Seq<Seq<char>>, j: int) -> bool {
    0 <= j < fields.len() && trim(fields[j]).len() > 0 && trim(fields[j]) != seq!['-']
}

/// The column types that set one field of an entity: the name, the type, the
/// label, and (for devices) the access token.
pub open spec fn sets_one_field(kind: ImportKind, ty: BulkImportColumnType) -> bool {
    ty == BulkImportColumnType::Name || ty == BulkImportColumnType::Type || ty == BulkImportColumnType::Label
        || (ty == BulkImportColumnType::AccessToken && kind == ImportKind::Device)
}

/// The field that a column type sets.
pub open spec fn field_of(ty: BulkImportColumnType, f: RowFieldsView) -> Option<Seq<char>> {
    match ty {
        BulkImportColumnType::Name => Some(f.name),
        BulkImportColumnType::Type => Some(f.entity_type),
        BulkImportColumnType::Label => f.label,
        _ => f.access_token,
    }
}

/// That field when no column of the type holds a value: no name, type
/// `default`, no label, no access token.
pub open spec fn field_default(ty: BulkImportColumnType) -> Option<Seq<char>> {
    match ty {
        BulkImportColumnType::Name => Some(Seq::<char>::empty()),
        BulkImportColumnType::Type => Some("default"@),
        _ => None,
    }
}

proof fn lemma_apply_column_field(kind: ImportKind, prev: RowFieldsView, c: ColumnView, v: Seq<char>,
    ty: BulkImportColumnType)
    requires
        sets_one_field(kind, ty),
    ensures
        c.column_type != ty ==> field_of(ty, apply_column(kind, prev, c, v)) == field_of(ty, prev),
        c.column_type == ty ==> field_of(ty, apply_column(kind, prev, c, v)) == Some(v),
{
}

proof fn lemma_fields_upto_step(kind: ImportKind, cols: Seq<ColumnView>, fields: Seq<Seq<char>>,
    ty: BulkImportColumnType, m: nat)
    requires
        m < cols.len(),
        sets_one_field(kind, ty),
    ensures
        !(cols[m as int].column_type == ty && holds_value(fields, m as int)) ==>
            field_of(ty, fields_upto(kind, cols, fields, m + 1)) == field_of(ty, fields_upto(kind, cols, fields, m)),
        cols[m as int].column_type == ty && holds_value(fields, m as int) ==>
            field_of(ty, fields_upto(kind, cols, fields, m + 1)) == Some(trim(fields[m as int])),
{
    let prev = fields_upto(kind, cols, fields, m);
    let v = cell(fields, m as int);
    assert(fields_upto(kind, cols, fields, m + 1) == (if v.len() == 0 || v == seq!['-'] { prev } else {
        apply_column(kind, prev, cols[m as int], v) }));
    assert(holds_value(fields, m as int) <==> !(v.len() == 0 || v == seq!['-']));
    lemma_apply_column_field(kind, prev, cols[m as int], v, ty);
}

/// No column of type `ty` among the first `n` holds a value.
pub open spec fn none_holds(cols: Seq<ColumnView>, fields: Seq<Seq<char>>, ty: BulkImportColumnType, from: int, n: int) -> bool {
    forall|j: int| from <= j < n && (#[trigger] cols[j]).column_type == ty ==> !holds_value(fields, j)
}

proof fn lemma_fields_upto_default(kind: ImportKind, cols: Seq<ColumnView>, fields: Seq<Seq<char>>,
    ty: BulkImportColumnType, n: nat)
    requires
        n <= cols.len(),
        sets_one_field(kind, ty),
        none_holds(cols, fields, ty, 0, n as int),
    ensures
        field_of(ty, fields_upto(kind, cols, fields, n)) == field_default(ty),
    decreases n,
{
    reveal_strlit("default");
    if n > 0 {
        let m = (n - 1) as nat;
        assert(none_holds(cols, fields, ty, 0, m as int));
        lemma_fields_upto_default(kind, cols, fields, ty, m);
        lemma_fields_upto_step(kind, cols, fields, ty, m);
        assert(cols[m as int].column_type == ty ==> !holds_value(fields, m as int));
    }
}

proof fn lemma_fields_upto_last(kind: ImportKind, cols: Seq<ColumnView>, fields: Seq<Seq<char>>,
    ty: BulkImportColumnType, i: int, n: nat)
    requires
        0 <= i < n <= cols.len(),
        sets_one_field(kind, ty),
        cols[i].column_type == ty,
        holds_value(fields, i),
        none_holds(cols, fields, ty, i + 1, n as int),
    ensures
        field_of(ty, fields_upto(kind, cols, fields, n)) == Some(trim(fields[i])),
    decreases n,
{
    let m = (n - 1) as nat;
    lemma_fields_upto_step(kind, cols, fields, ty, m);
    if i < m {
        assert(none_holds(cols, fields, ty, i + 1, m as int));
        lemma_fields_upto_last(kind, cols, fields, ty, i, m);
        assert(cols[m as int].column_type == ty ==> !holds_value(fields, m as int));
    }
}

/// The name, type, label and (for devices) access token of a record come from the
/// last column of that kind that holds a value, trimmed; when no such column
/// holds one, the record has no name, the type `default`, and no label or token.
pub proof fn lemma_record_field_from_its_column(kind: ImportKind, cols: Seq<ColumnView>, fields: Seq<Seq<char>>,
    ty: BulkImportColumnType)
    requires
        sets_one_field(kind, ty),
    ensures
        (forall|j: int| 0 <= j < cols.len() && (#[trigger] cols[j]).column_type == ty ==> !holds_value(fields, j))
            ==> field_of(ty, row_fields(kind, cols, fields)) == field_default(ty),
        forall|i: int| 0 <= i < cols.len() && (#[trigger] cols[i]).column_type == ty && holds_value(fields, i)
            && (forall|j: int| i < j < cols.len() && (#[trigger] cols[j]).column_type == ty ==> !holds_value(fields, j))
            ==> field_of(ty, row_fields(kind, cols, fields)) == Some(trim(fields[i])),
{
    if none_holds(cols, fields, ty, 0, cols.len() as int) {
        lemma_fields_upto_default(kind, cols, fields, ty, cols.len());
    }
    assert forall|i: int| 0 <= i < cols.len() && (#[trigger] cols[i]).column_type == ty && holds_value(fields, i)
        && (forall|j: int| i < j < cols.len() && (#[trigger] cols[j]).column_type == ty ==> !holds_value(fields, j))
        implies field_of(ty, row_fields(kind, cols, fields)) == Some(trim(fields[i])) by {
        assert(none_holds(cols, fields, ty, i + 1, cols.len() as int));
        lemma_fields_upto_last(kind, cols, fields, ty, i, cols.len());
    }
}

/// In particular the type of an entity is the trimmed text of its last `Type`
/// column that holds a value.
pub proof fn lemma_record_type_from_type_column(kind: ImportKind, cols: Seq<ColumnView>, fields: Seq<Seq<char>>, i: int)
    requires
        0 <= i < cols.len(),
        cols[i].column_type == BulkImportColumnType::Type,
        holds_value(fields, i),
        forall|j: int| i < j < cols.len() && (#[trigger] cols[j]).column_type == BulkImportColumnType::Type
            ==> !holds_value(fields, j),
    ensures
        row_fields(kind, cols, fields).entity_type == trim(fields[i]),
{
    lemma_record_field_from_its_column(kind, cols, fields, BulkImportColumnType::Type);
    assert(field_of(BulkImportColumnType::Type, row_fields(kind, cols, fields)) == Some(trim(fields[i])));
}

pub fn clone_option(o: &Option<String>) -> (r: Option<String>)
    ensures
        opt_view(r) == opt_view(*o),
{
    match o {
        Some(s) => Some(s.clone()),
        None => None,
    }
}

/// Reads one record's fields through the column mapping.
pub fn extract_fields(kind: ImportKind, columns: &Vec<BulkImportColumn>, record: &Vec<String>) -> (r: RowFields)
    ensures
        r@ == row_fields(kind, columns_view(columns@), record@.map_values(|f: String| f@)),
{
    let ghost cols = columns_view(columns@);
    let ghost fs = record@.map_values(|f: String| f@);
    let mut r = RowFields {
        name: String::new(),
        entity_type: "default".to_owned(),
        label: None,
        access_token: None,
        server_attrs: Vec::new(),
        shared_attrs: Vec::new(),
    };
    assert(pairs_view(r.server_attrs@) =~= Seq::empty());
    assert(pairs_view(r.shared_attrs@) =~= Seq::empty());
    assert(r@ == fields_upto(kind, cols, fs, 0));
    let mut i: usize = 0;
    while i < columns.len()
        invariant
            i <= columns.len(),
            cols == columns_view(columns@),
            fs == record@.map_values(|f: String| f@),
            r@ == fields_upto(kind, cols, fs, i as nat),
        decreases columns.len() - i,
    {
        let value: Vec<char> = if i < record.len() {
            let cs = chars_of(record[i].as_str());
            trim_chars(&cs)
        } else {
            Vec::new()
        };
        assert(value@ == cell(fs, i as int));
        let blank = value.len() == 0 || (value.len() == 1 && value[0] == '-');
        proof {
            if value@.len() == 1 && value@[0] == '-' {
                assert(value@ =~= seq!['-']);
            }
            if value@ == seq!['-'] {
                assert(value@.len() == 1);
            }
        }
        if !blank {
            let v = string_of(&value);
            let col = &columns[i];
            assert(cols[i as int] == ColumnView { column_type: col.column_type, key: opt_view(col.key) });
            match col.column_type {
                BulkImportColumnType::Name => {
                    r.name = v;
                },
                BulkImportColumnType::Type => {
                    r.entity_type = v;
                },
                BulkImportColumnType::Label => {
                    r.label = Some(v);
                },
                BulkImportColumnType::AccessToken => {
                    if kind == ImportKind::Device {
                        r.access_token = Some(v);
                    }
                },
                BulkImportColumnType::ServerAttribute => {
                    match &col.key {
                        Some(k) => {
                            let ghost before = r.server_attrs@;
                            r.server_attrs.push((k.clone(), v));
                            assert(pairs_view(r.server_attrs@) =~= pairs_view(before).push((k@, value@)));
                        },
                        None => {},
                    }
                },
                BulkImportColumnType::SharedAttribute => {
                    match &col.key {
                        Some(k) => {
                            let ghost before = r.shared_attrs@;
                            r.shared_attrs.push((k.clone(), v));
                            assert(pairs_view(r.shared_attrs@) =~= pairs_view(before).push((k@, value@)));
                        },
                        None => {},
                    }
                },
                _ => {},
            }
        }
        i = i + 1;
    }
    r
}

// ── The import run ──────────────────────────────────────────────────────────

/// What the storage is asked to do next.
pub enum ImportAction {
    /// Look up the tenant's default profile for the kind.
    FindDefaultProfile,
    /// Look up an entity of the tenant by name.
    FindByName { name: String },
    /// Save the entity that was found, with this type and label.
    UpdateExisting { entity_type: String, label: Option<String> },
    /// Create an entity with these fields and the default profile.
    Create { name: String, entity_type: String, label: Option<String>, profile_id: u128 },
    /// Store an access-token credential for the device just created.
    SaveAccessToken { token: String },
    /// All records are accounted for.
    Finish,
}

/// Where a run stands.
#[derive(Clone, Copy, PartialEq, Eq, Structural)]
pub enum ImportStage {
    NeedProfile,
    Scan,
    AwaitLookup,
    AwaitUpdate,
    AwaitCreate,
    AwaitToken,
    Finished,
}

/// One import of CSV text into assets or devices.
pub struct BulkImport {
    pub kind: ImportKind,
    pub rows: Vec<Result<Vec<String>, String>>,
    pub columns: Vec<BulkImportColumn>,
    pub header: bool,
    pub update: bool,
    pub pos: usize,
    pub stage: ImportStage,
    pub profile_id: u128,
    pub current: RowFields,
    pub token: String,
    pub result: BulkImportResult,
}

/// The line in the file of record `pos`: records count from 1, and from 2
/// after a header line.
pub open spec fn line_of(header: bool, pos: int) -> int {
    let l = pos + if header { 2int } else { 1int };
    if l <= usize::MAX { l } else { usize::MAX as int }
}

pub open spec fn kind_word(kind: ImportKind) -> Seq<char> {
    match kind {
        ImportKind::Asset => "Asset"@,
        ImportKind::Device => "Device"@,
    }
}

/// Why a record is refused before any lookup, if it is.
pub open spec fn local_error(kind: ImportKind, cols: Seq<ColumnView>, rec: RecordView) -> Option<Seq<char>> {
    match rec {
        Err(e) => Some("CSV parse error: "@ + e),
        Ok(fields) => if row_fields(kind, cols, fields).name.len() == 0 {
            Some("Name is required"@)
        } else {
            None
        },
    }
}

/// Skips, from `pos`, the records refused before any lookup: the position of
/// the next record that needs the storage, and the errors recorded on the way.
pub open spec fn scan(
    kind: ImportKind,
    cols: Seq<ColumnView>,
    rows: Seq<RecordView>,
    header: bool,
    pos: int,
    errs: Seq<(int, Seq<char>)>,
) -> (int, Seq<(int, Seq<char>)>)
    decreases rows.len() - pos,
{
    if pos < 0 || pos >= rows.len() {
        (pos, errs)
    } else {
        match local_error(kind, cols, rows[pos]) {
            Some(m) => scan(kind, cols, rows, header, pos + 1, errs.push((line_of(header, pos), m))),
            None => (pos, errs),
        }
    }
}

impl BulkImport {
    pub open spec fn rows_view(&self) -> Seq<RecordView> {
        records_view(self.rows@)
    }

    pub open spec fn cols_view(&self) -> Seq<ColumnView> {
        columns_view(self.columns@)
    }

    /// The fields of the record at `pos`.
    pub open spec fn fields_at(&self, pos: int) -> RowFieldsView {
        match self.rows_view()[pos] {
            Ok(f) => row_fields(self.kind, self.cols_view(), f),
            Err(_) => empty_fields(),
        }
    }

    /// The run's invariant: every record before `pos` is counted exactly once,
    /// and while a record is in progress its fields are at hand.
    pub open spec fn wf(&self) -> bool {
        &&& self.pos <= self.rows@.len()
        &&& self.rows@.len() <= usize::MAX
        &&& self.result.total() == self.pos
        &&& (self.stage == ImportStage::NeedProfile ==> self.pos == 0)
        &&& (self.stage == ImportStage::Finished ==> self.pos == self.rows@.len())
        &&& (self.stage == ImportStage::AwaitLookup || self.stage == ImportStage::AwaitUpdate
            || self.stage == ImportStage::AwaitCreate || self.stage == ImportStage::AwaitToken) ==> {
            &&& self.pos < self.rows@.len()
            &&& self.rows_view()[self.pos as int] is Ok
            &&& local_error(self.kind, self.cols_view(), self.rows_view()[self.pos as int]) is None
            &&& self.current@ == self.fields_at(self.pos as int)
        }
    }

    /// The settings of a run, which no step changes: the kind, the records, the
    /// column mapping, the header flag, the update mode and the default profile.
    pub open spec fn same_run(self, other: Self) -> bool {
        &&& self.kind == other.kind
        &&& self.rows == other.rows
        &&& self.columns == other.columns
        &&& self.header == other.header
        &&& self.update == other.update
        &&& self.profile_id == other.profile_id
    }

    /// Starts an import: the CSV text is read into records with the mapping's
    /// delimiter and header flag; nothing is counted yet.
    pub fn new(kind: ImportKind, req: BulkImportRequest) -> (r: Self)
        ensures
            r.wf(),
            r.kind == kind,
            r.rows_view() == csv_records(req.file@, ((req.mapping.delimiter as u32) % 256) as u8, req.mapping.header),
            r.cols_view() == columns_view(req.mapping.columns@),
            r.header == req.mapping.header,
            r.update == req.mapping.update,
            r.pos == 0,
            r.stage == ImportStage::NeedProfile,
            r.result.created == 0 && r.result.updated == 0 && r.result.errors@.len() == 0,
    {
        let d = delimiter_byte(req.mapping.delimiter);
        let rows = read_csv_records(req.file.as_str(), d, req.mapping.header);
        let _n = rows.len();
        BulkImport {
            kind,
            rows,
            columns: req.mapping.columns,
            header: req.mapping.header,
            update: req.mapping.update,
            pos: 0,
            stage: ImportStage::NeedProfile,
            profile_id: 0,
            current: RowFields {
                name: String::new(),
                entity_type: String::new(),
                label: None,
                access_token: None,
                server_attrs: Vec::new(),
                shared_attrs: Vec::new(),
            },
            token: String::new(),
            result: BulkImportResult::new(),
        }
    }

    fn line(&self) -> (l: usize)
        ensures
            l as int == line_of(self.header, self.pos as int),
    {
        let off: usize = if self.header { 2 } else { 1 };
        self.pos.saturating_add(off)
    }

    /// The answer to `FindDefaultProfile`: without a default profile the whole
    /// import is refused; with one, records are read from the first.
    pub fn on_default_profile(&mut self, profile: Option<u128>) -> (r: Result<(), ApiError>)
        requires
            old(self).wf(),
            old(self).stage == ImportStage::NeedProfile,
        ensures
            final(self).wf(),
            final(self).kind == old(self).kind,
            final(self).rows == old(self).rows,
            final(self).columns == old(self).columns,
            final(self).header == old(self).header,
            final(self).update == old(self).update,
            final(self).pos == old(self).pos,
            final(self).result == old(self).result,
            final(self).current == old(self).current,
            final(self).token == old(self).token,
            match profile {
                None => {
                    &&& *final(self) == *old(self)
                    &&& final(self).stage == ImportStage::NeedProfile
                    &&& r matches Err(ApiError::BadRequest(m)) && m@ == (match old(self).kind {
                        ImportKind::Asset => "No default asset profile found"@,
                        ImportKind::Device => "No default device profile found"@,
                    })
                },
                Some(p) => r is Ok && final(self).stage == ImportStage::Scan && final(self).profile_id == p,
            },
    {
        match profile {
            None => {
                let m = match self.kind {
                    ImportKind::Asset => "No default asset profile found".to_owned(),
                    ImportKind::Device => "No default device profile found".to_owned(),
                };
                Err(ApiError::BadRequest(m))
            },
            Some(p) => {
                self.profile_id = p;
                self.stage = ImportStage::Scan;
                Ok(())
            },
        }
    }

    /// The next request to the storage. While scanning, records refused
    /// before any lookup (unreadable, or without a name) are counted as
    /// errors and skipped; the next record with a name is looked up, or, when
    /// none is left, the run finishes.
    pub fn next_action(&mut self) -> (a: ImportAction)
        requires
            old(self).wf(),
            old(self).stage != ImportStage::NeedProfile,
        ensures
            final(self).wf(),
            final(self).same_run(*old(self)),
            final(self).token == old(self).token,
            old(self).stage == ImportStage::Scan ==> {
                let (p, errs) = scan(old(self).kind, old(self).cols_view(), old(self).rows_view(), old(self).header,
                    old(self).pos as int, old(self).result.error_list());
                &&& final(self).pos == p
                &&& final(self).result.error_list() == errs
                &&& final(self).result.created == old(self).result.created
                &&& final(self).result.updated == old(self).result.updated
                &&& if p == old(self).rows@.len() {
                    final(self).stage == ImportStage::Finished && a is Finish
                } else {
                    &&& final(self).stage == ImportStage::AwaitLookup
                    &&& a matches ImportAction::FindByName { name } && name@ == final(self).fields_at(p).name
                }
            },
            old(self).stage != ImportStage::Scan ==> {
                &&& final(self).pos == old(self).pos
                &&& final(self).stage == old(self).stage
                &&& final(self).result == old(self).result
                &&& final(self).current == old(self).current
                &&& match old(self).stage {
                    ImportStage::AwaitLookup => a matches ImportAction::FindByName { name } && name@ == old(self).current@.name,
                    ImportStage::AwaitUpdate => a matches ImportAction::UpdateExisting { entity_type, label }
                        && entity_type@ == old(self).current@.entity_type && opt_view(label) == old(self).current@.label,
                    ImportStage::AwaitCreate => a matches ImportAction::Create { name, entity_type, label, profile_id }
                        && name@ == old(self).current@.name && entity_type@ == old(self).current@.entity_type
                        && opt_view(label) == old(self).current@.label && profile_id == old(self).profile_id,
                    ImportStage::AwaitToken => a matches ImportAction::SaveAccessToken { token } && token@ == old(self).token@,
                    _ => a is Finish,
                }
            },
    {
        match self.stage {
            ImportStage::Scan => {},
            ImportStage::AwaitLookup => {
                return ImportAction::FindByName { name: self.current.name.clone() };
            },
            ImportStage::AwaitUpdate => {
                return ImportAction::UpdateExisting {
                    entity_type: self.current.entity_type.clone(),
                    label: clone_option(&self.current.label),
                };
            },
            ImportStage::AwaitCreate => {
                return ImportAction::Create {
                    name: self.current.name.clone(),
                    entity_type: self.current.entity_type.clone(),
                    label: clone_option(&self.current.label),
                    profile_id: self.profile_id,
                };
            },
            ImportStage::AwaitToken => {
                return ImportAction::SaveAccessToken { token: self.token.clone() };
            },
            _ => {
                return ImportAction::Finish;
            },
        }
        let ghost start_pos = self.pos as int;
        let ghost start_errs = self.result.error_list();
        let ghost target = scan(self.kind, self.cols_view(), self.rows_view(), self.header, start_pos, start_errs);
        while self.pos < self.rows.len()
            invariant
                self.wf(),
                old(self).stage == ImportStage::Scan,
                self.stage == ImportStage::Scan,
                self.kind == old(self).kind,
                self.rows == old(self).rows,
                self.columns == old(self).columns,
                self.header == old(self).header,
                self.update == old(self).update,
                self.profile_id == old(self).profile_id,
                self.token == old(self).token,
                self.result.created == old(self).result.created,
                self.result.updated == old(self).result.updated,
                target == scan(self.kind, self.cols_view(), self.rows_view(), self.header, self.pos as int,
                    self.result.error_list()),
                target == scan(old(self).kind, old(self).cols_view(), old(self).rows_view(), old(self).header,
                    old(self).pos as int, old(self).result.error_list()),
            decreases self.rows.len() - self.pos,
        {
            let line = self.line();
            let i = self.pos;
            assert(self.rows_view()[i as int] == record_view(self.rows@[i as int]));
            match &self.rows[i] {
                Err(e) => {
                    let msg = concat_str("CSV parse error: ", e.as_str());
                    self.result.add_error(line, msg);
                    self.pos = i + 1;
                },
                Ok(fields) => {
                    let f = extract_fields(self.kind, &self.columns, fields);
                    proof {
                        assert(self.rows_view()[i as int] == Ok::<Seq<Seq<char>>, Seq<char>>(fields@.map_values(|x: String| x@)));
                    }
                    if f.name.as_str().unicode_len() == 0 {
                        self.result.add_error(line, "Name is required".to_owned());
                        self.pos = i + 1;
                    } else {
                        let name = f.name.clone();
                        proof {
                            assert(f@.name.len() != 0);
                            assert(local_error(self.kind, self.cols_view(), self.rows_view()[i as int]) is None);
                            assert(target == (self.pos as int, self.result.error_list()));
                        }
                        self.current = f;
                        self.stage = ImportStage::AwaitLookup;
                        return ImportAction::FindByName { name };
                    }
                },
            }
        }
        self.stage = ImportStage::Finished;
        ImportAction::Finish
    }

    fn finish_row(&mut self)
        requires
            old(self).pos < old(self).rows@.len(),
            old(self).rows@.len() <= usize::MAX,
            old(self).result.total() == old(self).pos + 1,
        ensures
            final(self).pos == old(self).pos + 1,
            final(self).stage == ImportStage::Scan,
            final(self).result == old(self).result,
            final(self).kind == old(self).kind,
            final(self).rows == old(self).rows,
            final(self).columns == old(self).columns,
            final(self).header == old(self).header,
            final(self).update == old(self).update,
            final(self).profile_id == old(self).profile_id,
            final(self).current == old(self).current,
            final(self).token == old(self).token,
    {
        self.pos = self.pos + 1;
        self.stage = ImportStage::Scan;
    }

    /// The answer to `FindByName`: a name that exists is refused unless the
    /// mapping allows updates; otherwise the entity is updated or created.
    pub fn on_lookup(&mut self, exists: bool)
        requires
            old(self).wf(),
            old(self).stage == ImportStage::AwaitLookup,
        ensures
            final(self).wf(),
            final(self).same_run(*old(self)),
            final(self).current == old(self).current,
            final(self).token == old(self).token,
            final(self).result.created == old(self).result.created,
            final(self).result.updated == old(self).result.updated,
            exists && !old(self).update ==> {
                &&& final(self).stage == ImportStage::Scan
                &&& final(self).pos == old(self).pos + 1
                &&& final(self).result.error_list() == old(self).result.error_list().push((
                    line_of(old(self).header, old(self).pos as int),
                    kind_word(old(self).kind) + " '"@ + old(self).current@.name + "' already exists"@,
                ))
            },
            exists && old(self).update ==> final(self).stage == ImportStage::AwaitUpdate
                && final(self).pos == old(self).pos && final(self).result == old(self).result,
            !exists ==> final(self).stage == ImportStage::AwaitCreate
                && final(self).pos == old(self).pos && final(self).result == old(self).result,
    {
        if exists {
            if !self.update {
                let line = self.line();
                let mut msg = match self.kind {
                    ImportKind::Asset => "Asset".to_owned(),
                    ImportKind::Device => "Device".to_owned(),
                };
                append_str(&mut msg, " '");
                append_str(&mut msg, self.current.name.as_str());
                append_str(&mut msg, "' already exists");
                self.result.add_error(line, msg);
                self.finish_row();
            } else {
                self.stage = ImportStage::AwaitUpdate;
            }
        } else {
            self.stage = ImportStage::AwaitCreate;
        }
    }

    /// The answer to `UpdateExisting` or `Create`: a failed save is counted as
    /// an error; an update that succeeded is counted as updated, an asset that
    /// was created as created, and a device that was created next gets its
    /// access token: the one from the record, or a freshly generated one.
    pub fn on_saved(&mut self, outcome: Result<(), String>)
        requires
            old(self).wf(),
            old(self).stage == ImportStage::AwaitUpdate || old(self).stage == ImportStage::AwaitCreate,
        ensures
            final(self).wf(),
            final(self).same_run(*old(self)),
            final(self).current == old(self).current,
            !(final(self).stage == ImportStage::AwaitToken) ==> final(self).token == old(self).token,
            match outcome {
                Err(e) => {
                    &&& final(self).stage == ImportStage::Scan
                    &&& final(self).pos == old(self).pos + 1
                    &&& final(self).result.created == old(self).result.created
                    &&& final(self).result.updated == old(self).result.updated
                    &&& final(self).result.error_list() == old(self).result.error_list().push((
                        line_of(old(self).header, old(self).pos as int),
                        (if old(self).stage == ImportStage::AwaitUpdate { "Failed to update: "@ } else {
                            "Failed to create: "@
                        }) + e@,
                    ))
                },
                Ok(()) => if old(self).stage == ImportStage::AwaitUpdate {
                    &&& final(self).stage == ImportStage::Scan
                    &&& final(self).pos == old(self).pos + 1
                    &&& final(self).result.updated == old(self).result.updated + 1
                    &&& final(self).result.created == old(self).result.created
                    &&& final(self).result.error_list() == old(self).result.error_list()
                } else if old(self).kind == ImportKind::Asset {
                    &&& final(self).stage == ImportStage::Scan
                    &&& final(self).pos == old(self).pos + 1
                    &&& final(self).result.created == old(self).result.created + 1
                    &&& final(self).result.updated == old(self).result.updated
                    &&& final(self).result.error_list() == old(self).result.error_list()
                } else {
                    &&& final(self).stage == ImportStage::AwaitToken
                    &&& final(self).pos == old(self).pos
                    &&& final(self).result == old(self).result
                    &&& match old(self).current@.access_token {
                        Some(t) => final(self).token@ == t,
                        None => final(self).token@.len() == 20 && forall|i: int|
                            0 <= i < 20 ==> is_token_char(#[trigger] final(self).token@[i]),
                    }
                },
            },
    {
        let updating = self.stage == ImportStage::AwaitUpdate;
        match outcome {
            Err(e) => {
                let line = self.line();
                let prefix = if updating { "Failed to update: " } else { "Failed to create: " };
                let msg = concat_str(prefix, e.as_str());
                self.result.add_error(line, msg);
                self.finish_row();
            },
            Ok(()) => {
                if updating {
                    self.result.add_updated();
                    self.finish_row();
                } else if self.kind == ImportKind::Asset {
                    self.result.add_created();
                    self.finish_row();
                } else {
                    self.token = match &self.current.access_token {
                        Some(t) => t.clone(),
                        None => generate_access_token(),
                    };
                    self.stage = ImportStage::AwaitToken;
                }
            },
        }
    }

    /// The answer to `SaveAccessToken`: whatever the storage answered, the
    /// device counts as created.
    pub fn on_token_saved(&mut self)
        requires
            old(self).wf(),
            old(self).stage == ImportStage::AwaitToken,
        ensures
            final(self).wf(),
            final(self).stage == ImportStage::Scan,
            final(self).pos == old(self).pos + 1,
            final(self).result.created == old(self).result.created + 1,
            final(self).result.updated == old(self).result.updated,
            final(self).result.error_list() == old(self).result.error_list(),
            final(self).same_run(*old(self)),
            final(self).current == old(self).current,
            final(self).token == old(self).token,
    {
        self.result.add_created();
        self.finish_row();
    }
}


/// A finished import has counted every record of the file exactly once: as
/// created, as updated, or as refused with its line.
pub proof fn lemma_finished_import_counts_every_record(b: BulkImport)
    requires
        b.wf(),
        b.stage == ImportStage::Finished,
    ensures
        b.result.created + b.result.updated + b.result.errors@.len() == b.rows_view().len(),
{
}

} // verus!
