//! Records as a database stores them: text fields in fixed formats.

use vstd::prelude::*;
use crate::model::{UrlRecord, UrlRecordView};
use crate::short_url::{ShortUrl, is_short_url_text, normalized, short_url_chars_are_normalized};

verus! {

/// How a database row writes the creation time of a record.
pub const STORED_DATETIME_FORMAT: &'static str = "%Y-%m-%d %H:%M:%S";

/// What `chrono::NaiveDateTime::parse_from_str(text, format)` gives, when it succeeds.
pub uninterp spec fn parsed_datetime(text: Seq<char>, format: Seq<char>) -> Option<chrono::NaiveDateTime>;

/// What `chrono::NaiveDateTime::format(format)` writes for `dt`.
pub uninterp spec fn formatted_datetime(dt: chrono::NaiveDateTime, format: Seq<char>) -> Seq<char>;

/// Calls `chrono::NaiveDateTime::parse_from_str`, keeping the time when parsing
/// succeeds; the result is named by `parsed_datetime`.
#[verifier::external_body]
fn parse_datetime(text: &str, format: &str) -> (r: Option<chrono::NaiveDateTime>)
    ensures
        r == parsed_datetime(text@, format@),
{
    chrono::NaiveDateTime::parse_from_str(text, format).ok()
}

/// Calls `chrono::NaiveDateTime::format` and writes the result to a `String`; the
/// result is named by `formatted_datetime`. Writing panics on a format that chrono
/// cannot write, so the format is held to the one a database row uses.
#[verifier::external_body]
fn format_datetime(dt: &chrono::NaiveDateTime, format: &str) -> (r: String)
    requires
        format@ == STORED_DATETIME_FORMAT@,
    ensures
        r@ == formatted_datetime(*dt, format@),
{
    dt.format(format).to_string()
}

/// A row of the `urls` table.
pub struct StoredRow {
    pub id: String,
    pub long_url: Option<String>,
    pub created_at: String,
    pub clicks: i64,
}

/// The contents of a `StoredRow` as plain values.
pub struct StoredRowView {
    pub id: Seq<char>,
    pub long_url: Option<Seq<char>>,
    pub created_at: Seq<char>,
    pub clicks: i64,
}

impl View for StoredRow {
    type V = StoredRowView;

    open spec fn view(&self) -> StoredRowView {
        StoredRowView {
            id: self.id@,
            long_url: self.long_url.deep_view(),
            created_at: self.created_at@,
            clicks: self.clicks,
        }
    }
}

/// The record that a row holds: none when its identifier is not valid or its
/// creation time does not parse.
pub open spec fn record_of_row(row: StoredRowView) -> Option<UrlRecordView> {
    if is_short_url_text(normalized(row.id)) && parsed_datetime(row.created_at, STORED_DATETIME_FORMAT@) is Some {
        Some(
            UrlRecordView {
                id: normalized(row.id),
                long_url: row.long_url,
                created_at: parsed_datetime(row.created_at, STORED_DATETIME_FORMAT@)->0,
                clicks: row.clicks,
            },
        )
    } else {
        None
    }
}

/// The records that the rows hold, in order, leaving out the rows that hold none.
pub open spec fn records_of_rows(rows: Seq<StoredRowView>) -> Seq<UrlRecordView>
    decreases rows.len(),
{
    if rows.len() == 0 {
        Seq::empty()
    } else {
        let rest = records_of_rows(rows.drop_last());
        match record_of_row(rows.last()) {
            Some(rec) => rest.push(rec),
            None => rest,
        }
    }
}

/// Whether `row` holds a record.
pub open spec fn holds_record(row: StoredRowView) -> bool {
    record_of_row(row) is Some
}

/// The records of rows read one after the other are the records of the first
/// rows followed by those of the others.
pub proof fn records_of_rows_concat(a: Seq<StoredRowView>, b: Seq<StoredRowView>)
    ensures
        records_of_rows(a + b) == records_of_rows(a) + records_of_rows(b),
    decreases b.len(),
{
    if b.len() == 0 {
        assert(a + b =~= a);
        assert(records_of_rows(b) =~= Seq::<UrlRecordView>::empty());
        assert(records_of_rows(a) + records_of_rows(b) =~= records_of_rows(a));
    } else {
        records_of_rows_concat(a, b.drop_last());
        assert((a + b).drop_last() =~= a + b.drop_last());
        assert((a + b).last() == b.last());
        match record_of_row(b.last()) {
            Some(rec) => {
                assert(records_of_rows(a) + records_of_rows(b) =~= (records_of_rows(a) + records_of_rows(
                    b.drop_last(),
                )).push(rec));
            },
            None => {},
        }
    }
}

/// A single row gives its record when it holds one, and nothing otherwise.
pub proof fn records_of_one_row(row: StoredRowView)
    ensures
        holds_record(row) ==> records_of_rows(seq![row]) == seq![record_of_row(row)->0],
        !holds_record(row) ==> records_of_rows(seq![row]) == Seq::<UrlRecordView>::empty(),
{
    assert(seq![row].drop_last() =~= Seq::<StoredRowView>::empty());
    assert(records_of_rows(Seq::<StoredRowView>::empty()) =~= Seq::<UrlRecordView>::empty());
    if holds_record(row) {
        assert(Seq::<UrlRecordView>::empty().push(record_of_row(row)->0) =~= seq![record_of_row(row)->0]);
    }
}

/// Every row that holds a record gives one record, whatever the record's clicks:
/// there are as many records as rows that hold one.
pub proof fn records_of_rows_len(rows: Seq<StoredRowView>)
    ensures
        records_of_rows(rows).len() == rows.filter(|row: StoredRowView| holds_record(row)).len(),
    decreases rows.len(),
{
    reveal_with_fuel(Seq::filter, 1);
    if rows.len() > 0 {
        records_of_rows_len(rows.drop_last());
    }
}

/// The row that stores `record`.
pub open spec fn row_of_record(record: UrlRecordView) -> StoredRowView {
    StoredRowView {
        id: record.id,
        long_url: record.long_url,
        created_at: formatted_datetime(record.created_at, STORED_DATETIME_FORMAT@),
        clicks: record.clicks,
    }
}

fn clone_text(o: &Option<String>) -> (r: Option<String>)
    ensures
        r.deep_view() == o.deep_view(),
{
    match o {
        Some(s) => Some(s.clone()),
        None => None,
    }
}

/// A record written to a row is read back from that row, whenever chrono reads
/// back the creation time that it wrote.
pub proof fn stored_record_reads_back(rec: UrlRecordView)
    requires
        is_short_url_text(rec.id),
        parsed_datetime(formatted_datetime(rec.created_at, STORED_DATETIME_FORMAT@), STORED_DATETIME_FORMAT@)
            == Some(rec.created_at),
    ensures
        record_of_row(row_of_record(rec)) == Some(rec),
{
    short_url_chars_are_normalized(rec.id);
}

/// The record that `row` holds, as `record_of_row` describes it.
pub fn record_from_row(row: &StoredRow) -> (r: Option<UrlRecord>)
    ensures
        r is Some <==> record_of_row(row@) is Some,
        r matches Some(rec) ==> rec@ == record_of_row(row@)->0,
{
    let id = match ShortUrl::new(row.id.as_str()) {
        Ok(id) => id,
        Err(_) => {
            return None;
        },
    };
    let created_at = match parse_datetime(row.created_at.as_str(), STORED_DATETIME_FORMAT) {
        Some(t) => t,
        None => {
            return None;
        },
    };
    Some(UrlRecord { id, long_url: clone_text(&row.long_url), created_at, clicks: row.clicks })
}

/// The records that `rows` hold, in order; rows that hold none are skipped.
pub fn records_from_rows(rows: &Vec<StoredRow>) -> (r: Vec<UrlRecord>)
    ensures
        r@.map_values(|rec: UrlRecord| rec@) == records_of_rows(rows@.map_values(|row: StoredRow| row@)),
{
    let ghost views = rows@.map_values(|row: StoredRow| row@);
    let mut out: Vec<UrlRecord> = Vec::new();
    let mut i: usize = 0;
    while i < rows.len()
        invariant
            i <= rows@.len(),
            views == rows@.map_values(|row: StoredRow| row@),
            out@.map_values(|rec: UrlRecord| rec@) == records_of_rows(views.take(i as int)),
        decreases rows@.len() - i,
    {
        assert(views.take(i + 1).drop_last() =~= views.take(i as int));
        assert(views.take(i + 1).last() == rows@[i as int]@);
        match record_from_row(&rows[i]) {
            Some(rec) => {
                let ghost before = out@;
                out.push(rec);
                assert(out@.map_values(|rec: UrlRecord| rec@) =~= before.map_values(|rec: UrlRecord| rec@).push(rec@));
            },
            None => {},
        }
        i = i + 1;
    }
    assert(views.take(rows@.len() as int) =~= views);
    out
}

/// The row that stores `record`, as `row_of_record` describes it.
pub fn row_from_record(record: &UrlRecord) -> (r: StoredRow)
    ensures
        r@ == row_of_record(record@),
{
    StoredRow {
        id: String::from_str(record.id.as_str()),
        long_url: clone_text(&record.long_url),
        created_at: format_datetime(&record.created_at, STORED_DATETIME_FORMAT),
        clicks: record.clicks,
    }
}

} // verus!
