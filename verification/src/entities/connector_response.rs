//! The table that the body of a successful answer decodes into.

use crate::entities::connector_error::DecodeError;
use crate::text::texts;
use vstd::prelude::*;

verus! {

/// The outside failure of the tokenizer.
#[verifier::external_type_specification]
#[verifier::external_body]
pub struct ExCsvError(csv::Error);

/// The data rows that the tokenizer finds in a semicolon-delimited text, each
/// row as its fields in order; the first row is a header and is left out.
/// Nothing where the tokenizer rejects the text.
pub uninterp spec fn csv_rows(text: Seq<char>) -> Option<Seq<Seq<Seq<char>>>>;

/// The rows of a table of strings, each as the texts of its fields.
pub open spec fn grid(rows: Seq<Vec<String>>) -> Seq<Seq<Seq<char>>> {
    Seq::new(rows.len(), |i: int| texts(rows[i]@))
}

/// Tokenizes a text with the `csv` crate: a reader made by `ReaderBuilder`
/// with `delimiter(b';')` and `flexible(true)`, so that rows of any width
/// come through, reads the text's bytes, and `Reader::records` hands out the
/// rows after the header row. Nothing is proved of the rows; they only get
/// their name. The first failure that the reader reports ends the reading.
#[verifier::external_body]
fn tokenize(text: &str) -> (rows: Result<Vec<Vec<String>>, csv::Error>)
    ensures
        rows is Ok <==> csv_rows(text@) is Some,
        rows is Ok ==> csv_rows(text@) == Some(grid(rows->Ok_0@)),
{
    let mut builder = csv::ReaderBuilder::new();
    let mut reader = builder.delimiter(b';').flexible(true).from_reader(text.as_bytes());
    let mut rows: Vec<Vec<String>> = Vec::new();
    for record in reader.records() {
        rows.push(record?.iter().map(String::from).collect());
    }
    Ok(rows)
}

/// The description that `csv::Error` gives of itself through `Display`.
/// Nothing is claimed of the text.
#[verifier::external_body]
fn describe(error: &csv::Error) -> (message: String) {
    error.to_string()
}

/// A record as plain texts: the timestamp and the values.
pub open spec fn record_texts(record: (String, Vec<String>)) -> (Seq<char>, Seq<Seq<char>>) {
    (record.0@, texts(record.1@))
}

/// The record that a data row stands for: its first field is the timestamp,
/// the fields after it are the values, in order.
pub open spec fn record_of(row: Seq<Seq<char>>) -> (Seq<char>, Seq<Seq<char>>) {
    (row[0], row.subrange(1, row.len() as int))
}

/// The records that data rows stand for, in order.
pub open spec fn records_of(rows: Seq<Seq<Seq<char>>>) -> Seq<(Seq<char>, Seq<Seq<char>>)> {
    Seq::new(rows.len(), |i: int| record_of(rows[i]))
}

/// True where a row holds a timestamp and exactly `field_count` values.
pub open spec fn row_fits(row: Seq<Seq<char>>, field_count: usize) -> bool {
    row.len() == field_count + 1
}

/// True where every row holds a timestamp and exactly `field_count` values.
pub open spec fn all_fit(rows: Seq<Seq<Seq<char>>>, field_count: usize) -> bool {
    forall|i: int| 0 <= i < rows.len() ==> row_fits(#[trigger] rows[i], field_count)
}

/// True where row `i` is the first that does not hold a timestamp and exactly
/// `field_count` values.
pub open spec fn first_misfit(rows: Seq<Seq<Seq<char>>>, field_count: usize, i: int) -> bool {
    &&& 0 <= i < rows.len()
    &&& !row_fits(rows[i], field_count)
    &&& forall|j: int| 0 <= j < i ==> row_fits(#[trigger] rows[j], field_count)
}

/// The decoded answer: the names of the columns and one record per data row.
/// A record is the row's timestamp with the row's values.
#[derive(Clone, Debug, PartialEq)]
pub struct ResponseBody {
    pub response_headers: Vec<String>,
    pub response_records: Vec<(String, Vec<String>)>,
}

/// A decoded answer with the status it came with.
#[derive(Clone, Debug, PartialEq)]
pub struct ConnectorResponse {
    pub response_body: ResponseBody,
    pub http_status_code: String,
    pub http_status_message: String,
}

impl ResponseBody {
    /// The names of the columns, in order.
    pub open spec fn headers(self) -> Seq<Seq<char>> {
        texts(self.response_headers@)
    }

    /// The records, in order, as plain texts.
    pub open spec fn records(self) -> Seq<(Seq<char>, Seq<Seq<char>>)> {
        Seq::new(self.response_records@.len(), |i: int| record_texts(self.response_records@[i]))
    }

    /// What filling a table from data rows comes to. Where every row fits, the
    /// table gains the rows' records after those it held, its columns stay, and
    /// there is no failure. Otherwise the table stays as it was and the failure
    /// names the first row that does not fit, with the number of fields found
    /// in it and the number of values wanted.
    pub open spec fn filled_from(
        self,
        rows: Seq<Seq<Seq<char>>>,
        field_count: usize,
        after: ResponseBody,
        outcome: Result<(), DecodeError>,
    ) -> bool {
        if all_fit(rows, field_count) {
            &&& outcome is Ok
            &&& after.response_headers == self.response_headers
            &&& after.records() == self.records() + records_of(rows)
        } else {
            &&& after == self
            &&& outcome is Err
            &&& outcome->Err_0 is RowWidth
            &&& first_misfit(rows, field_count, outcome->Err_0->row as int)
            &&& outcome->Err_0->found == rows[outcome->Err_0->row as int].len()
            &&& outcome->Err_0->wanted == field_count
        }
    }

    /// A table without columns and without records.
    pub fn new() -> (empty: ResponseBody)
        ensures
            empty.response_headers@.len() == 0,
            empty.response_records@.len() == 0,
    {
        ResponseBody { response_headers: Vec::new(), response_records: Vec::new() }
    }

    /// Adds a column name after those already there.
    pub fn add_header(&mut self, header: String)
        ensures
            final(self).response_headers@ == old(self).response_headers@.push(header),
            final(self).response_records == old(self).response_records,
    {
        self.response_headers.push(header);
    }

    /// Fills the table from data rows. All or nothing: one row of the wrong
    /// width and no record is added.
    pub fn fill_records(&mut self, rows: &Vec<Vec<String>>, field_count: usize) -> (outcome: Result<
        (),
        DecodeError,
    >)
        ensures
            old(self).filled_from(grid(rows@), field_count, *final(self), outcome),
    {
        let ghost table = grid(rows@);
        let mut i: usize = 0;
        while i < rows.len()
            invariant
                i <= rows.len(),
                table == grid(rows@),
                forall|j: int| 0 <= j < i ==> row_fits(#[trigger] table[j], field_count),
            decreases rows.len() - i,
        {
            let found = rows[i].len();
            assert(table[i as int].len() == found);
            if found == 0 || found - 1 != field_count {
                assert(first_misfit(table, field_count, i as int));
                return Err(DecodeError::RowWidth { row: i, found, wanted: field_count });
            }
            i = i + 1;
        }
        assert(all_fit(table, field_count));
        let mut k: usize = 0;
        while k < rows.len()
            invariant
                k <= rows.len(),
                table == grid(rows@),
                all_fit(table, field_count),
                self.response_headers == old(self).response_headers,
                self.records() == old(self).records() + records_of(table.take(k as int)),
            decreases rows.len() - k,
        {
            let row = &rows[k];
            assert(row_fits(table[k as int], field_count));
            assert(table[k as int] == texts(row@));
            let timestamp = row[0].clone();
            let mut values: Vec<String> = Vec::new();
            let mut c: usize = 1;
            while c < row.len()
                invariant
                    1 <= c <= row.len(),
                    values.len() == c - 1,
                    forall|j: int| 0 <= j < c - 1 ==> (#[trigger] values@[j])@ == row@[j + 1]@,
                decreases row.len() - c,
            {
                values.push(row[c].clone());
                c = c + 1;
            }
            let ghost before = self.records();
            self.response_records.push((timestamp, values));
            proof {
                let record = record_of(table[k as int]);
                assert(texts(values@) =~= record.1);
                assert(self.records() =~= before.push(record));
                assert(records_of(table.take(k + 1)) =~= records_of(table.take(k as int)).push(
                    record,
                ));
            }
            k = k + 1;
        }
        proof {
            assert(table.take(rows.len() as int) =~= table);
        }
        Ok(())
    }

    /// Decodes the body of an answer into the table: the tokenizer splits the
    /// text into rows, leaving the header row out, and each data row becomes
    /// a record. Fails where the tokenizer rejects the text or a row has the
    /// wrong width, and then leaves the table as it was.
    pub fn populate_records(&mut self, body: &str, field_count: usize) -> (outcome: Result<
        (),
        DecodeError,
    >)
        ensures
            match csv_rows(body@) {
                Some(rows) => old(self).filled_from(rows, field_count, *final(self), outcome),
                None => *final(self) == *old(self) && outcome is Err && outcome->Err_0
                    is Tokenizer,
            },
    {
        match tokenize(body) {
            Ok(rows) => self.fill_records(&rows, field_count),
            Err(error) => Err(DecodeError::Tokenizer { message: describe(&error) }),
        }
    }
}

/// One row that lacks a single value fails the whole decode: whatever the
/// other rows hold, the outcome is a failure and the table stays as it was.
pub proof fn lemma_short_row_fails_the_decode(
    before: ResponseBody,
    rows: Seq<Seq<Seq<char>>>,
    field_count: usize,
    after: ResponseBody,
    outcome: Result<(), DecodeError>,
    short: int,
)
    requires
        before.filled_from(rows, field_count, after, outcome),
        0 <= short < rows.len(),
        rows[short].len() == field_count,
    ensures
        outcome is Err,
        outcome->Err_0 is RowWidth,
        outcome->Err_0->row <= short,
        after == before,
        after.records() == before.records(),
{
    assert(!row_fits(rows[short], field_count));
    let first = outcome->Err_0->row as int;
    if first > short {
        assert(row_fits(rows[short], field_count));
    }
}

/// No data rows, no records and no failure: the table holds what it held.
pub proof fn lemma_no_rows_no_records(
    before: ResponseBody,
    field_count: usize,
    after: ResponseBody,
    outcome: Result<(), DecodeError>,
)
    requires
        before.filled_from(Seq::empty(), field_count, after, outcome),
    ensures
        outcome is Ok,
        after.response_headers == before.response_headers,
        after.records() == before.records(),
{
    assert(all_fit(Seq::<Seq<Seq<char>>>::empty(), field_count));
    assert(records_of(Seq::<Seq<Seq<char>>>::empty()) =~= Seq::empty());
    assert(before.records() + Seq::<(Seq<char>, Seq<Seq<char>>)>::empty() =~= before.records());
}

} // verus!
