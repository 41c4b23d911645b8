//! The scanner of the first generation with structured errors: rows are
//! counted from the first line of the text, the header included, and every
//! row must have as many fields as the first one.
use vstd::prelude::*;
use crate::field::{
    chars_of, first_pair_fault, interior_quote_positions, interior_quotes, normalized, pair_fault,
    PairFault,
};
use crate::table::data::{QuoteValidationError, TableView, ValidationFault};
use crate::csv::quote_kind;

verus! {

pub use crate::csv::{CsvQuoteValidationError, CsvValidationError};
pub use crate::field::{finalize_field, has_outer_quotes};

/// A table of comma-separated values whose parts are set one by one.
#[derive(Debug)]
pub struct CsvData {
    header: Vec<String>,
    data: Vec<String>,
    dims: (usize, usize),
}

impl View for CsvData {
    type V = TableView;

    closed spec fn view(&self) -> TableView {
        TableView {
            header: self.header.deep_view(),
            data: self.data.deep_view(),
            cols: self.dims.0 as nat,
            rows: self.dims.1 as nat,
        }
    }
}

impl CsvData {
    /// An empty table.
    pub fn new() -> (r: CsvData)
        ensures
            r@.header.len() == 0,
            r@.data.len() == 0,
            r@.cols == 0,
            r@.rows == 0,
    {
        CsvData { header: Vec::new(), data: Vec::new(), dims: (0, 0) }
    }

    /// Whether the table has a header.
    pub fn has_headers(&self) -> (r: bool)
        ensures
            r == (self@.header.len() > 0),
    {
        self.header.len() > 0
    }

    /// Whether the table has data fields.
    pub fn has_data(&self) -> (r: bool)
        ensures
            r == (self@.data.len() > 0),
    {
        self.data.len() > 0
    }

    /// The number of cells that the dimensions describe, `columns() * rows()`.
    pub fn len(&self) -> (r: usize)
        requires
            self@.cols * self@.rows <= usize::MAX,
        ensures
            r == self@.cols * self@.rows,
    {
        self.columns() * self.rows()
    }

    /// The column count.
    pub fn columns(&self) -> (r: usize)
        ensures
            r == self@.cols,
    {
        self.dims.0
    }

    /// The row count, the header not included.
    pub fn rows(&self) -> (r: usize)
        ensures
            r == self@.rows,
    {
        self.dims.1
    }

    /// The header fields.
    pub fn get_headers(&self) -> (r: &Vec<String>)
        ensures
            r.deep_view() == self@.header,
    {
        &self.header
    }

    /// The data fields in row-major order.
    pub fn get_data(&self) -> (r: &Vec<String>)
        ensures
            r.deep_view() == self@.data,
    {
        &self.data
    }

    /// Sets the dimensions.
    pub fn set_dims(&mut self, cols: usize, rows: usize)
        ensures
            final(self)@ == (TableView { cols: cols as nat, rows: rows as nat, ..old(self)@ }),
    {
        self.dims = (cols, rows)
    }

    /// Appends the fields of `header`, which is left empty, to the header.
    pub fn set_header(&mut self, header: &mut Vec<String>)
        ensures
            final(self)@ == (TableView {
                header: old(self)@.header + old(header).deep_view(),
                ..old(self)@
            }),
            final(header)@.len() == 0,
    {
        self.header.append(header);
        assert(self.header.deep_view() =~= old(self).header.deep_view() + old(header).deep_view());
    }

    /// Appends the fields of `data`, which is left empty, to the data.
    pub fn set_data(&mut self, data: &mut Vec<String>)
        ensures
            final(self)@ == (TableView { data: old(self)@.data + old(data).deep_view(), ..old(self)@ }),
            final(data)@.len() == 0,
    {
        self.data.append(data);
        assert(self.data.deep_view() =~= old(self).data.deep_view() + old(data).deep_view());
    }
}

/// The verdict on the raw text of one field, read from left to right: the
/// first pair of interior quotes that are not next to each other is an
/// unbalanced quote, the first doubled quote in a field without outer quotes
/// an invalid escape, and a last interior quote without a partner an
/// unbalanced quote.
pub open spec fn field_verdict(s: Seq<char>) -> Result<bool, CsvQuoteValidationError> {
    match pair_fault(s) {
        Some(PairFault::Apart) => Err(CsvQuoteValidationError::InvalidQuoteError),
        Some(PairFault::Unquoted) => Err(CsvQuoteValidationError::InvalidEscapeError),
        None => if interior_quotes(s).len() % 2 == 1 {
            Err(CsvQuoteValidationError::InvalidQuoteError)
        } else {
            Ok(true)
        },
    }
}

/// Checks the quote placement of the raw text of one field.
pub fn validate_field(field: &str) -> (r: Result<bool, CsvQuoteValidationError>)
    ensures
        r == field_verdict(field@),
{
    let cs = chars_of(field);
    match first_pair_fault(&cs) {
        Some(PairFault::Apart) => Err(CsvQuoteValidationError::InvalidQuoteError),
        Some(PairFault::Unquoted) => Err(CsvQuoteValidationError::InvalidEscapeError),
        None => {
            let q = interior_quote_positions(&cs);
            if q.len() % 2 == 1 {
                Err(CsvQuoteValidationError::InvalidQuoteError)
            } else {
                Ok(true)
            }
        },
    }
}

/// The scanner between two characters: whether it is inside quotes, the raw
/// field and the normalised fields of the row being read, the field count of
/// the first row, the number of rows read, whether the header is set, and the
/// header, data fields and data rows accepted so far.
pub struct ReaderState {
    pub inside_quote: bool,
    pub field: Seq<char>,
    pub row: Seq<Seq<char>>,
    pub num_fields: nat,
    pub row_id: nat,
    pub header_done: bool,
    pub header: Seq<Seq<char>>,
    pub data: Seq<Seq<char>>,
    pub data_rows: nat,
}

pub open spec fn reader_start() -> ReaderState {
    ReaderState {
        inside_quote: false,
        field: Seq::empty(),
        row: Seq::empty(),
        num_fields: 0,
        row_id: 0,
        header_done: false,
        header: Seq::empty(),
        data: Seq::empty(),
        data_rows: 0,
    }
}

/// The field being read is complete: it is validated and its normalised
/// text joins the row; while the first row is read, it counts as a column.
pub open spec fn reader_close_field(s: ReaderState) -> Result<ReaderState, ValidationFault> {
    match field_verdict(s.field) {
        Err(e) => Err(
            ValidationFault::Quote {
                subtype: quote_kind(e),
                row: s.row_id + 1,
                col: s.row.len() + 1,
                value: s.field,
            },
        ),
        Ok(_) => Ok(
            ReaderState {
                num_fields: if s.row_id == 0 {
                    s.num_fields + 1
                } else {
                    s.num_fields
                },
                row: s.row.push(normalized(s.field)),
                field: Seq::empty(),
                ..s
            },
        ),
    }
}

/// The row being read is complete: it must have as many fields as the first
/// row; it becomes the header when one is wanted and not set yet, and a data
/// row otherwise.
pub open spec fn reader_close_row(s: ReaderState, want_header: bool) -> Result<
    ReaderState,
    ValidationFault,
> {
    if s.num_fields != s.row.len() {
        Err(
            ValidationFault::Shape {
                row: s.row_id + 1,
                expected: s.num_fields,
                found: s.row.len(),
            },
        )
    } else if want_header && !s.header_done {
        Ok(
            ReaderState {
                header: s.row,
                header_done: true,
                row: Seq::empty(),
                row_id: s.row_id + 1,
                ..s
            },
        )
    } else {
        Ok(
            ReaderState {
                data: s.data + s.row,
                data_rows: s.data_rows + 1,
                row: Seq::empty(),
                row_id: s.row_id + 1,
                ..s
            },
        )
    }
}

/// One character read; `last` tells the last character of the text, which is
/// then also taken as the end of the line. Newlines and carriage returns
/// never join a field, nor does a comma outside quotes. A quote toggles
/// `inside_quote`. Outside quotes a comma or a newline closes the field, and
/// a newline closes the row.
pub open spec fn reader_char(s: ReaderState, c: char, last: bool, want_header: bool) -> Result<
    ReaderState,
    ValidationFault,
> {
    let kept = c != '\n' && c != '\r' && (s.inside_quote || c != ',');
    let t = ReaderState {
        field: if kept {
            s.field.push(c)
        } else {
            s.field
        },
        inside_quote: if c == '"' {
            !s.inside_quote
        } else {
            s.inside_quote
        },
        ..s
    };
    let e = if last {
        '\n'
    } else {
        c
    };
    if t.inside_quote {
        Ok(t)
    } else {
        let fielded = if e == ',' || e == '\n' {
            reader_close_field(t)
        } else {
            Ok(t)
        };
        match fielded {
            Err(f) => Err(f),
            Ok(u) => if e == '\n' {
                reader_close_row(u, want_header)
            } else {
                Ok(u)
            },
        }
    }
}

/// The scanner after the first `k` characters of `cs`, or the first error.
pub open spec fn reader_scan(cs: Seq<char>, k: nat, want_header: bool) -> Result<
    ReaderState,
    ValidationFault,
>
    decreases k,
{
    if k == 0 {
        Ok(reader_start())
    } else {
        match reader_scan(cs, (k - 1) as nat, want_header) {
            Err(e) => Err(e),
            Ok(s) => reader_char(s, cs[k - 1], k == cs.len(), want_header),
        }
    }
}

/// The table read from `text`, or the first error; a text that ends inside
/// quotes is an unterminated quote.
pub open spec fn parse_csv_spec(text: Seq<char>, want_header: bool) -> Result<
    TableView,
    ValidationFault,
> {
    match reader_scan(text, text.len(), want_header) {
        Err(e) => Err(e),
        Ok(s) => if s.inside_quote {
            Err(
                ValidationFault::Quote {
                    subtype: QuoteValidationError::UnterminatedQuoteError,
                    row: s.row_id + 1,
                    col: s.row.len() + 1,
                    value: s.field,
                },
            )
        } else {
            Ok(TableView { header: s.header, data: s.data, cols: s.num_fields, rows: s.data_rows })
        },
    }
}

/// The outcome of a parse is the table, or the error, that the model gives.
pub open spec fn csv_outcome_is(
    r: Result<CsvData, CsvValidationError>,
    m: Result<TableView, ValidationFault>,
) -> bool {
    match (r, m) {
        (Ok(t), Ok(v)) => t@ == v,
        (Err(e), Err(f)) => e@ == f,
        _ => false,
    }
}

spec fn reader_ok(s: ReaderState) -> bool {
    &&& (s.inside_quote ==> s.field.len() > 0)
    &&& (s.row_id == 0 ==> s.num_fields == s.row.len())
    &&& s.data_rows <= s.row_id
}

spec fn reader_weight(s: ReaderState) -> nat {
    s.row_id + s.row.len() + s.field.len()
}

proof fn lemma_reader_char(s: ReaderState, c: char, last: bool, want_header: bool)
    requires
        reader_ok(s),
    ensures
        reader_char(s, c, last, want_header) is Ok ==> reader_ok(
            reader_char(s, c, last, want_header)->Ok_0,
        ) && reader_weight(reader_char(s, c, last, want_header)->Ok_0) <= reader_weight(s) + 1,
{
}

struct ReaderScanner {
    inside_quote: bool,
    field: String,
    row: Vec<String>,
    num_fields: usize,
    row_id: usize,
    header_done: bool,
    table: CsvData,
    data: Vec<String>,
    data_rows: usize,
}

impl ReaderScanner {
    spec fn state(&self) -> ReaderState {
        ReaderState {
            inside_quote: self.inside_quote,
            field: self.field@,
            row: self.row.deep_view(),
            num_fields: self.num_fields as nat,
            row_id: self.row_id as nat,
            header_done: self.header_done,
            header: self.table@.header,
            data: self.data.deep_view(),
            data_rows: self.data_rows as nat,
        }
    }

    spec fn inv(&self) -> bool {
        &&& self.table@.data.len() == 0
        &&& self.table@.cols == 0
        &&& self.table@.rows == 0
        &&& (!self.header_done ==> self.table@.header.len() == 0)
        &&& reader_ok(self.state())
    }

    fn new() -> (r: ReaderScanner)
        ensures
            r.inv(),
            r.state() == reader_start(),
    {
        let r = ReaderScanner {
            inside_quote: false,
            field: String::new(),
            row: Vec::new(),
            num_fields: 0,
            row_id: 0,
            header_done: false,
            table: CsvData::new(),
            data: Vec::new(),
            data_rows: 0,
        };
        assert(r.row.deep_view() =~= Seq::<Seq<char>>::empty());
        assert(r.data.deep_view() =~= Seq::<Seq<char>>::empty());
        assert(r.table@.header =~= Seq::<Seq<char>>::empty());
        r
    }

    fn step(&mut self, c: char, last: bool, want_header: bool) -> (r: Result<
        (),
        CsvValidationError,
    >)
        requires
            old(self).inv(),
            reader_weight(old(self).state()) < usize::MAX,
        ensures
            match reader_char(old(self).state(), c, last, want_header) {
                Ok(t) => r is Ok && final(self).inv() && final(self).state() == t,
                Err(f) => r is Err && r->Err_0@ == f,
            },
    {
        proof {
            lemma_reader_char(self.state(), c, last, want_header);
        }
        if c != '\n' && c != '\r' && (self.inside_quote || c != ',') {
            crate::field::push_char(&mut self.field, c);
        }
        if c == '"' {
            self.inside_quote = !self.inside_quote;
        }
        let e = if last {
            '\n'
        } else {
            c
        };
        if self.inside_quote {
            return Ok(());
        }
        if e == ',' || e == '\n' {
            match validate_field(self.field.as_str()) {
                Err(q) => {
                    return Err(
                        CsvValidationError::QuoteValidationError {
                            subtype: q,
                            row: self.row_id + 1,
                            col: self.row.len() + 1,
                            value: self.field.clone(),
                        },
                    );
                },
                Ok(_) => {
                    if self.row_id == 0 {
                        self.num_fields = self.num_fields + 1;
                    }
                    let f = finalize_field(self.field.as_str());
                    let ghost before = self.row.deep_view();
                    self.row.push(f);
                    assert(self.row.deep_view() =~= before.push(f@));
                    self.field = String::new();
                },
            }
        }
        if e == '\n' {
            if self.num_fields != self.row.len() {
                return Err(
                    CsvValidationError::RowFieldCountMismatchError {
                        row: self.row_id + 1,
                        expected: self.num_fields,
                        found: self.row.len(),
                    },
                );
            }
            if want_header && !self.header_done {
                let ghost fields = self.row.deep_view();
                self.table.set_header(&mut self.row);
                assert(self.table@.header =~= fields);
                self.header_done = true;
            } else {
                let ghost before = self.data.deep_view();
                let ghost fields = self.row.deep_view();
                self.data.append(&mut self.row);
                assert(self.data.deep_view() =~= before + fields);
                self.data_rows = self.data_rows + 1;
            }
            assert(self.row.deep_view() =~= Seq::<Seq<char>>::empty());
            self.row_id = self.row_id + 1;
        }
        Ok(())
    }
}

proof fn lemma_reader_error_stays(cs: Seq<char>, k: nat, want_header: bool)
    requires
        k <= cs.len(),
        reader_scan(cs, k, want_header) is Err,
    ensures
        reader_scan(cs, cs.len(), want_header) == reader_scan(cs, k, want_header),
    decreases cs.len() - k,
{
    if k < cs.len() {
        lemma_reader_error_stays(cs, k + 1, want_header);
    }
}

/// Reads comma-separated text into a table; the first row is the header when
/// `header` is set. The first malformed field or row stops the scan with its
/// error.
pub fn parse_csv(buffer: &str, header: bool) -> (r: Result<CsvData, CsvValidationError>)
    ensures
        csv_outcome_is(r, parse_csv_spec(buffer@, header)),
{
    let text = chars_of(buffer);
    let n = text.len();
    let mut sc = ReaderScanner::new();
    let mut i: usize = 0;
    while i < n
        invariant
            n == text.len() == buffer@.len(),
            text@ == buffer@,
            i <= n,
            sc.inv(),
            reader_scan(buffer@, i as nat, header) == Ok::<ReaderState, ValidationFault>(
                sc.state(),
            ),
            reader_weight(sc.state()) <= i,
        decreases n - i,
    {
        let c = text[i];
        let last = i + 1 == n;
        proof {
            lemma_reader_char(sc.state(), c, last, header);
        }
        match sc.step(c, last, header) {
            Err(e) => {
                proof {
                    lemma_reader_error_stays(buffer@, (i + 1) as nat, header);
                }
                return Err(e);
            },
            Ok(()) => {},
        }
        i = i + 1;
    }
    if sc.inside_quote {
        return Err(
            CsvValidationError::QuoteValidationError {
                subtype: CsvQuoteValidationError::UnterminatedQuoteError,
                row: sc.row_id + 1,
                col: sc.row.len() + 1,
                value: sc.field,
            },
        );
    }
    let mut table = sc.table;
    table.set_dims(sc.num_fields, sc.data_rows);
    let mut data = sc.data;
    table.set_data(&mut data);
    assert(table@.data =~= sc.state().data);
    Ok(table)
}

} // verus!
