//! The comma-separated table of the first generation of the engine: a
//! checked accumulator, its errors, and two scanners (`reader`, with
//! structured errors, and `csv_loader`, which only tells success from failure).
use vstd::prelude::*;
use vstd::string::StringExecFns;
use crate::field::{decimal_string, prefix_string};
use crate::table::data::{fault_message, table_wf, QuoteValidationError, TableView, ValidationFault};

pub mod csv_loader;
pub mod reader;

verus! {

/// A rectangular table of comma-separated values.
#[derive(Debug)]
pub struct CsvData {
    header: Vec<String>,
    data: Vec<String>,
    dims: (usize, usize),
}

impl View for CsvData {
    type V = TableView;

    closed spec fn view(&self) -> TableView {
        TableView {
            header: self.header.deep_view(),
            data: self.data.deep_view(),
            cols: self.dims.0 as nat,
            rows: self.dims.1 as nat,
        }
    }
}

impl CsvData {
    pub open spec fn wf(&self) -> bool {
        table_wf(self@)
    }

    /// An empty table.
    pub fn new() -> (r: CsvData)
        ensures
            r.wf(),
            r@.header.len() == 0,
            r@.data.len() == 0,
            r@.cols == 0,
            r@.rows == 0,
    {
        CsvData { header: Vec::new(), data: Vec::new(), dims: (0, 0) }
    }

    /// Whether the table has a header.
    pub fn has_headers(&self) -> (r: bool)
        ensures
            r == (self@.header.len() > 0),
    {
        self.header.len() > 0
    }

    /// Whether the table has data fields.
    pub fn has_data(&self) -> (r: bool)
        ensures
            r == (self@.data.len() > 0),
    {
        self.data.len() > 0
    }

    /// The number of data fields, `columns() * rows()`.
    pub fn len(&self) -> (r: usize)
        requires
            self.wf(),
        ensures
            r == self@.cols * self@.rows,
    {
        self.data.len()
    }

    /// The column count.
    pub fn columns(&self) -> (r: usize)
        ensures
            r == self@.cols,
    {
        self.dims.0
    }

    /// The row count, the header not included.
    pub fn rows(&self) -> (r: usize)
        ensures
            r == self@.rows,
    {
        self.dims.1
    }

    /// The header fields.
    pub fn get_headers(&self) -> (r: &Vec<String>)
        ensures
            r.deep_view() == self@.header,
    {
        &self.header
    }

    /// The data fields in row-major order.
    pub fn get_data(&self) -> (r: &Vec<String>)
        ensures
            r.deep_view() == self@.data,
    {
        &self.data
    }

    /// Sets the dimensions; they must describe the fields held.
    pub fn set_dims(&mut self, cols: usize, rows: usize)
        requires
            table_wf(TableView { cols: cols as nat, rows: rows as nat, ..old(self)@ }),
        ensures
            final(self)@ == (TableView { cols: cols as nat, rows: rows as nat, ..old(self)@ }),
            final(self).wf(),
    {
        self.dims = (cols, rows)
    }

    /// Replaces the header by the fields of `header`, which is left empty. The
    /// header fixes the column count when none is set yet; otherwise it must
    /// match it.
    pub fn set_header(&mut self, header: &mut Vec<String>)
        requires
            old(self).wf(),
            old(self)@.cols == 0 || old(header)@.len() == old(self)@.cols,
        ensures
            final(self).wf(),
            final(self)@.header == old(header).deep_view(),
            final(self)@.data == old(self)@.data,
            final(self)@.cols == old(header)@.len(),
            final(self)@.rows == old(self)@.rows,
            final(header)@.len() == 0,
    {
        self.header.clear();
        self.header.append(header);
        let rows = self.dims.1;
        let cols = self.header.len();
        assert(self.header.deep_view() =~= old(header).deep_view());
        proof {
            let oc = old(self)@.cols as int;
            let r = rows as int;
            let h = cols as int;
            if oc == 0 {
                assert(r == 0);
                assert(h * r == 0) by (nonlinear_arith)
                    requires
                        r == 0,
                ;
                assert(oc * r == 0) by (nonlinear_arith)
                    requires
                        r == 0,
                ;
            }
        }
        self.dims = (cols, rows);
    }

    /// Appends the fields of `data`, which is left empty, as whole rows of
    /// `cols` fields. The first rows fix the column count; later ones must
    /// match it.
    pub fn set_data(&mut self, data: &mut Vec<String>, cols: usize)
        requires
            old(self).wf(),
            cols > 0,
            old(self)@.cols == 0 || cols == old(self)@.cols,
            old(data)@.len() % (cols as nat) == 0,
        ensures
            final(self).wf(),
            final(self)@.header == old(self)@.header,
            final(self)@.data == old(self)@.data + old(data).deep_view(),
            final(self)@.cols == cols,
            final(self)@.rows == old(self)@.rows + old(data)@.len() / (cols as nat),
            final(data)@.len() == 0,
    {
        let ghost old_rows = self@.rows as int;
        let ghost old_len = self@.data.len() as int;
        let ghost dl = data@.len() as int;
        let ghost added = dl / (cols as int);
        self.data.append(data);
        let rows = self.data.len() / cols;
        proof {
            let c = cols as int;
            assert(old_len == old_rows * c) by {
                let oc = old(self)@.cols as int;
                assert(old_len == oc * old_rows);
                if oc == 0 {
                    assert(old_rows == 0);
                    assert(old_len == 0) by (nonlinear_arith)
                        requires
                            old_len == oc * old_rows,
                            oc == 0,
                    ;
                } else {
                    assert(old_len == old_rows * c) by (nonlinear_arith)
                        requires
                            old_len == oc * old_rows,
                            oc == c,
                    ;
                }
            }
            assert(dl == added * c) by (nonlinear_arith)
                requires
                    dl % c == 0,
                    added == dl / c,
                    c > 0,
            ;
            assert(old_len + dl == (old_rows + added) * c) by (nonlinear_arith)
                requires
                    old_len == old_rows * c,
                    dl == added * c,
            ;
            vstd::arithmetic::div_mod::lemma_div_multiples_vanish(old_rows + added, c);
            assert((old_rows + added) * c == c * (old_rows + added)) by (nonlinear_arith);
        }
        self.dims = (cols, rows);
        assert(self.data.deep_view() =~= old(self).data.deep_view() + old(data).deep_view());
        proof {
            let c = cols as int;
            assert(self@.data.len() == c * self@.rows) by (nonlinear_arith)
                requires
                    self@.data.len() == (old_rows + added) * c,
                    self@.rows == old_rows + added,
            ;
        }
    }
}

/// The subtype of a quote error.
#[derive(Debug, PartialEq, Eq, Structural, Clone, Copy)]
pub enum CsvQuoteValidationError {
    /// A lone quote inside a field, or an odd number of them.
    InvalidQuoteError,
    /// A doubled quote in a field that has no outer quotes.
    InvalidEscapeError,
    /// The text ends inside a quoted field.
    UnterminatedQuoteError,
}

/// The same subtype in the table engine's terms.
pub open spec fn quote_kind(e: CsvQuoteValidationError) -> QuoteValidationError {
    match e {
        CsvQuoteValidationError::InvalidQuoteError => QuoteValidationError::InvalidQuoteError,
        CsvQuoteValidationError::InvalidEscapeError => QuoteValidationError::InvalidEscapeError,
        CsvQuoteValidationError::UnterminatedQuoteError => QuoteValidationError::UnterminatedQuoteError,
    }
}

impl CsvQuoteValidationError {
    /// The message of the subtype.
    pub fn message(&self) -> (r: &'static str)
        ensures
            r@ == crate::table::data::quote_message(quote_kind(*self)),
    {
        match self {
            CsvQuoteValidationError::InvalidQuoteError => "Unbalanced quote error",
            CsvQuoteValidationError::InvalidEscapeError => "Unquoted field with escaped quote error",
            CsvQuoteValidationError::UnterminatedQuoteError => "Unterminated outer quote error",
        }
    }
}

/// A validation error of a comma-separated text. Rows and columns count from one.
#[derive(Debug, PartialEq)]
pub enum CsvValidationError {
    /// A field breaks the quoting rules; `value` is its raw text.
    QuoteValidationError { subtype: CsvQuoteValidationError, row: usize, col: usize, value: String },
    /// A row does not have as many fields as the first row.
    RowFieldCountMismatchError { row: usize, expected: usize, found: usize },
}

impl View for CsvValidationError {
    type V = ValidationFault;

    open spec fn view(&self) -> ValidationFault {
        match self {
            CsvValidationError::QuoteValidationError { subtype, row, col, value } => {
                ValidationFault::Quote {
                    subtype: quote_kind(*subtype),
                    row: *row as nat,
                    col: *col as nat,
                    value: value@,
                }
            },
            CsvValidationError::RowFieldCountMismatchError { row, expected, found } => {
                ValidationFault::Shape {
                    row: *row as nat,
                    expected: *expected as nat,
                    found: *found as nat,
                }
            },
        }
    }
}

impl CsvValidationError {
    /// The message shown to the user; a quote error shows at most the first
    /// 64 characters of the field.
    pub fn message(&self) -> (r: String)
        ensures
            r@ == fault_message(self@),
    {
        match self {
            CsvValidationError::QuoteValidationError { subtype, row, col, value } => {
                let mut s = String::from_str("At row ");
                s.append(decimal_string(*row).as_str());
                s.append(". ");
                s.append(subtype.message());
                s.append(" in column: ");
                s.append(decimal_string(*col).as_str());
                s.append(", value: ");
                s.append(prefix_string(value.as_str(), 64).as_str());
                s
            },
            CsvValidationError::RowFieldCountMismatchError { row, expected, found } => {
                let mut s = String::from_str("At row ");
                s.append(decimal_string(*row).as_str());
                s.append(". Field count mismatch. Expected: ");
                s.append(decimal_string(*expected).as_str());
                s.append(", Found: ");
                s.append(decimal_string(*found).as_str());
                s
            },
        }
    }
}

} // verus!
