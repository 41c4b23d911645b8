//! The table accumulator and the errors of the table engine.
use vstd::prelude::*;
use vstd::string::StringExecFns;
use crate::field::{decimal, decimal_string, prefix_string, truncated};

verus! {

/// A rectangular table: an optional header and the data fields in row-major order.
#[derive(Debug)]
pub struct TableData {
    header: Vec<String>,
    data: Vec<String>,
    dims: (usize, usize),
}

/// What a table holds: its header, its data fields row after row, and its dimensions.
pub struct TableView {
    pub header: Seq<Seq<char>>,
    pub data: Seq<Seq<char>>,
    pub cols: nat,
    pub rows: nat,
}

impl View for TableData {
    type V = TableView;

    closed spec fn view(&self) -> TableView {
        TableView {
            header: self.header.deep_view(),
            data: self.data.deep_view(),
            cols: self.dims.0 as nat,
            rows: self.dims.1 as nat,
        }
    }
}

/// The table is rectangular: `cols * rows` data fields, and a header, when
/// there is one, as wide as the rows.
pub open spec fn table_wf(t: TableView) -> bool {
    &&& t.data.len() == t.cols * t.rows
    &&& (t.header.len() == 0 || t.header.len() == t.cols)
    &&& (t.cols == 0 ==> t.rows == 0)
}

impl TableData {
    pub open spec fn wf(&self) -> bool {
        table_wf(self@)
    }

    /// An empty table, with no header, no data and no columns.
    pub fn new() -> (r: TableData)
        ensures
            r.wf(),
            r@.header.len() == 0,
            r@.data.len() == 0,
            r@.cols == 0,
            r@.rows == 0,
    {
        TableData { header: Vec::new(), data: Vec::new(), dims: (0, 0) }
    }

    fn set_dims(&mut self, cols: usize, rows: usize)
        ensures
            final(self).header == old(self).header,
            final(self).data == old(self).data,
            final(self).dims == (cols, rows),
    {
        self.dims = (cols, rows)
    }

    /// Replaces the header by the fields of `header`, which is left empty. The
    /// header fixes the column count when none is set yet; otherwise it must
    /// match it.
    pub fn set_header(&mut self, header: &mut Vec<String>)
        requires
            old(self).wf(),
            old(self)@.cols == 0 || old(header)@.len() == old(self)@.cols,
        ensures
            final(self).wf(),
            final(self)@.header == old(header).deep_view(),
            final(self)@.data == old(self)@.data,
            final(self)@.cols == old(header)@.len(),
            final(self)@.rows == old(self)@.rows,
            final(header)@.len() == 0,
    {
        self.header.clear();
        self.header.append(header);
        let rows = self.rows();
        let cols = self.header.len();
        self.set_dims(cols, rows);
        assert(self.header.deep_view() =~= old(header).deep_view());
        proof {
            let oc = old(self)@.cols as int;
            let r = rows as int;
            let h = cols as int;
            if oc == 0 {
                assert(r == 0);
                assert(h * r == 0) by (nonlinear_arith)
                    requires
                        r == 0,
                ;
                assert(oc * r == 0) by (nonlinear_arith)
                    requires
                        r == 0,
                ;
            }
        }
    }

    /// Appends the fields of `data`, which is left empty, as whole rows of
    /// `cols` fields. The first rows fix the column count; later ones must
    /// match it.
    pub fn set_data(&mut self, data: &mut Vec<String>, cols: usize)
        requires
            old(self).wf(),
            cols > 0,
            old(self)@.cols == 0 || cols == old(self)@.cols,
            old(data)@.len() % (cols as nat) == 0,
        ensures
            final(self).wf(),
            final(self)@.header == old(self)@.header,
            final(self)@.data == old(self)@.data + old(data).deep_view(),
            final(self)@.cols == cols,
            final(self)@.rows == old(self)@.rows + old(data)@.len() / (cols as nat),
            final(data)@.len() == 0,
    {
        let ghost old_rows = self@.rows as int;
        let ghost old_len = self@.data.len() as int;
        let ghost dl = data@.len() as int;
        let ghost added = dl / (cols as int);
        self.data.append(data);
        let rows = self.data.len() / cols;
        proof {
            let c = cols as int;
            assert(old_len == old_rows * c) by {
                let oc = old(self)@.cols as int;
                assert(old_len == oc * old_rows);
                if oc == 0 {
                    assert(old_rows == 0);
                    assert(old_len == 0) by (nonlinear_arith)
                        requires
                            old_len == oc * old_rows,
                            oc == 0,
                    ;
                } else {
                    assert(oc == c);
                    assert(old_len == old_rows * c) by (nonlinear_arith)
                        requires
                            old_len == oc * old_rows,
                            oc == c,
                    ;
                }
            }
            assert(dl == added * c) by (nonlinear_arith)
                requires
                    dl % c == 0,
                    added == dl / c,
                    c > 0,
            ;
            assert(old_len + dl == (old_rows + added) * c) by (nonlinear_arith)
                requires
                    old_len == old_rows * c,
                    dl == added * c,
            ;
            vstd::arithmetic::div_mod::lemma_div_multiples_vanish(old_rows + added, c);
            assert((old_rows + added) * c == c * (old_rows + added)) by (nonlinear_arith);
        }
        self.set_dims(cols, rows);
        assert(self.data.deep_view() =~= old(self).data.deep_view() + old(data).deep_view());
        proof {
            let c = cols as int;
            assert(self@.data.len() == c * self@.rows) by (nonlinear_arith)
                requires
                    self@.data.len() == (old_rows + added) * c,
                    self@.rows == old_rows + added,
            ;
        }
    }

    /// Whether the table has a header.
    pub fn has_headers(&self) -> (r: bool)
        ensures
            r == (self@.header.len() > 0),
    {
        self.header.len() > 0
    }

    /// Whether the table has data fields.
    pub fn has_data(&self) -> (r: bool)
        ensures
            r == (self@.data.len() > 0),
    {
        self.data.len() > 0
    }

    /// The number of data fields, `columns() * rows()`.
    pub fn len(&self) -> (r: usize)
        requires
            self.wf(),
        ensures
            r == self@.cols * self@.rows,
            r == self@.data.len(),
    {
        self.data.len()
    }

    /// The column count.
    pub fn columns(&self) -> (r: usize)
        ensures
            r == self@.cols,
    {
        self.dims.0
    }

    /// The row count, the header not included.
    pub fn rows(&self) -> (r: usize)
        ensures
            r == self@.rows,
    {
        self.dims.1
    }

    /// The header fields.
    pub fn header(&self) -> (r: &Vec<String>)
        ensures
            r.deep_view() == self@.header,
    {
        &self.header
    }

    /// The data fields in row-major order.
    pub fn data(&self) -> (r: &Vec<String>)
        ensures
            r.deep_view() == self@.data,
    {
        &self.data
    }
}

/// The subtype of a quote error.
#[derive(Debug, PartialEq, Eq, Structural, Clone, Copy)]
pub enum QuoteValidationError {
    /// A doubled quote in a field that has no outer quotes.
    InvalidEscapeError,
    /// A lone quote inside a field, or an odd number of them.
    InvalidQuoteError,
    /// The text ends inside a quoted field.
    UnterminatedQuoteError,
}

/// The message of each quote error subtype.
pub open spec fn quote_message(e: QuoteValidationError) -> Seq<char> {
    match e {
        QuoteValidationError::InvalidEscapeError => "Unquoted field with escaped quote error"@,
        QuoteValidationError::InvalidQuoteError => "Unbalanced quote error"@,
        QuoteValidationError::UnterminatedQuoteError => "Unterminated outer quote error"@,
    }
}

impl QuoteValidationError {
    /// The message of the subtype.
    pub fn message(&self) -> (r: &'static str)
        ensures
            r@ == quote_message(*self),
    {
        match self {
            QuoteValidationError::InvalidEscapeError => "Unquoted field with escaped quote error",
            QuoteValidationError::InvalidQuoteError => "Unbalanced quote error",
            QuoteValidationError::UnterminatedQuoteError => "Unterminated outer quote error",
        }
    }
}

/// A validation error of the table engine. Rows and columns count from one.
#[derive(Debug, PartialEq)]
pub enum TableDataValidationError {
    /// A field breaks the quoting rules; `value` is its raw text.
    QuoteValidationError { subtype: QuoteValidationError, row: usize, col: usize, value: String },
    /// A row does not have as many fields as the row before it.
    RowFieldCountMismatchError { row: usize, expected: usize, found: usize },
}

/// A validation error as values.
pub enum ValidationFault {
    Quote { subtype: QuoteValidationError, row: nat, col: nat, value: Seq<char> },
    Shape { row: nat, expected: nat, found: nat },
}

impl View for TableDataValidationError {
    type V = ValidationFault;

    open spec fn view(&self) -> ValidationFault {
        match self {
            TableDataValidationError::QuoteValidationError { subtype, row, col, value } => {
                ValidationFault::Quote {
                    subtype: *subtype,
                    row: *row as nat,
                    col: *col as nat,
                    value: value@,
                }
            },
            TableDataValidationError::RowFieldCountMismatchError { row, expected, found } => {
                ValidationFault::Shape {
                    row: *row as nat,
                    expected: *expected as nat,
                    found: *found as nat,
                }
            },
        }
    }
}

/// The message of a validation error; a quote error shows at most the first
/// 64 characters of the field.
pub open spec fn fault_message(e: ValidationFault) -> Seq<char> {
    match e {
        ValidationFault::Quote { subtype, row, col, value } => "At row "@ + decimal(row) + ". "@
            + quote_message(subtype) + " in column: "@ + decimal(col) + ", value: "@ + truncated(
            value,
            64,
        ),
        ValidationFault::Shape { row, expected, found } => "At row "@ + decimal(row)
            + ". Field count mismatch. Expected: "@ + decimal(expected) + ", Found: "@ + decimal(
            found,
        ),
    }
}

impl TableDataValidationError {
    /// The message shown to the user.
    pub fn message(&self) -> (r: String)
        ensures
            r@ == fault_message(self@),
    {
        match self {
            TableDataValidationError::QuoteValidationError { subtype, row, col, value } => {
                let mut s = String::from_str("At row ");
                s.append(decimal_string(*row).as_str());
                s.append(". ");
                s.append(subtype.message());
                s.append(" in column: ");
                s.append(decimal_string(*col).as_str());
                s.append(", value: ");
                s.append(prefix_string(value.as_str(), 64).as_str());
                s
            },
            TableDataValidationError::RowFieldCountMismatchError { row, expected, found } => {
                let mut s = String::from_str("At row ");
                s.append(decimal_string(*row).as_str());
                s.append(". Field count mismatch. Expected: ");
                s.append(decimal_string(*expected).as_str());
                s.append(", Found: ");
                s.append(decimal_string(*found).as_str());
                s
            },
        }
    }
}

} // verus!
