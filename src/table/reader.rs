//! The scanner of the table engine: one left-to-right pass over the text that
//! splits fields and rows, validates and normalises each field, checks the
//! shape of each row and fills a [`TableData`].
use vstd::prelude::*;
use crate::field::{
    chars_of, first_pair_fault, interior_quote_positions, interior_quotes, normalized, pair_fault,
    PairFault,
};
use crate::table::data::{
    QuoteValidationError, TableData, TableDataValidationError, TableView, ValidationFault,
};

verus! {

pub use crate::field::{finalize_field, has_outer_quotes};

/// The verdict on the raw text of one field: an odd number of interior quotes,
/// or a pair of them that are not next to each other, is an unbalanced quote;
/// a doubled quote in a field without outer quotes is an invalid escape.
pub open spec fn field_verdict(s: Seq<char>) -> Result<bool, QuoteValidationError> {
    if interior_quotes(s).len() % 2 == 1 {
        Err(QuoteValidationError::InvalidQuoteError)
    } else {
        match pair_fault(s) {
            Some(PairFault::Apart) => Err(QuoteValidationError::InvalidQuoteError),
            Some(PairFault::Unquoted) => Err(QuoteValidationError::InvalidEscapeError),
            None => Ok(true),
        }
    }
}

/// Checks the quote placement of the raw text of one field.
pub fn validate_field(field: &str) -> (r: Result<bool, QuoteValidationError>)
    ensures
        r == field_verdict(field@),
{
    let cs = chars_of(field);
    let q = interior_quote_positions(&cs);
    if q.len() % 2 == 1 {
        return Err(QuoteValidationError::InvalidQuoteError);
    }
    match first_pair_fault(&cs) {
        Some(PairFault::Apart) => Err(QuoteValidationError::InvalidQuoteError),
        Some(PairFault::Unquoted) => Err(QuoteValidationError::InvalidEscapeError),
        None => Ok(true),
    }
}

/// The scanner between two characters: whether it is inside quotes, the raw
/// field being read, the normalised fields of the row being read, the field
/// count of the last accepted row, the number of data rows accepted, the last
/// character read, and the header and data accepted so far.
pub struct ScanState {
    pub inside_quote: bool,
    pub field: Seq<char>,
    pub row: Seq<Seq<char>>,
    pub prev_fields: nat,
    pub rows: nat,
    pub prev_char: char,
    pub header: Seq<Seq<char>>,
    pub data: Seq<Seq<char>>,
}

/// The scanner before the first character.
pub open spec fn scan_start() -> ScanState {
    ScanState {
        inside_quote: false,
        field: Seq::empty(),
        row: Seq::empty(),
        prev_fields: 0,
        rows: 0,
        prev_char: '\0',
        header: Seq::empty(),
        data: Seq::empty(),
    }
}

/// The field being read is complete: it is validated, then its normalised
/// text joins the row.
pub open spec fn close_field(s: ScanState) -> Result<ScanState, ValidationFault> {
    match field_verdict(s.field) {
        Err(e) => Err(
            ValidationFault::Quote {
                subtype: e,
                row: s.rows + 1,
                col: s.row.len() + 1,
                value: s.field,
            },
        ),
        Ok(_) => Ok(ScanState { row: s.row.push(normalized(s.field)), field: Seq::empty(), ..s }),
    }
}

/// The row being read is complete: its field count must equal that of the
/// row before it, if any; it becomes the header when one is wanted and none
/// is set yet, and a data row otherwise.
pub open spec fn close_row(s: ScanState, want_header: bool) -> Result<ScanState, ValidationFault> {
    if s.prev_fields > 0 && s.row.len() != s.prev_fields {
        Err(
            ValidationFault::Shape {
                row: s.rows + 1,
                expected: s.prev_fields,
                found: s.row.len(),
            },
        )
    } else if want_header && s.header.len() == 0 {
        Ok(ScanState { prev_fields: s.row.len(), header: s.row, row: Seq::empty(), ..s })
    } else {
        Ok(
            ScanState {
                prev_fields: s.row.len(),
                data: s.data + s.row,
                rows: s.rows + 1,
                row: Seq::empty(),
                ..s
            },
        )
    }
}

/// One character read. A carriage return is dropped, and so is a newline
/// right after a newline. A quote toggles `inside_quote`. The character joins
/// the field unless it is a newline, or the delimiter outside quotes. Outside
/// quotes, the delimiter, or a newline after a non-empty field, closes the
/// field, and a newline closes a non-empty row.
pub open spec fn scan_char(s: ScanState, c: char, delim: char, want_header: bool) -> Result<
    ScanState,
    ValidationFault,
> {
    if c == '\r' || (c == '\n' && s.prev_char == '\n') {
        Ok(s)
    } else {
        let kept = (c != '\n' && c != delim) || (s.inside_quote && c == delim);
        let t = ScanState {
            field: if kept {
                s.field.push(c)
            } else {
                s.field
            },
            inside_quote: if c == '"' {
                !s.inside_quote
            } else {
                s.inside_quote
            },
            prev_char: c,
            ..s
        };
        if t.inside_quote {
            Ok(t)
        } else {
            let fielded = if (c == '\n' && t.field.len() > 0) || c == delim {
                close_field(t)
            } else {
                Ok(t)
            };
            match fielded {
                Err(e) => Err(e),
                Ok(u) => if c == '\n' && u.row.len() > 0 {
                    close_row(u, want_header)
                } else {
                    Ok(u)
                },
            }
        }
    }
}

/// The scanner after reading `cs` from the start, or the first error.
pub open spec fn scan_text(cs: Seq<char>, delim: char, want_header: bool) -> Result<
    ScanState,
    ValidationFault,
>
    decreases cs.len(),
{
    if cs.len() == 0 {
        Ok(scan_start())
    } else {
        match scan_text(cs.drop_last(), delim, want_header) {
            Err(e) => Err(e),
            Ok(s) => scan_char(s, cs.last(), delim, want_header),
        }
    }
}

/// The table read from `text`: the text is scanned with one newline appended,
/// so that a last line without one is still a row; a text that ends inside
/// quotes is an unterminated quote.
pub open spec fn parse_values_spec(text: Seq<char>, delim: char, want_header: bool) -> Result<
    TableView,
    ValidationFault,
> {
    match scan_text(text.push('\n'), delim, want_header) {
        Err(e) => Err(e),
        Ok(s) => if s.inside_quote {
            Err(
                ValidationFault::Quote {
                    subtype: QuoteValidationError::UnterminatedQuoteError,
                    row: s.rows + 1,
                    col: s.row.len() + 1,
                    value: s.field,
                },
            )
        } else {
            Ok(TableView { header: s.header, data: s.data, cols: s.prev_fields, rows: s.rows })
        },
    }
}

/// The outcome of a parse is the table, or the error, that the model gives.
pub open spec fn outcome_is(
    r: Result<TableData, TableDataValidationError>,
    m: Result<TableView, ValidationFault>,
) -> bool {
    match (r, m) {
        (Ok(t), Ok(v)) => t@ == v && t.wf(),
        (Err(e), Err(f)) => e@ == f,
        _ => false,
    }
}

/// A bound on the counters: each character read raises it by one at most.
pub open spec fn scan_weight(s: ScanState) -> nat {
    s.rows + s.row.len() + if s.inside_quote || s.field.len() > 0 {
        1nat
    } else {
        0nat
    }
}

/// With a newline delimiter, a scanner that is outside quotes with an empty
/// field after a character other than a newline has read nothing yet.
pub open spec fn newline_guard(s: ScanState, delim: char) -> bool {
    (delim == '\n' && s.prev_char != '\n' && !s.inside_quote && s.field.len() == 0) ==> scan_weight(s)
        == 0
}

proof fn lemma_scan_char_weight(s: ScanState, c: char, delim: char, want_header: bool)
    requires
        newline_guard(s, delim),
    ensures
        scan_char(s, c, delim, want_header) is Ok ==> scan_weight(
            scan_char(s, c, delim, want_header)->Ok_0,
        ) <= scan_weight(s) + 1,
        scan_char(s, c, delim, want_header) is Ok ==> newline_guard(
            scan_char(s, c, delim, want_header)->Ok_0,
            delim,
        ),
        s.inside_quote && c != '"' ==> scan_char(s, c, delim, want_header) is Ok && scan_weight(
            scan_char(s, c, delim, want_header)->Ok_0,
        ) == scan_weight(s) && scan_char(s, c, delim, want_header)->Ok_0.inside_quote,
{
}

struct Scanner {
    inside_quote: bool,
    field: String,
    row: Vec<String>,
    prev_fields: usize,
    rows: usize,
    prev_char: char,
    table: TableData,
}

impl Scanner {
    spec fn state(&self) -> ScanState {
        ScanState {
            inside_quote: self.inside_quote,
            field: self.field@,
            row: self.row.deep_view(),
            prev_fields: self.prev_fields as nat,
            rows: self.rows as nat,
            prev_char: self.prev_char,
            header: self.table@.header,
            data: self.table@.data,
        }
    }

    spec fn inv(&self) -> bool {
        &&& self.table.wf()
        &&& self.table@.cols == self.prev_fields
        &&& self.table@.rows == self.rows
    }

    fn new() -> (r: Scanner)
        ensures
            r.inv(),
            r.state() == scan_start(),
    {
        let r = Scanner {
            inside_quote: false,
            field: String::new(),
            row: Vec::new(),
            prev_fields: 0,
            rows: 0,
            prev_char: '\0',
            table: TableData::new(),
        };
        assert(r.row.deep_view() =~= Seq::<Seq<char>>::empty());
        assert(r.table@.header =~= Seq::<Seq<char>>::empty());
        assert(r.table@.data =~= Seq::<Seq<char>>::empty());
        r
    }

    fn step(&mut self, c: char, delim: char, want_header: bool) -> (r: Result<
        (),
        TableDataValidationError,
    >)
        requires
            old(self).inv(),
            newline_guard(old(self).state(), delim),
            scan_weight(old(self).state()) <= usize::MAX,
            scan_weight(old(self).state()) < usize::MAX || c == '\n',
        ensures
            match scan_char(old(self).state(), c, delim, want_header) {
                Ok(t) => r is Ok && final(self).inv() && final(self).state() == t,
                Err(f) => r is Err && r->Err_0@ == f,
            },
    {
        if c == '\r' || (c == '\n' && self.prev_char == '\n') {
            return Ok(());
        }
        if (c != '\n' && c != delim) || (self.inside_quote && c == delim) {
            crate::field::push_char(&mut self.field, c);
        }
        if c == '"' {
            self.inside_quote = !self.inside_quote;
        }
        self.prev_char = c;
        if self.inside_quote {
            return Ok(());
        }
        if (c == '\n' && !self.field.as_str().is_empty()) || c == delim {
            match validate_field(self.field.as_str()) {
                Err(e) => {
                    return Err(
                        TableDataValidationError::QuoteValidationError {
                            subtype: e,
                            row: self.rows + 1,
                            col: self.row.len() + 1,
                            value: self.field.clone(),
                        },
                    );
                },
                Ok(_) => {
                    let f = finalize_field(self.field.as_str());
                    let ghost before = self.row.deep_view();
                    self.row.push(f);
                    assert(self.row.deep_view() =~= before.push(f@));
                    self.field = String::new();
                },
            }
        }
        if c == '\n' && self.row.len() > 0 {
            if self.prev_fields > 0 && self.row.len() != self.prev_fields {
                return Err(
                    TableDataValidationError::RowFieldCountMismatchError {
                        row: self.rows + 1,
                        expected: self.prev_fields,
                        found: self.row.len(),
                    },
                );
            }
            self.prev_fields = self.row.len();
            let ghost fields = self.row.deep_view();
            if want_header && !self.table.has_headers() {
                self.table.set_header(&mut self.row);
            } else {
                proof {
                    vstd::arithmetic::div_mod::lemma_mod_self_0(self.prev_fields as int);
                    vstd::arithmetic::div_mod::lemma_div_by_self(self.prev_fields as int);
                }
                self.table.set_data(&mut self.row, self.prev_fields);
                self.rows = self.rows + 1;
            }
            assert(self.row.deep_view() =~= Seq::<Seq<char>>::empty());
        }
        Ok(())
    }
}

proof fn lemma_scan_text_error_stays(
    cs: Seq<char>,
    k: int,
    delim: char,
    want_header: bool,
)
    requires
        0 <= k <= cs.len(),
        scan_text(cs.subrange(0, k), delim, want_header) is Err,
    ensures
        scan_text(cs, delim, want_header) == scan_text(cs.subrange(0, k), delim, want_header),
    decreases cs.len() - k,
{
    if k < cs.len() {
        let next = cs.subrange(0, k + 1);
        assert(next.drop_last() == cs.subrange(0, k));
        lemma_scan_text_error_stays(cs, k + 1, delim, want_header);
    } else {
        assert(cs.subrange(0, k) == cs);
    }
}

/// Reads delimiter-separated text into a table. A carriage return is
/// ignored; quotes make delimiters inside a field plain content, and a
/// newline inside quotes is dropped; the first row is the header when
/// `header` is set. Blank lines are skipped: a newline right after a newline
/// is dropped. Fields are read character by character, never by byte. The
/// first malformed field or row stops the scan with its error, and no table
/// is returned.
pub fn parse_values(buffer: &str, delimiter: char, header: bool) -> (r: Result<
    TableData,
    TableDataValidationError,
>)
    ensures
        outcome_is(r, parse_values_spec(buffer@, delimiter, header)),
{
    let text = chars_of(buffer);
    let n = text.len();
    let ghost full = buffer@.push('\n');
    let mut sc = Scanner::new();
    let mut i: usize = 0;
    assert(full.subrange(0, 0) =~= Seq::<char>::empty());
    while i < n
        invariant
            n == text.len() == buffer@.len(),
            text@ == buffer@,
            full == buffer@.push('\n'),
            i <= n,
            sc.inv(),
            scan_text(full.subrange(0, i as int), delimiter, header) == Ok::<
                ScanState,
                ValidationFault,
            >(sc.state()),
            scan_weight(sc.state()) <= i,
            newline_guard(sc.state(), delimiter),
        decreases n - i,
    {
        let c = text[i];
        let ghost prefix = full.subrange(0, i + 1);
        assert(prefix.drop_last() == full.subrange(0, i as int));
        assert(prefix.last() == c);
        proof {
            lemma_scan_char_weight(sc.state(), c, delimiter, header);
        }
        match sc.step(c, delimiter, header) {
            Err(e) => {
                proof {
                    lemma_scan_text_error_stays(full, i + 1, delimiter, header);
                }
                return Err(e);
            },
            Ok(()) => {},
        }
        i = i + 1;
    }
    // the newline that ends the last line
    assert(full.drop_last() == full.subrange(0, n as int));
    assert(full.last() == '\n');
    proof {
        lemma_scan_char_weight(sc.state(), '\n', delimiter, header);
    }
    match sc.step('\n', delimiter, header) {
        Err(e) => {
            return Err(e);
        },
        Ok(()) => {},
    }
    if sc.inside_quote {
        return Err(
            TableDataValidationError::QuoteValidationError {
                subtype: QuoteValidationError::UnterminatedQuoteError,
                row: sc.rows + 1,
                col: sc.row.len() + 1,
                value: sc.field,
            },
        );
    }
    Ok(sc.table)
}

/// Whether `s` ends with the three characters `a`, `b`, `c`.
pub open spec fn ends_with3(s: Seq<char>, a: char, b: char, c: char) -> bool {
    s.len() >= 3 && s.subrange(s.len() - 3, s.len() as int) == seq![a, b, c]
}

/// The delimiter that a file name calls for: a comma for a name ending in
/// `csv`, a tab for one ending in `tsv` or `txt`, and none otherwise.
pub open spec fn delimiter_for(name: Seq<char>) -> Option<char> {
    if ends_with3(name, 'c', 's', 'v') {
        Some(',')
    } else if ends_with3(name, 't', 's', 'v') || ends_with3(name, 't', 'x', 't') {
        Some('\t')
    } else {
        None
    }
}

fn ends_with3_exec(cs: &Vec<char>, a: char, b: char, c: char) -> (r: bool)
    ensures
        r == ends_with3(cs@, a, b, c),
{
    let n = cs.len();
    if n < 3 {
        return false;
    }
    let r = cs[n - 3] == a && cs[n - 2] == b && cs[n - 1] == c;
    let ghost tail = cs@.subrange(n - 3, n as int);
    if r {
        assert(tail =~= seq![a, b, c]);
    } else {
        assert(tail[0] != a || tail[1] != b || tail[2] != c);
    }
    r
}

/// The delimiter for the file `filename`, by its extension.
pub fn delimiter_for_file(filename: &str) -> (r: Option<char>)
    ensures
        r == delimiter_for(filename@),
{
    let cs = chars_of(filename);
    if ends_with3_exec(&cs, 'c', 's', 'v') {
        Some(',')
    } else if ends_with3_exec(&cs, 't', 's', 'v') || ends_with3_exec(&cs, 't', 'x', 't') {
        Some('\t')
    } else {
        None
    }
}

} // verus!
