//! The earliest scanner: it keeps the rows apart and only tells a readable
//! text from a malformed one. Commas never join a field, even inside quotes.
use vstd::prelude::*;
use crate::field::{chars_of, first_pair_fault, interior_quote_positions, interior_quotes, is_outer_quoted, normalized, pair_fault};

verus! {

pub use crate::field::{finalize_field, has_outer_quotes};

/// A header and the rows of a comma-separated text.
#[derive(Debug)]
pub struct CsvData {
    pub header: Vec<String>,
    pub data: Vec<Vec<String>>,
}

/// What such a table holds: the header fields, and the fields of each row.
pub struct RowsView {
    pub header: Seq<Seq<char>>,
    pub data: Seq<Seq<Seq<char>>>,
}

impl View for CsvData {
    type V = RowsView;

    open spec fn view(&self) -> RowsView {
        RowsView { header: self.header.deep_view(), data: self.data.deep_view() }
    }
}

impl CsvData {
    /// An empty table.
    pub fn new() -> (r: CsvData)
        ensures
            r@.header.len() == 0,
            r@.data.len() == 0,
    {
        CsvData { header: Vec::new(), data: Vec::new() }
    }
}

/// A field is valid when it has no interior quote, or when it has outer
/// quotes and its interior quotes come in doubled pairs.
pub open spec fn field_is_valid(s: Seq<char>) -> bool {
    interior_quotes(s).len() == 0 || (is_outer_quoted(s) && interior_quotes(s).len() % 2 == 0
        && pair_fault(s) is None)
}

/// Checks the quote placement of the raw text of one field.
pub fn validate_field(field: &str) -> (r: bool)
    ensures
        r == field_is_valid(field@),
{
    let cs = chars_of(field);
    let q = interior_quote_positions(&cs);
    if q.len() == 0 {
        return true;
    }
    let n = cs.len();
    let outer = n >= 2 && cs[0] == '"' && cs[n - 1] == '"';
    outer && q.len() % 2 == 0 && first_pair_fault(&cs).is_none()
}

/// The scanner between two characters: whether it is inside quotes, the raw
/// field and the normalised fields of the row being read, the field count of
/// the rows, whether the header is set, and the header and rows so far.
pub struct LoaderState {
    pub inside_quote: bool,
    pub field: Seq<char>,
    pub row: Seq<Seq<char>>,
    pub num_fields: nat,
    pub header_done: bool,
    pub header: Seq<Seq<char>>,
    pub data: Seq<Seq<Seq<char>>>,
}

pub open spec fn loader_start() -> LoaderState {
    LoaderState {
        inside_quote: false,
        field: Seq::empty(),
        row: Seq::empty(),
        num_fields: 0,
        header_done: false,
        header: Seq::empty(),
        data: Seq::empty(),
    }
}

/// One character read; `last` tells the last character of the text, which is
/// then also taken as the end of the line. A character other than a comma, a
/// newline or a carriage return joins the field, and a quote toggles
/// `inside_quote`. Outside quotes a comma or a newline closes the field,
/// which must be valid, and a newline closes the row, which must have as many
/// fields as the first one. `None` is a malformed text.
pub open spec fn loader_char(s: LoaderState, c: char, last: bool, want_header: bool) -> Option<
    LoaderState,
> {
    let kept = c != ',' && c != '\n' && c != '\r';
    let t = LoaderState {
        field: if kept {
            s.field.push(c)
        } else {
            s.field
        },
        inside_quote: if kept && c == '"' {
            !s.inside_quote
        } else {
            s.inside_quote
        },
        ..s
    };
    let e = if last {
        '\n'
    } else {
        c
    };
    if t.inside_quote {
        Some(t)
    } else if (e == ',' || e == '\n') && !field_is_valid(t.field) {
        None
    } else {
        let u = if e == ',' || e == '\n' {
            LoaderState { row: t.row.push(normalized(t.field)), field: Seq::empty(), ..t }
        } else {
            t
        };
        if e != '\n' {
            Some(u)
        } else {
            let count = if u.num_fields > 0 {
                u.num_fields
            } else {
                u.row.len()
            };
            if count != u.row.len() {
                None
            } else if want_header && !u.header_done {
                Some(
                    LoaderState {
                        num_fields: count,
                        header: u.row,
                        header_done: true,
                        row: Seq::empty(),
                        ..u
                    },
                )
            } else {
                Some(
                    LoaderState {
                        num_fields: count,
                        data: u.data.push(u.row),
                        row: Seq::empty(),
                        ..u
                    },
                )
            }
        }
    }
}

/// The scanner after the first `k` characters of `cs`, or `None`.
pub open spec fn loader_scan(cs: Seq<char>, k: nat, want_header: bool) -> Option<LoaderState>
    decreases k,
{
    if k == 0 {
        Some(loader_start())
    } else {
        match loader_scan(cs, (k - 1) as nat, want_header) {
            None => None,
            Some(s) => loader_char(s, cs[k - 1], k == cs.len(), want_header),
        }
    }
}

/// The header and rows read from `text`, or `None` for a malformed text.
pub open spec fn parse_csv_spec(text: Seq<char>, want_header: bool) -> Option<RowsView> {
    match loader_scan(text, text.len(), want_header) {
        None => None,
        Some(s) => if s.inside_quote {
            None
        } else {
            Some(RowsView { header: s.header, data: s.data })
        },
    }
}

struct LoaderScanner {
    inside_quote: bool,
    field: String,
    row: Vec<String>,
    num_fields: usize,
    header_done: bool,
    table: CsvData,
}

impl LoaderScanner {
    spec fn state(&self) -> LoaderState {
        LoaderState {
            inside_quote: self.inside_quote,
            field: self.field@,
            row: self.row.deep_view(),
            num_fields: self.num_fields as nat,
            header_done: self.header_done,
            header: self.table@.header,
            data: self.table@.data,
        }
    }

    fn step(&mut self, c: char, last: bool, want_header: bool) -> (r: bool)
        ensures
            match loader_char(old(self).state(), c, last, want_header) {
                Some(t) => r && final(self).state() == t,
                None => !r,
            },
    {
        if c != ',' && c != '\n' && c != '\r' {
            if c == '"' {
                self.inside_quote = !self.inside_quote;
            }
            crate::field::push_char(&mut self.field, c);
        }
        let e = if last {
            '\n'
        } else {
            c
        };
        if self.inside_quote {
            return true;
        }
        if e == ',' || e == '\n' {
            if !validate_field(self.field.as_str()) {
                return false;
            }
            let f = finalize_field(self.field.as_str());
            let ghost before = self.row.deep_view();
            self.row.push(f);
            assert(self.row.deep_view() =~= before.push(f@));
            self.field = String::new();
        }
        if e == '\n' {
            self.num_fields = if self.num_fields > 0 {
                self.num_fields
            } else {
                self.row.len()
            };
            if self.num_fields != self.row.len() {
                return false;
            }
            let ghost fields = self.row.deep_view();
            let mut v: Vec<String> = Vec::new();
            std::mem::swap(&mut v, &mut self.row);
            assert(v.deep_view() == fields);
            if want_header && !self.header_done {
                self.table.header = v;
                self.header_done = true;
            } else {
                let ghost rows = self.table.data.deep_view();
                self.table.data.push(v);
                assert(self.table.data.deep_view() =~= rows.push(fields));
            }
            assert(self.row.deep_view() =~= Seq::<Seq<char>>::empty());
        }
        true
    }
}

proof fn lemma_loader_none_stays(cs: Seq<char>, k: nat, want_header: bool)
    requires
        k <= cs.len(),
        loader_scan(cs, k, want_header) is None,
    ensures
        loader_scan(cs, cs.len(), want_header) is None,
    decreases cs.len() - k,
{
    if k < cs.len() {
        lemma_loader_none_stays(cs, k + 1, want_header);
    }
}

/// Reads comma-separated text into a header and rows; the first row is the
/// header when `header` is set. `None` when a field breaks the quoting rules,
/// a row has another field count than the first, or the text ends inside
/// quotes.
pub fn parse_csv(buffer: &str, header: bool) -> (r: Option<CsvData>)
    ensures
        match (r, parse_csv_spec(buffer@, header)) {
            (Some(t), Some(v)) => t@ == v,
            (None, None) => true,
            _ => false,
        },
{
    let text = chars_of(buffer);
    let n = text.len();
    let mut sc = LoaderScanner {
        inside_quote: false,
        field: String::new(),
        row: Vec::new(),
        num_fields: 0,
        header_done: false,
        table: CsvData::new(),
    };
    assert(sc.row.deep_view() =~= Seq::<Seq<char>>::empty());
    assert(sc.table@.header =~= Seq::<Seq<char>>::empty());
    assert(sc.table@.data =~= Seq::<Seq<Seq<char>>>::empty());
    let mut i: usize = 0;
    while i < n
        invariant
            n == text.len() == buffer@.len(),
            text@ == buffer@,
            i <= n,
            loader_scan(buffer@, i as nat, header) == Some(sc.state()),
        decreases n - i,
    {
        let c = text[i];
        let last = i + 1 == n;
        if !sc.step(c, last, header) {
            proof {
                lemma_loader_none_stays(buffer@, (i + 1) as nat, header);
            }
            return None;
        }
        i = i + 1;
    }
    if sc.inside_quote {
        return None;
    }
    Some(sc.table)
}

} // verus!
