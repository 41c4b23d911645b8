//! Properties of the table engine, proved over its model.
use vstd::prelude::*;
use crate::field::{
    interior_quotes, interior_quotes_below, is_outer_quoted, normalized, pair_fault,
    pair_fault_from, strip_outer_quotes, unescape_quotes,
};
use crate::table::data::{table_wf, QuoteValidationError, TableData, TableDataValidationError};
use crate::table::reader::{
    field_verdict, outcome_is, parse_values_spec, scan_char, scan_text, ScanState,
};

verus! {

/// Parsing is a function of the text: two parses of the same text, with the
/// same delimiter and header flag, give equal tables or equal errors.
pub proof fn lemma_parse_is_idempotent(
    text: Seq<char>,
    delim: char,
    header: bool,
    first: Result<TableData, TableDataValidationError>,
    second: Result<TableData, TableDataValidationError>,
)
    requires
        outcome_is(first, parse_values_spec(text, delim, header)),
        outcome_is(second, parse_values_spec(text, delim, header)),
    ensures
        first is Ok <==> second is Ok,
        first is Ok ==> first->Ok_0@ == second->Ok_0@,
        first is Err ==> first->Err_0@ == second->Err_0@,
{
}

spec fn state_wf(s: ScanState) -> bool {
    &&& s.data.len() == s.prev_fields * s.rows
    &&& (s.header.len() == 0 || s.header.len() == s.prev_fields)
    &&& (s.prev_fields == 0 ==> s.rows == 0)
}

proof fn lemma_scan_char_wf(s: ScanState, c: char, delim: char, want_header: bool)
    requires
        state_wf(s),
        scan_char(s, c, delim, want_header) is Ok,
    ensures
        state_wf(scan_char(s, c, delim, want_header)->Ok_0),
{
    let t = scan_char(s, c, delim, want_header)->Ok_0;
    if t.rows == s.rows + 1 {
        assert(t.data.len() == s.data.len() + t.prev_fields);
        assert(s.prev_fields == 0 || s.prev_fields == t.prev_fields);
        if s.prev_fields == 0 {
            assert(s.rows == 0);
        }
        let p = t.prev_fields as int;
        let r = s.rows as int;
        assert(s.data.len() == p * r) by (nonlinear_arith)
            requires
                s.data.len() == s.prev_fields * s.rows,
                s.prev_fields == 0 ==> r == 0,
                s.prev_fields == 0 || s.prev_fields == p,
                r == s.rows,
        ;
        assert(p * r + p == p * (r + 1)) by (nonlinear_arith);
    } else if t.prev_fields != s.prev_fields {
        assert(s.prev_fields == 0);
        assert(s.rows == 0 && t.rows == 0);
        assert(t.data.len() == 0) by {
            assert(s.data.len() == s.prev_fields * s.rows);
            assert(s.prev_fields * s.rows == 0) by (nonlinear_arith)
                requires
                    s.rows == 0,
            ;
        }
        assert(t.prev_fields * t.rows == 0) by (nonlinear_arith)
            requires
                t.rows == 0,
        ;
    }
}

proof fn lemma_scan_text_wf(cs: Seq<char>, delim: char, want_header: bool)
    ensures
        scan_text(cs, delim, want_header) is Ok ==> state_wf(
            scan_text(cs, delim, want_header)->Ok_0,
        ),
    decreases cs.len(),
{
    if cs.len() > 0 {
        lemma_scan_text_wf(cs.drop_last(), delim, want_header);
        if scan_text(cs.drop_last(), delim, want_header) is Ok {
            let s = scan_text(cs.drop_last(), delim, want_header)->Ok_0;
            if scan_char(s, cs.last(), delim, want_header) is Ok {
                lemma_scan_char_wf(s, cs.last(), delim, want_header);
            }
        }
    } else {
        assert(0nat * 0nat == 0) by (nonlinear_arith);
    }
}

/// A table that parsing returns is rectangular: `columns * rows` data
/// fields, and a header, if any, as wide as the rows.
pub proof fn lemma_parsed_table_is_rectangular(text: Seq<char>, delim: char, header: bool)
    ensures
        parse_values_spec(text, delim, header) is Ok ==> table_wf(
            parse_values_spec(text, delim, header)->Ok_0,
        ),
        parse_values_spec(text, delim, header) is Ok ==> parse_values_spec(
            text,
            delim,
            header,
        )->Ok_0.data.len() == parse_values_spec(text, delim, header)->Ok_0.cols
            * parse_values_spec(text, delim, header)->Ok_0.rows,
{
    lemma_scan_text_wf(text.push('\n'), delim, header);
}

proof fn lemma_quote_free_positions(s: Seq<char>, k: int)
    requires
        0 <= k <= s.len(),
        forall|j: int| 0 <= j < s.len() ==> s[j] != '"',
    ensures
        interior_quotes_below(s, k).len() == 0,
    decreases k,
{
    if k > 0 {
        lemma_quote_free_positions(s, k - 1);
    }
}

proof fn lemma_unescape_quote_free(s: Seq<char>)
    requires
        forall|j: int| 0 <= j < s.len() ==> s[j] != '"',
    ensures
        unescape_quotes(s) == s,
    decreases s.len(),
{
    if s.len() > 0 {
        let rest = s.subrange(1, s.len() as int);
        lemma_unescape_quote_free(rest);
        assert(seq![s[0]] + rest =~= s);
    }
}

/// A field with no quote is valid, and normalisation returns it unchanged.
pub proof fn lemma_unquoted_field_unchanged(s: Seq<char>)
    requires
        !s.contains('"'),
    ensures
        field_verdict(s) == Ok::<bool, QuoteValidationError>(true),
        normalized(s) == s,
{
    assert forall|j: int| 0 <= j < s.len() implies s[j] != '"' by {
        if s[j] == '"' {
            assert(s.contains('"'));
        }
    }
    lemma_quote_free_positions(s, s.len() as int);
    lemma_unescape_quote_free(s);
}

proof fn lemma_unescape_prefix_quote_free(a: Seq<char>, b: Seq<char>)
    requires
        forall|j: int| 0 <= j < a.len() ==> a[j] != '"',
    ensures
        unescape_quotes(a + b) == a + unescape_quotes(b),
    decreases a.len(),
{
    if a.len() > 0 {
        let rest = a.subrange(1, a.len() as int);
        lemma_unescape_prefix_quote_free(rest, b);
        assert((a + b).subrange(1, (a + b).len() as int) =~= rest + b);
        assert(seq![a[0]] + (rest + unescape_quotes(b)) =~= a + unescape_quotes(b));
    }
}

proof fn lemma_positions_skip(s: Seq<char>, lo: int, hi: int)
    requires
        0 <= lo <= hi <= s.len(),
        forall|j: int| lo <= j < hi ==> s[j] != '"',
    ensures
        interior_quotes_below(s, hi) == interior_quotes_below(s, lo),
    decreases hi - lo,
{
    if hi > lo {
        lemma_positions_skip(s, lo, hi - 1);
    }
}

/// Inside outer quotes, a doubled quote between quote-free text stands for
/// one quote: `"a""b"` is valid and normalises to `a"b`. Without outer quotes
/// the same doubled quote is an invalid escape.
pub proof fn lemma_doubled_quote_unescapes(a: Seq<char>, b: Seq<char>)
    requires
        !a.contains('"'),
        !b.contains('"'),
    ensures
        field_verdict(seq!['"'] + a + seq!['"', '"'] + b + seq!['"']) == Ok::<
            bool,
            QuoteValidationError,
        >(true),
        normalized(seq!['"'] + a + seq!['"', '"'] + b + seq!['"']) == a + seq!['"'] + b,
        a.len() > 0 && b.len() > 0 ==> field_verdict(a + seq!['"', '"'] + b) == Err::<
            bool,
            QuoteValidationError,
        >(QuoteValidationError::InvalidEscapeError),
{
    assert forall|j: int| 0 <= j < a.len() implies a[j] != '"' by {
        if a[j] == '"' {
            assert(a.contains('"'));
        }
    }
    assert forall|j: int| 0 <= j < b.len() implies b[j] != '"' by {
        if b[j] == '"' {
            assert(b.contains('"'));
        }
    }
    let n = a.len() as int;
    let m = b.len() as int;
    // the outer-quoted field
    let s = seq!['"'] + a + seq!['"', '"'] + b + seq!['"'];
    assert(s.len() == n + m + 4);
    assert(is_outer_quoted(s));
    assert forall|j: int| 1 <= j < n + 1 implies s[j] != '"' by {
        assert(s[j] == a[j - 1]);
    }
    assert forall|j: int| n + 3 <= j < n + m + 3 implies s[j] != '"' by {
        assert(s[j] == b[j - n - 3]);
    }
    assert(s[n + 1] == '"' && s[n + 2] == '"');
    lemma_positions_skip(s, 1, n + 1);
    assert(interior_quotes_below(s, 0) =~= Seq::<int>::empty());
    assert(interior_quotes_below(s, 1) =~= Seq::<int>::empty());
    assert(interior_quotes_below(s, n + 2) =~= seq![n + 1]);
    assert(interior_quotes_below(s, n + 3) =~= seq![n + 1, n + 2]);
    lemma_positions_skip(s, n + 3, n + m + 3);
    assert(interior_quotes_below(s, n + m + 4) == interior_quotes_below(s, n + m + 3));
    assert(interior_quotes(s) == seq![n + 1, n + 2]);
    assert(pair_fault_from(seq![n + 1, n + 2], true, 1) == None::<crate::field::PairFault>);
    assert(pair_fault(s) == None::<crate::field::PairFault>);
    let inner = a + seq!['"', '"'] + b;
    assert(strip_outer_quotes(s) =~= inner);
    lemma_unescape_prefix_quote_free(a, seq!['"', '"'] + b);
    assert(a + (seq!['"', '"'] + b) =~= inner);
    let tail = (seq!['"', '"'] + b).subrange(2, m + 2);
    assert(tail =~= b);
    lemma_unescape_quote_free(b);
    assert(unescape_quotes(seq!['"', '"'] + b) == seq!['"'] + unescape_quotes(tail));
    assert(a + (seq!['"'] + b) =~= a + seq!['"'] + b);
    // the same text without outer quotes
    if n > 0 && m > 0 {
        let u = a + seq!['"', '"'] + b;
        assert(u.len() == n + m + 2);
        assert(u[0] == a[0] && u[0] != '"');
        assert(!is_outer_quoted(u));
        assert forall|j: int| 0 <= j < n implies u[j] != '"' by {
            assert(u[j] == a[j]);
        }
        assert forall|j: int| n + 2 <= j < n + m + 2 implies u[j] != '"' by {
            assert(u[j] == b[j - n - 2]);
        }
        lemma_positions_skip(u, 0, n);
        assert(interior_quotes_below(u, 0) =~= Seq::<int>::empty());
        assert(interior_quotes_below(u, n + 1) =~= seq![n]);
        assert(interior_quotes_below(u, n + 2) =~= seq![n, n + 1]);
        lemma_positions_skip(u, n + 2, n + m + 2);
        assert(interior_quotes(u) == seq![n, n + 1]);
    }
}

} // verus!
