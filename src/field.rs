//! Quote handling shared by every scanner of the crate: the characters of a
//! text, the outer-quote test, the interior quote positions that validation
//! inspects, and the normalisation of a validated field.
use vstd::prelude::*;
use vstd::std_specs::iter::IteratorSpec;

verus! {

broadcast use vstd::string::group_string_axioms, vstd::string::next_postcondition;

/// A field carries outer quotes when it is at least two characters long and
/// both its first and its last character are `"`.
pub open spec fn is_outer_quoted(s: Seq<char>) -> bool {
    s.len() >= 2 && s[0] == '"' && s[s.len() - 1] == '"'
}

/// The field without its outer quotes, if it has them.
pub open spec fn strip_outer_quotes(s: Seq<char>) -> Seq<char> {
    if is_outer_quoted(s) {
        s.subrange(1, s.len() - 1)
    } else {
        s
    }
}

/// Every pair of consecutive quotes, read from left to right, becomes one quote.
pub open spec fn unescape_quotes(s: Seq<char>) -> Seq<char>
    decreases s.len(),
{
    if s.len() == 0 {
        s
    } else if s.len() >= 2 && s[0] == '"' && s[1] == '"' {
        seq!['"'] + unescape_quotes(s.subrange(2, s.len() as int))
    } else {
        seq![s[0]] + unescape_quotes(s.subrange(1, s.len() as int))
    }
}

/// What a validated raw field stands for.
pub open spec fn normalized(s: Seq<char>) -> Seq<char> {
    unescape_quotes(strip_outer_quotes(s))
}

/// The positions below `k` of the quotes of `s`, its first and last character excluded.
pub open spec fn interior_quotes_below(s: Seq<char>, k: int) -> Seq<int>
    decreases k,
{
    if k <= 0 {
        Seq::empty()
    } else {
        let q = interior_quotes_below(s, k - 1);
        if 0 < k - 1 && k - 1 < s.len() - 1 && s[k - 1] == '"' {
            q.push(k - 1)
        } else {
            q
        }
    }
}

/// The positions of the quotes strictly between the first and the last character.
pub open spec fn interior_quotes(s: Seq<char>) -> Seq<int> {
    interior_quotes_below(s, s.len() as int)
}

/// What is wrong with a pair of interior quotes.
#[derive(PartialEq, Eq, Structural, Clone, Copy, Debug)]
pub enum PairFault {
    /// The two quotes of the pair are not next to each other.
    Apart,
    /// The pair is a doubled quote, but the field has no outer quotes.
    Unquoted,
}

/// The first fault among the pairs `(q[2j], q[2j + 1])` with `j >= k`.
pub open spec fn pair_fault_from(q: Seq<int>, outer: bool, k: nat) -> Option<PairFault>
    decreases q.len() - 2 * k,
{
    if 2 * k + 1 >= q.len() {
        None
    } else if q[2 * k + 1 as int] - q[2 * k as int] > 1 {
        Some(PairFault::Apart)
    } else if !outer {
        Some(PairFault::Unquoted)
    } else {
        pair_fault_from(q, outer, k + 1)
    }
}

/// The first fault among the consecutive pairs of interior quotes.
pub open spec fn pair_fault(s: Seq<char>) -> Option<PairFault> {
    pair_fault_from(interior_quotes(s), is_outer_quoted(s), 0)
}

/// The characters of a text, in order.
pub fn chars_of(s: &str) -> (r: Vec<char>)
    ensures
        r@ == s@,
{
    let mut out: Vec<char> = Vec::new();
    let mut it = s.chars();
    loop
        invariant
            it.obeys_prophetic_iter_laws(),
            out@ + it.remaining() == s@,
            it.decrease() is Some,
        ensures
            out@ == s@,
        decreases it.decrease()->0,
    {
        match it.next() {
            Some(c) => {
                out.push(c);
            },
            None => {
                assert(out@ + it.remaining() =~= out@);
                break ;
            },
        }
    }
    out
}

/// Relies on `String::push`: the character is appended at the end of the string.
#[verifier::external_body]
pub(crate) fn push_char(s: &mut String, c: char)
    ensures
        final(s)@ == old(s)@.push(c),
{
    s.push(c)
}

/// A string holding the given characters.
pub(crate) fn string_of(cs: &Vec<char>) -> (r: String)
    ensures
        r@ == cs@,
{
    let mut out = String::new();
    let mut i: usize = 0;
    while i < cs.len()
        invariant
            i <= cs.len(),
            out@ == cs@.subrange(0, i as int),
        decreases cs.len() - i,
    {
        push_char(&mut out, cs[i]);
        assert(cs@.subrange(0, i + 1) == cs@.subrange(0, i as int).push(cs@[i as int]));
        i = i + 1;
    }
    assert(cs@.subrange(0, cs.len() as int) == cs@);
    out
}

/// Whether the field starts and ends with a quote, on two characters at least.
pub fn has_outer_quotes(field: &str) -> (r: bool)
    ensures
        r == is_outer_quoted(field@),
{
    let cs = chars_of(field);
    let n = cs.len();
    n >= 2 && cs[0] == '"' && cs[n - 1] == '"'
}

/// The positions of the interior quotes of `cs`.
pub fn interior_quote_positions(cs: &Vec<char>) -> (r: Vec<usize>)
    ensures
        r@.len() == interior_quotes(cs@).len(),
        forall|j: int| 0 <= j < r@.len() ==> r@[j] as int == #[trigger] interior_quotes(cs@)[j],
{
    let n = cs.len();
    let mut out: Vec<usize> = Vec::new();
    let mut i: usize = 0;
    while i < n
        invariant
            n == cs.len(),
            i <= n,
            out@.len() == interior_quotes_below(cs@, i as int).len(),
            forall|j: int|
                0 <= j < out@.len() ==> out@[j] as int == #[trigger] interior_quotes_below(
                    cs@,
                    i as int,
                )[j],
        decreases n - i,
    {
        if 0 < i && i + 1 < n && cs[i] == '"' {
            out.push(i);
        }
        i = i + 1;
    }
    out
}

/// The first fault among the consecutive pairs of interior quotes of `cs`.
pub fn first_pair_fault(cs: &Vec<char>) -> (r: Option<PairFault>)
    ensures
        r == pair_fault(cs@),
{
    let q = interior_quote_positions(cs);
    let n = cs.len();
    let outer = n >= 2 && cs[0] == '"' && cs[n - 1] == '"';
    let ghost gq = interior_quotes(cs@);
    let mut k: usize = 0;
    while k + 1 < q.len()
        invariant
            q@.len() == gq.len(),
            forall|j: int| 0 <= j < q@.len() ==> q@[j] as int == #[trigger] gq[j],
            outer == is_outer_quoted(cs@),
            gq == interior_quotes(cs@),
            k % 2 == 0,
            k <= q.len(),
            pair_fault(cs@) == pair_fault_from(gq, outer, (k / 2) as nat),
        decreases q.len() - k,
    {
        let a = q[k];
        let b = q[k + 1];
        assert(2 * ((k / 2) as nat) == k);
        if b > a && b - a > 1 {
            return Some(PairFault::Apart);
        }
        if !outer {
            return Some(PairFault::Unquoted);
        }
        assert((k + 2) / 2 == k / 2 + 1);
        k = k + 2;
    }
    assert(2 * ((k / 2) as nat) + 1 >= gq.len());
    None
}

/// Removes a pair of outer quotes, then collapses each doubled quote into one.
pub fn finalize_field(field: &str) -> (r: String)
    ensures
        r@ == normalized(field@),
{
    let cs = chars_of(field);
    let n = cs.len();
    let (lo, hi) = if n >= 2 && cs[0] == '"' && cs[n - 1] == '"' {
        (1usize, n - 1)
    } else {
        (0usize, n)
    };
    let ghost body = strip_outer_quotes(cs@);
    assert(body == cs@.subrange(lo as int, hi as int));
    let mut out = String::new();
    let mut i: usize = lo;
    while i < hi
        invariant
            lo <= i <= hi <= n == cs.len(),
            body == cs@.subrange(lo as int, hi as int),
            out@ + unescape_quotes(cs@.subrange(i as int, hi as int)) == unescape_quotes(body),
        decreases hi - i,
    {
        let ghost rest = cs@.subrange(i as int, hi as int);
        let ghost before = out@;
        if i + 1 < hi && cs[i] == '"' && cs[i + 1] == '"' {
            let ghost tail = cs@.subrange(i + 2, hi as int);
            assert(rest.subrange(2, rest.len() as int) == tail);
            assert(unescape_quotes(rest) == seq!['"'] + unescape_quotes(tail));
            push_char(&mut out, '"');
            assert(out@ + unescape_quotes(tail) =~= before + (seq!['"'] + unescape_quotes(tail)));
            i = i + 2;
        } else {
            let ghost tail = cs@.subrange(i + 1, hi as int);
            assert(rest.subrange(1, rest.len() as int) == tail);
            assert(unescape_quotes(rest) == seq![rest[0]] + unescape_quotes(tail));
            push_char(&mut out, cs[i]);
            assert(out@ + unescape_quotes(tail) =~= before + (seq![rest[0]] + unescape_quotes(tail)));
            i = i + 1;
        }
    }
    assert(cs@.subrange(hi as int, hi as int).len() == 0);
    out
}

/// The decimal digit of a value below ten.
pub open spec fn digit(d: nat) -> char {
    if d == 0 {
        '0'
    } else if d == 1 {
        '1'
    } else if d == 2 {
        '2'
    } else if d == 3 {
        '3'
    } else if d == 4 {
        '4'
    } else if d == 5 {
        '5'
    } else if d == 6 {
        '6'
    } else if d == 7 {
        '7'
    } else if d == 8 {
        '8'
    } else {
        '9'
    }
}

/// The decimal notation of a number, without sign or leading zeros.
pub open spec fn decimal(n: nat) -> Seq<char>
    decreases n,
{
    if n < 10 {
        seq![digit(n)]
    } else {
        decimal(n / 10).push(digit(n % 10))
    }
}

/// Relies on `ToString` for `usize`: a number is written in decimal, without
/// sign or leading zeros.
#[verifier::external_body]
pub(crate) fn decimal_string(n: usize) -> (r: String)
    ensures
        r@ == decimal(n as nat),
{
    n.to_string()
}

/// The first `n` characters of `s`, or all of them when there are fewer.
pub open spec fn truncated(s: Seq<char>, n: nat) -> Seq<char> {
    if s.len() <= n {
        s
    } else {
        s.subrange(0, n as int)
    }
}

/// A string of the first `n` characters of `s`.
pub(crate) fn prefix_string(s: &str, n: usize) -> (r: String)
    ensures
        r@ == truncated(s@, n as nat),
{
    let cs = chars_of(s);
    let m = if cs.len() <= n {
        cs.len()
    } else {
        n
    };
    let mut out = String::new();
    let mut i: usize = 0;
    while i < m
        invariant
            m <= cs.len(),
            i <= m,
            out@ == cs@.subrange(0, i as int),
        decreases m - i,
    {
        push_char(&mut out, cs[i]);
        assert(cs@.subrange(0, i + 1) == cs@.subrange(0, i as int).push(cs@[i as int]));
        i = i + 1;
    }
    assert(cs.len() <= n ==> cs@.subrange(0, m as int) == cs@);
    out
}

} // verus!
