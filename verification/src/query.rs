//! The search query language: terms, negation with `-`, quoted phrases and
//! alternatives joined with `|`, and the escaping of terms for `LIKE` patterns.

use vstd::prelude::*;
use crate::text::chars_of;

verus! {

/// A search query split into its kinds of terms.
#[derive(Debug)]
pub struct Query {
    pub simples: Vec<String>,
    pub negated_simples: Vec<String>,
    pub simples_or: Vec<Vec<String>>,
    pub negated_simples_or: Vec<Vec<String>>,
    pub quotes: Vec<String>,
    pub negated_quotes: Vec<String>,
    pub quotes_or: Vec<Vec<String>>,
    pub negated_quotes_or: Vec<Vec<String>>,
}

/// The mathematical model of a [`Query`].
#[verifier::ext_equal]
pub struct QueryV {
    pub simples: Seq<Seq<char>>,
    pub negated_simples: Seq<Seq<char>>,
    pub simples_or: Seq<Seq<Seq<char>>>,
    pub negated_simples_or: Seq<Seq<Seq<char>>>,
    pub quotes: Seq<Seq<char>>,
    pub negated_quotes: Seq<Seq<char>>,
    pub quotes_or: Seq<Seq<Seq<char>>>,
    pub negated_quotes_or: Seq<Seq<Seq<char>>>,
}

impl View for Query {
    type V = QueryV;

    open spec fn view(&self) -> QueryV {
        QueryV {
            simples: self.simples.deep_view(),
            negated_simples: self.negated_simples.deep_view(),
            simples_or: self.simples_or.deep_view(),
            negated_simples_or: self.negated_simples_or.deep_view(),
            quotes: self.quotes.deep_view(),
            negated_quotes: self.negated_quotes.deep_view(),
            quotes_or: self.quotes_or.deep_view(),
            negated_quotes_or: self.negated_quotes_or.deep_view(),
        }
    }
}

/// The query with no terms.
pub open spec fn empty_query() -> QueryV {
    QueryV {
        simples: Seq::empty(),
        negated_simples: Seq::empty(),
        simples_or: Seq::empty(),
        negated_simples_or: Seq::empty(),
        quotes: Seq::empty(),
        negated_quotes: Seq::empty(),
        quotes_or: Seq::empty(),
        negated_quotes_or: Seq::empty(),
    }
}

impl Default for Query {
    fn default() -> (r: Query)
        ensures
            r@ == empty_query(),
    {
        let r = Query {
            simples: Vec::new(),
            negated_simples: Vec::new(),
            simples_or: Vec::new(),
            negated_simples_or: Vec::new(),
            quotes: Vec::new(),
            negated_quotes: Vec::new(),
            quotes_or: Vec::new(),
            negated_quotes_or: Vec::new(),
        };
        assert(r.simples.deep_view() =~= Seq::<Seq<char>>::empty());
        assert(r.negated_simples.deep_view() =~= Seq::<Seq<char>>::empty());
        assert(r.quotes.deep_view() =~= Seq::<Seq<char>>::empty());
        assert(r.negated_quotes.deep_view() =~= Seq::<Seq<char>>::empty());
        assert(r.simples_or.deep_view() =~= Seq::<Seq<Seq<char>>>::empty());
        assert(r.negated_simples_or.deep_view() =~= Seq::<Seq<Seq<char>>>::empty());
        assert(r.quotes_or.deep_view() =~= Seq::<Seq<Seq<char>>>::empty());
        assert(r.negated_quotes_or.deep_view() =~= Seq::<Seq<Seq<char>>>::empty());
        r
    }
}

/// What the scanner of a query holds between two characters.
#[verifier::ext_equal]
pub struct ScanState {
    pub result: QueryV,
    pub token: Seq<char>,
    pub in_or: Seq<Seq<char>>,
    pub quoted: bool,
    pub negated: bool,
}

/// The state before the first character.
pub open spec fn scan_start() -> ScanState {
    ScanState {
        result: empty_query(),
        token: Seq::empty(),
        in_or: Seq::empty(),
        quoted: false,
        negated: false,
    }
}

/// The character after index `i`, if any.
pub open spec fn next_char(s: Seq<char>, i: int) -> Option<char> {
    if i + 1 < s.len() {
        Some(s[i + 1])
    } else {
        None
    }
}

/// A closing quote that no `|` follows: the phrase (or the alternatives that
/// it ends) goes into the quoted terms.
pub open spec fn close_quote(st: ScanState) -> ScanState {
    let r = st.result;
    let r2 = if st.in_or.len() > 0 {
        let g = st.in_or.push(st.token);
        if st.negated {
            QueryV { negated_quotes_or: r.negated_quotes_or.push(g), ..r }
        } else {
            QueryV { quotes_or: r.quotes_or.push(g), ..r }
        }
    } else if st.negated {
        QueryV { negated_quotes: r.negated_quotes.push(st.token), ..r }
    } else {
        QueryV { quotes: r.quotes.push(st.token), ..r }
    };
    ScanState { result: r2, token: Seq::empty(), in_or: Seq::empty(), quoted: false, negated: false }
}

/// A closing quote followed by `|`: the phrase becomes one alternative.
pub open spec fn quote_before_pipe(st: ScanState) -> ScanState {
    ScanState { in_or: st.in_or.push(st.token), token: Seq::empty(), quoted: false, ..st }
}

/// A `|` outside quotes after a term: the term becomes an alternative; when
/// nothing (or a space) follows, the alternatives end here.
pub open spec fn pipe_split(st: ScanState, next: Option<char>) -> ScanState {
    let malformed = next is None || next == Some(' ');
    let in_or = st.in_or.push(st.token);
    let r = st.result;
    if malformed && in_or.len() > 1 {
        let r2 = if st.negated {
            QueryV { negated_simples_or: r.negated_simples_or.push(in_or), ..r }
        } else {
            QueryV { simples_or: r.simples_or.push(in_or), ..r }
        };
        ScanState { result: r2, in_or: Seq::empty(), token: Seq::empty(), ..st }
    } else if malformed && in_or.len() == 1 {
        let r2 = if st.negated {
            QueryV { negated_simples: r.negated_simples.push(in_or[0]), ..r }
        } else {
            QueryV { simples: r.simples.push(in_or[0]), ..r }
        };
        ScanState { result: r2, in_or: Seq::empty(), token: Seq::empty(), ..st }
    } else {
        ScanState { in_or: in_or, token: Seq::empty(), ..st }
    }
}

/// Whether a character becomes part of the current term.
pub open spec fn keeps_char(c: char, quoted: bool) -> bool {
    (c != '-' && c != '"' && c != '|' && c != ' ') || (c == ' ' && quoted) || (c == '|' && quoted)
}

/// The end of a group of alternatives outside quotes.
pub open spec fn end_group(st: ScanState) -> ScanState {
    let g = st.in_or.push(st.token);
    let r = st.result;
    let r2 = if st.negated {
        QueryV { negated_simples_or: r.negated_simples_or.push(g), ..r }
    } else {
        QueryV { simples_or: r.simples_or.push(g), ..r }
    };
    ScanState { result: r2, in_or: Seq::empty(), token: Seq::empty(), negated: false, ..st }
}

/// The end of a plain term.
pub open spec fn end_term(st: ScanState) -> ScanState {
    let r = st.result;
    let r2 = if st.negated {
        QueryV { negated_simples: r.negated_simples.push(st.token), ..r }
    } else {
        QueryV { simples: r.simples.push(st.token), ..r }
    };
    ScanState { result: r2, token: Seq::empty(), negated: false, ..st }
}

/// One character `c` of the query, with the character after it.
pub open spec fn scan_step(st0: ScanState, c: char, next: Option<char>) -> ScanState {
    let st = ScanState { negated: st0.negated || c == '-', ..st0 };
    if st.quoted && c == '"' && next != Some('|') {
        close_quote(st)
    } else if st.quoted && c == '"' {
        quote_before_pipe(st)
    } else {
        let st1 = if !st.quoted && c == '|' && st.token.len() > 0 {
            pipe_split(st, next)
        } else {
            st
        };
        let st2 = ScanState { quoted: st1.quoted || c == '"', ..st1 };
        let st3 = if keeps_char(c, st2.quoted) {
            ScanState { token: st2.token.push(c), ..st2 }
        } else {
            st2
        };
        let ends = (c == ' ' || next is None) && !st3.quoted;
        if ends && st3.in_or.len() > 0 {
            end_group(st3)
        } else if ends && st3.token.len() > 0 {
            end_term(st3)
        } else {
            st3
        }
    }
}

/// The state after the characters of `s` from index `i` on.
pub open spec fn scan_from(s: Seq<char>, i: int, st: ScanState) -> ScanState
    decreases s.len() - i,
{
    if i < 0 || i >= s.len() {
        st
    } else {
        scan_from(s, i + 1, scan_step(st, s[i], next_char(s, i)))
    }
}

/// The query that a search string denotes.
pub open spec fn parse_query_spec(s: Seq<char>) -> QueryV {
    scan_from(s, 0, scan_start()).result
}

/// A term holds neither a quote nor a dash.
pub open spec fn term_ok(t: Seq<char>) -> bool {
    forall|k: int| 0 <= k < t.len() ==> t[k] != '"' && t[k] != '-'
}

/// A plain term is a non-empty term without spaces or pipes.
pub open spec fn simple_term_ok(t: Seq<char>) -> bool {
    &&& term_ok(t)
    &&& t.len() > 0
    &&& forall|k: int| 0 <= k < t.len() ==> t[k] != ' ' && t[k] != '|'
}

/// A group of alternatives has at least two terms.
pub open spec fn group_ok(g: Seq<Seq<char>>) -> bool {
    &&& g.len() >= 2
    &&& forall|k: int| 0 <= k < g.len() ==> term_ok(#[trigger] g[k])
}

/// The shape that every parsed query has.
pub open spec fn query_well_formed(q: QueryV) -> bool {
    &&& forall|i: int| 0 <= i < q.simples.len() ==> simple_term_ok(#[trigger] q.simples[i])
    &&& forall|i: int|
        0 <= i < q.negated_simples.len() ==> simple_term_ok(#[trigger] q.negated_simples[i])
    &&& forall|i: int| 0 <= i < q.quotes.len() ==> term_ok(#[trigger] q.quotes[i])
    &&& forall|i: int| 0 <= i < q.negated_quotes.len() ==> term_ok(#[trigger] q.negated_quotes[i])
    &&& forall|i: int| 0 <= i < q.simples_or.len() ==> group_ok(#[trigger] q.simples_or[i])
    &&& forall|i: int|
        0 <= i < q.negated_simples_or.len() ==> group_ok(#[trigger] q.negated_simples_or[i])
    &&& forall|i: int| 0 <= i < q.quotes_or.len() ==> group_ok(#[trigger] q.quotes_or[i])
    &&& forall|i: int|
        0 <= i < q.negated_quotes_or.len() ==> group_ok(#[trigger] q.negated_quotes_or[i])
}

/// What the scanner keeps true between characters.
pub open spec fn scan_inv(st: ScanState) -> bool {
    &&& query_well_formed(st.result)
    &&& term_ok(st.token)
    &&& !st.quoted ==> forall|k: int|
        0 <= k < st.token.len() ==> st.token[k] != ' ' && st.token[k] != '|'
    &&& forall|k: int| 0 <= k < st.in_or.len() ==> term_ok(#[trigger] st.in_or[k])
}

proof fn lemma_step_inv(st: ScanState, c: char, next: Option<char>)
    requires
        scan_inv(st),
    ensures
        scan_inv(scan_step(st, c, next)),
{
    let st0 = ScanState { negated: st.negated || c == '-', ..st };
    if st0.quoted && c == '"' && next != Some('|') {
        let g = st0.in_or.push(st0.token);
        assert forall|k: int| 0 <= k < g.len() implies term_ok(#[trigger] g[k]) by {
            if k < st0.in_or.len() {
                assert(g[k] == st0.in_or[k]);
            }
        }
    } else if st0.quoted && c == '"' {
        let g = st0.in_or.push(st0.token);
        assert forall|k: int| 0 <= k < g.len() implies term_ok(#[trigger] g[k]) by {
            if k < st0.in_or.len() {
                assert(g[k] == st0.in_or[k]);
            }
        }
    } else {
        let st1 = if !st0.quoted && c == '|' && st0.token.len() > 0 {
            pipe_split(st0, next)
        } else {
            st0
        };
        if !st0.quoted && c == '|' && st0.token.len() > 0 {
            let g = st0.in_or.push(st0.token);
            assert forall|k: int| 0 <= k < g.len() implies term_ok(#[trigger] g[k]) by {
                if k < st0.in_or.len() {
                    assert(g[k] == st0.in_or[k]);
                }
            }
            if g.len() == 1 {
                assert(g[0] == st0.token);
            }
        }
        assert(scan_inv(st1));
        let st2 = ScanState { quoted: st1.quoted || c == '"', ..st1 };
        assert(scan_inv(st2));
        let st3 = if keeps_char(c, st2.quoted) {
            ScanState { token: st2.token.push(c), ..st2 }
        } else {
            st2
        };
        if keeps_char(c, st2.quoted) {
            let t = st2.token.push(c);
            assert forall|k: int| 0 <= k < t.len() implies t[k] != '"' && t[k] != '-' by {
                if k < st2.token.len() {
                    assert(t[k] == st2.token[k]);
                }
            }
        }
        assert(scan_inv(st3));
        let g = st3.in_or.push(st3.token);
        assert forall|k: int| 0 <= k < g.len() implies term_ok(#[trigger] g[k]) by {
            if k < st3.in_or.len() {
                assert(g[k] == st3.in_or[k]);
            }
        }
    }
}

proof fn lemma_scan_inv(s: Seq<char>, i: int, st: ScanState)
    requires
        scan_inv(st),
    ensures
        scan_inv(scan_from(s, i, st)),
    decreases s.len() - i,
{
    if 0 <= i < s.len() {
        lemma_step_inv(st, s[i], next_char(s, i));
        lemma_scan_inv(s, i + 1, scan_step(st, s[i], next_char(s, i)));
    }
}

/// The terms of `a` followed by those of `b`, kind by kind.
pub open spec fn query_concat(a: QueryV, b: QueryV) -> QueryV {
    QueryV {
        simples: a.simples + b.simples,
        negated_simples: a.negated_simples + b.negated_simples,
        simples_or: a.simples_or + b.simples_or,
        negated_simples_or: a.negated_simples_or + b.negated_simples_or,
        quotes: a.quotes + b.quotes,
        negated_quotes: a.negated_quotes + b.negated_quotes,
        quotes_or: a.quotes_or + b.quotes_or,
        negated_quotes_or: a.negated_quotes_or + b.negated_quotes_or,
    }
}

/// A scanner state whose result comes after the terms of `r`.
pub open spec fn after_terms(st: ScanState, r: QueryV) -> ScanState {
    ScanState { result: query_concat(r, st.result), ..st }
}

proof fn lemma_step_after_terms(st: ScanState, r: QueryV, c: char, next: Option<char>)
    ensures
        scan_step(after_terms(st, r), c, next) == after_terms(scan_step(st, c, next), r),
{
    let a = scan_step(after_terms(st, r), c, next);
    let b = after_terms(scan_step(st, c, next), r);
    assert(a.result =~= b.result);
    assert(a =~= b);
}

proof fn lemma_scan_after_terms(s: Seq<char>, i: int, st: ScanState, r: QueryV)
    ensures
        scan_from(s, i, after_terms(st, r)) == after_terms(scan_from(s, i, st), r),
    decreases s.len() - i,
{
    if 0 <= i < s.len() {
        lemma_step_after_terms(st, r, s[i], next_char(s, i));
        lemma_scan_after_terms(s, i + 1, scan_step(st, s[i], next_char(s, i)), r);
    }
}

proof fn lemma_scan_suffix(p: Seq<char>, s: Seq<char>, j: int, st: ScanState)
    requires
        0 <= j <= s.len(),
    ensures
        scan_from(p + s, p.len() + j, st) == scan_from(s, j, st),
    decreases s.len() - j,
{
    if j < s.len() {
        assert((p + s)[p.len() + j] == s[j]);
        assert(next_char(p + s, p.len() + j) == next_char(s, j));
        lemma_scan_suffix(p, s, j + 1, scan_step(st, s[j], next_char(s, j)));
    }
}

/// Inside quotes, characters other than quotes and dashes join the phrase.
proof fn lemma_scan_phrase(s: Seq<char>, a: int, x: Seq<char>, k: int, st: ScanState)
    requires
        0 <= a,
        0 <= k <= x.len(),
        a + x.len() < s.len(),
        s.subrange(a, a + x.len()) == x,
        forall|m: int| 0 <= m < x.len() ==> x[m] != '"' && x[m] != '-',
        st.quoted,
    ensures
        scan_from(s, a + k, st) == scan_from(
            s,
            a + x.len(),
            ScanState { token: st.token + x.subrange(k, x.len() as int), ..st },
        ),
    decreases x.len() - k,
{
    if k < x.len() {
        let c = s[a + k];
        assert(c == x[k]);
        let next = ScanState { token: st.token.push(c), ..st };
        assert(scan_step(st, c, next_char(s, a + k)) =~= next);
        lemma_scan_phrase(s, a, x, k + 1, next);
        assert(next.token + x.subrange(k + 1, x.len() as int) =~= st.token + x.subrange(
            k,
            x.len() as int,
        ));
    } else {
        assert(st.token + x.subrange(k, x.len() as int) =~= st.token);
        assert(ScanState { token: st.token + x.subrange(k, x.len() as int), ..st } =~= st);
    }
}

/// A quoted phrase, negated when a dash stands right before its opening
/// quote.
pub open spec fn phrase_query(negated: bool, x: Seq<char>) -> QueryV {
    if negated {
        QueryV { negated_quotes: seq![x], ..empty_query() }
    } else {
        QueryV { quotes: seq![x], ..empty_query() }
    }
}

/// A complete quoted phrase `"x"` (or `-"x"`) followed by a space ends
/// there: it lands in the (negated) quoted terms, its negation does not
/// carry over, and the rest of the string is read exactly as it would be on
/// its own, its terms following the phrase kind by kind.
pub proof fn lemma_quoted_phrase_then_rest(negated: bool, x: Seq<char>, rest: Seq<char>)
    requires
        forall|m: int| 0 <= m < x.len() ==> x[m] != '"' && x[m] != '-',
    ensures
        parse_query_spec(
            (if negated { seq!['-'] } else { Seq::empty() }) + seq!['"'] + x + seq!['"', ' ']
                + rest,
        ) == query_concat(phrase_query(negated, x), parse_query_spec(rest)),
{
    let dash: Seq<char> = if negated { seq!['-'] } else { Seq::empty() };
    let head = dash + seq!['"'] + x + seq!['"', ' '];
    let s = head + rest;
    let d = dash.len() as int;
    let open = d;
    let a = d + 1;
    let close = a + x.len();
    assert(s.len() == d + x.len() + 3 + rest.len());
    assert(s[open] == '"');
    assert(s[close] == '"');
    assert(s[close + 1] == ' ');
    assert(s.subrange(a, a + x.len()) =~= x);
    // The opening quote (after the dash, which only sets the negation).
    let st_q = ScanState { quoted: true, negated, ..scan_start() };
    assert(scan_from(s, 0, scan_start()) == scan_from(s, a, st_q)) by {
        if negated {
            assert(s[0] == '-');
            let st_d = ScanState { negated: true, ..scan_start() };
            assert(scan_step(scan_start(), '-', next_char(s, 0)) =~= st_d);
            assert(scan_step(st_d, '"', next_char(s, 1)) =~= st_q);
            assert(scan_from(s, 0, scan_start()) == scan_from(s, 1, st_d));
            assert(scan_from(s, 1, st_d) == scan_from(s, 2, st_q));
        } else {
            assert(scan_step(scan_start(), '"', next_char(s, 0)) =~= st_q);
            assert(scan_from(s, 0, scan_start()) == scan_from(s, 1, st_q));
        }
    }
    // The phrase itself.
    lemma_scan_phrase(s, a, x, 0, st_q);
    let st_x = ScanState { token: st_q.token + x.subrange(0, x.len() as int), ..st_q };
    assert(st_x.token =~= x);
    // The closing quote and the space leave the scanner at rest.
    let rest_state = after_terms(scan_start(), phrase_query(negated, x));
    assert(next_char(s, close) == Some(' '));
    let st_c = scan_step(st_x, '"', next_char(s, close));
    assert(st_c =~= rest_state) by {
        assert(st_c.result =~= rest_state.result);
    }
    assert(scan_step(st_c, ' ', next_char(s, close + 1)) =~= rest_state) by {
        assert(scan_step(st_c, ' ', next_char(s, close + 1)).result =~= rest_state.result);
    }
    assert(scan_from(s, a, st_q) == scan_from(s, close, st_x));
    assert(scan_from(s, close, st_x) == scan_from(s, close + 1, st_c));
    assert(scan_from(s, close + 1, st_c) == scan_from(s, close + 2, rest_state));
    assert(scan_from(s, 0, scan_start()) == scan_from(s, close + 2, rest_state));
    // The rest, read on its own.
    lemma_scan_after_terms(s, close + 2, scan_start(), phrase_query(negated, x));
    assert(head.len() == close + 2);
    lemma_scan_suffix(head, rest, 0, scan_start());
}

/// Every parsed query is well formed: no term holds a quote or a dash, plain
/// terms are non-empty and hold no space or pipe, and every group of
/// alternatives has at least two terms.
pub proof fn lemma_parsed_query_well_formed(s: Seq<char>)
    ensures
        query_well_formed(parse_query_spec(s)),
{
    lemma_scan_inv(s, 0, scan_start());
}

fn push_term(v: &mut Vec<String>, t: String)
    ensures
        final(v).deep_view() == old(v).deep_view().push(t@),
{
    v.push(t);
    assert(v.deep_view() =~= old(v).deep_view().push(t@));
}

fn push_group(v: &mut Vec<Vec<String>>, g: Vec<String>)
    ensures
        final(v).deep_view() == old(v).deep_view().push(g.deep_view()),
{
    v.push(g);
    assert(v.deep_view() =~= old(v).deep_view().push(g.deep_view()));
}

struct Scanner {
    result: Query,
    token: String,
    in_or: Vec<String>,
    quoted: bool,
    negated: bool,
}

impl View for Scanner {
    type V = ScanState;

    closed spec fn view(&self) -> ScanState {
        ScanState {
            result: self.result@,
            token: self.token@,
            in_or: self.in_or.deep_view(),
            quoted: self.quoted,
            negated: self.negated,
        }
    }
}

impl Scanner {
    fn take_token(&mut self) -> (t: String)
        ensures
            t@ == old(self).token@,
            final(self)@ == (ScanState { token: Seq::empty(), ..old(self)@ }),
    {
        let mut t = String::new();
        std::mem::swap(&mut t, &mut self.token);
        t
    }

    fn take_in_or(&mut self) -> (g: Vec<String>)
        ensures
            g.deep_view() == old(self).in_or.deep_view(),
            final(self)@ == (ScanState { in_or: Seq::empty(), ..old(self)@ }),
    {
        let mut g: Vec<String> = Vec::new();
        std::mem::swap(&mut g, &mut self.in_or);
        assert(self.in_or.deep_view() =~= Seq::<Seq<char>>::empty());
        g
    }

    fn close_quote(&mut self)
        ensures
            final(self)@ == close_quote(old(self)@),
    {
        let t = self.take_token();
        if self.in_or.len() > 0 {
            push_term(&mut self.in_or, t);
            let g = self.take_in_or();
            if self.negated {
                push_group(&mut self.result.negated_quotes_or, g);
            } else {
                push_group(&mut self.result.quotes_or, g);
            }
        } else if self.negated {
            push_term(&mut self.result.negated_quotes, t);
        } else {
            push_term(&mut self.result.quotes, t);
        }
        assert(self.in_or.deep_view() =~= Seq::<Seq<char>>::empty());
        self.quoted = false;
        self.negated = false;
    }

    fn pipe_split(&mut self, next: Option<char>)
        ensures
            final(self)@ == pipe_split(old(self)@, next),
    {
        let malformed = match next {
            None => true,
            Some(n) => n == ' ',
        };
        let t = self.take_token();
        push_term(&mut self.in_or, t);
        if malformed && self.in_or.len() > 1 {
            let g = self.take_in_or();
            if self.negated {
                push_group(&mut self.result.negated_simples_or, g);
            } else {
                push_group(&mut self.result.simples_or, g);
            }
        } else if malformed && self.in_or.len() == 1 {
            let first = self.in_or[0].clone();
            let _ = self.take_in_or();
            if self.negated {
                push_term(&mut self.result.negated_simples, first);
            } else {
                push_term(&mut self.result.simples, first);
            }
        }
    }

    fn end_group(&mut self)
        ensures
            final(self)@ == end_group(old(self)@),
    {
        let t = self.take_token();
        push_term(&mut self.in_or, t);
        let g = self.take_in_or();
        if self.negated {
            push_group(&mut self.result.negated_simples_or, g);
        } else {
            push_group(&mut self.result.simples_or, g);
        }
        self.negated = false;
    }

    fn end_term(&mut self)
        ensures
            final(self)@ == end_term(old(self)@),
    {
        let t = self.take_token();
        if self.negated {
            push_term(&mut self.result.negated_simples, t);
        } else {
            push_term(&mut self.result.simples, t);
        }
        self.negated = false;
    }

    fn step(&mut self, c: char, next: Option<char>)
        ensures
            final(self)@ == scan_step(old(self)@, c, next),
    {
        self.negated = self.negated || c == '-';
        let not_pipe_next = match next {
            None => true,
            Some(n) => n != '|',
        };
        if self.quoted && c == '"' && not_pipe_next {
            self.close_quote();
            return ;
        }
        if self.quoted && c == '"' {
            let t = self.take_token();
            push_term(&mut self.in_or, t);
            self.quoted = false;
            return ;
        }
        if !self.quoted && c == '|' && !self.token.as_str().is_empty() {
            self.pipe_split(next);
        }
        self.quoted = self.quoted || c == '"';
        if (c != '-' && c != '"' && c != '|' && c != ' ') || (c == ' ' && self.quoted) || (c == '|'
            && self.quoted) {
            self.token.push(c);
        }
        let ends = (c == ' ' || next.is_none()) && !self.quoted;
        if ends && self.in_or.len() > 0 {
            self.end_group();
        } else if ends && !self.token.as_str().is_empty() {
            self.end_term();
        }
    }
}

/// Splits a search string into plain terms, negated terms (`-term`), quoted
/// phrases (`"a phrase"`) and groups of alternatives (`a|b`, `"x y"|"z"`).
pub fn parse_query(query: &str) -> (r: Query)
    ensures
        r@ == parse_query_spec(query@),
        query_well_formed(r@),
{
    let cs = chars_of(query);
    let mut sc = Scanner {
        result: Query::default(),
        token: String::new(),
        in_or: Vec::new(),
        quoted: false,
        negated: false,
    };
    assert(sc.in_or.deep_view() =~= Seq::<Seq<char>>::empty());
    let mut i: usize = 0;
    while i < cs.len()
        invariant
            i <= cs.len(),
            cs@ == query@,
            scan_from(cs@, 0, scan_start()) == scan_from(cs@, i as int, sc@),
        decreases cs.len() - i,
    {
        let next = if i + 1 < cs.len() {
            Some(cs[i + 1])
        } else {
            None
        };
        assert(next == next_char(cs@, i as int));
        sc.step(cs[i], next);
        i = i + 1;
    }
    proof {
        lemma_parsed_query_well_formed(query@);
    }
    sc.result
}


/// The characters that a `LIKE` pattern escapes with a backslash.
pub open spec fn like_special(c: char) -> bool {
    c == '\\' || c == '%' || c == '_' || c == '^' || c == '[' || c == ']' || c == '-'
}

/// `s` with a backslash before every special character.
pub open spec fn escape_spec(s: Seq<char>) -> Seq<char>
    decreases s.len(),
{
    if s.len() == 0 {
        s
    } else if like_special(s[0]) {
        seq!['\\', s[0]] + escape_spec(s.drop_first())
    } else {
        seq![s[0]] + escape_spec(s.drop_first())
    }
}

/// `s` with the backslash of every escaped character dropped.
pub open spec fn unescape_spec(s: Seq<char>) -> Seq<char>
    decreases s.len(),
{
    if s.len() == 0 {
        s
    } else if s[0] == '\\' && s.len() >= 2 {
        seq![s[1]] + unescape_spec(s.skip(2))
    } else {
        seq![s[0]] + unescape_spec(s.drop_first())
    }
}

/// Escaping a term never loses it: removing the escapes gives the term back.
pub proof fn lemma_unescape_escape(s: Seq<char>)
    ensures
        unescape_spec(escape_spec(s)) == s,
    decreases s.len(),
{
    if s.len() > 0 {
        lemma_unescape_escape(s.drop_first());
        let e = escape_spec(s.drop_first());
        if like_special(s[0]) {
            let t = seq!['\\', s[0]] + e;
            assert(t.skip(2) =~= e);
            assert(t[1] == s[0]);
        } else {
            let t = seq![s[0]] + e;
            assert(t.drop_first() =~= e);
        }
        assert(seq![s[0]] + s.drop_first() =~= s);
    }
}

/// Escapes the characters `\ % _ ^ [ ] -` of a term for a `LIKE` pattern
/// whose escape character is a backslash.
pub fn escape_query(query: &str) -> (r: String)
    ensures
        r@ == escape_spec(query@),
        unescape_spec(r@) == query@,
{
    let cs = chars_of(query);
    let mut r = String::new();
    let mut i: usize = 0;
    assert(cs@.skip(0) =~= cs@);
    while i < cs.len()
        invariant
            i <= cs.len(),
            cs@ == query@,
            escape_spec(cs@) == r@ + escape_spec(cs@.skip(i as int)),
        decreases cs.len() - i,
    {
        let c = cs[i];
        assert(cs@.skip(i as int).drop_first() =~= cs@.skip(i + 1));
        assert(cs@.skip(i as int)[0] == c);
        let ghost r0 = r@;
        if c == '\\' || c == '%' || c == '_' || c == '^' || c == '[' || c == ']' || c == '-' {
            r.push('\\');
            r.push(c);
            assert(r0 + (seq!['\\', c] + escape_spec(cs@.skip(i + 1))) =~= r@ + escape_spec(
                cs@.skip(i + 1),
            ));
        } else {
            r.push(c);
            assert(r0 + (seq![c] + escape_spec(cs@.skip(i + 1))) =~= r@ + escape_spec(
                cs@.skip(i + 1),
            ));
        }
        i = i + 1;
    }
    assert(cs@.skip(i as int) =~= Seq::<char>::empty());
    assert(r@ + Seq::<char>::empty() =~= r@);
    proof {
        lemma_unescape_escape(query@);
    }
    r
}

/// The `LIKE` pattern that matches a title containing the term.
pub open spec fn like_pattern(t: Seq<char>) -> Seq<char> {
    seq!['%'] + escape_spec(t) + seq!['%']
}

/// One filter of a search: the title matches (or, when negated, does not
/// match) at least one of the patterns.
#[derive(Debug)]
pub struct SearchCondition {
    pub patterns: Vec<String>,
    pub negated: bool,
}

/// The mathematical model of a [`SearchCondition`].
pub struct ConditionV {
    pub patterns: Seq<Seq<char>>,
    pub negated: bool,
}

impl View for SearchCondition {
    type V = ConditionV;

    open spec fn view(&self) -> ConditionV {
        ConditionV { patterns: self.patterns.deep_view(), negated: self.negated }
    }
}

/// One condition for each single term.
pub open spec fn single_conditions(ts: Seq<Seq<char>>, negated: bool) -> Seq<ConditionV> {
    Seq::new(ts.len(), |i: int| ConditionV { patterns: seq![like_pattern(ts[i])], negated })
}

/// One condition for each group of alternatives.
pub open spec fn group_conditions(gs: Seq<Seq<Seq<char>>>, negated: bool) -> Seq<ConditionV> {
    Seq::new(
        gs.len(),
        |i: int| ConditionV { patterns: gs[i].map_values(|t: Seq<char>| like_pattern(t)), negated },
    )
}

/// The filters of a search, in the order in which they are applied.
pub open spec fn search_conditions_spec(q: QueryV) -> Seq<ConditionV> {
    single_conditions(q.quotes, false) + single_conditions(q.negated_quotes, true)
        + single_conditions(q.simples, false) + single_conditions(q.negated_simples, true)
        + group_conditions(q.simples_or, false) + group_conditions(q.negated_simples_or, true)
        + group_conditions(q.quotes_or, false) + group_conditions(q.negated_quotes_or, true)
}

/// Every condition has at least one pattern.
pub open spec fn all_nonempty(cs: Seq<ConditionV>) -> bool {
    forall|i: int| 0 <= i < cs.len() ==> (#[trigger] cs[i]).patterns.len() >= 1
}

proof fn lemma_all_nonempty_concat(a: Seq<ConditionV>, b: Seq<ConditionV>)
    requires
        all_nonempty(a),
        all_nonempty(b),
    ensures
        all_nonempty(a + b),
{
    assert forall|i: int| 0 <= i < (a + b).len() implies (#[trigger] (a + b)[i]).patterns.len()
        >= 1 by {
        if i < a.len() {
            assert((a + b)[i] == a[i]);
        } else {
            assert((a + b)[i] == b[i - a.len()]);
        }
    }
}

proof fn lemma_groups_nonempty(gs: Seq<Seq<Seq<char>>>, negated: bool)
    requires
        forall|i: int| 0 <= i < gs.len() ==> group_ok(#[trigger] gs[i]),
    ensures
        all_nonempty(group_conditions(gs, negated)),
{
    let c = group_conditions(gs, negated);
    assert forall|i: int| 0 <= i < c.len() implies (#[trigger] c[i]).patterns.len() >= 1 by {
        assert(group_ok(gs[i]));
    }
}

/// Every filter of a well-formed query has at least one pattern.
pub proof fn lemma_conditions_nonempty(q: QueryV)
    requires
        query_well_formed(q),
    ensures
        all_nonempty(search_conditions_spec(q)),
{
    let s1 = single_conditions(q.quotes, false);
    let s2 = single_conditions(q.negated_quotes, true);
    let s3 = single_conditions(q.simples, false);
    let s4 = single_conditions(q.negated_simples, true);
    let g1 = group_conditions(q.simples_or, false);
    let g2 = group_conditions(q.negated_simples_or, true);
    let g3 = group_conditions(q.quotes_or, false);
    let g4 = group_conditions(q.negated_quotes_or, true);
    assert(all_nonempty(s1));
    assert(all_nonempty(s2));
    assert(all_nonempty(s3));
    assert(all_nonempty(s4));
    lemma_groups_nonempty(q.simples_or, false);
    lemma_groups_nonempty(q.negated_simples_or, true);
    lemma_groups_nonempty(q.quotes_or, false);
    lemma_groups_nonempty(q.negated_quotes_or, true);
    lemma_all_nonempty_concat(s1, s2);
    lemma_all_nonempty_concat(s1 + s2, s3);
    lemma_all_nonempty_concat(s1 + s2 + s3, s4);
    lemma_all_nonempty_concat(s1 + s2 + s3 + s4, g1);
    lemma_all_nonempty_concat(s1 + s2 + s3 + s4 + g1, g2);
    lemma_all_nonempty_concat(s1 + s2 + s3 + s4 + g1 + g2, g3);
    lemma_all_nonempty_concat(s1 + s2 + s3 + s4 + g1 + g2 + g3, g4);
}

fn like_pattern_exec(t: &String) -> (r: String)
    ensures
        r@ == like_pattern(t@),
{
    let e = escape_query(t.as_str());
    let mut r = String::new();
    r.push('%');
    crate::text::push_str_chars(&mut r, e.as_str());
    r.push('%');
    assert(r@ =~= like_pattern(t@));
    r
}

fn add_singles(out: &mut Vec<SearchCondition>, ts: &Vec<String>, negated: bool)
    ensures
        final(out)@.map_values(|c: SearchCondition| c@) == old(out)@.map_values(
            |c: SearchCondition| c@,
        ) + single_conditions(ts.deep_view(), negated),
{
    let ghost start = old(out)@.map_values(|c: SearchCondition| c@);
    let mut i: usize = 0;
    while i < ts.len()
        invariant
            i <= ts.len(),
            out@.map_values(|c: SearchCondition| c@) == start + single_conditions(
                ts.deep_view(),
                negated,
            ).take(i as int),
        decreases ts.len() - i,
    {
        let p = like_pattern_exec(&ts[i]);
        let mut ps: Vec<String> = Vec::new();
        ps.push(p);
        let cond = SearchCondition { patterns: ps, negated };
        assert(cond@.patterns =~= seq![like_pattern(ts.deep_view()[i as int])]);
        let ghost before = out@.map_values(|c: SearchCondition| c@);
        out.push(cond);
        assert(out@.map_values(|c: SearchCondition| c@) =~= before.push(cond@));
        assert(single_conditions(ts.deep_view(), negated).take(i + 1) =~= single_conditions(
            ts.deep_view(),
            negated,
        ).take(i as int).push(cond@));
        i = i + 1;
    }
    assert(single_conditions(ts.deep_view(), negated).take(i as int) =~= single_conditions(
        ts.deep_view(),
        negated,
    ));
}

fn add_groups(out: &mut Vec<SearchCondition>, gs: &Vec<Vec<String>>, negated: bool)
    ensures
        final(out)@.map_values(|c: SearchCondition| c@) == old(out)@.map_values(
            |c: SearchCondition| c@,
        ) + group_conditions(gs.deep_view(), negated),
{
    let ghost start = old(out)@.map_values(|c: SearchCondition| c@);
    let mut i: usize = 0;
    while i < gs.len()
        invariant
            i <= gs.len(),
            out@.map_values(|c: SearchCondition| c@) == start + group_conditions(
                gs.deep_view(),
                negated,
            ).take(i as int),
        decreases gs.len() - i,
    {
        let g = &gs[i];
        let mut ps: Vec<String> = Vec::new();
        let mut j: usize = 0;
        while j < g.len()
            invariant
                j <= g.len(),
                ps.deep_view() == g.deep_view().map_values(|t: Seq<char>| like_pattern(t)).take(
                    j as int,
                ),
            decreases g.len() - j,
        {
            let p = like_pattern_exec(&g[j]);
            let ghost before = ps.deep_view();
            ps.push(p);
            assert(ps.deep_view() =~= before.push(p@));
            assert(g.deep_view().map_values(|t: Seq<char>| like_pattern(t)).take(j + 1)
                =~= g.deep_view().map_values(|t: Seq<char>| like_pattern(t)).take(j as int).push(
                p@,
            ));
            j = j + 1;
        }
        assert(g.deep_view().map_values(|t: Seq<char>| like_pattern(t)).take(j as int)
            =~= g.deep_view().map_values(|t: Seq<char>| like_pattern(t)));
        let cond = SearchCondition { patterns: ps, negated };
        assert(gs.deep_view()[i as int] == g.deep_view());
        let ghost before = out@.map_values(|c: SearchCondition| c@);
        out.push(cond);
        assert(out@.map_values(|c: SearchCondition| c@) =~= before.push(cond@));
        assert(group_conditions(gs.deep_view(), negated).take(i + 1) =~= group_conditions(
            gs.deep_view(),
            negated,
        ).take(i as int).push(cond@));
        i = i + 1;
    }
    assert(group_conditions(gs.deep_view(), negated).take(i as int) =~= group_conditions(
        gs.deep_view(),
        negated,
    ));
}

/// The filters on torrent titles that a search string asks for: each quoted
/// phrase and plain term is a `LIKE` (or, negated, `NOT LIKE`) filter on
/// `%term%`, and each group of alternatives is one filter whose patterns are
/// joined with `OR`.
pub fn search_conditions(query: &str) -> (r: Vec<SearchCondition>)
    ensures
        r@.map_values(|c: SearchCondition| c@) == search_conditions_spec(parse_query_spec(query@)),
        forall|i: int| 0 <= i < r@.len() ==> (#[trigger] r@[i]).patterns@.len() >= 1,
{
    proof {
        lemma_parsed_query_well_formed(query@);
        lemma_conditions_nonempty(parse_query_spec(query@));
    }
    let q = parse_query(query);
    let mut out: Vec<SearchCondition> = Vec::new();
    assert(out@.map_values(|c: SearchCondition| c@) =~= Seq::<ConditionV>::empty());
    add_singles(&mut out, &q.quotes, false);
    add_singles(&mut out, &q.negated_quotes, true);
    add_singles(&mut out, &q.simples, false);
    add_singles(&mut out, &q.negated_simples, true);
    add_groups(&mut out, &q.simples_or, false);
    add_groups(&mut out, &q.negated_simples_or, true);
    add_groups(&mut out, &q.quotes_or, false);
    add_groups(&mut out, &q.negated_quotes_or, true);
    assert(out@.map_values(|c: SearchCondition| c@) =~= search_conditions_spec(q@));
    assert forall|i: int| 0 <= i < out@.len() implies (#[trigger] out@[i]).patterns@.len() >= 1 by {
        assert(out@.map_values(|c: SearchCondition| c@)[i] == out@[i]@);
    }
    out
}

} // verus!
