//! Sanitisation of raw search input into full-text index query syntax:
//! quote characters are doubled, the input is split on white space, and each
//! term is individually quoted and suffixed with the prefix-wildcard marker.
use vstd::prelude::*;
use vstd::string::StrSliceExecFns;
use vstd::string::StringExecFns;
use crate::text::{chars_vec, is_blank, is_ws, is_ws_char};

verus! {

/// Every `"` doubled, all other characters kept.
pub open spec fn escape_quotes(s: Seq<char>) -> Seq<char>
    decreases s.len(),
{
    if s.len() == 0 {
        Seq::empty()
    } else {
        (if s[0] == '"' {
            seq!['"', '"']
        } else {
            seq![s[0]]
        }) + escape_quotes(s.drop_first())
    }
}

/// The maximal white-space-free runs still to come when `rest` remains to be
/// read and `cur` holds the run read so far: what `str::split_whitespace`
/// yields.
pub open spec fn tokens_from(rest: Seq<char>, cur: Seq<char>) -> Seq<Seq<char>>
    decreases rest.len(),
{
    if rest.len() == 0 {
        if cur.len() == 0 {
            Seq::empty()
        } else {
            seq![cur]
        }
    } else if is_ws(rest[0]) {
        (if cur.len() == 0 {
            Seq::empty()
        } else {
            seq![cur]
        }) + tokens_from(rest.drop_first(), Seq::empty())
    } else {
        tokens_from(rest.drop_first(), cur.push(rest[0]))
    }
}

/// The white-space-separated tokens of `s`.
pub open spec fn tokens_of(s: Seq<char>) -> Seq<Seq<char>> {
    tokens_from(s, Seq::empty())
}

/// One term quoted and given the prefix-wildcard marker.
pub open spec fn wrap_term(t: Seq<char>) -> Seq<char> {
    seq!['"'] + t + seq!['"', '*']
}

/// The wrapped terms joined with single spaces.
pub open spec fn join_terms(ts: Seq<Seq<char>>) -> Seq<char>
    decreases ts.len(),
{
    if ts.len() == 0 {
        Seq::empty()
    } else if ts.len() == 1 {
        wrap_term(ts[0])
    } else {
        join_terms(ts.drop_last()) + seq![' '] + wrap_term(ts.last())
    }
}

/// The full-text query built from the raw input `q`.
pub open spec fn fts_query_of(q: Seq<char>) -> Seq<char> {
    join_terms(tokens_of(escape_quotes(q)))
}

/// Law: a blank input builds the empty index query — white space alone never
/// reaches the index.
pub proof fn lemma_blank_query_is_empty(q: Seq<char>)
    requires
        is_blank(q),
    ensures
        fts_query_of(q) == Seq::<char>::empty(),
{
    lemma_escape_no_quote(q);
    assert(escape_quotes(q) == q) by {
        assert(forall|i: int| 0 <= i < q.len() ==> (#[trigger] q[i]) != '"');
    }
    lemma_tokens_of_blank(q);
}

proof fn lemma_tokens_of_blank(s: Seq<char>)
    requires
        is_blank(s),
    ensures
        tokens_from(s, Seq::empty()) == Seq::<Seq<char>>::empty(),
    decreases s.len(),
{
    if s.len() > 0 {
        assert(is_ws(s[0]));
        assert(is_blank(s.drop_first())) by {
            assert(forall|i: int|
                0 <= i < s.drop_first().len() ==> #[trigger] s.drop_first()[i] == s[i + 1]);
        }
        lemma_tokens_of_blank(s.drop_first());
        assert(Seq::<Seq<char>>::empty() + Seq::<Seq<char>>::empty()
            =~= Seq::<Seq<char>>::empty());
    }
}

proof fn lemma_escape_distributes(a: Seq<char>, b: Seq<char>)
    ensures
        escape_quotes(a + b) == escape_quotes(a) + escape_quotes(b),
    decreases a.len(),
{
    if a.len() == 0 {
        assert(a + b =~= b);
        assert(escape_quotes(a) + escape_quotes(b) =~= escape_quotes(b));
    } else {
        assert((a + b).drop_first() =~= a.drop_first() + b);
        assert((a + b)[0] == a[0]);
        lemma_escape_distributes(a.drop_first(), b);
        let h = if a[0] == '"' {
            seq!['"', '"']
        } else {
            seq![a[0]]
        };
        assert(h + (escape_quotes(a.drop_first()) + escape_quotes(b)) =~= (h + escape_quotes(
            a.drop_first(),
        )) + escape_quotes(b));
    }
}

proof fn lemma_escape_no_quote(s: Seq<char>)
    requires
        forall|i: int| 0 <= i < s.len() ==> (#[trigger] s[i]) != '"',
    ensures
        escape_quotes(s) == s,
    decreases s.len(),
{
    if s.len() > 0 {
        lemma_escape_no_quote(s.drop_first());
        assert(seq![s[0]] + s.drop_first() =~= s);
    }
}

/// Doubles every quote character of `q`, whose characters `v` holds.
#[verifier::loop_isolation(false)]
fn escape_input(q: &str, v: &Vec<char>) -> (e: String)
    requires
        v@ == q@,
    ensures
        e@ == escape_quotes(q@),
{
    proof {
        reveal_strlit("\"\"");
    }
    let n = v.len();
    let mut e = String::new();
    let mut run_start: usize = 0;
    let mut i: usize = 0;
    proof {
        assert(q@.take(0) =~= Seq::<char>::empty());
    }
    while i < n
        invariant
            run_start <= i <= n,
            e@ == escape_quotes(q@.take(run_start as int)),
            forall|k: int| run_start <= k < i ==> (#[trigger] q@[k]) != '"',
        decreases n - i,
    {
        if v[i] == '"' {
            let run = q.substring_char(run_start, i);
            e.append(run);
            e.append("\"\"");
            proof {
                let pre = q@.take(run_start as int);
                let mid = q@.subrange(run_start as int, i as int);
                let quo = q@.subrange(i as int, i + 1);
                assert(q@.take(i + 1) =~= (pre + mid) + quo);
                lemma_escape_distributes(pre + mid, quo);
                lemma_escape_distributes(pre, mid);
                lemma_escape_no_quote(mid);
                assert(quo[0] == '"');
                assert(quo.drop_first() =~= Seq::<char>::empty());
                assert(escape_quotes(Seq::<char>::empty()) == Seq::<char>::empty());
                assert(escape_quotes(quo) =~= seq!['"', '"']);
                assert("\"\""@ =~= seq!['"', '"']);
                assert(e@ =~= escape_quotes(q@.take(i + 1)));
            }
            run_start = i + 1;
        }
        i = i + 1;
    }
    let run = q.substring_char(run_start, n);
    e.append(run);
    proof {
        let pre = q@.take(run_start as int);
        let mid = q@.subrange(run_start as int, n as int);
        assert(q@ =~= pre + mid);
        lemma_escape_distributes(pre, mid);
        lemma_escape_no_quote(mid);
        assert(e@ =~= escape_quotes(q@));
    }
    e
}

/// Builds the index query for the raw input `q`: quotes doubled, split on
/// white space, every term quoted with a prefix wildcard, joined with spaces.
/// Blank input gives the empty query.
#[verifier::loop_isolation(false)]
pub fn build_fts_query(q: &str) -> (r: String)
    ensures
        r@ == fts_query_of(q@),
{
    proof {
        reveal_strlit("\"");
        reveal_strlit("\"*");
        reveal_strlit(" ");
    }
    let v = chars_vec(q);
    let e = escape_input(q, &v);
    let ev = chars_vec(e.as_str());
    let n = ev.len();
    let mut out = String::new();
    let mut emitted = false;
    let mut tok_start: usize = 0;
    let mut i: usize = 0;
    let ghost mut toks: Seq<Seq<char>> = Seq::empty();
    proof {
        assert(e@.skip(0) =~= e@);
        assert(e@.subrange(0, 0) =~= Seq::<char>::empty());
        assert(toks + tokens_of(e@) =~= tokens_of(e@));
    }
    while i < n
        invariant
            ev@ == e@,
            n == e@.len(),
            tok_start <= i <= n,
            forall|k: int| tok_start <= k < i ==> !is_ws(#[trigger] e@[k]),
            tokens_of(e@) == toks + tokens_from(
                e@.skip(i as int),
                e@.subrange(tok_start as int, i as int),
            ),
            out@ == join_terms(toks),
            emitted == (toks.len() > 0),
        decreases n - i,
    {
        let c = ev[i];
        let ghost cur = e@.subrange(tok_start as int, i as int);
        let ghost rest = e@.skip(i as int);
        proof {
            assert(rest[0] == e@[i as int]);
            assert(rest.drop_first() =~= e@.skip(i + 1));
        }
        if is_ws_char(c) {
            if tok_start < i {
                proof {
                    assert(toks + tokens_from(rest, cur) =~= toks.push(cur) + tokens_from(
                        e@.skip(i + 1),
                        Seq::<char>::empty(),
                    ));
                    lemma_join_push(toks, cur);
                }
                if emitted {
                    out.append(" ");
                }
                out.append("\"");
                let piece = e.substring_char(tok_start, i);
                out.append(piece);
                out.append("\"*");
                proof {
                    toks = toks.push(cur);
                    assert(out@ =~= join_terms(toks));
                }
                emitted = true;
            }
            tok_start = i + 1;
            proof {
                assert(e@.subrange(i + 1, i + 1) =~= Seq::<char>::empty());
            }
        } else {
            proof {
                assert(e@.subrange(tok_start as int, i + 1) =~= cur.push(e@[i as int]));
            }
        }
        i = i + 1;
    }
    let ghost cur = e@.subrange(tok_start as int, n as int);
    proof {
        assert(e@.skip(n as int) =~= Seq::<char>::empty());
    }
    if tok_start < n {
        proof {
            assert(tokens_from(Seq::<char>::empty(), cur) == seq![cur]);
            assert(toks + seq![cur] =~= toks.push(cur));
            lemma_join_push(toks, cur);
        }
        if emitted {
            out.append(" ");
        }
        out.append("\"");
        let piece = e.substring_char(tok_start, n);
        out.append(piece);
        out.append("\"*");
        proof {
            toks = toks.push(cur);
            assert(out@ =~= join_terms(toks));
        }
    } else {
        proof {
            assert(cur =~= Seq::<char>::empty());
            assert(toks + tokens_from(Seq::<char>::empty(), cur) =~= toks);
        }
    }
    proof {
        assert(toks == tokens_of(e@));
    }
    out
}

proof fn lemma_join_push(ts: Seq<Seq<char>>, t: Seq<char>)
    ensures
        join_terms(ts.push(t)) == if ts.len() == 0 {
            wrap_term(t)
        } else {
            join_terms(ts) + seq![' '] + wrap_term(t)
        },
{
    let p = ts.push(t);
    if ts.len() == 0 {
        assert(p.len() == 1);
        assert(p[0] == t);
    } else {
        assert(p.drop_last() =~= ts);
        assert(p.last() == t);
    }
}

} // verus!
