//! Character-level text utilities: white-space classification, trimming,
//! line splitting, and the derivation of a buffer's title and preview.
use vstd::prelude::*;
use vstd::std_specs::iter::IteratorSpec;
use vstd::string::StrSliceExecFns;

verus! {

broadcast use vstd::string::group_string_axioms;

/// Largest number of characters kept of a title or preview line.
pub const TITLE_MAX_CHARS: usize = 100;

/// The Unicode white-space characters, the set `char::is_whitespace` accepts.
pub open spec fn is_ws(c: char) -> bool {
    let u = c as u32;
    u == 0x20 || (0x09 <= u && u <= 0x0D) || u == 0x85 || u == 0xA0 || u == 0x1680 || (0x2000
        <= u && u <= 0x200A) || u == 0x2028 || u == 0x2029 || u == 0x202F || u == 0x205F || u
        == 0x3000
}

/// Executable white-space test matching `is_ws`.
pub fn is_ws_char(c: char) -> (r: bool)
    ensures
        r == is_ws(c),
{
    let u = c as u32;
    u == 0x20 || (0x09 <= u && u <= 0x0D) || u == 0x85 || u == 0xA0 || u == 0x1680 || (0x2000
        <= u && u <= 0x200A) || u == 0x2028 || u == 0x2029 || u == 0x202F || u == 0x205F || u
        == 0x3000
}

/// A sequence is blank when every character is white space.
pub open spec fn is_blank(l: Seq<char>) -> bool {
    forall|i: int| 0 <= i < l.len() ==> is_ws(#[trigger] l[i])
}

/// Collects the characters of `s` into a vector with the same view.
pub fn chars_vec(s: &str) -> (v: Vec<char>)
    ensures
        v@ == s@,
{
    let mut it = s.chars();
    let mut v: Vec<char> = Vec::new();
    loop
        invariant
            it.obeys_prophetic_iter_laws(),
            v@.len() <= s@.len(),
            v@ == s@.take(v@.len() as int),
            it.remaining() == s@.skip(v@.len() as int),
        decreases s@.len() - v@.len(),
    {
        match it.next() {
            Some(c) => {
                proof {
                    assert(s@.skip(v@.len() as int)[0] == s@[v@.len() as int]);
                }
                v.push(c);
                proof {
                    assert(v@ =~= s@.take(v@.len() as int));
                    assert(it.remaining() =~= s@.skip(v@.len() as int));
                }
            },
            None => {
                proof {
                    assert(v@ =~= s@);
                }
                return v;
            },
        }
    }
}

/// Leading white space removed.
pub open spec fn trim_front(l: Seq<char>) -> Seq<char>
    decreases l.len(),
{
    if l.len() > 0 && is_ws(l[0]) {
        trim_front(l.drop_first())
    } else {
        l
    }
}

/// Trailing white space removed.
pub open spec fn trim_back(l: Seq<char>) -> Seq<char>
    decreases l.len(),
{
    if l.len() > 0 && is_ws(l.last()) {
        trim_back(l.drop_last())
    } else {
        l
    }
}

/// White space removed from both ends, as `str::trim` does.
pub open spec fn trim_spec(l: Seq<char>) -> Seq<char> {
    trim_back(trim_front(l))
}

/// At most the first `TITLE_MAX_CHARS` characters.
pub open spec fn clip(l: Seq<char>) -> Seq<char> {
    if l.len() <= TITLE_MAX_CHARS as int {
        l
    } else {
        l.take(TITLE_MAX_CHARS as int)
    }
}

proof fn lemma_trim_front_is_skip(l: Seq<char>, k: int)
    requires
        0 <= k <= l.len(),
        forall|i: int| 0 <= i < k ==> is_ws(#[trigger] l[i]),
        k < l.len() ==> !is_ws(l[k]),
    ensures
        trim_front(l) == l.skip(k),
    decreases k,
{
    if k == 0 {
        assert(l.skip(0) =~= l);
    } else {
        lemma_trim_front_is_skip(l.drop_first(), k - 1);
        assert(l.drop_first().skip(k - 1) =~= l.skip(k));
    }
}

proof fn lemma_trim_back_is_take(l: Seq<char>, m: int)
    requires
        0 <= m <= l.len(),
        forall|i: int| m <= i < l.len() ==> is_ws(#[trigger] l[i]),
        m > 0 ==> !is_ws(l[m - 1]),
    ensures
        trim_back(l) == l.take(m),
    decreases l.len(),
{
    if m == l.len() {
        if l.len() > 0 && is_ws(l.last()) {
            assert(!is_ws(l[m - 1]));
            assert(false);
        } else {
            assert(l.take(m) =~= l);
        }
    } else {
        lemma_trim_back_is_take(l.drop_last(), m);
        assert(l.drop_last().take(m) =~= l.take(m));
    }
}

/// `trim_spec` of a subrange, characterised by the first and last non-white
/// positions.
proof fn lemma_trim_is_subrange(l: Seq<char>, f: int, g: int)
    requires
        0 <= f <= g <= l.len(),
        forall|i: int| 0 <= i < f ==> is_ws(#[trigger] l[i]),
        forall|i: int| g <= i < l.len() ==> is_ws(#[trigger] l[i]),
        f < g ==> !is_ws(l[f]) && !is_ws(l[g - 1]),
        f == g ==> f == l.len(),
    ensures
        trim_spec(l) == l.subrange(f, g),
{
    if f == g {
        lemma_trim_front_is_skip(l, l.len() as int);
        assert(trim_front(l) =~= Seq::<char>::empty());
        assert(trim_back(Seq::<char>::empty()) =~= Seq::<char>::empty());
        assert(l.subrange(f, g) =~= Seq::<char>::empty());
    } else {
        lemma_trim_front_is_skip(l, f);
        let t = l.skip(f);
        lemma_trim_back_is_take(t, g - f);
        assert(t.take(g - f) =~= l.subrange(f, g));
    }
}

/// Trims `v[a..b]` and clips it to the title length, returning the matching
/// substring of `s`; exact over `trim_spec` and `clip`.
pub fn clip_trim_substring(s: &str, v: &Vec<char>, a: usize, b: usize) -> (t: String)
    requires
        v@ == s@,
        a <= b <= v@.len(),
    ensures
        t@ == clip(trim_spec(s@.subrange(a as int, b as int))),
{
    let ghost l = s@.subrange(a as int, b as int);
    let mut f: usize = a;
    while f < b && is_ws_char(v[f])
        invariant
            a <= f <= b <= v@.len(),
            v@ == s@,
            forall|i: int| a <= i < f ==> is_ws(#[trigger] s@[i]),
        decreases b - f,
    {
        f = f + 1;
    }
    let mut g: usize = b;
    while g > f && is_ws_char(v[g - 1])
        invariant
            a <= f <= g <= b <= v@.len(),
            v@ == s@,
            forall|i: int| g <= i < b ==> is_ws(#[trigger] s@[i]),
        decreases g,
    {
        g = g - 1;
    }
    proof {
        if f == g && f < b {
            // The first scan stopped on a non-white character, which the
            // second scan cannot have skipped past.
            assert(!is_ws(s@[f as int]));
            assert(is_ws(s@[f as int]));
        }
        lemma_trim_is_subrange(l, f - a, g - a);
        assert(l.subrange(f - a, g - a) =~= s@.subrange(f as int, g as int));
    }
    let to: usize = if g - f > TITLE_MAX_CHARS {
        f + TITLE_MAX_CHARS
    } else {
        g
    };
    proof {
        if g - f > TITLE_MAX_CHARS {
            assert(s@.subrange(f as int, g as int).take(TITLE_MAX_CHARS as int) =~= s@.subrange(
                f as int,
                to as int,
            ));
        }
    }
    let piece = s.substring_char(f, to);
    piece.to_owned()
}

/// Whether `s` is empty or all white space, as `s.trim().is_empty()` tests.
#[verifier::loop_isolation(false)]
pub fn str_is_blank(s: &str) -> (r: bool)
    ensures
        r == is_blank(s@),
{
    let v = chars_vec(s);
    let n = v.len();
    let mut i: usize = 0;
    while i < n
        invariant
            i <= n,
            forall|k: int| 0 <= k < i ==> is_ws(#[trigger] s@[k]),
        decreases n - i,
    {
        if !is_ws_char(v[i]) {
            proof {
                assert(!is_ws(s@[i as int]));
            }
            return false;
        }
        i = i + 1;
    }
    true
}

/// Whether `v` starts with the characters of `p`.
#[verifier::loop_isolation(false)]
pub fn has_prefix(v: &Vec<char>, p: &str) -> (r: bool)
    ensures
        r == (v@.len() >= p@.len() && v@.take(p@.len() as int) == p@),
{
    let pv = chars_vec(p);
    let m = pv.len();
    if v.len() < m {
        return false;
    }
    let mut j: usize = 0;
    while j < m
        invariant
            j <= m,
            forall|i: int| 0 <= i < j ==> v@[i] == p@[i],
        decreases m - j,
    {
        if v[j] != pv[j] {
            proof {
                if v@.take(m as int) == p@ {
                    assert(v@.take(m as int)[j as int] == v@[j as int]);
                }
            }
            return false;
        }
        j = j + 1;
    }
    proof {
        assert(v@.take(m as int) =~= p@);
    }
    true
}

/// Whether `v` ends with the characters of `p`.
#[verifier::loop_isolation(false)]
pub fn has_suffix(v: &Vec<char>, p: &str) -> (r: bool)
    ensures
        r == (v@.len() >= p@.len() && v@.skip(v@.len() - p@.len()) == p@),
{
    let pv = chars_vec(p);
    let m = pv.len();
    if v.len() < m {
        return false;
    }
    let o = v.len() - m;
    let mut j: usize = 0;
    while j < m
        invariant
            j <= m,
            forall|i: int| 0 <= i < j ==> v@[o + i] == p@[i],
        decreases m - j,
    {
        if v[o + j] != pv[j] {
            proof {
                if v@.skip(o as int) == p@ {
                    assert(v@.skip(o as int)[j as int] == v@[o + j]);
                }
            }
            return false;
        }
        j = j + 1;
    }
    proof {
        assert(v@.skip(o as int) =~= p@);
    }
    true
}

/// A carriage return standing immediately before a line break is dropped,
/// as `str::lines` does.
pub open spec fn strip_cr(l: Seq<char>) -> Seq<char> {
    if l.len() > 0 && l.last() == '\r' {
        l.drop_last()
    } else {
        l
    }
}

/// The lines still to come when `rest` remains to be read and `cur` holds the
/// characters of the current line read so far. Matches `str::lines`: lines are
/// separated by `'\n'`, a `'\r'` before the separator is dropped, and a final
/// line break opens no empty last line.
pub open spec fn lines_from(rest: Seq<char>, cur: Seq<char>) -> Seq<Seq<char>>
    decreases rest.len(),
{
    if rest.len() == 0 {
        if cur.len() == 0 {
            Seq::empty()
        } else {
            seq![cur]
        }
    } else if rest[0] == '\n' {
        seq![strip_cr(cur)] + lines_from(rest.drop_first(), Seq::empty())
    } else {
        lines_from(rest.drop_first(), cur.push(rest[0]))
    }
}

/// The lines of `s`, as `str::lines` yields them.
pub open spec fn lines_of(s: Seq<char>) -> Seq<Seq<char>> {
    lines_from(s, Seq::empty())
}

/// A line counts for the title or preview only when it is not blank.
pub open spec fn nonblank(l: Seq<char>) -> bool {
    !is_blank(l)
}

/// The lines that are not blank, in order; stated over an arbitrary line
/// sequence so loop invariants can speak of a prefix of the lines.
pub open spec fn keep_nonblank(ls: Seq<Seq<char>>) -> Seq<Seq<char>> {
    ls.filter(|l: Seq<char>| nonblank(l))
}

/// The non-blank lines of `s`, in order.
pub open spec fn nonblank_lines(s: Seq<char>) -> Seq<Seq<char>> {
    keep_nonblank(lines_of(s))
}

/// The title derived from a buffer's content: its first non-blank line,
/// trimmed and clipped, or `"Untitled"` when there is none.
pub open spec fn title_of(s: Seq<char>) -> Seq<char> {
    if nonblank_lines(s).len() == 0 {
        "Untitled"@
    } else {
        clip(trim_spec(nonblank_lines(s)[0]))
    }
}

/// The preview derived from a buffer's content: its second non-blank line,
/// trimmed and clipped, or empty when there is none.
pub open spec fn preview_of(s: Seq<char>) -> Seq<char> {
    if nonblank_lines(s).len() <= 1 {
        Seq::empty()
    } else {
        clip(trim_spec(nonblank_lines(s)[1]))
    }
}

proof fn lemma_keep_nonblank_push(ls: Seq<Seq<char>>, l: Seq<char>)
    ensures
        keep_nonblank(ls.push(l)) == if nonblank(l) {
            keep_nonblank(ls).push(l)
        } else {
            keep_nonblank(ls)
        },
{
    reveal(Seq::filter);
    assert(ls.push(l).drop_last() == ls) by {
        assert(ls.push(l).drop_last() =~= ls);
    }
    assert(ls.push(l).last() == l);
}

proof fn lemma_blank_push(x: Seq<char>, c: char)
    ensures
        is_blank(x.push(c)) == (is_blank(x) && is_ws(c)),
{
    let y = x.push(c);
    if is_blank(x) && is_ws(c) {
        assert forall|i: int| 0 <= i < y.len() implies is_ws(#[trigger] y[i]) by {
            if i < x.len() {
                assert(y[i] == x[i]);
            } else {
                assert(y[i] == c);
            }
        }
    }
    if is_blank(y) {
        assert forall|i: int| 0 <= i < x.len() implies is_ws(#[trigger] x[i]) by {
            assert(x[i] == y[i]);
        }
        assert(is_ws(y[x.len() as int]));
    }
}

/// Derives the title and preview from a buffer's content: title and preview
/// are the first and second non-blank lines, each trimmed and clipped to
/// `TITLE_MAX_CHARS` characters, with `"Untitled"` and the empty string as
/// the fallbacks.
pub fn extract_title_preview(content: &str) -> (r: (String, String))
    ensures
        r.0@ == title_of(content@),
        r.1@ == preview_of(content@),
{
    let v = chars_vec(content);
    let n = v.len();
    let mut i: usize = 0;
    let mut line_start: usize = 0;
    let mut cur_blank: bool = true;
    let mut first: Option<(usize, usize)> = None;
    let mut second: Option<(usize, usize)> = None;
    let ghost mut done: Seq<Seq<char>> = Seq::empty();
    proof {
        reveal(Seq::filter);
        assert(content@.skip(0) =~= content@);
        assert(content@.subrange(0, 0) =~= Seq::<char>::empty());
        assert(done + lines_of(content@) =~= lines_of(content@));
        assert(keep_nonblank(done).len() == 0);
    }
    while i < n
        invariant
            v@ == content@,
            n == v@.len(),
            line_start <= i <= n,
            cur_blank == is_blank(content@.subrange(line_start as int, i as int)),
            lines_of(content@) == done + lines_from(
                content@.skip(i as int),
                content@.subrange(line_start as int, i as int),
            ),
            (keep_nonblank(done).len() == 0) == (first is None),
            first matches Some(p) ==> p.0 <= p.1 <= n && keep_nonblank(done).len() >= 1
                && content@.subrange(p.0 as int, p.1 as int) == keep_nonblank(done)[0],
            (keep_nonblank(done).len() <= 1) == (second is None),
            second matches Some(p) ==> p.0 <= p.1 <= n && keep_nonblank(done).len() >= 2
                && content@.subrange(p.0 as int, p.1 as int) == keep_nonblank(done)[1],
        decreases n - i,
    {
        let c = v[i];
        let ghost cur = content@.subrange(line_start as int, i as int);
        let ghost rest = content@.skip(i as int);
        proof {
            assert(rest[0] == content@[i as int]);
            assert(rest.drop_first() =~= content@.skip(i as int + 1));
        }
        if c == '\n' {
            let end = if i > line_start && v[i - 1] == '\r' {
                i - 1
            } else {
                i
            };
            let ghost line = content@.subrange(line_start as int, end as int);
            proof {
                if i > line_start && content@[i as int - 1] == '\r' {
                    assert(cur =~= line.push('\r'));
                    lemma_blank_push(line, '\r');
                } else {
                    assert(strip_cr(cur) == cur);
                }
                assert(strip_cr(cur) == line);
                assert(is_blank(line) == cur_blank);
                assert(done + lines_from(rest, cur) =~= done.push(line) + lines_from(
                    content@.skip(i as int + 1),
                    Seq::<char>::empty(),
                ));
                lemma_keep_nonblank_push(done, line);
            }
            if !cur_blank {
                if first.is_none() {
                    first = Some((line_start, end));
                } else if second.is_none() {
                    second = Some((line_start, end));
                }
            }
            proof {
                done = done.push(line);
            }
            line_start = i + 1;
            cur_blank = true;
            proof {
                assert(content@.subrange(i as int + 1, i as int + 1)
                    =~= Seq::<char>::empty());
            }
        } else {
            cur_blank = cur_blank && is_ws_char(c);
            proof {
                assert(content@.subrange(line_start as int, i as int + 1) =~= cur.push(
                    content@[i as int],
                ));
                lemma_blank_push(cur, content@[i as int]);
            }
        }
        i = i + 1;
    }
    let ghost cur = content@.subrange(line_start as int, n as int);
    proof {
        assert(content@.skip(n as int) =~= Seq::<char>::empty());
    }
    if line_start < n {
        proof {
            assert(lines_from(Seq::<char>::empty(), cur) == seq![cur]);
            assert(done + seq![cur] =~= done.push(cur));
            lemma_keep_nonblank_push(done, cur);
        }
        if !cur_blank {
            if first.is_none() {
                first = Some((line_start, n));
            } else if second.is_none() {
                second = Some((line_start, n));
            }
        }
        proof {
            done = done.push(cur);
        }
    } else {
        proof {
            assert(cur =~= Seq::<char>::empty());
            assert(done + lines_from(Seq::<char>::empty(), cur) =~= done);
        }
    }
    proof {
        assert(done == lines_of(content@));
        assert(keep_nonblank(done) == nonblank_lines(content@));
    }
    let title = match first {
        Some(p) => clip_trim_substring(content, &v, p.0, p.1),
        None => "Untitled".to_owned(),
    };
    let preview = match second {
        Some(p) => clip_trim_substring(content, &v, p.0, p.1),
        None => String::new(),
    };
    (title, preview)
}

} // verus!
