//! Query URL building: whitespace sanitization of the query text and the
//! two request URLs (data fetch and query analysis).

use vstd::prelude::*;
use vstd::string::StringExecFns;
use crate::strutil::{is_ws, is_ws_char, chars_of, string_from_chars};

pub mod data;
pub mod analysis;
pub mod fetch;

verus! {

/// The reply of the query-analysis endpoint, as the application decodes it.
pub struct ExplainQuery {
    pub explain_plan: String,
}

/// Every newline replaced by a single space.
pub open spec fn replace_nl(s: Seq<char>) -> Seq<char> {
    s.map_values(|c: char| if c == '\n' { ' ' } else { c })
}

/// Every tab character removed.
pub open spec fn without_tabs(s: Seq<char>) -> Seq<char>
    decreases s.len(),
{
    if s.len() == 0 {
        Seq::empty()
    } else if s[0] == '\t' {
        without_tabs(s.drop_first())
    } else {
        seq![s[0]] + without_tabs(s.drop_first())
    }
}

/// Leading whitespace removed.
pub open spec fn drop_leading_ws(s: Seq<char>) -> Seq<char>
    decreases s.len(),
{
    if s.len() > 0 && is_ws(s[0]) {
        drop_leading_ws(s.drop_first())
    } else {
        s
    }
}

/// Trailing whitespace removed.
pub open spec fn drop_trailing_ws(s: Seq<char>) -> Seq<char>
    decreases s.len(),
{
    if s.len() > 0 && is_ws(s.last()) {
        drop_trailing_ws(s.drop_last())
    } else {
        s
    }
}

/// Leading and trailing whitespace removed.
pub open spec fn trim_ws(s: Seq<char>) -> Seq<char> {
    drop_trailing_ws(drop_leading_ws(s))
}

/// Every run of whitespace collapsed to a single space; `prev_ws` says
/// whether the character just before `s` belonged to a run.
pub open spec fn collapse_ws_from(s: Seq<char>, prev_ws: bool) -> Seq<char>
    decreases s.len(),
{
    if s.len() == 0 {
        Seq::empty()
    } else if is_ws(s[0]) {
        if prev_ws {
            collapse_ws_from(s.drop_first(), true)
        } else {
            seq![' '] + collapse_ws_from(s.drop_first(), true)
        }
    } else {
        seq![s[0]] + collapse_ws_from(s.drop_first(), false)
    }
}

/// The sanitized form of a query text: newlines become spaces, tabs are
/// dropped, the ends are trimmed, and whitespace runs collapse to one space.
pub open spec fn spec_sanitize(q: Seq<char>) -> Seq<char> {
    collapse_ws_from(trim_ws(without_tabs(replace_nl(q))), false)
}

/// Normalizes the whitespace of a query text before it is placed in a URL.
#[verifier::loop_isolation(false)]
pub fn sanitize(q: &str) -> (r: String)
    ensures
        r@ == spec_sanitize(q@),
{
    let cs = chars_of(q);

    // Replace newlines by spaces.
    let mut replaced: Vec<char> = Vec::new();
    let n = cs.len();
    let mut i: usize = 0;
    while i < n
        invariant
            n == cs@.len(),
            i <= n,
            replaced@.len() == i,
            forall|k: int|
                0 <= k < i ==> replaced@[k] == (if cs@[k] == '\n' {
                    ' '
                } else {
                    cs@[k]
                }),
        decreases n - i,
    {
        let c = cs[i];
        if c == '\n' {
            replaced.push(' ');
        } else {
            replaced.push(c);
        }
        i = i + 1;
    }
    assert(replaced@ =~= replace_nl(cs@));

    // Remove tab characters.
    let mut untabbed: Vec<char> = Vec::new();
    proof {
        assert(replaced@.skip(0) =~= replaced@);
        assert(Seq::<char>::empty() + without_tabs(replaced@) =~= without_tabs(replaced@));
    }
    let mut i: usize = 0;
    while i < n
        invariant
            n == replaced@.len(),
            i <= n,
            without_tabs(replaced@) == untabbed@ + without_tabs(replaced@.skip(i as int)),
        decreases n - i,
    {
        proof {
            assert(replaced@.skip(i as int).drop_first() =~= replaced@.skip(i + 1));
        }
        let c = replaced[i];
        if c != '\t' {
            let ghost old_untabbed = untabbed@;
            untabbed.push(c);
            proof {
                assert(old_untabbed + (seq![replaced@[i as int]] + without_tabs(
                    replaced@.skip(i + 1),
                )) =~= untabbed@ + without_tabs(replaced@.skip(i + 1)));
            }
        }
        i = i + 1;
    }
    proof {
        assert(replaced@.skip(n as int) =~= Seq::<char>::empty());
        assert(untabbed@ + Seq::<char>::empty() =~= untabbed@);
    }

    // Trim whitespace at both ends.
    let m = untabbed.len();
    let mut lo: usize = 0;
    while lo < m && is_ws_char(untabbed[lo])
        invariant
            m == untabbed@.len(),
            lo <= m,
            forall|k: int| 0 <= k < lo ==> is_ws(untabbed@[k]),
        decreases m - lo,
    {
        lo = lo + 1;
    }
    let mut hi: usize = m;
    while hi > lo && is_ws_char(untabbed[hi - 1])
        invariant
            m == untabbed@.len(),
            lo <= hi <= m,
            forall|k: int| hi <= k < m ==> is_ws(untabbed@[k]),
        decreases hi,
    {
        hi = hi - 1;
    }
    let mut trimmed: Vec<char> = Vec::new();
    let mut i: usize = lo;
    while i < hi
        invariant
            m == untabbed@.len(),
            lo <= i <= hi <= m,
            trimmed@ == untabbed@.subrange(lo as int, i as int),
        decreases hi - i,
    {
        trimmed.push(untabbed[i]);
        assert(trimmed@ =~= untabbed@.subrange(lo as int, i + 1));
        i = i + 1;
    }
    proof {
        lemma_trim_is_subrange(untabbed@, lo as int, hi as int);
    }

    // Collapse whitespace runs to a single space.
    let t = trimmed.len();
    let mut out: Vec<char> = Vec::new();
    let mut prev_ws = false;
    proof {
        assert(trimmed@.skip(0) =~= trimmed@);
        assert(Seq::<char>::empty() + collapse_ws_from(trimmed@, false) =~= collapse_ws_from(
            trimmed@,
            false,
        ));
    }
    let mut i: usize = 0;
    while i < t
        invariant
            t == trimmed@.len(),
            i <= t,
            collapse_ws_from(trimmed@, false) == out@ + collapse_ws_from(
                trimmed@.skip(i as int),
                prev_ws,
            ),
        decreases t - i,
    {
        proof {
            assert(trimmed@.skip(i as int).drop_first() =~= trimmed@.skip(i + 1));
        }
        let c = trimmed[i];
        if is_ws_char(c) {
            if !prev_ws {
                out.push(' ');
            }
            prev_ws = true;
        } else {
            out.push(c);
            prev_ws = false;
        }
        i = i + 1;
    }
    proof {
        assert(trimmed@.skip(t as int) =~= Seq::<char>::empty());
        assert(out@ + Seq::<char>::empty() =~= out@);
    }
    string_from_chars(&out)
}

/// Dropping the whitespace found at both ends is the same as keeping the
/// subrange between the first and last non-whitespace characters.
proof fn lemma_trim_is_subrange(s: Seq<char>, lo: int, hi: int)
    requires
        0 <= lo <= hi <= s.len(),
        forall|k: int| 0 <= k < lo ==> is_ws(s[k]),
        forall|k: int| hi <= k < s.len() ==> is_ws(s[k]),
        lo < s.len() ==> !is_ws(s[lo]),
        lo < hi ==> !is_ws(s[hi - 1]),
        lo == hi ==> lo == s.len() || !is_ws(s[lo]),
    ensures
        trim_ws(s) == s.subrange(lo, hi),
{
    lemma_drop_leading_is_skip(s, lo);
    let sk = s.skip(lo);
    assert(forall|k: int| hi - lo <= k < sk.len() ==> is_ws(sk[k]));
    lemma_drop_trailing_is_take(sk, hi - lo);
    assert(sk.take(hi - lo) =~= s.subrange(lo, hi));
}

/// Dropping leading whitespace skips exactly the leading whitespace run.
proof fn lemma_drop_leading_is_skip(s: Seq<char>, lo: int)
    requires
        0 <= lo <= s.len(),
        forall|k: int| 0 <= k < lo ==> is_ws(s[k]),
        lo < s.len() ==> !is_ws(s[lo]),
    ensures
        drop_leading_ws(s) == s.skip(lo),
    decreases lo,
{
    if lo == 0 {
        assert(s.skip(0) =~= s);
    } else {
        assert(is_ws(s[0]));
        assert(s.drop_first() =~= s.skip(1));
        lemma_drop_leading_is_skip(s.skip(1), lo - 1);
        assert(s.skip(1).skip(lo - 1) =~= s.skip(lo));
    }
}

/// Dropping trailing whitespace keeps exactly the prefix before the
/// trailing whitespace run.
proof fn lemma_drop_trailing_is_take(s: Seq<char>, hi: int)
    requires
        0 <= hi <= s.len(),
        forall|k: int| hi <= k < s.len() ==> is_ws(s[k]),
        0 < hi ==> !is_ws(s[hi - 1]),
    ensures
        drop_trailing_ws(s) == s.take(hi),
    decreases s.len(),
{
    if s.len() == hi {
        if s.len() > 0 && is_ws(s.last()) {
            assert(false);
        }
        assert(s.take(hi) =~= s);
    } else {
        assert(is_ws(s.last()));
        assert(s.drop_last() =~= s.take(s.len() - 1));
        lemma_drop_trailing_is_take(s.take(s.len() - 1), hi);
        assert(s.take(s.len() - 1).take(hi) =~= s.take(hi));
    }
}

/// Every character of a collapsed text is a space or a non-whitespace
/// character of the input.
proof fn lemma_collapse_chars(s: Seq<char>, prev_ws: bool)
    ensures
        forall|k: int|
            0 <= k < collapse_ws_from(s, prev_ws).len() ==> (collapse_ws_from(s, prev_ws)[k] == ' '
                || !is_ws(collapse_ws_from(s, prev_ws)[k])),
    decreases s.len(),
{
    if s.len() > 0 {
        let rest = s.drop_first();
        lemma_collapse_chars(rest, true);
        lemma_collapse_chars(rest, false);
        let out = collapse_ws_from(s, prev_ws);
        assert forall|k: int| 0 <= k < out.len() implies (out[k] == ' ' || !is_ws(out[k])) by {
            if is_ws(s[0]) && prev_ws {
                assert(out[k] == collapse_ws_from(rest, true)[k]);
            } else if is_ws(s[0]) {
                if k > 0 {
                    assert(out[k] == collapse_ws_from(rest, true)[k - 1]);
                }
            } else {
                if k > 0 {
                    assert(out[k] == collapse_ws_from(rest, false)[k - 1]);
                }
            }
        }
    }
}

/// A collapse that continues a whitespace run never starts with a space.
proof fn lemma_collapse_after_run(s: Seq<char>)
    ensures
        collapse_ws_from(s, true).len() > 0 ==> collapse_ws_from(s, true)[0] != ' ',
    decreases s.len(),
{
    if s.len() > 0 && is_ws(s[0]) {
        lemma_collapse_after_run(s.drop_first());
    }
}

/// A collapsed text never holds two consecutive spaces.
proof fn lemma_collapse_no_double_space(s: Seq<char>, prev_ws: bool)
    ensures
        forall|k: int|
            0 <= k < collapse_ws_from(s, prev_ws).len() - 1 ==> !(#[trigger] collapse_ws_from(
                s,
                prev_ws,
            )[k] == ' ' && collapse_ws_from(s, prev_ws)[k + 1] == ' '),
    decreases s.len(),
{
    if s.len() > 0 {
        let rest = s.drop_first();
        lemma_collapse_no_double_space(rest, true);
        lemma_collapse_no_double_space(rest, false);
        lemma_collapse_after_run(rest);
        let out = collapse_ws_from(s, prev_ws);
        assert forall|k: int| 0 <= k < out.len() - 1 implies !(#[trigger] out[k] == ' ' && out[
            k + 1] == ' ') by {
            if is_ws(s[0]) && prev_ws {
                let tail = collapse_ws_from(rest, true);
                assert(out[k] == tail[k] && out[k + 1] == tail[k + 1]);
            } else if is_ws(s[0]) {
                let tail = collapse_ws_from(rest, true);
                if k == 0 {
                    assert(out[1] == tail[0]);
                } else {
                    assert(out[k] == tail[k - 1] && out[k + 1] == tail[k]);
                }
            } else {
                let tail = collapse_ws_from(rest, false);
                if k == 0 {
                    assert(out[0] == s[0] && !is_ws(s[0]));
                } else {
                    assert(out[k] == tail[k - 1] && out[k + 1] == tail[k]);
                }
            }
        }
    }
}

/// A text whose first character is not whitespace keeps it at the front
/// of its collapse.
proof fn lemma_collapse_first(s: Seq<char>, prev_ws: bool)
    requires
        s.len() > 0,
        !is_ws(s[0]),
    ensures
        collapse_ws_from(s, prev_ws).len() > 0,
        collapse_ws_from(s, prev_ws)[0] == s[0],
{
}

/// A text whose last character is not whitespace keeps it at the end of
/// its collapse.
proof fn lemma_collapse_last(s: Seq<char>, prev_ws: bool)
    requires
        s.len() > 0,
        !is_ws(s.last()),
    ensures
        collapse_ws_from(s, prev_ws).len() > 0,
        collapse_ws_from(s, prev_ws).last() == s.last(),
    decreases s.len(),
{
    let rest = s.drop_first();
    if s.len() == 1 {
        assert(!is_ws(s[0]));
        assert(collapse_ws_from(s, prev_ws) =~= seq![s[0]]);
    } else {
        assert(rest.last() == s.last());
        lemma_collapse_last(rest, true);
        lemma_collapse_last(rest, false);
        if is_ws(s[0]) && !prev_ws {
            let tail = collapse_ws_from(rest, true);
            assert((seq![' '] + tail).last() == tail.last());
        } else if !is_ws(s[0]) {
            let tail = collapse_ws_from(rest, false);
            assert((seq![s[0]] + tail).last() == tail.last());
        }
    }
}

/// What remains after dropping leading whitespace starts with a
/// non-whitespace character.
proof fn lemma_drop_leading_first(s: Seq<char>)
    ensures
        drop_leading_ws(s).len() > 0 ==> !is_ws(drop_leading_ws(s)[0]),
    decreases s.len(),
{
    if s.len() > 0 && is_ws(s[0]) {
        lemma_drop_leading_first(s.drop_first());
    }
}

/// Dropping trailing whitespace keeps a prefix of the text.
proof fn lemma_drop_trailing_prefix(s: Seq<char>)
    ensures
        drop_trailing_ws(s).len() <= s.len(),
        forall|k: int| 0 <= k < drop_trailing_ws(s).len() ==> drop_trailing_ws(s)[k] == s[k],
    decreases s.len(),
{
    if s.len() > 0 && is_ws(s.last()) {
        lemma_drop_trailing_prefix(s.drop_last());
        let dl = s.drop_last();
        assert forall|k: int| 0 <= k < drop_trailing_ws(s).len() implies drop_trailing_ws(s)[k]
            == s[k] by {
            assert(drop_trailing_ws(s)[k] == drop_trailing_ws(dl)[k]);
            assert(drop_trailing_ws(dl)[k] == dl[k]);
            assert(dl[k] == s[k]);
        }
    }
}

/// What remains after dropping trailing whitespace ends with a
/// non-whitespace character.
proof fn lemma_drop_trailing_last(s: Seq<char>)
    ensures
        drop_trailing_ws(s).len() > 0 ==> !is_ws(drop_trailing_ws(s).last()),
    decreases s.len(),
{
    if s.len() > 0 && is_ws(s.last()) {
        lemma_drop_trailing_last(s.drop_last());
    }
}

/// A trimmed text neither starts nor ends with whitespace.
proof fn lemma_trim_ends(s: Seq<char>)
    ensures
        trim_ws(s).len() > 0 ==> !is_ws(trim_ws(s)[0]) && !is_ws(trim_ws(s).last()),
{
    let led = drop_leading_ws(s);
    lemma_drop_leading_first(s);
    lemma_drop_trailing_prefix(led);
    lemma_drop_trailing_last(led);
}

/// However the query text mixes newlines, tabs and runs of spaces, its
/// sanitized form holds no newline or tab, never two consecutive spaces,
/// and neither starts nor ends with a space.
pub proof fn lemma_sanitize_clean(q: Seq<char>)
    ensures
        forall|k: int|
            0 <= k < spec_sanitize(q).len() ==> spec_sanitize(q)[k] != '\n' && spec_sanitize(q)[k]
                != '\t',
        forall|k: int|
            0 <= k < spec_sanitize(q).len() - 1 ==> !(#[trigger] spec_sanitize(q)[k] == ' '
                && spec_sanitize(q)[k + 1] == ' '),
        spec_sanitize(q).len() > 0 ==> spec_sanitize(q)[0] != ' ' && spec_sanitize(q).last() != ' ',
{
    let t = trim_ws(without_tabs(replace_nl(q)));
    lemma_collapse_chars(t, false);
    lemma_collapse_no_double_space(t, false);
    lemma_trim_ends(without_tabs(replace_nl(q)));
    if spec_sanitize(q).len() > 0 {
        assert(t.len() > 0);
        lemma_collapse_first(t, false);
        lemma_collapse_last(t, false);
    }
}

/// The URL of a data fetch for a sanitized query.
pub open spec fn spec_make_query(domain: Seq<char>, dataset: Seq<char>, query: Seq<char>) -> Seq<
    char,
> {
    "https://"@ + domain + "/resource/"@ + dataset + ".csv?$query="@ + spec_sanitize(query)
}

/// Builds the CSV resource URL for a query against a dataset.
pub fn make_query(domain: &str, dataset: &str, query: &str) -> (r: String)
    ensures
        r@ == spec_make_query(domain@, dataset@, query@),
{
    let mut r = String::from_str("https://");
    r.append(domain);
    r.append("/resource/");
    r.append(dataset);
    r.append(".csv?$query=");
    let q = sanitize(query);
    r.append(q.as_str());
    r
}

/// The URL of a query-analysis request for a sanitized query.
pub open spec fn spec_make_analyze_url(
    domain: Seq<char>,
    dataset: Seq<char>,
    query: Seq<char>,
) -> Seq<char> {
    "https://"@ + domain + "/api/views/"@ + dataset + "/query_info?analyze=true&query="@
        + spec_sanitize(query)
}

/// Builds the query-analysis URL for a query against a dataset.
pub fn make_analyze_url(domain: &str, dataset: &str, query: &str) -> (r: String)
    ensures
        r@ == spec_make_analyze_url(domain@, dataset@, query@),
{
    let mut r = String::from_str("https://");
    r.append(domain);
    r.append("/api/views/");
    r.append(dataset);
    r.append("/query_info?analyze=true&query=");
    let q = sanitize(query);
    r.append(q.as_str());
    r
}

} // verus!
