//! Cache key derivation.
//!
//! The key is a deterministic function of the source kind, the source path
//! and the two formatting parameters, joined with a separator.  Style and
//! locale values are escaped so that they never carry a bare separator:
//! `-` is written `%d` and `%` is written `%p`.  An absent style or locale
//! is replaced by the reserved token `%n` before concatenation; escaping
//! never produces a bare `%` followed by `n`, so no present value can
//! collide with an absent one, and distinct logical identities get
//! distinct keys.  The key carries no volatile data: staleness is tracked
//! out of band.
use vstd::prelude::*;

use crate::Source;
use crate::payload::push_char;
use crate::spec_source_path;

verus! {

broadcast use vstd::string::group_string_axioms;

/// The token that tags a source kind in the key.
pub open spec fn kind_token(s: Source) -> Seq<char> {
    match s {
        Source::Bibtex { .. } => ("bibtex")@,
        Source::BibLatex { .. } => ("biblatex")@,
        Source::CslJson { .. } => ("csl-json")@,
    }
}

/// How a character appears inside a style or locale component: the
/// separator and the escape character are written as two-character
/// escapes, every other character stands as itself.
pub open spec fn key_escaped_char(c: char) -> Seq<char> {
    if c == '-' {
        seq!['%', 'd']
    } else if c == '%' {
        seq!['%', 'p']
    } else {
        seq![c]
    }
}

/// A whole component escaped for use inside a key.
pub open spec fn key_escaped(s: Seq<char>) -> Seq<char>
    decreases s.len(),
{
    if s.len() == 0 {
        Seq::empty()
    } else {
        key_escaped(s.drop_last()) + key_escaped_char(s.last())
    }
}

/// The token an optional parameter contributes to the key: the reserved
/// absence token, or the escaped value.
pub open spec fn opt_token(o: Option<Seq<char>>) -> Seq<char> {
    match o {
        None => ("%n")@,
        Some(s) => key_escaped(s),
    }
}

/// The derived key: the four components, separator joined.
pub open spec fn key_spec(
    source: Source,
    style: Option<Seq<char>>,
    locale: Option<Seq<char>>,
) -> Seq<char> {
    kind_token(source) + ("-")@ + spec_source_path(source) + ("-")@ + opt_token(style) + ("-")@
        + opt_token(locale)
}

/// Escape a style or locale component for use inside a key.
pub fn key_escape(s: &str) -> (r: String)
    ensures
        r@ == key_escaped(s@),
{
    let n = s.unicode_len();
    let mut out = String::new();
    let mut i: usize = 0;
    while i < n
        invariant
            i <= n,
            n == s@.len(),
            out@ == key_escaped(s@.take(i as int)),
        decreases n - i,
    {
        let c = s.get_char(i);
        if c == '-' {
            out.append("%d");
            proof {
                reveal_strlit("%d");
                assert(("%d")@ =~= seq!['%', 'd']);
            }
        } else if c == '%' {
            out.append("%p");
            proof {
                reveal_strlit("%p");
                assert(("%p")@ =~= seq!['%', 'p']);
            }
        } else {
            push_char(&mut out, c);
        }
        proof {
            assert(s@.take(i + 1).drop_last() =~= s@.take(i as int));
            assert(s@.take(i + 1).last() == s@[i as int]);
            assert(out@ =~= key_escaped(s@.take(i + 1)));
        }
        i = i + 1;
    }
    proof {
        assert(s@.take(n as int) =~= s@);
    }
    out
}

/// Derive the cache key of a request.
pub fn build_key(source: &Source, style: &Option<String>, locale: &Option<String>) -> (r: String)
    ensures
        r@ == key_spec(*source, crate::opt_view(*style), crate::opt_view(*locale)),
{
    let mut k = String::new();
    match source {
        Source::Bibtex { path } => {
            k.append("bibtex");
            k.append("-");
            k.append(path.as_str());
        },
        Source::BibLatex { path } => {
            k.append("biblatex");
            k.append("-");
            k.append(path.as_str());
        },
        Source::CslJson { path } => {
            k.append("csl-json");
            k.append("-");
            k.append(path.as_str());
        },
    }
    k.append("-");
    match style {
        None => k.append("%n"),
        Some(s) => {
            let escaped = key_escape(s.as_str());
            k.append(escaped.as_str());
        },
    }
    k.append("-");
    match locale {
        None => k.append("%n"),
        Some(s) => {
            let escaped = key_escape(s.as_str());
            k.append(escaped.as_str());
        },
    }
    proof {
        assert(k@ =~= key_spec(*source, crate::opt_view(*style), crate::opt_view(*locale)));
    }
    k
}

/// No separator character occurs in the string.
pub open spec fn sep_free(s: Seq<char>) -> bool {
    forall|i: int| 0 <= i < s.len() ==> s[i] != '-'
}

/// The two sources are of the same kind.
pub open spec fn same_kind(a: Source, b: Source) -> bool {
    match (a, b) {
        (Source::Bibtex { .. }, Source::Bibtex { .. }) => true,
        (Source::BibLatex { .. }, Source::BibLatex { .. }) => true,
        (Source::CslJson { .. }, Source::CslJson { .. }) => true,
        _ => false,
    }
}

/// An escaped component never carries the separator.
proof fn lemma_key_escaped_sep_free(s: Seq<char>)
    ensures
        sep_free(key_escaped(s)),
    decreases s.len(),
{
    if s.len() > 0 {
        lemma_key_escaped_sep_free(s.drop_last());
    }
}

/// An escaped component is at least as long as its source, and empty only
/// for an empty source.
proof fn lemma_key_escaped_len(s: Seq<char>)
    ensures
        key_escaped(s).len() >= s.len(),
    decreases s.len(),
{
    if s.len() > 0 {
        lemma_key_escaped_len(s.drop_last());
    }
}

/// An escaped component never ends with the escape character.
proof fn lemma_key_escaped_last(s: Seq<char>)
    requires
        s.len() > 0,
    ensures
        key_escaped(s).len() > 0,
        key_escaped(s).last() != '%',
{
    lemma_key_escaped_len(s);
}

/// Escaping is injective: the last escape unit can be decoded from the
/// right, because no unit ends with the escape character.
proof fn lemma_key_escaped_injective(a: Seq<char>, b: Seq<char>)
    requires
        key_escaped(a) == key_escaped(b),
    ensures
        a == b,
    decreases a.len() + b.len(),
{
    lemma_key_escaped_len(a);
    lemma_key_escaped_len(b);
    if a.len() == 0 || b.len() == 0 {
        assert(a =~= b);
    } else {
        let x = key_escaped(a);
        let pa = key_escaped(a.drop_last());
        let pb = key_escaped(b.drop_last());
        let ua = key_escaped_char(a.last());
        let ub = key_escaped_char(b.last());
        let two_a = a.last() == '-' || a.last() == '%';
        let two_b = b.last() == '-' || b.last() == '%';
        if two_a && !two_b {
            assert(x[x.len() - 2] == '%');
            assert(ub =~= seq![b.last()]);
            if b.len() == 1 {
                assert(x.len() == 1);
            } else {
                lemma_key_escaped_last(b.drop_last());
                assert(x[x.len() - 2] == pb.last());
            }
            assert(false);
        }
        if two_b && !two_a {
            assert(x[x.len() - 2] == '%');
            assert(ua =~= seq![a.last()]);
            if a.len() == 1 {
                assert(x.len() == 1);
            } else {
                lemma_key_escaped_last(a.drop_last());
                assert(x[x.len() - 2] == pa.last());
            }
            assert(false);
        }
        if two_a && two_b {
            assert(x.last() == ua[1]);
            assert(x.last() == ub[1]);
            assert(a.last() == b.last());
            assert(pa =~= x.take(x.len() - 2));
            assert(pb =~= x.take(x.len() - 2));
        } else {
            assert(a.last() == x.last());
            assert(b.last() == x.last());
            assert(pa =~= x.take(x.len() - 1));
            assert(pb =~= x.take(x.len() - 1));
        }
        lemma_key_escaped_injective(a.drop_last(), b.drop_last());
        assert(a =~= a.drop_last().push(a.last()));
        assert(b =~= b.drop_last().push(b.last()));
    }
}

/// The reserved absence token is out of escaping's range: in an escaped
/// component the escape character is always followed by `d` or `p`, never
/// by `n`, so no value's escape equals the token.
proof fn lemma_sentinel_unreachable(s: Seq<char>)
    ensures
        key_escaped(s) != ("%n")@,
{
    reveal_strlit("%n");
    let t = ("%n")@;
    if key_escaped(s) == t {
        lemma_key_escaped_len(s);
        assert(s.len() > 0);
        let p = key_escaped(s.drop_last());
        let u = key_escaped_char(s.last());
        if s.last() == '-' || s.last() == '%' {
            assert(p.len() == 0);
            assert(t[1] == u[1]);
            assert(false);
        } else {
            assert(u =~= seq![s.last()]);
            assert(p.len() == 1);
            assert(s.drop_last().len() > 0);
            lemma_key_escaped_last(s.drop_last());
            assert(t[0] == p[0]);
            assert(p.last() == p[0]);
            assert(false);
        }
    }
}

/// Appending a separator-free tail after a separator can be undone: the
/// prefixes and the tails agree.
proof fn lemma_sep_right_cancel(a: Seq<char>, b: Seq<char>, c: Seq<char>, d: Seq<char>)
    requires
        a + ("-")@ + b == c + ("-")@ + d,
        sep_free(b),
        sep_free(d),
    ensures
        a == c,
        b == d,
{
    reveal_strlit("-");
    let x = a + ("-")@ + b;
    let y = c + ("-")@ + d;
    assert(x.len() == a.len() + 1 + b.len());
    assert(y.len() == c.len() + 1 + d.len());
    if b.len() < d.len() {
        let i = a.len() as int;
        assert(x[i] == ("-")@[0]);
        let j = i - c.len() - 1;
        assert(0 <= j < d.len());
        assert(y[i] == d[j]);
        assert(false);
    }
    if d.len() < b.len() {
        let i = c.len() as int;
        assert(y[i] == ("-")@[0]);
        let j = i - a.len() - 1;
        assert(0 <= j < b.len());
        assert(x[i] == b[j]);
        assert(false);
    }
    assert(b.len() == d.len());
    assert(a.len() == c.len());
    assert forall|i: int| 0 <= i < b.len() implies b[i] == d[i] by {
        assert(x[a.len() + 1 + i] == b[i]);
        assert(y[c.len() + 1 + i] == d[i]);
    }
    assert(b =~= d);
    assert forall|i: int| 0 <= i < a.len() implies a[i] == c[i] by {
        assert(x[i] == a[i]);
        assert(y[i] == c[i]);
    }
    assert(a =~= c);
}

/// The token of any parameter is separator free.
proof fn lemma_token_sep_free(o: Option<Seq<char>>)
    ensures
        sep_free(opt_token(o)),
{
    match o {
        None => {
            reveal_strlit("%n");
            assert forall|i: int| 0 <= i < ("%n")@.len() implies ("%n")@[i] != '-' by {
                reveal_strlit("%n");
            }
        },
        Some(s) => {
            lemma_key_escaped_sep_free(s);
        },
    }
}

/// Equal tokens come from equal parameters.
proof fn lemma_param_token_injective(o1: Option<Seq<char>>, o2: Option<Seq<char>>)
    requires
        opt_token(o1) == opt_token(o2),
    ensures
        o1 == o2,
{
    if o1 is None && o2 is Some {
        lemma_sentinel_unreachable(o2->0);
        assert(false);
    }
    if o1 is Some && o2 is None {
        lemma_sentinel_unreachable(o1->0);
        assert(false);
    }
    if o1 is Some && o2 is Some {
        lemma_key_escaped_injective(o1->0, o2->0);
    }
}

/// Equal kind-and-path prefixes come from the same kind and equal paths.
proof fn lemma_kind_path_injective(s1: Source, s2: Source)
    requires
        kind_token(s1) + ("-")@ + spec_source_path(s1) == kind_token(s2) + ("-")@
            + spec_source_path(s2),
    ensures
        same_kind(s1, s2),
        spec_source_path(s1) == spec_source_path(s2),
{
    reveal_strlit("bibtex");
    reveal_strlit("biblatex");
    reveal_strlit("csl-json");
    reveal_strlit("-");
    let k1 = kind_token(s1);
    let k2 = kind_token(s2);
    let p1 = spec_source_path(s1);
    let p2 = spec_source_path(s2);
    let x = k1 + ("-")@ + p1;
    let y = k2 + ("-")@ + p2;
    if !same_kind(s1, s2) {
        // each pair of distinct kind tokens differs within both: at index
        // three for the two BibTeX flavours, at index zero otherwise
        assert(x[0] == k1[0]);
        assert(y[0] == k2[0]);
        assert(x[3] == k1[3]);
        assert(y[3] == k2[3]);
        assert(false);
    }
    assert(k1 == k2);
    assert(x.len() == k1.len() + 1 + p1.len());
    assert(y.len() == k2.len() + 1 + p2.len());
    assert(p1.len() == p2.len());
    assert forall|i: int| 0 <= i < p1.len() implies p1[i] == p2[i] by {
        assert(x[k1.len() + 1 + i] == p1[i]);
        assert(y[k2.len() + 1 + i] == p2[i]);
    }
    assert(p1 =~= p2);
}

/// Law: the key is injective on the logical request identity.  Two
/// requests whose derived keys are equal agree on source kind, source
/// path, style and locale.
pub proof fn lemma_key_injective(
    s1: Source,
    st1: Option<Seq<char>>,
    l1: Option<Seq<char>>,
    s2: Source,
    st2: Option<Seq<char>>,
    l2: Option<Seq<char>>,
)
    requires
        key_spec(s1, st1, l1) == key_spec(s2, st2, l2),
    ensures
        same_kind(s1, s2),
        spec_source_path(s1) == spec_source_path(s2),
        st1 == st2,
        l1 == l2,
{
    lemma_token_sep_free(st1);
    lemma_token_sep_free(st2);
    lemma_token_sep_free(l1);
    lemma_token_sep_free(l2);
    let a1 = kind_token(s1) + ("-")@ + spec_source_path(s1) + ("-")@ + opt_token(st1);
    let a2 = kind_token(s2) + ("-")@ + spec_source_path(s2) + ("-")@ + opt_token(st2);
    lemma_sep_right_cancel(a1, opt_token(l1), a2, opt_token(l2));
    lemma_param_token_injective(l1, l2);
    let b1 = kind_token(s1) + ("-")@ + spec_source_path(s1);
    let b2 = kind_token(s2) + ("-")@ + spec_source_path(s2);
    lemma_sep_right_cancel(b1, opt_token(st1), b2, opt_token(st2));
    lemma_param_token_injective(st1, st2);
    lemma_kind_path_injective(s1, s2);
}

} // verus!
