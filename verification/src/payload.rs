//! The payload encoding.
//!
//! The processed result of a source file is a JSON object keyed by entry
//! identifier; each value holds the entry's own JSON fields and the
//! optionally rendered citation.  The encoding is fully specified here, so
//! that the payload is a deterministic function of its inputs.
use vstd::prelude::*;

verus! {

broadcast use vstd::string::group_string_axioms;

/// The views of a list of string pairs.
pub open spec fn pair_views(s: Seq<(String, String)>) -> Seq<(Seq<char>, Seq<char>)> {
    s.map_values(|p: (String, String)| (p.0@, p.1@))
}

/// No two pairs share a first component.
pub open spec fn distinct_keys(s: Seq<(Seq<char>, Seq<char>)>) -> bool {
    forall|i: int, j: int| 0 <= i < j < s.len() ==> s[i].0 != s[j].0
}

/// The hexadecimal digit for a value below sixteen.
pub open spec fn hex_digit(n: int) -> char
    recommends
        0 <= n < 16,
{
    if n == 0 { '0' } else if n == 1 { '1' } else if n == 2 { '2' } else if n == 3 { '3' }
    else if n == 4 { '4' } else if n == 5 { '5' } else if n == 6 { '6' } else if n == 7 { '7' }
    else if n == 8 { '8' } else if n == 9 { '9' } else if n == 10 { 'a' } else if n == 11 { 'b' }
    else if n == 12 { 'c' } else if n == 13 { 'd' } else if n == 14 { 'e' } else { 'f' }
}

/// How a single character appears inside a JSON string literal: quotes and
/// backslashes are escaped, control characters use the `\u00XX` form, and
/// every other character stands as itself.
pub open spec fn json_escaped_char(c: char) -> Seq<char> {
    if c == '"' {
        seq!['\\', '"']
    } else if c == '\\' {
        seq!['\\', '\\']
    } else if (c as u32) < 32 {
        seq!['\\', 'u', '0', '0', hex_digit((c as u32) as int / 16), hex_digit((c as u32) as int % 16)]
    } else {
        seq![c]
    }
}

/// A whole string escaped for use inside a JSON string literal.
pub open spec fn json_escaped(s: Seq<char>) -> Seq<char>
    decreases s.len(),
{
    if s.len() == 0 {
        Seq::empty()
    } else {
        json_escaped(s.drop_last()) + json_escaped_char(s.last())
    }
}

/// The hexadecimal digit for a value below sixteen.
fn hex_digit_exec(n: u32) -> (c: char)
    requires
        n < 16,
    ensures
        c == hex_digit(n as int),
{
    if n == 0 { '0' } else if n == 1 { '1' } else if n == 2 { '2' } else if n == 3 { '3' }
    else if n == 4 { '4' } else if n == 5 { '5' } else if n == 6 { '6' } else if n == 7 { '7' }
    else if n == 8 { '8' } else if n == 9 { '9' } else if n == 10 { 'a' } else if n == 11 { 'b' }
    else if n == 12 { 'c' } else if n == 13 { 'd' } else if n == 14 { 'e' } else { 'f' }
}

/// Relies on String::push: it appends exactly the given character.
#[verifier::external_body]
pub(crate) fn push_char(out: &mut String, c: char)
    ensures
        final(out)@ == old(out)@ + seq![c],
{
    out.push(c);
}

/// Escape a string for use inside a JSON string literal.
pub fn json_escape(s: &str) -> (r: String)
    ensures
        r@ == json_escaped(s@),
{
    let n = s.unicode_len();
    let mut out = String::new();
    let mut i: usize = 0;
    while i < n
        invariant
            i <= n,
            n == s@.len(),
            out@ == json_escaped(s@.take(i as int)),
        decreases n - i,
    {
        let c = s.get_char(i);
        if c == '"' {
            out.append("\\\"");
            proof {
                reveal_strlit("\\\"");
                assert(("\\\"")@ =~= seq!['\\', '"']);
            }
        } else if c == '\\' {
            out.append("\\\\");
            proof {
                reveal_strlit("\\\\");
                assert(("\\\\")@ =~= seq!['\\', '\\']);
            }
        } else if (c as u32) < 32 {
            out.append("\\u00");
            let code = c as u32;
            push_char(&mut out, hex_digit_exec(code / 16));
            push_char(&mut out, hex_digit_exec(code % 16));
            proof {
                reveal_strlit("\\u00");
                assert(("\\u00")@ =~= seq!['\\', 'u', '0', '0']);
            }
        } else {
            push_char(&mut out, c);
        }
        proof {
            assert(s@.take(i + 1).drop_last() =~= s@.take(i as int));
            assert(s@.take(i + 1).last() == s@[i as int]);
            assert(out@ =~= json_escaped(s@.take(i + 1)));
        }
        i = i + 1;
    }
    proof {
        assert(s@.take(n as int) =~= s@);
    }
    out
}

/// The first citation recorded for a key, if any.
pub open spec fn cit_lookup(cs: Seq<(Seq<char>, Seq<char>)>, key: Seq<char>) -> Option<Seq<char>>
    decreases cs.len(),
{
    if cs.len() == 0 {
        None
    } else if cs[0].0 == key {
        Some(cs[0].1)
    } else {
        cit_lookup(cs.drop_first(), key)
    }
}

/// The citation chosen for a key: absent when no formatting was requested
/// or when the formatter omitted the key.
pub open spec fn cit_for(cits: Option<Seq<(Seq<char>, Seq<char>)>>, key: Seq<char>) -> Option<
    Seq<char>,
> {
    match cits {
        None => None,
        Some(cs) => cit_lookup(cs, key),
    }
}

/// Law: when no style was requested, the citation chosen for every entry
/// is absent.
pub proof fn lemma_no_style_no_citation(key: Seq<char>)
    ensures
        cit_for(None, key) is None,
{
}

/// Law: under distinct keys, the citation chosen for an entry the
/// formatter returned is exactly the returned text.
pub proof fn lemma_citation_lookup_found(cs: Seq<(Seq<char>, Seq<char>)>, i: int)
    requires
        distinct_keys(cs),
        0 <= i < cs.len(),
    ensures
        cit_lookup(cs, cs[i].0) == Some(cs[i].1),
    decreases cs.len(),
{
    if i > 0 {
        assert(cs[0].0 != cs[i].0);
        assert(distinct_keys(cs.drop_first())) by {
            assert forall|a: int, b: int|
                0 <= a < b < cs.drop_first().len() implies cs.drop_first()[a].0
                != cs.drop_first()[b].0 by {
                assert(cs.drop_first()[a] == cs[a + 1]);
                assert(cs.drop_first()[b] == cs[b + 1]);
            }
        }
        lemma_citation_lookup_found(cs.drop_first(), i - 1);
        assert(cs.drop_first()[i - 1] == cs[i]);
    }
}

/// Law: the citation chosen for an entry the formatter omitted is absent.
pub proof fn lemma_citation_lookup_absent(cs: Seq<(Seq<char>, Seq<char>)>, key: Seq<char>)
    requires
        forall|i: int| 0 <= i < cs.len() ==> cs[i].0 != key,
    ensures
        cit_lookup(cs, key) is None,
    decreases cs.len(),
{
    if cs.len() > 0 {
        assert(forall|i: int|
            0 <= i < cs.drop_first().len() ==> #[trigger] cs.drop_first()[i].0 != key);
        lemma_citation_lookup_absent(cs.drop_first(), key);
    }
}

/// How the optional citation appears in the payload: a JSON string, or null.
pub open spec fn citation_json(c: Option<Seq<char>>) -> Seq<char> {
    match c {
        None => ("null")@,
        Some(t) => seq!['"'] + json_escaped(t) + seq!['"'],
    }
}

/// One member of the payload object.
pub open spec fn payload_item(key: Seq<char>, entry_json: Seq<char>, cit: Option<Seq<char>>) -> Seq<
    char,
> {
    seq!['"'] + json_escaped(key) + ("\":{\"entry\":")@ + entry_json + (
    ",\"csl_formatted_citation\":")@ + citation_json(cit) + seq!['}']
}

/// The members of the payload object, comma separated, in entry order.
pub open spec fn payload_items(
    entries: Seq<(Seq<char>, Seq<char>)>,
    cits: Option<Seq<(Seq<char>, Seq<char>)>>,
) -> Seq<char>
    decreases entries.len(),
{
    if entries.len() == 0 {
        Seq::empty()
    } else {
        let prior = payload_items(entries.drop_last(), cits);
        let item = payload_item(entries.last().0, entries.last().1, cit_for(cits, entries.last().0));
        if entries.len() == 1 {
            item
        } else {
            prior + seq![','] + item
        }
    }
}

/// The full payload: a JSON object keyed by entry identifier.
pub open spec fn payload_json(
    entries: Seq<(Seq<char>, Seq<char>)>,
    cits: Option<Seq<(Seq<char>, Seq<char>)>>,
) -> Seq<char> {
    seq!['{'] + payload_items(entries, cits) + seq!['}']
}

/// Find the first citation stored for a key.
fn lookup_citation<'a>(cs: &'a Vec<(String, String)>, key: &String) -> (r: Option<&'a String>)
    ensures
        match r {
            Some(v) => cit_lookup(pair_views(cs@), key@) == Some(v@),
            None => cit_lookup(pair_views(cs@), key@) is None,
        },
{
    let ghost full = pair_views(cs@);
    proof {
        assert(full.skip(0) =~= full);
    }
    let mut i: usize = 0;
    while i < cs.len()
        invariant
            i <= cs.len(),
            full == pair_views(cs@),
            cit_lookup(full, key@) == cit_lookup(full.skip(i as int), key@),
        decreases cs.len() - i,
    {
        if cs[i].0.eq(key) {
            proof {
                assert(full.skip(i as int)[0] == full[i as int]);
            }
            return Some(&cs[i].1);
        }
        proof {
            assert(full.skip(i as int)[0] == full[i as int]);
            assert(full.skip(i as int).drop_first() =~= full.skip(i + 1));
        }
        i = i + 1;
    }
    proof {
        assert(full.skip(i as int).len() == 0);
    }
    None
}

/// The views of an optional list of string pairs.
pub open spec fn opt_pair_views(o: Option<Vec<(String, String)>>) -> Option<
    Seq<(Seq<char>, Seq<char>)>,
> {
    match o {
        None => None,
        Some(cs) => Some(pair_views(cs@)),
    }
}

/// Serialize the merged mapping: each entry identifier maps to an object
/// holding the entry's own JSON fields and the citation chosen for it.
#[verifier::rlimit(100)]
pub fn build_payload(entries: &Vec<(String, String)>, cits: &Option<Vec<(String, String)>>) -> (r:
    String)
    ensures
        r@ == payload_json(pair_views(entries@), opt_pair_views(*cits)),
{
    let ghost es = pair_views(entries@);
    let ghost gcits: Option<Seq<(Seq<char>, Seq<char>)>> = opt_pair_views(*cits);
    let mut out = String::new();
    out.append("{");
    proof {
        reveal_strlit("{");
        assert(("{")@ =~= seq!['{']);
    }
    let mut i: usize = 0;
    while i < entries.len()
        invariant
            i <= entries.len(),
            es == pair_views(entries@),
            gcits == opt_pair_views(*cits),
            out@ == seq!['{'] + payload_items(es.take(i as int), gcits),
        decreases entries.len() - i,
    {
        if i > 0 {
            out.append(",");
            proof {
                reveal_strlit(",");
                assert((",")@ =~= seq![',']);
            }
        }
        out.append("\"");
        let escaped_key = json_escape(entries[i].0.as_str());
        out.append(escaped_key.as_str());
        out.append("\":{\"entry\":");
        out.append(entries[i].1.as_str());
        out.append(",\"csl_formatted_citation\":");
        match cits {
            None => {
                out.append("null");
            },
            Some(cs) => {
                match lookup_citation(cs, &entries[i].0) {
                    None => {
                        out.append("null");
                    },
                    Some(c) => {
                        out.append("\"");
                        let escaped_cit = json_escape(c.as_str());
                        out.append(escaped_cit.as_str());
                        out.append("\"");
                    },
                }
            },
        }
        out.append("}");
        proof {
            reveal_strlit("\"");
            reveal_strlit("}");
            assert(("\"")@ =~= seq!['"']);
            assert(("}")@ =~= seq!['}']);
            assert(es.take(i + 1).drop_last() =~= es.take(i as int));
            assert(es.take(i + 1).last() == es[i as int]);
            assert(es[i as int].0 == entries@[i as int].0@);
            assert(es[i as int].1 == entries@[i as int].1@);
            assert(out@ =~= seq!['{'] + payload_items(es.take(i + 1), gcits));
        }
        i = i + 1;
    }
    out.append("}");
    proof {
        reveal_strlit("}");
        assert(("}")@ =~= seq!['}']);
        assert(es.take(i as int) =~= es);
        assert(out@ =~= payload_json(es, gcits));
    }
    out
}

} // verus!
