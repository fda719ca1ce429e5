//! The processing pipeline: parse, optionally format, merge, serialize.
//!
//! Parsing and citation rendering are outside collaborators, reached
//! through trusted wrappers whose results are named, so that the whole
//! pipeline is a deterministic function of the source text and the
//! formatting parameters.  Merging and serialization are verified here.
use vstd::prelude::*;

use hayagriva::BibliographyDriver;
use hayagriva::BibliographyRequest;
use hayagriva::CitationItem;
use hayagriva::CitationRequest;
use hayagriva::archive::ArchivedStyle;
use hayagriva::archive::locales;
use hayagriva::citationberg::LocaleCode;
use hayagriva::citationberg::Style;

use crate::BibliotecaProcessSourceError;
use crate::opt_view;
use crate::payload::build_payload;
use crate::payload::distinct_keys;
use crate::payload::pair_views;
use crate::payload::payload_json;

verus! {

#[verifier::external_type_specification]
#[verifier::external_body]
pub struct ExLibrary(hayagriva::Library);

/// What a parsed library holds: pairs of entry key and canonical JSON text
/// for the entry's normalized fields, in the library's own entry order —
/// the order the renderer also consumes.
pub uninterp spec fn library_entries(lib: hayagriva::Library) -> Seq<(Seq<char>, Seq<char>)>;

/// What the BibLaTeX parser yields for a source text: the entries of the
/// parsed library, or nothing when the text does not parse.
pub uninterp spec fn biblatex_parse(text: Seq<char>) -> Option<Seq<(Seq<char>, Seq<char>)>>;

/// Whether a style name resolves, through the bundled style archive, to an
/// independently renderable CSL style.
pub uninterp spec fn style_ok(name: Seq<char>) -> bool;

/// Every row is keyed by the key of one of the entries.
pub open spec fn keys_within(
    rows: Seq<(Seq<char>, Seq<char>)>,
    entries: Seq<(Seq<char>, Seq<char>)>,
) -> bool {
    forall|i: int|
        0 <= i < rows.len() ==> exists|j: int|
            0 <= j < entries.len() && #[trigger] rows[i].0 == #[trigger] entries[j].0
}

/// The citation rows the formatter renders for the given entries under the
/// given style and locale: pairs of entry key and rendered citation text.
pub uninterp spec fn citations_of(
    entries: Seq<(Seq<char>, Seq<char>)>,
    style: Seq<char>,
    locale: Option<Seq<char>>,
    strip_ansi: bool,
) -> Seq<(Seq<char>, Seq<char>)>;

/// Relies on hayagriva::io::from_biblatex_str: whether and how a text
/// parses depends on the text alone.
#[verifier::external_body]
fn parse_biblatex(text: &str) -> (r: Result<hayagriva::Library, String>)
    ensures
        (r is Ok) == (biblatex_parse(text@) is Some),
        r matches Ok(lib) ==> biblatex_parse(text@) == Some(library_entries(lib)),
{
    match hayagriva::io::from_biblatex_str(text) {
        Ok(lib) => Ok(lib),
        Err(errors) => Err(format!("{:?}", errors)),
    }
}

/// Relies on hayagriva::Library::iter, which yields the entries in the
/// library's own order, and on serde_json::to_value over each entry with
/// serde_json::Value's canonical text.  Keys are distinct because the
/// library maps each key to one entry.
#[verifier::external_body]
fn entries_json(lib: &hayagriva::Library) -> (r: Vec<(String, String)>)
    ensures
        pair_views(r@) == library_entries(*lib),
        distinct_keys(pair_views(r@)),
{
    let mut out = Vec::new();
    for entry in lib.iter() {
        // an Entry always serializes, so the pattern always matches
        if let Ok(value) = serde_json::to_value(entry) {
            out.push((entry.key().to_string(), value.to_string()));
        }
    }
    out
}

/// Relies on hayagriva::archive::ArchivedStyle::by_name: whether a name
/// resolves, through the bundled archive, to an independent style depends
/// on the name alone.
#[verifier::external_body]
fn probe_style(style_name: &str) -> (r: bool)
    ensures
        r == style_ok(style_name@),
{
    match ArchivedStyle::by_name(style_name).map(|s| s.get()) {
        Some(Style::Independent(_)) => true,
        _ => false,
    }
}

/// Relies on hayagriva's BibliographyDriver: rendering depends on the
/// entries, the style name, the locale and the ANSI flag alone, and every
/// rendered row is keyed by the key of one of the library's entries.
/// Under the requires the name resolves to an independent style, so the
/// fallback arm never runs.
#[verifier::external_body]
fn render_citations(lib: &hayagriva::Library, style_name: &str, locale: &Option<String>, strip_ansi: bool) -> (rows: Vec<
    (String, String),
>)
    requires
        style_ok(style_name@),
    ensures
        pair_views(rows@) == citations_of(
            library_entries(*lib),
            style_name@,
            crate::opt_view(*locale),
            strip_ansi,
        ),
        keys_within(pair_views(rows@), library_entries(*lib)),
{
    let Some(Style::Independent(style)) = ArchivedStyle::by_name(style_name).map(|s| s.get())
        else { return Vec::new() };
    let files = locales();
    let mut driver = BibliographyDriver::new();
    for entry in lib.iter() {
        driver.citation(CitationRequest::from_items(vec![CitationItem::with_entry(entry)], &style, &files));
    }
    let code = locale.clone().map(LocaleCode);
    let rendered = driver.finish(BibliographyRequest { style: &style, locale: code, locale_files: &files });
    let mut rows = Vec::new();
    for row in rendered.bibliography.map(|b| b.items).unwrap_or_default() {
        rows.push((row.key, if strip_ansi { format!("{:#}", row.content) } else { format!("{}", row.content) }));
    }
    rows
}

/// The parsed entries of a source text, as key and JSON text pairs.
pub fn entries_of_contents(text: &str) -> (r: Result<
    Vec<(String, String)>,
    BibliotecaProcessSourceError,
>)
    ensures
        (r is Ok) == (biblatex_parse(text@) is Some),
        r matches Ok(v) ==> Some(pair_views(v@)) == biblatex_parse(text@),
        r matches Ok(v) ==> distinct_keys(pair_views(v@)),
        r matches Err(e) ==> e is SourceContentError,
{
    match parse_biblatex(text) {
        Ok(lib) => Ok(entries_json(&lib)),
        Err(m) => Err(BibliotecaProcessSourceError::SourceContentError(m)),
    }
}

/// The payload computed for a source text: the entries, merged with the
/// rendered citations when a style was requested, serialized.
pub open spec fn processed_payload(
    entries: Seq<(Seq<char>, Seq<char>)>,
    style: Option<Seq<char>>,
    locale: Option<Seq<char>>,
) -> Seq<char> {
    match style {
        None => payload_json(entries, None),
        Some(name) => payload_json(entries, Some(citations_of(entries, name, locale, false))),
    }
}

/// Process a source text: parse it, render citations when a style is
/// requested, merge, and serialize.  Succeeds exactly when the text parses
/// and the requested style, if any, resolves; the payload is a function of
/// the text, the style and the locale alone.
pub fn process_contents(text: &str, style: &Option<String>, locale: &Option<String>) -> (r: Result<
    String,
    BibliotecaProcessSourceError,
>)
    ensures
        (r is Ok) == (biblatex_parse(text@) is Some && (match *style {
            Some(s) => style_ok(s@),
            None => true,
        })),
        r matches Ok(p) ==> (biblatex_parse(text@) matches Some(es) && p@ == processed_payload(
            es,
            opt_view(*style),
            opt_view(*locale),
        )),
        r matches Err(e) ==> (match e {
            BibliotecaProcessSourceError::SourceContentError(_) => biblatex_parse(text@) is None,
            BibliotecaProcessSourceError::StyleError(_) => biblatex_parse(text@) is Some && (
            *style matches Some(s) && !style_ok(s@)),
            _ => false,
        }),
{
    let lib = match parse_biblatex(text) {
        Ok(l) => l,
        Err(m) => {
            return Err(BibliotecaProcessSourceError::SourceContentError(m));
        },
    };
    let entries = entries_json(&lib);
    let cits: Option<Vec<(String, String)>> = match style {
        None => None,
        Some(name) => {
            if !probe_style(name.as_str()) {
                let mut m = String::from_str("unknown or dependent style: ");
                m.append(name.as_str());
                return Err(BibliotecaProcessSourceError::StyleError(m));
            }
            Some(render_citations(&lib, name.as_str(), locale, false))
        },
    };
    Ok(build_payload(&entries, &cits))
}

/// Render the whole source text as a bibliography under a required style.
pub fn bibliography_of_contents(
    text: &str,
    style_name: &String,
    locale: &Option<String>,
    strip_ansi: bool,
) -> (r: Result<Vec<(String, String)>, BibliotecaProcessSourceError>)
    ensures
        (r is Ok) == (biblatex_parse(text@) is Some && style_ok(style_name@)),
        r matches Ok(v) ==> (biblatex_parse(text@) matches Some(es) && pair_views(v@)
            == citations_of(es, style_name@, opt_view(*locale), strip_ansi)),
        r matches Ok(v) ==> (biblatex_parse(text@) matches Some(es) && keys_within(
            pair_views(v@),
            es,
        )),
        r matches Err(e) ==> (match e {
            BibliotecaProcessSourceError::SourceContentError(_) => biblatex_parse(text@) is None,
            BibliotecaProcessSourceError::StyleError(_) => biblatex_parse(text@) is Some
                && !style_ok(style_name@),
            _ => false,
        }),
{
    let lib = match parse_biblatex(text) {
        Ok(l) => l,
        Err(m) => {
            return Err(BibliotecaProcessSourceError::SourceContentError(m));
        },
    };
    if !probe_style(style_name.as_str()) {
        let mut m = String::from_str("unknown or dependent style: ");
        m.append(style_name.as_str());
        return Err(BibliotecaProcessSourceError::StyleError(m));
    }
    Ok(render_citations(&lib, style_name.as_str(), locale, strip_ansi))
}

/// Law: processing is deterministic.  Two runs over the same source text
/// with the same requested style and locale yield byte-identical payloads.
pub proof fn lemma_process_deterministic(
    text: Seq<char>,
    style: Option<Seq<char>>,
    locale: Option<Seq<char>>,
    p1: Seq<char>,
    p2: Seq<char>,
)
    requires
        biblatex_parse(text) matches Some(es1) && p1 == processed_payload(es1, style, locale),
        biblatex_parse(text) matches Some(es2) && p2 == processed_payload(es2, style, locale),
    ensures
        p1 == p2,
{
}

} // verus!
