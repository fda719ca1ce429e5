//! Memoized bibliography processing.
//!
//! A bibliographic source file (BibTeX/BibLaTeX) is turned into a JSON
//! payload that holds, per entry, the normalized entry fields and an
//! optional CSL-rendered citation.  The expensive conversion is memoized in
//! a content-addressable on-disk store keyed by a deterministic cache key;
//! staleness is decided by comparing the source file's modification time
//! with the time the cache entry was stored.
use vstd::prelude::*;

pub mod cachekey;
pub mod disk;
pub mod payload;
pub mod pipeline;
pub mod process;
pub mod store;

verus! {

/// A bibliographic source file, tagged with its format.
#[derive(Debug, Clone)]
pub enum Source {
    Bibtex { path: String },
    BibLatex { path: String },
    CslJson { path: String },
}

/// Formatting parameters for rendering a bibliography.
#[derive(Debug, Clone)]
pub struct BibliographyConfig {
    pub csl_style: String,
    pub csl_locale: Option<String>,
    pub strip_ansi: bool,
}

/// A request to render a whole source file as a bibliography.
#[derive(Debug, Clone)]
pub struct SourceBibliographyRequest {
    pub source: Source,
    pub bibliography_config: BibliographyConfig,
}

/// Everything that can go wrong while processing a source.
#[derive(Debug, Clone)]
pub enum BibliotecaProcessSourceError {
    /// The source file could not be read or statted.
    SourceIoError(String),
    /// The source file's content did not parse.
    SourceContentError(String),
    /// The requested CSL style is unknown or not independently renderable.
    StyleError(String),
    /// The cache store could not be read from or written to.
    StoreIoError(String),
    /// The source kind has no implemented parser.
    Unsupported,
    /// Anything else.
    Unknown,
}

/// The path carried by a source, whatever its kind.
pub open spec fn spec_source_path(s: Source) -> Seq<char> {
    match s {
        Source::Bibtex { path } => path@,
        Source::BibLatex { path } => path@,
        Source::CslJson { path } => path@,
    }
}

impl Source {
    /// The path of the source file.
    pub fn path(&self) -> (r: &String)
        ensures
            r@ == spec_source_path(*self),
    {
        match self {
            Source::Bibtex { path } => path,
            Source::BibLatex { path } => path,
            Source::CslJson { path } => path,
        }
    }
}

/// The view of an optional string.
pub open spec fn opt_view(o: Option<String>) -> Option<Seq<char>> {
    match o {
        None => None,
        Some(s) => Some(s@),
    }
}

/// What an error describes, as text.
pub open spec fn error_message(e: BibliotecaProcessSourceError) -> Seq<char> {
    match e {
        BibliotecaProcessSourceError::SourceIoError(m) => ("cannot read from source: ")@ + m@,
        BibliotecaProcessSourceError::SourceContentError(m) => ("source content invalid: ")@ + m@,
        BibliotecaProcessSourceError::StyleError(m) => ("style not renderable: ")@ + m@,
        BibliotecaProcessSourceError::StoreIoError(m) => ("cache store failure: ")@ + m@,
        BibliotecaProcessSourceError::Unsupported => ("unsupported source kind")@,
        BibliotecaProcessSourceError::Unknown => ("unknown error")@,
    }
}

impl BibliotecaProcessSourceError {
    /// Describe the error as text.
    pub fn message(&self) -> (r: String)
        ensures
            r@ == error_message(*self),
    {
        match self {
            BibliotecaProcessSourceError::SourceIoError(m) => {
                let mut s = String::from_str("cannot read from source: ");
                s.append(m.as_str());
                s
            },
            BibliotecaProcessSourceError::SourceContentError(m) => {
                let mut s = String::from_str("source content invalid: ");
                s.append(m.as_str());
                s
            },
            BibliotecaProcessSourceError::StyleError(m) => {
                let mut s = String::from_str("style not renderable: ");
                s.append(m.as_str());
                s
            },
            BibliotecaProcessSourceError::StoreIoError(m) => {
                let mut s = String::from_str("cache store failure: ");
                s.append(m.as_str());
                s
            },
            BibliotecaProcessSourceError::Unsupported => String::from_str(
                "unsupported source kind",
            ),
            BibliotecaProcessSourceError::Unknown => String::from_str("unknown error"),
        }
    }
}

/// The normalized per-entry JSON of a source file: pairs of entry key and
/// the entry's canonical JSON text.
pub fn source_to_json(source: &Source) -> (r: Result<
    Vec<(String, String)>,
    BibliotecaProcessSourceError,
>)
    ensures
        source is CslJson ==> (r matches Err(e) && e is Unsupported),
        (r matches Err(e) && e is Unsupported) ==> source is CslJson,
        r matches Ok(v) ==> exists|text: Seq<char>|
            #[trigger] pipeline::biblatex_parse(text) == Some(payload::pair_views(v@)),
        r matches Ok(v) ==> payload::distinct_keys(payload::pair_views(v@)),
        r matches Err(e) ==> (e is Unsupported || e is SourceIoError || e is SourceContentError),
{
    match source {
        Source::CslJson { .. } => {
            return Err(BibliotecaProcessSourceError::Unsupported);
        },
        _ => {},
    }
    let text = match disk::read_source_text(source.path().as_str()) {
        Ok(t) => t,
        Err(m) => {
            return Err(BibliotecaProcessSourceError::SourceIoError(m));
        },
    };
    let r = pipeline::entries_of_contents(text.as_str());
    proof {
        if r is Ok {
            assert(pipeline::biblatex_parse(text@) == Some(payload::pair_views(r->Ok_0@)));
        }
    }
    r
}

/// The rendered bibliography of a source file under the requested style:
/// pairs of entry key and rendered citation text.
pub fn source_to_bibliography(request: &SourceBibliographyRequest) -> (r: Result<
    Vec<(String, String)>,
    BibliotecaProcessSourceError,
>)
    ensures
        request.source is CslJson ==> (r matches Err(e) && e is Unsupported),
        (r matches Err(e) && e is Unsupported) ==> request.source is CslJson,
        r matches Ok(v) ==> exists|text: Seq<char>|
            #[trigger] pipeline::biblatex_parse(text) matches Some(es) && payload::pair_views(v@)
                == pipeline::citations_of(
                es,
                request.bibliography_config.csl_style@,
                opt_view(request.bibliography_config.csl_locale),
                request.bibliography_config.strip_ansi,
            ) && pipeline::keys_within(payload::pair_views(v@), es),
        r matches Ok(v) ==> pipeline::style_ok(request.bibliography_config.csl_style@),
        (r matches Err(e) && e is StyleError) ==> !pipeline::style_ok(
            request.bibliography_config.csl_style@,
        ),
        r matches Err(e) ==> (e is Unsupported || e is SourceIoError || e is SourceContentError
            || e is StyleError),
{
    match &request.source {
        Source::CslJson { .. } => {
            return Err(BibliotecaProcessSourceError::Unsupported);
        },
        _ => {},
    }
    let text = match disk::read_source_text(request.source.path().as_str()) {
        Ok(t) => t,
        Err(m) => {
            return Err(BibliotecaProcessSourceError::SourceIoError(m));
        },
    };
    let r = pipeline::bibliography_of_contents(
        text.as_str(),
        &request.bibliography_config.csl_style,
        &request.bibliography_config.csl_locale,
        request.bibliography_config.strip_ansi,
    );
    proof {
        if r is Ok {
            assert(pipeline::biblatex_parse(text@) matches Some(es) && payload::pair_views(
                r->Ok_0@,
            ) == pipeline::citations_of(
                es,
                request.bibliography_config.csl_style@,
                opt_view(request.bibliography_config.csl_locale),
                request.bibliography_config.strip_ansi,
            ));
        }
    }
    r
}

} // verus!
