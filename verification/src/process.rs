//! The cache coordinator.
//!
//! A request derives its key, consults the staleness rule, serves from the
//! store when the stored entry is still valid, and otherwise evicts the
//! stale entry, recomputes through the pipeline, persists the fresh
//! payload and returns it.
use vstd::prelude::*;

use crate::BibliotecaProcessSourceError;
use crate::Source;
use crate::cachekey::build_key;
use crate::cachekey::key_spec;
use crate::disk::read_source_text;
use crate::disk::source_mod_millis;
use crate::opt_view;
use crate::pipeline::biblatex_parse;
use crate::pipeline::process_contents;
use crate::pipeline::processed_payload;
use crate::pipeline::style_ok;
use vstd::utf8::encode_utf8;
use vstd::utf8::valid_utf8;
use crate::store::StoreEntryMeta;
use crate::store::StoreReadOutcome;
use crate::store::bytes_to_string;
use crate::store::check_staleness;
use crate::store::store_metadata;
use crate::store::store_read;
use crate::store::store_remove_by_digest;
use crate::store::store_write;

verus! {

/// The serve decision over a staleness verdict and a store read outcome:
/// a payload is served exactly when the entry was valid and the read hit
/// bytes that decode as text, and what is served decodes those bytes.
/// Anything else falls through to recomputation.
pub fn serve_from_cache(valid: bool, outcome: StoreReadOutcome) -> (r: Option<String>)
    ensures
        r matches Some(s) ==> (valid && (outcome matches StoreReadOutcome::Hit(b) && encode_utf8(
            s@,
        ) == b@)),
        (valid && (outcome matches StoreReadOutcome::Hit(b) && valid_utf8(b@))) ==> r is Some,
{
    if !valid {
        return None;
    }
    match outcome {
        StoreReadOutcome::Hit(data) => {
            match bytes_to_string(data) {
                Ok(text) => Some(text),
                Err(_) => None,
            }
        },
        StoreReadOutcome::Miss => None,
        StoreReadOutcome::Corrupt(_) => None,
    }
}

/// A memoized processing request: where the cache lives, which source to
/// process, and the formatting parameters.  The cache directory is not
/// part of the logical request identity and never enters the key.
pub struct ProcessRequest {
    pub cache_dir: String,
    pub source: Source,
    pub csl_style: Option<String>,
    pub csl_locale: Option<String>,
}

impl ProcessRequest {
    /// The cache key of this request: deterministic, and free of volatile
    /// data such as timestamps.
    pub fn get_key(&self) -> (r: String)
        ensures
            r@ == key_spec(self.source, opt_view(self.csl_style), opt_view(self.csl_locale)),
    {
        build_key(&self.source, &self.csl_style, &self.csl_locale)
    }

    /// Probe whether the stored entry under the key, if any, is still
    /// valid for this request, and surface the stored entry's metadata.
    /// Read-only: it stats the source file and reads the store's index,
    /// and mutates neither.
    pub fn is_cache_valid(&self, key: &str) -> (r: Result<
        (bool, Option<StoreEntryMeta>),
        BibliotecaProcessSourceError,
    >)
        ensures
            r matches Ok((valid, meta)) ==> (valid ==> meta is Some),
            r matches Ok((valid, meta)) ==> (meta matches Some(m) ==> m.key@ == key@),
            r matches Err(e) ==> (e is SourceIoError || e is StoreIoError),
    {
        let mod_millis = match source_mod_millis(self.source.path().as_str()) {
            Ok(t) => t,
            Err(m) => {
                return Err(BibliotecaProcessSourceError::SourceIoError(m));
            },
        };
        let meta = match store_metadata(self.cache_dir.as_str(), key) {
            Ok(m) => m,
            Err(m) => {
                return Err(BibliotecaProcessSourceError::StoreIoError(m));
            },
        };
        let valid = check_staleness(mod_millis, &meta);
        Ok((valid, meta))
    }

    /// Process the source without consulting the cache: read the file,
    /// parse it, render citations when a style is requested, merge and
    /// serialize.  Nothing is written to the store.
    pub fn process(&self) -> (r: Result<String, BibliotecaProcessSourceError>)
        ensures
            self.source is CslJson ==> (r matches Err(e) && e is Unsupported),
            (r matches Err(e) && e is Unsupported) ==> self.source is CslJson,
            r matches Ok(p) ==> exists|text: Seq<char>|
                #[trigger] biblatex_parse(text) matches Some(es) && p@ == processed_payload(
                    es,
                    opt_view(self.csl_style),
                    opt_view(self.csl_locale),
                ),
            r matches Ok(p) ==> (match self.csl_style {
                Some(s) => style_ok(s@),
                None => true,
            }),
            (r matches Err(e) && e is StyleError) ==> (self.csl_style matches Some(s) && !style_ok(
                s@,
            )),
            r matches Err(e) ==> (e is Unsupported || e is SourceIoError || e is SourceContentError
                || e is StyleError),
    {
        match &self.source {
            Source::CslJson { .. } => {
                return Err(BibliotecaProcessSourceError::Unsupported);
            },
            _ => {},
        }
        let text = match read_source_text(self.source.path().as_str()) {
            Ok(t) => t,
            Err(m) => {
                return Err(BibliotecaProcessSourceError::SourceIoError(m));
            },
        };
        let r = process_contents(text.as_str(), &self.csl_style, &self.csl_locale);
        proof {
            if r is Ok {
                assert(biblatex_parse(text@) matches Some(es) && r->Ok_0@ == processed_payload(
                    es,
                    opt_view(self.csl_style),
                    opt_view(self.csl_locale),
                ));
            }
        }
        r
    }

    /// Process the source through the cache.  A valid stored entry is
    /// served as it stands; a stale, missing or corrupt one is evicted by
    /// its digest and recomputed; the fresh payload is persisted under the
    /// key before it is returned.  A failing recomputation writes nothing.
    pub fn process_cached(&self) -> (r: Result<String, BibliotecaProcessSourceError>)
        ensures
            r matches Err(e) ==> (e is SourceIoError || e is StoreIoError || e is SourceContentError
                || e is StyleError || e is Unsupported),
            (r matches Err(e) && e is Unsupported) ==> self.source is CslJson,
            (r matches Err(e) && e is StyleError) ==> (self.csl_style matches Some(s) && !style_ok(
                s@,
            )),
    {
        let key = self.get_key();
        let (valid, meta) = match self.is_cache_valid(key.as_str()) {
            Ok(p) => p,
            Err(e) => {
                return Err(e);
            },
        };
        if valid {
            let outcome = match store_read(self.cache_dir.as_str(), key.as_str()) {
                Ok(o) => o,
                Err(m) => {
                    return Err(BibliotecaProcessSourceError::StoreIoError(m));
                },
            };
            // a miss despite valid metadata, corrupt bytes (never handed
            // out), or non-text bytes all fall through as stale
            match serve_from_cache(valid, outcome) {
                Some(text) => {
                    return Ok(text);
                },
                None => {},
            }
        }
        match &meta {
            Some(m) => {
                // evict the superseded bytes before the fresh write, so the
                // store does not keep both; an eviction failure does not
                // block recomputation
                let _ = store_remove_by_digest(self.cache_dir.as_str(), m.integrity.as_str());
            },
            None => {},
        }
        let result = match self.process() {
            Ok(p) => p,
            Err(e) => {
                return Err(e);
            },
        };
        match store_write(self.cache_dir.as_str(), key.as_str(), result.as_str()) {
            Ok(_) => Ok(result),
            Err(m) => Err(BibliotecaProcessSourceError::StoreIoError(m)),
        }
    }
}

} // verus!
