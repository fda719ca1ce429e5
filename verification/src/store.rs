//! The content-addressable store and the staleness rule.
//!
//! The store is a durable key-to-bytes mapping rooted at a caller-supplied
//! directory, with integrity-checked reads, atomic writes and removal by
//! content digest.  A stored entry is valid for a request exactly when the
//! source file's modification time is no later than the time the entry was
//! stored.
use vstd::prelude::*;

use vstd::utf8::encode_utf8;
use vstd::utf8::valid_utf8;

verus! {

/// The metadata of a stored entry: the key it sits under, its content
/// digest, and the time in unix milliseconds at which it was stored.
pub struct StoreEntryMeta {
    pub key: String,
    pub integrity: String,
    pub time: u128,
}

/// What a store read yields when the store itself could be consulted.
pub enum StoreReadOutcome {
    /// The entry's bytes, integrity checked.
    Hit(Vec<u8>),
    /// No entry sits under the key.
    Miss,
    /// Stored bytes failed the integrity check; they are never returned.
    Corrupt(String),
}

/// Relies on cacache::metadata_sync: it returns the metadata of the entry
/// stored under exactly the queried key, if any, without reading the
/// payload.
#[verifier::external_body]
pub fn store_metadata(cache_dir: &str, key: &str) -> (r: Result<Option<StoreEntryMeta>, String>)
    ensures
        r matches Ok(Some(m)) ==> m.key@ == key@,
{
    match cacache::metadata_sync(cache_dir, key) {
        Ok(None) => Ok(None),
        Ok(Some(m)) => Ok(
            Some(StoreEntryMeta { key: m.key, integrity: m.integrity.to_string(), time: m.time }),
        ),
        Err(e) => Err(format!("{}", e)),
    }
}

/// Relies on cacache::read_sync: a missing entry reports EntryNotFound, a
/// digest mismatch reports an integrity error and never hands bytes out.
#[verifier::external_body]
pub fn store_read(cache_dir: &str, key: &str) -> (r: Result<StoreReadOutcome, String>)
{
    match cacache::read_sync(cache_dir, key) {
        Ok(data) => Ok(StoreReadOutcome::Hit(data)),
        Err(cacache::Error::EntryNotFound(_, _)) => Ok(StoreReadOutcome::Miss),
        Err(cacache::Error::IntegrityError(e)) => Ok(StoreReadOutcome::Corrupt(format!("{}", e))),
        Err(e) => Err(format!("{}", e)),
    }
}

/// Relies on cacache::write_sync: the write is atomic with respect to
/// concurrent readers and indexes the bytes under the key; it returns the
/// content digest of what was written.
#[verifier::external_body]
pub fn store_write(cache_dir: &str, key: &str, data: &str) -> (r: Result<String, String>)
{
    match cacache::write_sync(cache_dir, key, data) {
        Ok(integrity) => Ok(integrity.to_string()),
        Err(e) => Err(format!("{}", e)),
    }
}

/// Relies on cacache::remove_hash_sync (and ssri's digest parser): it
/// removes the bytes stored under the given content digest.
#[verifier::external_body]
pub fn store_remove_by_digest(cache_dir: &str, integrity: &str) -> (r: Result<(), String>)
{
    match integrity.parse::<cacache::Integrity>() {
        Ok(sri) => match cacache::remove_hash_sync(cache_dir, &sri) {
            Ok(()) => Ok(()),
            Err(e) => Err(format!("{}", e)),
        },
        Err(e) => Err(format!("{}", e)),
    }
}

/// Relies on String::from_utf8: it succeeds exactly on valid UTF-8 and
/// returns the text those bytes encode.
#[verifier::external_body]
pub fn bytes_to_string(bytes: Vec<u8>) -> (r: Result<String, String>)
    ensures
        (r is Ok) == valid_utf8(bytes@),
        r matches Ok(s) ==> encode_utf8(s@) == bytes@,
{
    match String::from_utf8(bytes) {
        Ok(s) => Ok(s),
        Err(e) => Err(format!("{}", e)),
    }
}

/// A stored entry is valid for a source modification time exactly when the
/// source was not modified after the entry was stored.  Equal timestamps
/// count as valid: filesystem clocks truncate, and treating an equal tick
/// as stale would recompute needlessly.
pub open spec fn entry_valid_for(source_mod_millis: u128, stored_at_millis: u128) -> bool {
    source_mod_millis <= stored_at_millis
}

/// Law: an entry stored strictly before the source's current modification
/// time is never reported valid, so a modified source is never served a
/// superseded payload.
pub proof fn lemma_stale_entry_never_valid(source_mod_millis: u128, stored_at_millis: u128)
    requires
        stored_at_millis < source_mod_millis,
    ensures
        !entry_valid_for(source_mod_millis, stored_at_millis),
{
}

/// The staleness rule: no entry means stale; otherwise the entry is valid
/// exactly when the source's modification time is no later than the
/// entry's stored-at time.
pub fn check_staleness(source_mod_millis: u128, meta: &Option<StoreEntryMeta>) -> (r: bool)
    ensures
        r == (match *meta {
            Some(m) => entry_valid_for(source_mod_millis, m.time),
            None => false,
        }),
{
    match meta {
        Some(m) => source_mod_millis <= m.time,
        None => false,
    }
}

} // verus!
