//! Reading the source file and its modification time.
//!
//! Both results depend on what is on disk at the moment of the call, so
//! neither is pinned by a contract; the callers state what holds of every
//! outcome and do the rest in verified code.  File access goes through
//! fs_err, whose error text names the path involved, so the typed errors
//! handed to callers say which file failed.
use vstd::prelude::*;

verus! {

/// Relies on fs_err::read_to_string: it reads the file's whole content as
/// text, or reports why it could not.
#[verifier::external_body]
pub fn read_source_text(path: &str) -> (r: Result<String, String>)
{
    match fs_err::read_to_string(path) {
        Ok(text) => Ok(text),
        Err(e) => Err(format!("{}", e)),
    }
}

/// Relies on fs_err::metadata and std's Metadata::modified: it yields the
/// file's last modification time in unix milliseconds, or reports why the
/// file could not be statted.
#[verifier::external_body]
pub fn source_mod_millis(path: &str) -> (r: Result<u128, String>)
{
    let meta = match fs_err::metadata(path) {
        Ok(m) => m,
        Err(e) => return Err(format!("{}", e)),
    };
    let modified = match meta.modified() {
        Ok(t) => t,
        Err(e) => return Err(format!("{}", e)),
    };
    match modified.duration_since(std::time::UNIX_EPOCH) {
        Ok(d) => Ok(d.as_millis()),
        Err(e) => Err(format!("{}", e)),
    }
}

} // verus!
