//! Startup resume-point resolution: decide from which transaction the
//! external listener should resume.

use vstd::prelude::*;

verus! {

/// Resolve the resume checkpoint once, at startup.
///
/// A configured override always wins; otherwise the most recent transaction
/// signature read from the store is used; if the store could not be asked
/// (unreachable, query failed, empty table), the configured default applies.
pub fn resolve_checkpoint(
    forced: Option<String>,
    store_latest: Option<String>,
    fallback: String,
) -> (r: String)
    ensures
        forced is Some ==> r == forced->0,
        forced is None && store_latest is Some ==> r == store_latest->0,
        forced is None && store_latest is None ==> r == fallback,
{
    match forced {
        Some(f) => f,
        None => match store_latest {
            Some(s) => s,
            None => fallback,
        },
    }
}

/// The query that asks the store for the most recently inserted row's
/// destination transaction signature (the resume key).
pub fn resume_query() -> (q: &'static str)
    ensures
        q@ == "select dst_tx_hash from minted_gorple order by id desc limit 1"@,
{
    "select dst_tx_hash from minted_gorple order by id desc limit 1"
}

} // verus!
