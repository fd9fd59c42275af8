//! Versions of the configuration: what may be asked of them and the answers in
//! words.

use vstd::prelude::*;

use crate::backup::interfaces::InterfaceMap;
use crate::number::{dec_int, fmt_i64};
use crate::text::cat2;

verus! {

/// How much of the history is asked for.
#[derive(Clone, Copy, Debug, PartialEq, Eq, Structural)]
pub struct HistoryParams {
    pub limit: Option<i64>,
}

/// Which version is asked for.
#[derive(Clone, Copy, Debug, PartialEq, Eq, Structural)]
pub struct VersionParams {
    pub version: i64,
}

/// Which two versions are held against each other.
#[derive(Clone, Copy, Debug, PartialEq, Eq, Structural)]
pub struct DiffParams {
    pub v1: i64,
    pub v2: i64,
}

/// A request to save the configuration as a version.
#[derive(Clone, Debug)]
pub struct SaveVersionRequest {
    pub comment: Option<String>,
}

/// A request to go back to a version.
pub struct RestoreRequest {
    pub version: i64,
    pub interface_map: InterfaceMap,
}

/// Which version is to be previewed.
#[derive(Clone, Copy, Debug, PartialEq, Eq, Structural)]
pub struct RestorePreviewQuery {
    pub version: i64,
}

/// How many versions are kept, and how many there are.
#[derive(Clone, Copy, Debug, PartialEq, Eq, Structural)]
pub struct RetentionResponse {
    pub max_versions: u32,
    pub current_count: u64,
}

/// A request to keep another number of versions.
#[derive(Clone, Copy, Debug, PartialEq, Eq, Structural)]
pub struct RetentionRequest {
    pub max_versions: u32,
}

/// How many versions the history shows: fifty where nothing is said.
pub fn history_limit(p: HistoryParams) -> (n: i64)
    ensures
        n == match p.limit {
            Some(l) => l,
            None => 50i64,
        },
{
    match p.limit {
        Some(l) => l,
        None => 50,
    }
}

/// The answer to a save.
pub fn saved_message(version: i64) -> (m: String)
    ensures
        m@ == "Config saved as version "@ + dec_int(version as int),
{
    let n = fmt_i64(version);
    cat2("Config saved as version ", n.as_str())
}

/// The answer to a restore.
pub fn restored_message(version: i64) -> (m: String)
    ensures
        m@ == "Restored to version "@ + dec_int(version as int),
{
    let n = fmt_i64(version);
    cat2("Restored to version ", n.as_str())
}

// ---------------------------------------------------------------------------
// Laws
// ---------------------------------------------------------------------------

/// A saved version and a restored one are told by their number, and fifty are listed unless the
/// request says otherwise.
pub proof fn versions_are_told_by_number(version: i64, m: String, p: HistoryParams, n: i64)
    ensures
        call_ensures(saved_message, (version,), m) ==> m@ == "Config saved as version "@ + dec_int(version as int),
        call_ensures(restored_message, (version,), m) ==> m@ == "Restored to version "@ + dec_int(version as int),
        call_ensures(history_limit, (p,), n) ==> (p.limit is None ==> n == 50) && (p.limit matches Some(l) ==> n == l),
{
}

} // verus!
