//! The record store side: the request texts the worker sends to the store,
//! and the reading of what the store returns.
//!
//! The store answers a fetch with a JSON array of zero or one record
//! objects; an update is a merge patch addressed by identifier.

use vstd::prelude::*;
use vstd::string::*;
use crate::Status;
use crate::errors::WorkerError;
use crate::json::Json;
use crate::json::json_of;
use crate::json::parse_json;
use crate::seed::Seed;
use crate::seed::record_valid;
use crate::seed::seed_of_record;

verus! {

/// The URL that asks the store for one pending record.
pub open spec fn spec_fetch_url(base: Seq<char>) -> Seq<char> {
    base + "/seeds?status=eq.pending&limit=1"@
}

/// The URL that addresses one record for a merge patch.
pub open spec fn spec_patch_url(base: Seq<char>, id: Seq<char>) -> Seq<char> {
    base + "/seeds?id=eq."@ + id
}

/// The patch body that sets only the status field.
pub open spec fn spec_status_body(st: Status) -> Seq<char> {
    "{\"status\":\""@ + st.spec_text() + "\"}"@
}

/// The patch body that stores the sprouts and sets the status to done.
/// `sprouts` is spliced in verbatim; it must itself be JSON text.
pub open spec fn spec_done_body(sprouts: Seq<char>) -> Seq<char> {
    "{\"sprouts\":"@ + sprouts + ",\"status\":\"done\"}"@
}

/// Builds the URL that asks the store for one pending record.
pub fn fetch_url(base: &str) -> (r: String)
    ensures
        r@ == spec_fetch_url(base@),
{
    let mut out = String::from_str(base);
    out.append("/seeds?status=eq.pending&limit=1");
    out
}

/// Builds the URL that addresses one record for a merge patch.
pub fn patch_url(base: &str, id: &str) -> (r: String)
    ensures
        r@ == spec_patch_url(base@, id@),
{
    let mut out = String::from_str(base);
    out.append("/seeds?id=eq.");
    out.append(id);
    out
}

/// Builds the patch body that sets only the status field.
pub fn status_body(st: Status) -> (r: String)
    ensures
        r@ == spec_status_body(st),
{
    let mut out = String::from_str("{\"status\":\"");
    out.append(st.text());
    out.append("\"}");
    proof {
        assert(out@ =~= spec_status_body(st));
    }
    out
}

/// Builds the patch body that stores the sprouts and sets the status to
/// done. `sprouts` must itself be JSON text for the result to be one.
pub fn done_body(sprouts: &str) -> (r: String)
    ensures
        r@ == spec_done_body(sprouts@),
{
    let mut out = String::from_str("{\"sprouts\":");
    out.append(sprouts);
    out.append(",\"status\":\"done\"}");
    proof {
        assert(out@ =~= spec_done_body(sprouts@));
    }
    out
}

/// What a fetch response body holds: the one record object, none, or the
/// reason the body is unusable.
pub open spec fn spec_fetch_record(body: Seq<char>) -> Result<Option<Json>, WorkerError> {
    match json_of(body) {
        None => Err(WorkerError::Parse),
        Some(j) => match j {
            Json::Arr(items) => if items@.len() == 0 {
                Ok(None)
            } else {
                Ok(Some(items@[0]))
            },
            _ => Err(WorkerError::ResponseShape),
        },
    }
}

/// Reads a fetch response body: no record, one usable seed, or the error
/// that says why neither can be had.
pub fn parse_fetch_body(body: &str) -> (r: Result<Option<Seed>, WorkerError>)
    ensures
        match r {
            Ok(Some(s)) => {
                &&& spec_fetch_record(body@) matches Ok(Some(rec))
                &&& record_valid(spec_fetch_record(body@)->Ok_0->Some_0)
                &&& s.is_from(spec_fetch_record(body@)->Ok_0->Some_0)
            },
            Ok(None) => spec_fetch_record(body@) == Ok::<Option<Json>, WorkerError>(None),
            Err(e) => match spec_fetch_record(body@) {
                Err(e2) => e == e2,
                Ok(Some(rec)) => e == WorkerError::InvalidRecord && !record_valid(rec),
                Ok(None) => false,
            },
        },
{
    let parsed = match parse_json(body) {
        Some(j) => j,
        None => {
            return Err(WorkerError::Parse);
        },
    };
    let rec: &Json = match &parsed {
        Json::Arr(items) => {
            if items.len() == 0 {
                return Ok(None);
            }
            &items[0]
        },
        _ => {
            return Err(WorkerError::ResponseShape);
        },
    };
    match seed_of_record(rec) {
        Ok(s) => Ok(Some(s)),
        Err(e) => Err(e),
    }
}

} // verus!

