//! Seed records: the unit of work, and how one is read out of a fetched
//! record object.
//!
//! A record is usable only when it carries a non-empty `id`. A missing or
//! non-string `title` is read as the empty title; a missing or non-string
//! `context` is read as no context, as the store may hold `null` there.

use vstd::prelude::*;
use vstd::string::*;
use crate::errors::WorkerError;
use crate::json::Json;
use crate::json::obj_get;
use crate::json::as_str_json;

verus! {

/// A unit of work: a record claimed from the store, reduced to the fields
/// the worker reads.
#[derive(Debug, PartialEq, Eq)]
pub struct Seed {
    pub id: String,
    pub title: String,
    pub context: Option<String>,
}

/// The texts of an optional text.
pub open spec fn opt_text(c: Option<String>) -> Option<Seq<char>> {
    match c {
        Some(s) => Some(s@),
        None => None,
    }
}

/// The identifier a record object carries, when it is a string member `id`.
pub open spec fn spec_record_id(j: Json) -> Option<Seq<char>> {
    match j.spec_get("id"@) {
        Some(v) => v.spec_str(),
        None => None,
    }
}

/// A record is usable exactly when its identifier is a non-empty string.
pub open spec fn record_valid(j: Json) -> bool {
    match spec_record_id(j) {
        Some(i) => i.len() > 0,
        None => false,
    }
}

/// The title a record object carries; absent or non-string reads as empty.
pub open spec fn spec_record_title(j: Json) -> Seq<char> {
    match j.spec_get("title"@) {
        Some(v) => match v.spec_str() {
            Some(t) => t,
            None => Seq::<char>::empty(),
        },
        None => Seq::<char>::empty(),
    }
}

/// The context a record object carries, when it is a string member.
pub open spec fn spec_record_context(j: Json) -> Option<Seq<char>> {
    match j.spec_get("context"@) {
        Some(v) => v.spec_str(),
        None => None,
    }
}

impl Seed {
    /// This seed holds exactly what the record object `j` says.
    pub open spec fn is_from(self, j: Json) -> bool {
        &&& Some(self.id@) == spec_record_id(j)
        &&& self.id@.len() > 0
        &&& self.title@ == spec_record_title(j)
        &&& opt_text(self.context) == spec_record_context(j)
    }

    /// Two seeds carry the same texts.
    pub open spec fn like(self, other: Seed) -> bool {
        &&& self.id@ == other.id@
        &&& self.title@ == other.title@
        &&& opt_text(self.context) == opt_text(other.context)
    }
}

/// Reads a seed out of one fetched record object; a record without a
/// non-empty string identifier is rejected, since there is nothing to
/// update.
pub fn seed_of_record(j: &Json) -> (r: Result<Seed, WorkerError>)
    ensures
        match r {
            Ok(s) => record_valid(*j) && s.is_from(*j),
            Err(e) => e == WorkerError::InvalidRecord && !record_valid(*j),
        },
{
    let id: &String = match obj_get(j, "id") {
        Some(v) => match as_str_json(v) {
            Some(s) => s,
            None => {
                return Err(WorkerError::InvalidRecord);
            },
        },
        None => {
            return Err(WorkerError::InvalidRecord);
        },
    };
    if id.as_str().unicode_len() == 0 {
        return Err(WorkerError::InvalidRecord);
    }
    let title: String = match obj_get(j, "title") {
        Some(v) => match as_str_json(v) {
            Some(t) => t.clone(),
            None => String::new(),
        },
        None => String::new(),
    };
    let context: Option<String> = match obj_get(j, "context") {
        Some(v) => match as_str_json(v) {
            Some(c) => Some(c.clone()),
            None => None,
        },
        None => None,
    };
    Ok(Seed { id: id.clone(), title, context })
}

} // verus!
