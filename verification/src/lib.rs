//! A verified core for a polling worker that expands pending "seed" records
//! into structured "sprouts" through a text-completion backend.
//!
//! The library holds everything the worker decides or computes: the JSON
//! model of what the two remote services return, extraction and validation
//! of records and completion responses, the texts of every request the
//! worker sends, and the orchestration state machine that drives one cycle
//! of work. The surrounding process (HTTP, sleeping, environment) performs
//! the actions this library chooses and feeds the outcomes back in.

pub mod errors;
pub mod expand;
pub mod json;
pub mod seed;
pub mod store;
pub mod text;
pub mod worker;

use vstd::prelude::*;

verus! {

/// The fixed status words a seed record can carry in the store.
#[derive(Clone, Copy, PartialEq, Eq, Structural, Debug)]
pub enum Status {
    Pending,
    Processing,
    Done,
    Error,
}

impl Status {
    /// The exact word the record store uses for this status.
    pub open spec fn spec_text(self) -> Seq<char> {
        match self {
            Status::Pending => "pending"@,
            Status::Processing => "processing"@,
            Status::Done => "done"@,
            Status::Error => "error"@,
        }
    }

    /// Returns the store's word for this status.
    pub fn text(self) -> (r: &'static str)
        ensures
            r@ == self.spec_text(),
    {
        match self {
            Status::Pending => "pending",
            Status::Processing => "processing",
            Status::Done => "done",
            Status::Error => "error",
        }
    }
}

} // verus!
