//! The orchestration loop as a state machine.
//!
//! The worker's one loop is: fetch a pending seed; if none, rest; claim it
//! by marking it processing; ask the backend to expand it; store the result
//! as done, or mark the seed as errored. The process around this library
//! performs one action at a time (an HTTP call or a sleep) and feeds the
//! outcome back in as an event; `step` decides everything else. No event
//! ever leaves the machine without a next action, which is how per-seed
//! failures stay contained in that seed's cycle.

use vstd::prelude::*;
use vstd::string::*;
use crate::Status;
use crate::errors::WorkerError;
use crate::expand::PromptTemplate;
use crate::expand::spec_prompt;
use crate::expand::spec_request_body;
use crate::expand::spec_expansion_outcome;
use crate::expand::spec_content_of;
use crate::expand::build_prompt;
use crate::expand::request_body;
use crate::expand::parse_expansion_body;
use crate::json::Json;
use crate::json::json_of;
use crate::seed::Seed;
use crate::seed::opt_text;
use crate::seed::record_valid;
use crate::seed::spec_record_id;
use crate::seed::spec_record_title;
use crate::seed::spec_record_context;
use crate::store::spec_fetch_record;
use crate::store::spec_status_body;
use crate::store::spec_done_body;
use crate::store::parse_fetch_body;
use crate::store::status_body;
use crate::store::done_body;

verus! {

/// Everything the worker must know at startup. All four texts come from
/// the environment; the prompt pieces and the temperature are the
/// configurable half of the expansion request.
pub struct Config {
    /// Base URL of the record store.
    pub store_url: String,
    /// The static credential sent with every store call.
    pub api_key: String,
    /// Base URL of the completion backend.
    pub backend_url: String,
    /// The model the backend is asked for.
    pub model: String,
    /// The fixed system instruction demanding JSON-only output.
    pub system_prompt: String,
    /// The pieces the user prompt is assembled from.
    pub template: PromptTemplate,
    /// Sampling temperature in tenths, written as one integral and one
    /// fractional digit.
    pub temperature_tenths: u8,
}

impl Config {
    /// The temperature fits its two-digit written form.
    pub open spec fn wf(self) -> bool {
        self.temperature_tenths < 100
    }

    /// Assembles a configuration from what the environment offered; any
    /// absent value is the one fatal startup error.
    pub fn new(
        store_url: Option<String>,
        api_key: Option<String>,
        backend_url: Option<String>,
        model: Option<String>,
        system_prompt: String,
        template: PromptTemplate,
        temperature_tenths: u8,
    ) -> (r: Result<Config, WorkerError>)
        requires
            temperature_tenths < 100,
        ensures
            match r {
                Ok(c) => {
                    &&& store_url matches Some(u) && c.store_url@ == u@
                    &&& api_key matches Some(k) && c.api_key@ == k@
                    &&& backend_url matches Some(b) && c.backend_url@ == b@
                    &&& model matches Some(m) && c.model@ == m@
                    &&& c.system_prompt@ == system_prompt@
                    &&& c.template == template
                    &&& c.temperature_tenths == temperature_tenths
                    &&& c.wf()
                },
                Err(e) => {
                    &&& e == WorkerError::Config
                    &&& (store_url is None || api_key is None || backend_url is None
                        || model is None)
                },
            },
    {
        match (store_url, api_key, backend_url, model) {
            (Some(store_url), Some(api_key), Some(backend_url), Some(model)) => Ok(Config {
                store_url,
                api_key,
                backend_url,
                model,
                system_prompt,
                template,
                temperature_tenths,
            }),
            _ => Err(WorkerError::Config),
        }
    }
}

/// Where the loop stands: what it is waiting to hear about.
pub enum State {
    /// A fetch has been asked of the store.
    Fetching,
    /// The worker is sleeping before the next fetch.
    Resting,
    /// The claiming patch (status processing) is underway for this seed.
    Claiming(Seed),
    /// The expansion request is underway for this seed.
    Expanding(Seed),
    /// The storing patch (sprouts, status done) is underway for this seed.
    Saving(Seed),
    /// The error patch (status error) is underway for this seed.
    MarkingError(Seed),
}

/// What the surrounding process reports back about the last action.
pub enum Event {
    /// The fetch came back with this response body.
    FetchOk(String),
    /// The fetch failed at the transport level.
    FetchFailed,
    /// The sleep has passed.
    Slept,
    /// The patch was accepted.
    PatchOk,
    /// The patch failed at the transport level.
    PatchFailed,
    /// The expansion call came back with this response body.
    ExpandOk(String),
    /// The expansion call failed at the transport level.
    ExpandFailed,
}

/// What the surrounding process is asked to do next.
pub enum Action {
    /// Ask the store for one pending record.
    Fetch,
    /// Sleep this long, then report back.
    Sleep { seconds: u64 },
    /// Send this merge-patch body for the record with this identifier.
    Patch { id: String, body: String },
    /// Send this chat request body to the completion backend.
    Expand { body: String },
}

/// The events a state can be answered with.
pub open spec fn expects(st: State, ev: Event) -> bool {
    match st {
        State::Fetching => ev is FetchOk || ev is FetchFailed,
        State::Resting => ev is Slept,
        State::Claiming(_) => ev is PatchOk || ev is PatchFailed,
        State::Expanding(_) => ev is ExpandOk || ev is ExpandFailed,
        State::Saving(_) => ev is PatchOk || ev is PatchFailed,
        State::MarkingError(_) => ev is PatchOk || ev is PatchFailed,
    }
}

/// The seed is sent to its error patch: the one recovery for every
/// per-seed failure.
pub open spec fn mark_error_rel(s: Seed, st2: State, act: Action) -> bool {
    &&& st2 matches State::MarkingError(s2) && s2.like(s)
    &&& act matches Action::Patch { id, body } && id@ == s.id@ && body@ == spec_status_body(
        Status::Error,
    )
}

/// What one fetch outcome leads to.
pub open spec fn fetch_rel(body: Seq<char>, st2: State, act: Action) -> bool {
    match spec_fetch_record(body) {
        Err(_) => st2 is Resting && act == (Action::Sleep { seconds: 30 }),
        Ok(None) => st2 is Resting && act == (Action::Sleep { seconds: 3600 }),
        Ok(Some(rec)) => if !record_valid(rec) {
            st2 is Fetching && act is Fetch
        } else {
            &&& st2 matches State::Claiming(s) && s.is_from(rec)
            &&& act matches Action::Patch { id, body: b } && Some(id@) == spec_record_id(rec)
                && b@ == spec_status_body(Status::Processing)
        },
    }
}

/// The whole transition relation: what the next state and action are for
/// every state and the event it expects.
pub open spec fn step_rel(cfg: Config, st: State, ev: Event, st2: State, act: Action) -> bool {
    match (st, ev) {
        (State::Fetching, Event::FetchOk(body)) => fetch_rel(body@, st2, act),
        (State::Fetching, Event::FetchFailed) => st2 is Resting && act == (Action::Sleep {
            seconds: 30,
        }),
        (State::Resting, Event::Slept) => st2 is Fetching && act is Fetch,
        (State::Claiming(s), Event::PatchOk) => {
            &&& st2 matches State::Expanding(s2) && s2.like(s)
            &&& act matches Action::Expand { body } && body@ == spec_request_body(
                cfg.model@,
                cfg.system_prompt@,
                spec_prompt(cfg.template, s.title@, opt_text(s.context)),
                cfg.temperature_tenths as int,
            )
        },
        (State::Claiming(s), Event::PatchFailed) => mark_error_rel(s, st2, act),
        (State::Expanding(s), Event::ExpandOk(body)) => match spec_expansion_outcome(body@) {
            Ok(content) => {
                &&& st2 matches State::Saving(s2) && s2.like(s)
                &&& act matches Action::Patch { id, body: b } && id@ == s.id@ && b@
                    == spec_done_body(content)
            },
            Err(_) => mark_error_rel(s, st2, act),
        },
        (State::Expanding(s), Event::ExpandFailed) => mark_error_rel(s, st2, act),
        (State::Saving(_), Event::PatchOk) => st2 is Fetching && act is Fetch,
        (State::Saving(s), Event::PatchFailed) => mark_error_rel(s, st2, act),
        (State::MarkingError(_), Event::PatchOk) => st2 is Fetching && act is Fetch,
        (State::MarkingError(_), Event::PatchFailed) => st2 is Fetching && act is Fetch,
        _ => false,
    }
}

/// The loop begins by asking for work.
pub fn start() -> (r: (State, Action))
    ensures
        r.0 is Fetching,
        r.1 is Fetch,
{
    (State::Fetching, Action::Fetch)
}

/// Sends a seed to its error patch.
fn mark_error(s: Seed) -> (r: (State, Action))
    ensures
        mark_error_rel(s, r.0, r.1),
{
    let id = s.id.clone();
    let body = status_body(Status::Error);
    (State::MarkingError(s), Action::Patch { id, body })
}

/// One turn of the loop: takes where the worker stands and what just
/// happened, and decides where it stands next and what to do about it.
pub fn step(cfg: &Config, st: State, ev: Event) -> (r: (State, Action))
    requires
        cfg.wf(),
        expects(st, ev),
    ensures
        step_rel(*cfg, st, ev, r.0, r.1),
{
    match (st, ev) {
        (State::Fetching, Event::FetchOk(body)) => {
            match parse_fetch_body(body.as_str()) {
                Ok(None) => (State::Resting, Action::Sleep { seconds: 3600 }),
                Ok(Some(s)) => {
                    let id = s.id.clone();
                    let b = status_body(Status::Processing);
                    (State::Claiming(s), Action::Patch { id, body: b })
                },
                Err(e) => {
                    if e == WorkerError::InvalidRecord {
                        (State::Fetching, Action::Fetch)
                    } else {
                        (State::Resting, Action::Sleep { seconds: 30 })
                    }
                },
            }
        },
        (State::Fetching, Event::FetchFailed) => (State::Resting, Action::Sleep { seconds: 30 }),
        (State::Resting, Event::Slept) => (State::Fetching, Action::Fetch),
        (State::Claiming(s), Event::PatchOk) => {
            let prompt = build_prompt(&cfg.template, s.title.as_str(), &s.context);
            let body = request_body(
                cfg.model.as_str(),
                cfg.system_prompt.as_str(),
                prompt.as_str(),
                cfg.temperature_tenths,
            );
            (State::Expanding(s), Action::Expand { body })
        },
        (State::Claiming(s), Event::PatchFailed) => mark_error(s),
        (State::Expanding(s), Event::ExpandOk(body)) => {
            match parse_expansion_body(body.as_str()) {
                Ok(content) => {
                    let id = s.id.clone();
                    let b = done_body(content.as_str());
                    (State::Saving(s), Action::Patch { id, body: b })
                },
                Err(_) => mark_error(s),
            }
        },
        (State::Expanding(s), Event::ExpandFailed) => mark_error(s),
        (State::Saving(_), Event::PatchOk) => (State::Fetching, Action::Fetch),
        (State::Saving(s), Event::PatchFailed) => mark_error(s),
        (State::MarkingError(_), Event::PatchOk) => (State::Fetching, Action::Fetch),
        (State::MarkingError(_), Event::PatchFailed) => (State::Fetching, Action::Fetch),
        _ => {
            proof {
                assert(false);
            }
            (State::Fetching, Action::Fetch)
        },
    }
}

/// An empty fetch response only rests the loop: the worker sleeps its long
/// interval and issues no update.
pub proof fn lemma_empty_fetch_sleeps(cfg: Config, body: String, st2: State, act: Action)
    requires
        spec_fetch_record(body@) == Ok::<Option<Json>, WorkerError>(None),
        step_rel(cfg, State::Fetching, Event::FetchOk(body), st2, act),
    ensures
        st2 is Resting,
        act == (Action::Sleep { seconds: 3600 }),
        !(act is Patch),
{
}

/// A fetched record with a non-empty identifier whose expansion succeeds
/// sees exactly two updates in its cycle, both addressed to its own
/// identifier: one marking it processing, one storing the sprouts and
/// marking it done. The turn in between asks for the expansion, and the
/// turn after returns to fetching.
pub proof fn lemma_happy_path_two_updates(
    cfg: Config,
    body: String,
    chat: String,
    st1: State,
    a1: Action,
    st2: State,
    a2: Action,
    st3: State,
    a3: Action,
    st4: State,
    a4: Action,
)
    requires
        spec_fetch_record(body@) matches Ok(Some(rec)) && record_valid(rec),
        spec_expansion_outcome(chat@) is Ok,
        step_rel(cfg, State::Fetching, Event::FetchOk(body), st1, a1),
        step_rel(cfg, st1, Event::PatchOk, st2, a2),
        step_rel(cfg, st2, Event::ExpandOk(chat), st3, a3),
        step_rel(cfg, st3, Event::PatchOk, st4, a4),
    ensures
        a1 matches Action::Patch { id, body: b } && Some(id@) == spec_record_id(
            spec_fetch_record(body@)->Ok_0->Some_0,
        ) && b@ == spec_status_body(Status::Processing),
        a2 matches Action::Expand { body: eb } && eb@ == spec_request_body(
            cfg.model@,
            cfg.system_prompt@,
            spec_prompt(
                cfg.template,
                spec_record_title(spec_fetch_record(body@)->Ok_0->Some_0),
                spec_record_context(spec_fetch_record(body@)->Ok_0->Some_0),
            ),
            cfg.temperature_tenths as int,
        ),
        a3 matches Action::Patch { id, body: b } && Some(id@) == spec_record_id(
            spec_fetch_record(body@)->Ok_0->Some_0,
        ) && b@ == spec_done_body(spec_expansion_outcome(chat@)->Ok_0),
        a4 is Fetch,
        st4 is Fetching,
{
}

/// A failed fetch never ends the worker: it rests briefly and the next
/// turn fetches again.
pub proof fn lemma_fetch_failure_continues(
    cfg: Config,
    st2: State,
    a2: Action,
    st3: State,
    a3: Action,
)
    requires
        step_rel(cfg, State::Fetching, Event::FetchFailed, st2, a2),
        step_rel(cfg, st2, Event::Slept, st3, a3),
    ensures
        st2 is Resting,
        a2 == (Action::Sleep { seconds: 30 }),
        st3 is Fetching,
        a3 is Fetch,
{
}

/// A failed expansion never ends the worker: the seed is marked errored,
/// and whether or not that patch itself goes through, the next turn
/// fetches again.
pub proof fn lemma_expand_failure_continues(
    cfg: Config,
    s: Seed,
    ev: Event,
    st2: State,
    a2: Action,
    st3: State,
    a3: Action,
)
    requires
        step_rel(cfg, State::Expanding(s), Event::ExpandFailed, st2, a2),
        ev is PatchOk || ev is PatchFailed,
        step_rel(cfg, st2, ev, st3, a3),
    ensures
        st2 is MarkingError,
        a2 matches Action::Patch { id, body } && id@ == s.id@ && body@ == spec_status_body(
            Status::Error,
        ),
        st3 is Fetching,
        a3 is Fetch,
{
}

/// How every expansion response body is classified: not JSON is a parse
/// failure; JSON without `choices[0].message.content` is a shape failure;
/// content that is not itself JSON is a parse failure; and otherwise the
/// content is handed back exactly.
pub proof fn lemma_expansion_outcome_classifies(body: String)
    ensures
        match json_of(body@) {
            None => spec_expansion_outcome(body@) == Err::<Seq<char>, WorkerError>(
                WorkerError::Parse,
            ),
            Some(j) => match spec_content_of(j) {
                None => spec_expansion_outcome(body@) == Err::<Seq<char>, WorkerError>(
                    WorkerError::ResponseShape,
                ),
                Some(c) => spec_expansion_outcome(body@) == if json_of(c) is Some {
                    Ok::<Seq<char>, WorkerError>(c)
                } else {
                    Err::<Seq<char>, WorkerError>(WorkerError::Parse)
                },
            },
        },
{
}

/// An expansion response whose content is absent is a shape failure, and
/// it costs the seed exactly one more update: the one to status error —
/// not to processing, which happened before the expansion was asked.
pub proof fn lemma_missing_content_marks_error(
    cfg: Config,
    s: Seed,
    chat: String,
    st2: State,
    act: Action,
)
    requires
        spec_expansion_outcome(chat@) == Err::<Seq<char>, WorkerError>(WorkerError::ResponseShape),
        step_rel(cfg, State::Expanding(s), Event::ExpandOk(chat), st2, act),
    ensures
        st2 matches State::MarkingError(s2) && s2.like(s),
        act matches Action::Patch { id, body } && id@ == s.id@ && body@ == spec_status_body(
            Status::Error,
        ),
        act matches Action::Patch { id, body } && body@ != spec_status_body(Status::Processing),
{
    reveal_strlit("{\"status\":\"");
    reveal_strlit("error");
    reveal_strlit("processing");
    reveal_strlit("\"}");
    assert(spec_status_body(Status::Error).len() == 18);
    assert(spec_status_body(Status::Processing).len() == 23);
}

} // verus!

