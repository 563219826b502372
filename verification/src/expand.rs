//! The expansion side: the prompt and the chat request the worker sends to
//! the completion backend, and the reading of what comes back.
//!
//! The backend answers with a JSON object whose `choices[0].message.content`
//! member holds a text that must itself be JSON: the sprouts. A response
//! without that member is a shape failure; one whose content is not JSON is
//! a parse failure.

use vstd::prelude::*;
use vstd::string::*;
use crate::errors::WorkerError;
use crate::json::Json;
use crate::json::json_of;
use crate::json::parse_json;
use crate::json::obj_get;
use crate::json::arr_first;
use crate::json::as_str_json;
use crate::seed::opt_text;
use crate::text::escaped;
use crate::text::escape_onto;
use crate::text::hex_digit;
use crate::text::hex_char;
use crate::text::push_char;

verus! {

/// The fixed texts a prompt is assembled from, around the seed's own
/// title and context. The pieces carry the instruction wording and the
/// schema the backend is asked to fill; they are configuration, not logic.
pub struct PromptTemplate {
    /// Everything up to the title.
    pub before_title: String,
    /// Between the title and the context.
    pub before_context: String,
    /// Stands in when the seed has no context.
    pub missing_context: String,
    /// Everything after the context: instructions and the answer schema.
    pub after: String,
}

/// The prompt for one seed: the template's pieces around title and context.
pub open spec fn spec_prompt(t: PromptTemplate, title: Seq<char>, ctx: Option<Seq<char>>) -> Seq<char> {
    t.before_title@ + title + t.before_context@ + (match ctx {
        Some(c) => c,
        None => t.missing_context@,
    }) + t.after@
}

/// Builds the prompt for one seed.
pub fn build_prompt(t: &PromptTemplate, title: &str, context: &Option<String>) -> (r: String)
    ensures
        r@ == spec_prompt(*t, title@, opt_text(*context)),
{
    let mut out = String::from_str(t.before_title.as_str());
    out.append(title);
    out.append(t.before_context.as_str());
    match context {
        Some(c) => out.append(c.as_str()),
        None => out.append(t.missing_context.as_str()),
    }
    out.append(t.after.as_str());
    proof {
        assert(out@ =~= spec_prompt(*t, title@, opt_text(*context)));
    }
    out
}

/// The prompt carries the seed's title verbatim, right after the
/// template's opening piece.
pub proof fn lemma_prompt_embeds_title(t: PromptTemplate, title: Seq<char>, ctx: Option<Seq<char>>)
    ensures
        spec_prompt(t, title, ctx).subrange(
            t.before_title@.len() as int,
            t.before_title@.len() + title.len() as int,
        ) == title,
{
    assert(spec_prompt(t, title, ctx).subrange(
        t.before_title@.len() as int,
        t.before_title@.len() + title.len() as int,
    ) =~= title);
}

/// A temperature in tenths as it appears in the request: one integral and
/// one fractional digit.
pub open spec fn spec_temp_text(tenths: int) -> Seq<char> {
    seq![hex_digit(tenths / 10), '.', hex_digit(tenths % 10)]
}

/// The whole chat request body: the model, a system message, the user
/// prompt, no streaming, and the configured temperature.
pub open spec fn spec_request_body(
    model: Seq<char>,
    system: Seq<char>,
    user: Seq<char>,
    tenths: int,
) -> Seq<char> {
    "{\"model\":\""@ + escaped(model) + "\",\"messages\":[{\"role\":\"system\",\"content\":\""@
        + escaped(system) + "\"},{\"role\":\"user\",\"content\":\""@ + escaped(user)
        + "\"}],\"stream\":false,\"temperature\":"@ + spec_temp_text(tenths) + "}"@
}

/// Builds the chat request body for one prompt.
pub fn request_body(model: &str, system: &str, user: &str, temperature_tenths: u8) -> (r: String)
    requires
        temperature_tenths < 100,
    ensures
        r@ == spec_request_body(model@, system@, user@, temperature_tenths as int),
{
    let mut out = String::from_str("{\"model\":\"");
    escape_onto(&mut out, model);
    out.append("\",\"messages\":[{\"role\":\"system\",\"content\":\"");
    escape_onto(&mut out, system);
    out.append("\"},{\"role\":\"user\",\"content\":\"");
    escape_onto(&mut out, user);
    out.append("\"}],\"stream\":false,\"temperature\":");
    push_char(&mut out, hex_char(temperature_tenths / 10));
    push_char(&mut out, '.');
    push_char(&mut out, hex_char(temperature_tenths % 10));
    out.append("}");
    proof {
        assert(out@ =~= spec_request_body(model@, system@, user@, temperature_tenths as int));
    }
    out
}

/// The URL of the completion endpoint under the backend's base URL.
pub open spec fn spec_chat_url(base: Seq<char>) -> Seq<char> {
    base + "/v1/chat/completions"@
}

/// Builds the URL of the completion endpoint.
pub fn chat_url(base: &str) -> (r: String)
    ensures
        r@ == spec_chat_url(base@),
{
    let mut out = String::from_str(base);
    out.append("/v1/chat/completions");
    out
}

/// The content text at `choices[0].message.content`, when the response
/// object has one.
pub open spec fn spec_content_of(j: Json) -> Option<Seq<char>> {
    match j.spec_get("choices"@) {
        Some(cs) => match cs.spec_first() {
            Some(c0) => match c0.spec_get("message"@) {
                Some(m) => match m.spec_get("content"@) {
                    Some(c) => c.spec_str(),
                    None => None,
                },
                None => None,
            },
            None => None,
        },
        None => None,
    }
}

/// What an expansion response body yields: the sprouts text, or the reason
/// there is none. The content must itself be JSON text.
pub open spec fn spec_expansion_outcome(body: Seq<char>) -> Result<Seq<char>, WorkerError> {
    match json_of(body) {
        None => Err(WorkerError::Parse),
        Some(j) => match spec_content_of(j) {
            None => Err(WorkerError::ResponseShape),
            Some(content) => if json_of(content) is Some {
                Ok(content)
            } else {
                Err(WorkerError::Parse)
            },
        },
    }
}

/// Reads an expansion response body and hands back the sprouts text, still
/// exactly as the backend wrote it.
pub fn parse_expansion_body(body: &str) -> (r: Result<String, WorkerError>)
    ensures
        match r {
            Ok(s) => spec_expansion_outcome(body@) == Ok::<Seq<char>, WorkerError>(s@),
            Err(e) => spec_expansion_outcome(body@) == Err::<Seq<char>, WorkerError>(e),
        },
{
    let parsed = match parse_json(body) {
        Some(j) => j,
        None => {
            return Err(WorkerError::Parse);
        },
    };
    let choices = match obj_get(&parsed, "choices") {
        Some(v) => v,
        None => {
            return Err(WorkerError::ResponseShape);
        },
    };
    let first = match arr_first(choices) {
        Some(v) => v,
        None => {
            return Err(WorkerError::ResponseShape);
        },
    };
    let message = match obj_get(first, "message") {
        Some(v) => v,
        None => {
            return Err(WorkerError::ResponseShape);
        },
    };
    let content_json = match obj_get(message, "content") {
        Some(v) => v,
        None => {
            return Err(WorkerError::ResponseShape);
        },
    };
    let content = match as_str_json(content_json) {
        Some(s) => s,
        None => {
            return Err(WorkerError::ResponseShape);
        },
    };
    match parse_json(content.as_str()) {
        Some(_) => Ok(content.clone()),
        None => Err(WorkerError::Parse),
    }
}

} // verus!
