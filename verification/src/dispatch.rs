use vstd::prelude::*;

use crate::errors::GatewayError;
use crate::errors::SummarizationError;
use crate::errors::extraction_to_gateway;
use crate::extract::extract_synonyms;
use crate::extract::spec_extract;
use crate::json::json_doc_of;
use crate::summary::EngineOutcome;
use crate::summary::select_summary;
use vstd::string::StringExecFns;

verus! {

/// The one status for every handled request that succeeded.
pub const STATUS_OK: u16 = 200;

/// The one status for every handled request that failed, whatever the kind:
/// the taxonomy is kept internally, not exposed to the caller.
pub const STATUS_INTERNAL_ERROR: u16 = 500;

/// The body of a synonyms reply: the flattened synonym list, empty on
/// failure.
pub struct SynonymsBody {
    pub synonyms: Vec<String>,
}

/// The body of a summary reply: the summary text, empty on failure.
pub struct SummaryBody {
    pub summary: String,
}

/// Checks that the credential is present at startup. Absence is the one
/// fatal error: the process must refuse to serve, not defer the failure to
/// the first request.
pub fn require_credential(credential: Option<String>) -> (r: Result<String, GatewayError>)
    ensures
        match credential {
            None => r == Err::<String, GatewayError>(GatewayError::ConfigurationError),
            Some(c) => r == Ok::<String, GatewayError>(c),
        },
{
    match credential {
        None => Err(GatewayError::ConfigurationError),
        Some(c) => Ok(c),
    }
}

/// The provider URL for a word: the word is embedded in the path and the
/// credential rides along as a query parameter.
pub open spec fn spec_provider_url(word: Seq<char>, key: Seq<char>) -> Seq<char> {
    "https://www.dictionaryapi.com/api/v3/references/thesaurus/json/"@ + word + "?key="@ + key
}

pub fn provider_url(word: &String, api_key: &String) -> (r: String)
    ensures
        r@ == spec_provider_url(word@, api_key@),
{
    let mut url: String = "https://www.dictionaryapi.com/api/v3/references/thesaurus/json/"
        .to_owned();
    url.append(word.as_str());
    url.append("?key=");
    url.append(api_key.as_str());
    url
}

/// Decides, before any upstream work, whether the synonyms request may
/// proceed: an empty `word` is answered at once with the error reply and
/// the provider is never contacted; any other word goes on to the fetch.
pub fn plan_synonyms_request(word: &String) -> (r: Option<(u16, SynonymsBody)>)
    ensures
        match r {
            Some(reply) => word@.len() == 0 && reply.0 == STATUS_INTERNAL_ERROR
                && reply.1.synonyms@.len() == 0,
            None => word@.len() > 0,
        },
{
    if word.as_str().is_empty() {
        Some((STATUS_INTERNAL_ERROR, SynonymsBody { synonyms: Vec::new() }))
    } else {
        None
    }
}

/// Maps a synonyms outcome onto the HTTP surface: success carries the list
/// with the success status, every failure is an opaque server error with an
/// empty list.
pub fn synonyms_reply(outcome: Result<Vec<String>, GatewayError>) -> (r: (u16, SynonymsBody))
    ensures
        match outcome {
            Ok(list) => r.0 == STATUS_OK && r.1.synonyms == list,
            Err(_) => r.0 == STATUS_INTERNAL_ERROR && r.1.synonyms@.len() == 0,
        },
{
    match outcome {
        Ok(list) => (STATUS_OK, SynonymsBody { synonyms: list }),
        Err(_) => (STATUS_INTERNAL_ERROR, SynonymsBody { synonyms: Vec::new() }),
    }
}

/// The whole synonyms pipeline after the fetch: a fetch failure, invalid
/// JSON or a wrong document shape all come back as the opaque error reply;
/// only a document of the expected shape yields the flattened list.
pub fn synonyms_reply_from_fetch(fetch: Result<Vec<u8>, GatewayError>) -> (r: (u16, SynonymsBody))
    ensures
        match fetch {
            Err(_) => r.0 == STATUS_INTERNAL_ERROR && r.1.synonyms@.len() == 0,
            Ok(bytes) => match json_doc_of(bytes@) {
                None => r.0 == STATUS_INTERNAL_ERROR && r.1.synonyms@.len() == 0,
                Some(doc) => match spec_extract(doc) {
                    Ok(list) => r.0 == STATUS_OK && r.1.synonyms.deep_view() == list,
                    Err(_) => r.0 == STATUS_INTERNAL_ERROR && r.1.synonyms@.len() == 0,
                },
            },
        },
{
    match fetch {
        Err(e) => synonyms_reply(Err(e)),
        Ok(bytes) => match extract_synonyms(bytes.as_slice()) {
            Ok(list) => synonyms_reply(Ok(list)),
            Err(e) => synonyms_reply(Err(extraction_to_gateway(&e))),
        },
    }
}

/// Decides, before the engine is touched, whether the summary request may
/// proceed: an empty `txt` is answered at once with the error reply and the
/// engine is never invoked.
pub fn plan_summary_request(txt: &String) -> (r: Option<(u16, SummaryBody)>)
    ensures
        match r {
            Some(reply) => txt@.len() == 0 && reply.0 == STATUS_INTERNAL_ERROR
                && reply.1.summary@.len() == 0,
            None => txt@.len() > 0,
        },
{
    if txt.as_str().is_empty() {
        Some((STATUS_INTERNAL_ERROR, SummaryBody { summary: String::new() }))
    } else {
        None
    }
}

/// Maps a summarization outcome onto the HTTP surface. A successful
/// invocation is a success reply: the status tells the truth about the
/// body.
pub fn summary_reply(outcome: Result<String, SummarizationError>) -> (r: (u16, SummaryBody))
    ensures
        match outcome {
            Ok(text) => r.0 == STATUS_OK && r.1.summary == text,
            Err(_) => r.0 == STATUS_INTERNAL_ERROR && r.1.summary@.len() == 0,
        },
{
    match outcome {
        Ok(text) => (STATUS_OK, SummaryBody { summary: text }),
        Err(_) => (STATUS_INTERNAL_ERROR, SummaryBody { summary: String::new() }),
    }
}

/// The whole summary pipeline after the engine ran: the first candidate of
/// a productive invocation is the summary of a success reply, anything else
/// is the opaque error reply with an empty body.
pub fn summary_reply_from_engine(outcome: EngineOutcome) -> (r: (u16, SummaryBody))
    ensures
        match outcome {
            EngineOutcome::Produced(candidates) => if candidates@.len() > 0 {
                r.0 == STATUS_OK && r.1.summary@ == candidates@[0]@
            } else {
                r.0 == STATUS_INTERNAL_ERROR && r.1.summary@.len() == 0
            },
            _ => r.0 == STATUS_INTERNAL_ERROR && r.1.summary@.len() == 0,
        },
{
    summary_reply(select_summary(outcome))
}

} // verus!
