use vstd::prelude::*;

mod dispatch;
mod errors;
mod extract;
mod json;
mod shutdown;
mod summary;

pub use dispatch::STATUS_INTERNAL_ERROR;
pub use dispatch::STATUS_OK;
pub use dispatch::SummaryBody;
pub use dispatch::SynonymsBody;
pub use dispatch::plan_summary_request;
pub use dispatch::plan_synonyms_request;
pub use dispatch::provider_url;
pub use dispatch::require_credential;
pub use dispatch::spec_provider_url;
pub use dispatch::summary_reply;
pub use dispatch::summary_reply_from_engine;
pub use dispatch::synonyms_reply;
pub use dispatch::synonyms_reply_from_fetch;
pub use shutdown::ShutdownCoordinator;
pub use shutdown::lemma_graceful_drain;
pub use shutdown::lemma_signal_one_shot;
pub use shutdown::spec_admit_allowed;
pub use shutdown::spec_complete;
pub use shutdown::spec_completes;
pub use shutdown::spec_may_exit;
pub use shutdown::spec_signal;
pub use summary::EngineOutcome;
pub use summary::select_summary;

pub use errors::ExtractionError;
pub use errors::GatewayError;
pub use errors::SummarizationError;
pub use errors::extraction_to_gateway;
pub use errors::spec_extraction_to_gateway;
pub use errors::spec_summarization_to_gateway;
pub use errors::summarization_to_gateway;
pub use extract::extract_from_doc;
pub use extract::extract_synonyms;
pub use extract::lemma_bad_member_spoils_all;
pub use extract::lemma_extract_well_formed;
pub use extract::lemma_flatten_prefix_err;
pub use extract::lemma_missing_syns;
pub use extract::spec_concat_clusters;
pub use extract::spec_cluster_strings;
pub use extract::spec_extract;
pub use extract::spec_flatten_prefix;
pub use extract::spec_syns_of;
pub use json::JsonValue;
pub use json::json_doc_of;
pub use json::lookup;
pub use json::parse_json;
pub use json::spec_lookup;

verus! {

} // verus!
