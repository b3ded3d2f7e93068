use wordser::EngineOutcome;
use wordser::ExtractionError;
use wordser::GatewayError;
use wordser::STATUS_INTERNAL_ERROR;
use wordser::STATUS_OK;
use wordser::SummarizationError;
use wordser::extraction_to_gateway;
use wordser::plan_summary_request;
use wordser::plan_synonyms_request;
use wordser::provider_url;
use wordser::require_credential;
use wordser::select_summary;
use wordser::summarization_to_gateway;
use wordser::summary_reply;
use wordser::summary_reply_from_engine;
use wordser::synonyms_reply;
use wordser::synonyms_reply_from_fetch;

#[test]
fn empty_word_is_rejected_without_upstream_call() {
    let word = String::new();
    let reply = plan_synonyms_request(&word).expect("an empty word must be answered at once");
    assert_eq!(reply.0, STATUS_INTERNAL_ERROR);
    assert!(reply.1.synonyms.is_empty());
}

#[test]
fn nonempty_word_goes_on_to_the_fetch() {
    let word = "quick".to_string();
    assert!(plan_synonyms_request(&word).is_none());
}

#[test]
fn empty_txt_is_rejected_without_engine_call() {
    let txt = String::new();
    let reply = plan_summary_request(&txt).expect("an empty txt must be answered at once");
    assert_eq!(reply.0, STATUS_INTERNAL_ERROR);
    assert!(reply.1.summary.is_empty());
}

#[test]
fn nonempty_txt_goes_on_to_the_engine() {
    let txt = "a planet circling a star".to_string();
    assert!(plan_summary_request(&txt).is_none());
}

#[test]
fn successful_summary_is_a_success_reply() {
    let reply = summary_reply(Ok("X".to_string()));
    assert_eq!(reply.0, STATUS_OK);
    assert_eq!(reply.1.summary, "X");
}

#[test]
fn engine_text_x_yields_200_with_body_x() {
    let reply = summary_reply_from_engine(EngineOutcome::Produced(vec!["X".to_string()]));
    assert_eq!(reply.0, STATUS_OK);
    assert_eq!(reply.1.summary, "X");
}

#[test]
fn first_candidate_is_selected() {
    let outcome = EngineOutcome::Produced(vec!["first".to_string(), "second".to_string()]);
    assert_eq!(select_summary(outcome), Ok("first".to_string()));
}

#[test]
fn unavailable_engine_is_a_typed_failure() {
    assert_eq!(
        select_summary(EngineOutcome::Unavailable),
        Err(SummarizationError::EngineUnavailable)
    );
}

#[test]
fn failed_invocation_is_a_typed_failure() {
    assert_eq!(
        select_summary(EngineOutcome::Failed),
        Err(SummarizationError::EngineExecutionFailed)
    );
}

#[test]
fn no_candidates_is_a_failed_execution() {
    assert_eq!(
        select_summary(EngineOutcome::Produced(Vec::new())),
        Err(SummarizationError::EngineExecutionFailed)
    );
}

#[test]
fn failed_summary_is_an_error_reply_with_empty_body() {
    let reply = summary_reply(Err(SummarizationError::EngineUnavailable));
    assert_eq!(reply.0, STATUS_INTERNAL_ERROR);
    assert_eq!(reply.1.summary, "");
}

#[test]
fn successful_extraction_is_a_success_reply() {
    let reply = synonyms_reply(Ok(vec!["quick".to_string(), "fast".to_string()]));
    assert_eq!(reply.0, STATUS_OK);
    assert_eq!(reply.1.synonyms, vec!["quick".to_string(), "fast".to_string()]);
}

#[test]
fn extraction_failure_is_an_error_reply_with_empty_list() {
    let reply = synonyms_reply(Err(GatewayError::UpstreamMalformed));
    assert_eq!(reply.0, STATUS_INTERNAL_ERROR);
    assert!(reply.1.synonyms.is_empty());
}

#[test]
fn fetched_document_flows_through_to_the_reply() {
    let bytes = br#"[{"meta":{"syns":[["quick","fast"],["rapid"]]}}]"#.to_vec();
    let reply = synonyms_reply_from_fetch(Ok(bytes));
    assert_eq!(reply.0, STATUS_OK);
    assert_eq!(
        reply.1.synonyms,
        vec!["quick".to_string(), "fast".to_string(), "rapid".to_string()]
    );
}

#[test]
fn fetched_garbage_is_an_error_reply() {
    let reply = synonyms_reply_from_fetch(Ok(b"not json".to_vec()));
    assert_eq!(reply.0, STATUS_INTERNAL_ERROR);
    assert!(reply.1.synonyms.is_empty());
}

#[test]
fn fetch_failure_is_an_error_reply() {
    let reply = synonyms_reply_from_fetch(Err(GatewayError::UpstreamUnavailable));
    assert_eq!(reply.0, STATUS_INTERNAL_ERROR);
    assert!(reply.1.synonyms.is_empty());
}

#[test]
fn requests_for_different_words_are_independent() {
    let quick = br#"[{"meta":{"syns":[["quick","fast"]]}}]"#.to_vec();
    let slow = br#"[{"meta":{"syns":[["slow"]]}}]"#.to_vec();
    let first_then_second = (
        synonyms_reply_from_fetch(Ok(quick.clone())),
        synonyms_reply_from_fetch(Ok(slow.clone())),
    );
    let second_then_first = (
        synonyms_reply_from_fetch(Ok(slow)),
        synonyms_reply_from_fetch(Ok(quick)),
    );
    assert_eq!(first_then_second.0.1.synonyms, second_then_first.1.1.synonyms);
    assert_eq!(first_then_second.1.1.synonyms, second_then_first.0.1.synonyms);
    assert_eq!(first_then_second.0.1.synonyms, vec!["quick".to_string(), "fast".to_string()]);
    assert_eq!(first_then_second.1.1.synonyms, vec!["slow".to_string()]);
}

#[test]
fn provider_url_embeds_word_and_credential() {
    let word = "quick".to_string();
    let key = "SECRET-REDACTED".to_string();
    assert_eq!(
        provider_url(&word, &key),
        "https://www.dictionaryapi.com/api/v3/references/thesaurus/json/quick?key=SECRET-REDACTED"
    );
}

#[test]
fn missing_credential_is_fatal_configuration_error() {
    assert_eq!(require_credential(None), Err(GatewayError::ConfigurationError));
}

#[test]
fn present_credential_is_accepted() {
    assert_eq!(require_credential(Some("k".to_string())), Ok("k".to_string()));
}

#[test]
fn extraction_errors_map_into_the_taxonomy() {
    assert_eq!(
        extraction_to_gateway(&ExtractionError::MalformedJson),
        GatewayError::UpstreamMalformed
    );
    assert_eq!(
        extraction_to_gateway(&ExtractionError::EmptyDocument),
        GatewayError::UpstreamUnexpectedShape
    );
    assert_eq!(
        extraction_to_gateway(&ExtractionError::MissingField),
        GatewayError::UpstreamUnexpectedShape
    );
    assert_eq!(
        extraction_to_gateway(&ExtractionError::UnexpectedShape),
        GatewayError::UpstreamUnexpectedShape
    );
}

#[test]
fn summarization_errors_map_into_the_taxonomy() {
    assert_eq!(
        summarization_to_gateway(&SummarizationError::EngineUnavailable),
        GatewayError::EngineUnavailable
    );
    assert_eq!(
        summarization_to_gateway(&SummarizationError::EngineExecutionFailed),
        GatewayError::EngineExecutionFailed
    );
}
