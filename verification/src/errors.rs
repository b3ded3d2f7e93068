use vstd::prelude::*;

verus! {

/// The internal error taxonomy of the gateway. Every per-request failure is
/// one of these; the dispatcher later collapses them into a single HTTP
/// status, but the kind is kept for diagnostics.
#[derive(Debug, PartialEq, Eq, Structural)]
pub enum GatewayError {
    /// The required credential is missing at startup; fatal, the process
    /// does not begin serving.
    ConfigurationError,
    /// The upstream thesaurus provider could not be reached.
    UpstreamUnavailable,
    /// The provider responded, but the body is not valid JSON.
    UpstreamMalformed,
    /// The provider's JSON parsed, but a required field or type is absent
    /// at some nesting level.
    UpstreamUnexpectedShape,
    /// The summarization engine failed to initialize.
    EngineUnavailable,
    /// The summarization engine was invoked but reported an error.
    EngineExecutionFailed,
    /// A required query parameter is missing or empty.
    InvalidInput,
}

/// A failure of the synonym extraction pipeline, one kind per step that can
/// go wrong while reading the provider document.
#[derive(Debug, PartialEq, Eq, Structural)]
pub enum ExtractionError {
    /// The response body is not a JSON array of documents.
    MalformedJson,
    /// The response parsed as an array, but the array holds no document.
    EmptyDocument,
    /// The first document does not lead to a `syns` field: it is not an
    /// object, has no `meta` object, or `meta` lacks the key.
    MissingField,
    /// The `syns` field is present but is not an array of arrays of strings.
    UnexpectedShape,
}

/// A failure of the summarization adapter.
#[derive(Debug, PartialEq, Eq, Structural)]
pub enum SummarizationError {
    /// The engine failed to initialize or load.
    EngineUnavailable,
    /// The engine was invoked but raised an error, or produced no candidate.
    EngineExecutionFailed,
}

/// Where each extraction failure falls in the gateway's taxonomy.
pub open spec fn spec_extraction_to_gateway(e: ExtractionError) -> GatewayError {
    match e {
        ExtractionError::MalformedJson => GatewayError::UpstreamMalformed,
        ExtractionError::EmptyDocument => GatewayError::UpstreamUnexpectedShape,
        ExtractionError::MissingField => GatewayError::UpstreamUnexpectedShape,
        ExtractionError::UnexpectedShape => GatewayError::UpstreamUnexpectedShape,
    }
}

pub fn extraction_to_gateway(e: &ExtractionError) -> (r: GatewayError)
    ensures
        r == spec_extraction_to_gateway(*e),
{
    match e {
        ExtractionError::MalformedJson => GatewayError::UpstreamMalformed,
        ExtractionError::EmptyDocument => GatewayError::UpstreamUnexpectedShape,
        ExtractionError::MissingField => GatewayError::UpstreamUnexpectedShape,
        ExtractionError::UnexpectedShape => GatewayError::UpstreamUnexpectedShape,
    }
}

/// Where each summarization failure falls in the gateway's taxonomy.
pub open spec fn spec_summarization_to_gateway(e: SummarizationError) -> GatewayError {
    match e {
        SummarizationError::EngineUnavailable => GatewayError::EngineUnavailable,
        SummarizationError::EngineExecutionFailed => GatewayError::EngineExecutionFailed,
    }
}

pub fn summarization_to_gateway(e: &SummarizationError) -> (r: GatewayError)
    ensures
        r == spec_summarization_to_gateway(*e),
{
    match e {
        SummarizationError::EngineUnavailable => GatewayError::EngineUnavailable,
        SummarizationError::EngineExecutionFailed => GatewayError::EngineExecutionFailed,
    }
}

} // verus!
