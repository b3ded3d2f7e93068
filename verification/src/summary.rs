use vstd::prelude::*;

use crate::errors::SummarizationError;

verus! {

/// What one invocation of the summarization engine came to, as reported by
/// the caller that owns the engine. The engine itself is an outside
/// collaborator: the adapter only normalizes its outcome.
pub enum EngineOutcome {
    /// The engine failed to initialize or load.
    Unavailable,
    /// The engine was invoked but raised an error.
    Failed,
    /// The engine produced candidate summaries, best first.
    Produced(Vec<String>),
}

/// Normalizes an engine outcome into the adapter's contract: the first
/// candidate on success, a typed failure otherwise. An invocation that
/// produced no candidate at all is treated as a failed execution rather
/// than answered with a made-up summary.
pub fn select_summary(outcome: EngineOutcome) -> (r: Result<String, SummarizationError>)
    ensures
        match outcome {
            EngineOutcome::Unavailable => r == Err::<String, SummarizationError>(
                SummarizationError::EngineUnavailable,
            ),
            EngineOutcome::Failed => r == Err::<String, SummarizationError>(
                SummarizationError::EngineExecutionFailed,
            ),
            EngineOutcome::Produced(candidates) => if candidates@.len() == 0 {
                r == Err::<String, SummarizationError>(SummarizationError::EngineExecutionFailed)
            } else {
                r is Ok && r->Ok_0@ == candidates@[0]@
            },
        },
{
    match outcome {
        EngineOutcome::Unavailable => Err(SummarizationError::EngineUnavailable),
        EngineOutcome::Failed => Err(SummarizationError::EngineExecutionFailed),
        EngineOutcome::Produced(mut candidates) => {
            if candidates.len() == 0 {
                Err(SummarizationError::EngineExecutionFailed)
            } else {
                Ok(candidates.remove(0))
            }
        },
    }
}

} // verus!
