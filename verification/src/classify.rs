//! Classified outcome of one fetch attempt, as the engine consumes it.

use vstd::prelude::*;

verus! {

/// Why a fetch attempt failed.
#[derive(Clone, Copy, Debug, PartialEq, Eq, Structural)]
pub enum ErrorCause {
    /// Connection-level failure: the request never produced a body.
    Transport,
    /// The body arrived but did not decode into the typed schema.
    SchemaMismatch,
    /// The upstream answered with its failure shape instead of a batch.
    UpstreamRejected,
    /// Too many consecutive recoverable errors.
    RetryBudgetExhausted,
}

/// One event pulled from the upstream source: an ordering id and an opaque
/// body that the engine hands to the handler without interpreting it.
#[derive(Debug)]
pub struct EngineUpdate<B> {
    pub id: i64,
    pub body: B,
}

/// The classified result of one fetch, which drives the fetch loop.
#[derive(Debug)]
pub enum FetchEvent<B> {
    /// Typed decode succeeded: an ordered batch of events, possibly empty.
    Batch(Vec<EngineUpdate<B>>),
    /// The long-poll window elapsed with no data. Expected steady state,
    /// not an error.
    Timeout,
    /// A failure worth retrying. `recovered` carries the trailing event id
    /// salvaged from the raw body, when the fallback parse found one.
    Recoverable { cause: ErrorCause, recovered: Option<i64> },
    /// A terminal failure: the loop must stop.
    Fatal(ErrorCause),
}

} // verus!
