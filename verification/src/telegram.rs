//! Binding of the engine to the upstream's response shapes: the typed
//! decode of a long-poll body into a batch of events, and the classifier
//! that turns one fetch attempt's raw outcome into the event the fetch
//! loop consumes.

use vstd::prelude::*;
use crate::classify::{EngineUpdate, ErrorCause, FetchEvent};
use crate::recovery::{may_recover_from_error, recovery_spec, shallow_of};
use telegram_types::bot::methods::TelegramResult;
use telegram_types::bot::types::{Update, UpdateContent};

verus! {

#[verifier::external_type_specification]
#[verifier::external_body]
pub struct ExUpdateContent(UpdateContent);

/// What the typed decode of a body amounts to: the event ids of a
/// successful batch, the upstream's failure shape, or neither.
pub enum DecodeShape {
    Accepted(Seq<i64>),
    Rejected,
    Mismatch,
}

/// The typed decode of a byte sequence. Fully determined by the bytes;
/// what it is on given bytes is stated only by `decode_updates`.
pub uninterp spec fn typed_decode_of(data: Seq<u8>) -> DecodeShape;

/// A decoded long-poll body.
pub enum DecodedBody {
    /// The success shape: an ordered batch of events, possibly empty.
    Accepted(Vec<EngineUpdate<UpdateContent>>),
    /// The failure shape: the upstream said `ok: false`.
    Rejected,
    /// Neither: the body did not decode into the typed schema.
    Mismatch,
}

/// Relies on serde_json's `from_slice` to decode the body into
/// telegram_types' `TelegramResult<Vec<Update>>`, and on that type's
/// `into_result` to tell the success shape from the failure shape. Each
/// update is carried over as its id and its opaque content; an absent
/// content decodes to the content type's default, which handlers treat
/// as an unknown update kind.
#[verifier::external_body]
fn decode_updates(data: &[u8]) -> (r: DecodedBody)
    ensures
        match r {
            DecodedBody::Accepted(evs) => typed_decode_of(data@) == DecodeShape::Accepted(
                evs@.map_values(|e: EngineUpdate<UpdateContent>| e.id),
            ),
            DecodedBody::Rejected => typed_decode_of(data@) is Rejected,
            DecodedBody::Mismatch => typed_decode_of(data@) is Mismatch,
        },
{
    match serde_json::from_slice::<TelegramResult<Vec<Update>>>(data) {
        Ok(tr) => match tr.into_result() {
            Ok(updates) => DecodedBody::Accepted(
                updates
                    .into_iter()
                    .map(|u| EngineUpdate { id: u.update_id.0, body: u.content.unwrap_or_default() })
                    .collect(),
            ),
            Err(_) => DecodedBody::Rejected,
        },
        Err(_) => DecodedBody::Mismatch,
    }
}

/// The raw outcome of one fetch attempt, before classification.
pub enum TransportOutcome {
    /// Connection-level failure: no body arrived.
    Failed,
    /// The client-side timer elapsed: the long-poll window passed with no
    /// data.
    TimedOut,
    /// Transport succeeded; here is the body.
    Body(Vec<u8>),
}

/// Turn the raw outcome of one fetch attempt into the event the fetch
/// loop consumes. A transport failure is terminal; a timeout is the
/// expected steady state and not an error; a body that fails the typed
/// decode becomes a recoverable error, carrying whatever next-cursor id
/// the fallback parse salvaged; the upstream's own failure shape is
/// retried without a salvaged id.
pub fn classify_response(outcome: TransportOutcome) -> (ev: FetchEvent<UpdateContent>)
    ensures
        match outcome {
            TransportOutcome::Failed => ev == FetchEvent::<UpdateContent>::Fatal(
                ErrorCause::Transport,
            ),
            TransportOutcome::TimedOut => ev == FetchEvent::<UpdateContent>::Timeout,
            TransportOutcome::Body(data) => match typed_decode_of(data@) {
                DecodeShape::Accepted(ids) => ev matches FetchEvent::Batch(evs) && evs@.map_values(
                    |e: EngineUpdate<UpdateContent>| e.id,
                ) == ids,
                DecodeShape::Rejected => ev == (FetchEvent::<UpdateContent>::Recoverable {
                    cause: ErrorCause::UpstreamRejected,
                    recovered: None,
                }),
                DecodeShape::Mismatch => ev == (FetchEvent::<UpdateContent>::Recoverable {
                    cause: ErrorCause::SchemaMismatch,
                    recovered: recovery_spec(shallow_of(data@)),
                }),
            },
        },
{
    match outcome {
        TransportOutcome::Failed => FetchEvent::Fatal(ErrorCause::Transport),
        TransportOutcome::TimedOut => FetchEvent::Timeout,
        TransportOutcome::Body(data) => match decode_updates(data.as_slice()) {
            DecodedBody::Accepted(evs) => FetchEvent::Batch(evs),
            DecodedBody::Rejected => FetchEvent::Recoverable {
                cause: ErrorCause::UpstreamRejected,
                recovered: None,
            },
            DecodedBody::Mismatch => FetchEvent::Recoverable {
                cause: ErrorCause::SchemaMismatch,
                recovered: may_recover_from_error(data.as_slice()),
            },
        },
    }
}

} // verus!
