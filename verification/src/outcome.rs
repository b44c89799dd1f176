//! One call through the adapter: decode, invoke, encode, and how the call
//! ended.

use crate::decode::{decode, decode_spec};
use crate::encode::{encode, encode_spec};
use crate::error::{AdapterError, DecodeError};
use crate::invoke::invoke;
use crate::schema::{
    result_view, Config, ConfigView, Diagnostics, DiagnosticsView, Output, OutputView,
};
use crate::value::{HostValue, Value};
use vstd::prelude::*;

verus! {

/// How a call ended, before any host's way of signalling is applied.
#[derive(Clone, Debug, PartialEq, Eq)]
pub enum CallOutcome {
    /// The transform succeeded; the payload is its output as a host value.
    Success(HostValue),
    /// The transform could not process the source; the payload is its
    /// diagnostics as a host value.
    InputDiagnostics(HostValue),
    /// The adapter could not decode the configuration or encode the result.
    AdapterError(AdapterError),
}

/// The mathematical model of a [`CallOutcome`].
pub enum OutcomeView {
    Success(Value),
    InputDiagnostics(Value),
    AdapterError(AdapterError),
}

impl View for CallOutcome {
    type V = OutcomeView;

    open spec fn view(&self) -> OutcomeView {
        match self {
            CallOutcome::Success(value) => OutcomeView::Success(value@),
            CallOutcome::InputDiagnostics(value) => OutcomeView::InputDiagnostics(value@),
            CallOutcome::AdapterError(e) => OutcomeView::AdapterError(*e),
        }
    }
}

/// How a call ends once the transform has returned `result`: with the
/// encoded output, with the encoded diagnostics, or with the encoder's
/// error.
pub open spec fn settled(result: Result<OutputView, DiagnosticsView>) -> OutcomeView {
    match encode_spec(result) {
        Err(e) => OutcomeView::AdapterError(AdapterError::Encode(e)),
        Ok(value) => match result {
            Ok(_) => OutcomeView::Success(value),
            Err(_) => OutcomeView::InputDiagnostics(value),
        },
    }
}

/// Whether `outcome` is a way for a call on `value` with `transform` to end.
///
/// A value that is no configuration ends the call with the decoder's error,
/// whatever the transform is. Otherwise the call ends as `settled` says of
/// something that the transform may return on the decoded configuration.
pub open spec fn answers<F: FnOnce(Config) -> Result<Output, Diagnostics>>(
    value: Value,
    transform: F,
    outcome: OutcomeView,
) -> bool {
    match decode_spec(value) {
        Err(e) => outcome == OutcomeView::AdapterError(AdapterError::Decode(e)),
        Ok(decoded) => exists|config: Config, result: Result<Output, Diagnostics>|
            config@ == decoded && #[trigger] transform.ensures((config,), result) && outcome
                == settled(result_view(result)),
    }
}

/// Whether `transform` accepts every configuration that `value` may decode
/// to.
pub open spec fn accepts<F: FnOnce(Config) -> Result<Output, Diagnostics>>(
    value: Value,
    transform: F,
) -> bool {
    forall|config: Config|
        decode_spec(value) == Ok::<ConfigView, DecodeError>(config@)
            ==> #[trigger] transform.requires((config,))
}

/// Ends a call whose transform has returned `result`.
pub fn settle(result: Result<Output, Diagnostics>) -> (outcome: CallOutcome)
    ensures
        outcome@ == settled(result_view(result)),
{
    let succeeded = result.is_ok();
    match encode(result) {
        Err(e) => CallOutcome::AdapterError(AdapterError::Encode(e)),
        Ok(value) => if succeeded {
            CallOutcome::Success(value)
        } else {
            CallOutcome::InputDiagnostics(value)
        },
    }
}

/// Runs one call: decodes `value`, calls `transform` on the configuration,
/// and encodes what it returned.
///
/// The transform is called only with a configuration that was decoded in
/// full, and once at most.
pub fn call<F>(value: &HostValue, transform: F) -> (outcome: CallOutcome) where
    F: FnOnce(Config) -> Result<Output, Diagnostics>,

    requires
        accepts(value@, transform),
    ensures
        answers(value@, transform, outcome@),
{
    match decode(value) {
        Err(e) => CallOutcome::AdapterError(AdapterError::Decode(e)),
        Ok(config) => {
            let ghost handed = config;
            let result = invoke(config, transform);
            assert(transform.ensures((handed,), result));
            settle(result)
        },
    }
}

} // verus!
