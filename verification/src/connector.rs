//! The connector.
//!
//! One connector call accepts an abstract request, converts it to the
//! sandbox's representation, submits it against the held backend identity,
//! and — unless submission itself failed synchronously — drives the pending
//! handle through the poll bridge. The terminal result is converted back into
//! an abstract response, or classified into the connector's error taxonomy.
//! No retries happen at this layer, and exactly one submission is made per
//! invocation.

use vstd::prelude::*;

use crate::bridge::FakeHandle;
use crate::bridge::drive_fake;
use crate::client::Backend;
use crate::error::ErrorClass;
use crate::error::SendFailure;
use crate::error::classify;
use crate::error::spec_classify;
use crate::message::AbstractRequest;
use crate::message::AbstractResponse;
use crate::message::NativeRequest;
use crate::message::NativeResponse;
use crate::message::request_to_native;
use crate::message::response_from_native;

verus! {

/// The connector's error taxonomy, carrying the underlying send failure:
/// an I/O failure a caller's policy may retry, an explicit timeout, or an
/// unrecognized failure with no retry hint.
#[derive(Clone, Copy, PartialEq, Eq, Structural, Debug)]
pub enum ConnectorError {
    Io(SendFailure),
    Timeout(SendFailure),
    Other(SendFailure),
}

/// The connector error a given send failure is surfaced as: the failure's
/// root cause classified, the failure itself carried along.
pub open spec fn spec_connector_error(failure: SendFailure) -> ConnectorError {
    match spec_classify(failure.cause) {
        ErrorClass::IoFailure => ConnectorError::Io(failure),
        ErrorClass::Timeout => ConnectorError::Timeout(failure),
        ErrorClass::Other => ConnectorError::Other(failure),
    }
}

/// Classifies a send failure into the connector's error taxonomy. Both the
/// immediate-submission-failure path and the polled-failure path flow through
/// here: no failure is swallowed and both paths surface uniformly.
pub fn into_connector_error(failure: SendFailure) -> (err: ConnectorError)
    ensures
        err == spec_connector_error(failure),
{
    match classify(&failure) {
        ErrorClass::IoFailure => ConnectorError::Io(failure),
        ErrorClass::Timeout => ConnectorError::Timeout(failure),
        ErrorClass::Other => ConnectorError::Other(failure),
    }
}

/// What submitting a native request to the sandbox yields: a pending handle
/// to poll, or an immediate, synchronous send failure.
#[derive(PartialEq, Eq, Debug)]
pub enum SubmitOutcome<H> {
    Accepted(H),
    Rejected(SendFailure),
}

/// The connector's decision at submission time: a rejected submission is
/// classified and returned at once — the poll bridge is never entered — and
/// an accepted one hands its pending handle onward to the bridge.
pub fn on_submit<H>(outcome: SubmitOutcome<H>) -> (r: Result<H, ConnectorError>)
    ensures
        match outcome {
            SubmitOutcome::Accepted(handle) => r == Ok::<H, ConnectorError>(handle),
            SubmitOutcome::Rejected(failure) => r == Err::<H, ConnectorError>(
                spec_connector_error(failure),
            ),
        },
{
    match outcome {
        SubmitOutcome::Accepted(handle) => Ok(handle),
        SubmitOutcome::Rejected(failure) => Err(into_connector_error(failure)),
    }
}

/// Converts the bridge's terminal result into the connector's result: a
/// native response is converted to the abstract response, status, headers
/// and body bytes preserved; a send failure is classified.
pub fn complete_call(terminal: Result<NativeResponse, SendFailure>) -> (r: Result<
    AbstractResponse,
    ConnectorError,
>)
    ensures
        match terminal {
            Ok(native) => {
                &&& r is Ok
                &&& r->Ok_0.status == native.status
                &&& r->Ok_0.headers == native.headers
                &&& r->Ok_0.body.byte_content() == native.body.byte_content()
                &&& native.body.byte_content().len() == 0 ==> r->Ok_0.body is Empty
                &&& native.body.byte_content().len() > 0 ==> r->Ok_0.body is Buffered
            },
            Err(failure) => r == Err::<AbstractResponse, ConnectorError>(
                spec_connector_error(failure),
            ),
        },
{
    match terminal {
        Ok(native) => Ok(response_from_native(native)),
        Err(failure) => Err(into_connector_error(failure)),
    }
}

/// Everything one scripted connector call produced: the connector's result,
/// how many reschedules the poll bridge needed, and the one native request
/// that was submitted to the sandbox.
#[derive(PartialEq, Eq, Debug)]
pub struct CallOutcome {
    pub result: Result<AbstractResponse, ConnectorError>,
    pub reschedules: usize,
    pub submitted: NativeRequest,
}

/// The per-call adapter: holds the backend identity the sandbox should route
/// the submitted request to.
#[derive(PartialEq, Eq, Debug)]
pub struct FastlyHttpConnector {
    pub backend: Backend,
}

impl From<Backend> for FastlyHttpConnector {
    fn from(backend: Backend) -> Self {
        Self { backend }
    }
}

impl vstd::std_specs::convert::FromSpecImpl<Backend> for FastlyHttpConnector {
    open spec fn obeys_from_spec() -> bool {
        true
    }

    open spec fn from_spec(backend: Backend) -> Self {
        FastlyHttpConnector { backend }
    }
}

impl FastlyHttpConnector {
    /// One full call against a scripted sandbox: the request is converted and
    /// submitted exactly once; a synchronous rejection is classified and
    /// returned without the bridge ever being entered or a single reschedule
    /// happening; an accepted submission is driven through the poll bridge —
    /// exactly as many reschedules as the handle reports "not yet" — and the
    /// terminal result converted or classified. The submitted native request
    /// carries the abstract request's method, URI, header multimap and bytes
    /// unchanged.
    pub fn call_scripted(&self, req: AbstractRequest, sandbox: SubmitOutcome<FakeHandle>) -> (out:
        CallOutcome)
        ensures
            out.submitted.method == req.method,
            out.submitted.uri == req.uri,
            out.submitted.headers == req.headers,
            out.submitted.body.byte_content() == req.body.byte_content(),
            match sandbox {
                SubmitOutcome::Rejected(failure) => out.result == Err::<
                    AbstractResponse,
                    ConnectorError,
                >(spec_connector_error(failure)) && out.reschedules == 0,
                SubmitOutcome::Accepted(handle) => {
                    &&& out.reschedules == handle.not_yet_remaining
                    &&& match handle.result {
                        Ok(native) => {
                            &&& out.result is Ok
                            &&& out.result->Ok_0.status == native.status
                            &&& out.result->Ok_0.headers == native.headers
                            &&& out.result->Ok_0.body.byte_content() == native.body.byte_content()
                            &&& native.body.byte_content().len() == 0 ==> out.result->Ok_0.body is Empty
                            &&& native.body.byte_content().len() > 0 ==> out.result->Ok_0.body is Buffered
                        },
                        Err(failure) => out.result == Err::<AbstractResponse, ConnectorError>(
                            spec_connector_error(failure),
                        ),
                    }
                },
            },
    {
        let submitted = request_to_native(req);
        match on_submit(sandbox) {
            Err(err) => CallOutcome { result: Err(err), reschedules: 0, submitted },
            Ok(handle) => {
                let (terminal, reschedules) = drive_fake(handle);
                CallOutcome { result: complete_call(terminal), reschedules, submitted }
            },
        }
    }
}

} // verus!
