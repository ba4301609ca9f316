//! The dispatch path: resolving an inbound push request to a registry
//! lookup, a factory call and a prepared wire request, and mapping
//! every outcome to a normalized response. The caller performs the
//! one HTTP post between `prepare_push` and `finish_push`.

use vstd::prelude::*;
use vstd::string::*;
use crate::error::{describe_model, ErrorModel, PushError};
use crate::message::MessageType;
use crate::platform::{PlatformFactory, PushPlatformCapabilities};
use crate::registry::PlatformRegistry;
use crate::result::{PushResult, ResultModel};

verus! {

/// An inbound push request: the target platform, its configuration as
/// JSON text, and the message to deliver.
pub struct PushRequest {
    pub platform: String,
    pub config: String,
    pub message: MessageType,
}

/// The response envelope of a push request.
pub struct PushResponse {
    pub result: PushResult,
}

/// The model of a failure response: no message id, not successful,
/// with the given text.
pub open spec fn failure_model(text: Seq<char>) -> ResultModel {
    ResultModel { message_id: None, success: false, response: Some(text) }
}

/// A failure result carrying the description of the given error.
pub fn failure_response(e: &PushError) -> (r: PushResponse)
    ensures
        r.result.model() == failure_model(describe_model(e@)),
{
    let mut result = PushResult::default();
    result.response = Some(e.describe());
    proof {
        assert(result.model() =~= failure_model(describe_model(e@)));
    }
    PushResponse { result }
}

/// The first stage of a push: either a finished (failure) response
/// with its HTTP status, or the platform together with the wire
/// request the caller must now post.
pub enum PushStep<P> {
    Reject { status: u16, response: PushResponse },
    Deliver { platform: P, url: String, body: String },
}

/// Resolves a push request up to the outbound HTTP call: looks the
/// platform up in the registry, builds an instance from the
/// configuration, and lets it prepare the wire request. An unknown
/// platform or a refused configuration is rejected with status 400; a
/// message the platform refuses is rejected with status 200 and a
/// failure result; otherwise the prepared request is handed back.
pub fn prepare_push<F: PlatformFactory>(registry: &PlatformRegistry<F>, request: PushRequest) -> (r:
    PushStep<F::Platform>)
    ensures
        (match r {
            PushStep::Reject { status, response } => {
                if !registry@.contains_key(request.platform@) {
                    status == 400 && response.result.model() == failure_model(
                        "Platform '"@ + request.platform@ + "' not found"@,
                    )
                } else {
                    let factory = registry@[request.platform@];
                    if !factory.config_ok(request.config@) {
                        status == 400 && response.result.model() == failure_model(
                            "Failed to create platform: "@ + describe_model(
                                factory.create_err(request.config@),
                            ),
                        )
                    } else {
                        status == 200 && (exists|p: F::Platform|
                            factory.created_ens(request.config@, p) && (#[trigger] p.send_spec(
                                request.message@,
                            ) matches Err(em) && response.result.model() == failure_model(
                                describe_model(em),
                            )))
                    }
                }
            },
            PushStep::Deliver { platform: p, url, body } => {
                &&& registry@.contains_key(request.platform@)
                &&& registry@[request.platform@].config_ok(request.config@)
                &&& registry@[request.platform@].created_ens(request.config@, p)
                &&& (p.send_spec(request.message@) matches Ok(w) && url@ == w.url && body@
                    == w.body)
            },
        }),
{
    let found = registry.get_factory(request.platform.as_str());
    match found {
        None => {
            let mut text = String::from_str("Platform '");
            text.append(request.platform.as_str());
            text.append("' not found");
            let mut result = PushResult::default();
            result.response = Some(text);
            proof {
                assert(result.model() =~= failure_model("Platform '"@ + request.platform@ + "' not found"@));
            }
            PushStep::Reject { status: 400, response: PushResponse { result } }
        },
        Some(factory) => {
            match factory.create(request.config.as_str()) {
                Err(e) => {
                    let mut text = String::from_str("Failed to create platform: ");
                    let detail = e.describe();
                    text.append(detail.as_str());
                    let mut result = PushResult::default();
                    result.response = Some(text);
                    proof {
                        assert(result.model() =~= failure_model(
                            "Failed to create platform: "@ + describe_model(e@),
                        ));
                    }
                    PushStep::Reject { status: 400, response: PushResponse { result } }
                },
                Ok(instance) => {
                    match instance.send(request.message) {
                        Ok(wire) => PushStep::Deliver {
                            platform: instance,
                            url: wire.url,
                            body: wire.body,
                        },
                        Err(e) => {
                            let response = failure_response(&e);
                            PushStep::Reject { status: 200, response }
                        },
                    }
                },
            }
        },
    }
}

/// The second stage of a push, after the outbound HTTP call: the
/// platform interprets the webhook's status and body, and every
/// outcome becomes a response with HTTP status 200 — a caller must
/// inspect the result's success flag, not the status code.
pub fn finish_push<P: PushPlatformCapabilities>(platform: &P, status: u16, body: &str) -> (r: (
    PushResponse,
    u16,
))
    ensures
        r.1 == 200,
        (match platform.interpret_spec(status, body@) {
            Ok(m) => r.0.result.model() == m,
            Err(em) => r.0.result.model() == failure_model(describe_model(em)),
        }),
{
    match platform.interpret_response(status, body) {
        Ok(result) => (PushResponse { result }, 200),
        Err(e) => (failure_response(&e), 200),
    }
}

/// Wraps a transport failure of the outbound call — the one outcome
/// the platform never sees — as the response of the push: a network
/// error with the transport's own description, status 200.
pub fn transport_failure(detail: String) -> (r: (PushResponse, u16))
    ensures
        r.1 == 200,
        r.0.result.model() == failure_model(describe_model(ErrorModel::Network(detail@))),
{
    let e = PushError::NetworkError(detail);
    (failure_response(&e), 200)
}

} // verus!
