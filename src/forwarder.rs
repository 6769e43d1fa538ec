//! The forwarder's configuration and its verdict on each stage of a call.
//!
//! A call has two stages that touch the network: sending the request, which
//! either fails or yields an HTTP status code, and reading and decoding the
//! body, which happens only after a success code. The caller performs each
//! stage and hands its result to `after_send` and `after_decode`; the verdicts
//! never depend on the link that was forwarded.
use crate::protocol::OpenResponse;
use vstd::prelude::*;

verus! {

/// The address of the helper service where none is configured.
pub open spec fn default_service_url() -> Seq<char> {
    "http://localhost:9527"@
}

/// Why a call failed. The four kinds are listed in the order in which a call
/// can meet them.
#[derive(Debug, PartialEq, Eq)]
pub enum ForwardError {
    /// The service could not be reached; the cause as the transport gave it.
    TransportError(String),
    /// The service answered with an HTTP status outside 2xx.
    ServiceError(u16),
    /// The body of a success reply was not a valid response; the reason.
    DecodeError(String),
    /// The service understood the request but reports failure; its message.
    ApplicationError(String),
}

/// Where the helper service is reached.
pub struct Forwarder {
    service_url: String,
}

impl Forwarder {
    pub closed spec fn spec_service_url(&self) -> Seq<char> {
        self.service_url@
    }

    /// A forwarder for the helper service at its default address.
    pub fn new() -> (r: Forwarder)
        ensures
            r.spec_service_url() == default_service_url(),
    {
        proof {
            reveal_strlit("http://localhost:9527");
        }
        Forwarder { service_url: "http://localhost:9527".to_owned() }
    }

    /// A forwarder for the helper service at `service_url`.
    pub fn with_service_url(service_url: String) -> (r: Forwarder)
        ensures
            r.spec_service_url() == service_url@,
    {
        Forwarder { service_url }
    }

    pub fn service_url(&self) -> (r: &str)
        ensures
            r@ == self.spec_service_url(),
    {
        self.service_url.as_str()
    }

    /// The URL that requests are posted to.
    pub fn endpoint(&self) -> (r: String)
        ensures
            r@ == self.spec_service_url() + "/open"@,
    {
        let mut out = self.service_url.clone();
        out.append("/open");
        proof {
            reveal_strlit("/open");
        }
        out
    }
}

/// An HTTP status code in the success class.
pub open spec fn is_success_status(code: u16) -> bool {
    200 <= code && code < 300
}

pub fn is_success(code: u16) -> (r: bool)
    ensures
        r == is_success_status(code),
{
    200 <= code && code < 300
}

/// The verdict once the request has been sent: `sent` is the HTTP status of
/// the reply, or the transport's description of why no reply came. `Ok` means
/// that the body is to be read and decoded.
pub open spec fn send_verdict(sent: Result<u16, String>) -> Result<(), ForwardError> {
    match sent {
        Err(cause) => Err(ForwardError::TransportError(cause)),
        Ok(code) => if is_success_status(code) {
            Ok(())
        } else {
            Err(ForwardError::ServiceError(code))
        },
    }
}

/// The verdict on the decoded body: `decoded` is the response, or the reason
/// why the body was not one.
pub open spec fn decode_verdict(decoded: Result<OpenResponse, String>) -> Result<(), ForwardError> {
    match decoded {
        Err(reason) => Err(ForwardError::DecodeError(reason)),
        Ok(response) => if response.succeeded() {
            Ok(())
        } else {
            Err(ForwardError::ApplicationError(response.message))
        },
    }
}

/// The outcome of a whole call, from what each stage produced. `decoded` is
/// not looked at unless the send stage succeeded.
pub open spec fn forward_outcome(
    sent: Result<u16, String>,
    decoded: Result<OpenResponse, String>,
) -> Result<(), ForwardError> {
    match send_verdict(sent) {
        Err(e) => Err(e),
        Ok(()) => decode_verdict(decoded),
    }
}

pub fn after_send(sent: Result<u16, String>) -> (r: Result<(), ForwardError>)
    ensures
        r == send_verdict(sent),
{
    match sent {
        Err(cause) => Err(ForwardError::TransportError(cause)),
        Ok(code) => if is_success(code) {
            Ok(())
        } else {
            Err(ForwardError::ServiceError(code))
        },
    }
}

pub fn after_decode(decoded: Result<OpenResponse, String>) -> (r: Result<(), ForwardError>)
    ensures
        r == decode_verdict(decoded),
{
    match decoded {
        Err(reason) => Err(ForwardError::DecodeError(reason)),
        Ok(response) => if response.is_ok() {
            Ok(())
        } else {
            Err(ForwardError::ApplicationError(response.message))
        },
    }
}

/// A success reply whose body reports status "ok" makes the call succeed,
/// whatever its message and path.
pub proof fn ok_reply_succeeds(code: u16, response: OpenResponse)
    requires
        is_success_status(code),
        response.succeeded(),
    ensures
        forward_outcome(Ok(code), Ok(response)) == Ok::<(), ForwardError>(()),
{
}

/// A reply with a status outside 2xx is a service error carrying that code,
/// whatever the body holds.
pub proof fn failure_status_is_service_error(code: u16, decoded: Result<OpenResponse, String>)
    requires
        !is_success_status(code),
    ensures
        forward_outcome(Ok(code), decoded) == Err::<(), ForwardError>(
            ForwardError::ServiceError(code),
        ),
{
}

/// Where no reply comes, the call fails with the transport's cause.
pub proof fn no_reply_is_transport_error(cause: String, decoded: Result<OpenResponse, String>)
    ensures
        forward_outcome(Err(cause), decoded) == Err::<(), ForwardError>(
            ForwardError::TransportError(cause),
        ),
{
}

/// A success reply whose body does not decode is a decode error carrying the
/// reason.
pub proof fn undecodable_body_is_decode_error(code: u16, reason: String)
    requires
        is_success_status(code),
    ensures
        forward_outcome(Ok(code), Err(reason)) == Err::<(), ForwardError>(
            ForwardError::DecodeError(reason),
        ),
{
}

/// A success reply whose body reports any status but "ok" is an application
/// error carrying the body's message.
pub proof fn refusal_is_application_error(code: u16, response: OpenResponse)
    requires
        is_success_status(code),
        !response.succeeded(),
    ensures
        forward_outcome(Ok(code), Ok(response)) == Err::<(), ForwardError>(
            ForwardError::ApplicationError(response.message),
        ),
{
}

} // verus!
