//! The per-request pipeline: load the configuration, resolve the requested
//! route to a destination URL, format the alert — and the plain-text HTTP
//! responses the relay gives its callers.

use vstd::prelude::*;

use crate::config::{config_model, load_config};
use crate::error::RelayError;
use crate::message::{format_alert, format_spec, Alert, Message};
use crate::resolve::{first_match, resolve_webhook};

verus! {

use vstd::string::StringExecFns;

/// Everything needed for one outbound send: the resolved destination URL
/// and the formatted message.
#[derive(Clone, Debug, PartialEq, Eq)]
pub struct Dispatch {
    pub url: String,
    pub message: Message,
}

/// A plain-text HTTP response: a status code and a body.
#[derive(Clone, Debug, PartialEq, Eq)]
pub struct HttpResponse {
    pub status: u16,
    pub body: String,
}

/// Prepares one inbound request for dispatch: loads the configuration from
/// its encoded text, resolves the route name to the URL of the first
/// matching entry, and formats the alert. Fails with `NoMatchingWebhook`
/// exactly when the loaded configuration has no matching entry with a
/// string URL; the outbound send itself is left to the caller.
pub fn prepare_dispatch(encoded_config: &str, target: &str, alert: &Alert) -> (r: Result<
    Dispatch,
    RelayError,
>)
    ensures
        (match r {
            Ok(d) => (match first_match(config_model(encoded_config@), target@) {
                Option::Some(e) => e.1 == Some(d.url@),
                Option::None => false,
            }) && d.message@ =~~= format_spec(alert@),
            Err(er) => er == RelayError::NoMatchingWebhook && (match first_match(
                config_model(encoded_config@),
                target@,
            ) {
                Option::Some(e) => e.1 is None,
                Option::None => true,
            }),
        }),
{
    let mappings = load_config(encoded_config);
    let url = match resolve_webhook(&mappings, target) {
        Ok(u) => u,
        Err(er) => {
            return Err(er);
        },
    };
    let message = format_alert(alert);
    Ok(Dispatch { url, message })
}

/// The liveness response: `200` with body `"Healthy"`, regardless of any
/// configuration state.
pub fn health_response() -> (r: HttpResponse)
    ensures
        r.status == 200,
        r.body@ == "Healthy"@,
{
    HttpResponse { status: 200, body: String::from_str("Healthy") }
}

/// The response to the caller after a successful dispatch: `200` with body
/// `"Content sent to Discord"`.
pub fn success_response() -> (r: HttpResponse)
    ensures
        r.status == 200,
        r.body@ == "Content sent to Discord"@,
{
    HttpResponse { status: 200, body: String::from_str("Content sent to Discord") }
}

/// The catch-all response for unmatched routes and malformed bodies: `404`
/// with body `"Not found"`.
pub fn not_found_response() -> (r: HttpResponse)
    ensures
        r.status == 404,
        r.body@ == "Not found"@,
{
    HttpResponse { status: 404, body: String::from_str("Not found") }
}

/// The response for a failed request: every error kind collapses to the
/// same generic `404` `"Not found"` — the interface deliberately does not
/// distinguish the causes for the caller.
pub fn error_response(e: &RelayError) -> (r: HttpResponse)
    ensures
        r.status == 404,
        r.body@ == "Not found"@,
{
    let _ = e;
    not_found_response()
}

/// What the caller is told once the outbound send has been attempted:
/// `200` `"Content sent to Discord"` when the transport reported success,
/// the generic `404` `"Not found"` when it failed.
pub fn dispatch_outcome_response(sent: bool) -> (r: HttpResponse)
    ensures
        sent ==> r.status == 200 && r.body@ == "Content sent to Discord"@,
        !sent ==> r.status == 404 && r.body@ == "Not found"@,
{
    if sent {
        success_response()
    } else {
        not_found_response()
    }
}

} // verus!
