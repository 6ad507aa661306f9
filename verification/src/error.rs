//! The relay's error kinds. Every caller-visible failure collapses to one
//! generic "not found" response; the kinds exist for the relay's own logic.

use vstd::prelude::*;

verus! {

/// What can go wrong while handling one inbound request.
#[derive(Clone, Copy, Debug, PartialEq, Eq, Structural)]
pub enum RelayError {
    /// The configuration text is not valid JSON; recovered locally by
    /// substituting an empty mapping list, never surfaced to the caller.
    ConfigParseError,
    /// No configured destination for the requested path, or the matching
    /// entry's URL is missing or not a string.
    NoMatchingWebhook,
    /// The outbound send failed at the transport layer.
    DispatchFailure,
}

} // verus!
