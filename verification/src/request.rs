//! The one outgoing request: where it goes, what it carries, and what each
//! possible outcome means for the display state.

use vstd::prelude::*;

use crate::controller::{App, AppMsg, spec_update};
use crate::state::BrailleState;

verus! {

/// What reading the response body gave: its text, or the message of the
/// decode error.
#[derive(Clone, Debug, PartialEq, Eq)]
pub enum BodyOutcome {
    /// The body could be decoded as text.
    Text(String),
    /// The body could not be decoded as text; the decode error's message.
    Undecodable(String),
}

/// How the request ended, as plain values: the transport failed with a
/// message, or a response arrived, successful or not, with its body.
#[derive(Clone, Debug, PartialEq, Eq)]
pub enum RequestOutcome {
    /// The request never completed; the transport error's message.
    TransportFailed(String),
    /// A response arrived: whether its status was a success, and its body.
    Completed { success: bool, body: BodyOutcome },
}

/// The display state each outcome resolves to: artwork on a successful
/// response with a readable body, and otherwise an error carrying the
/// transport message, the error response's body, or the decode message.
pub open spec fn spec_classify(outcome: RequestOutcome) -> BrailleState {
    match outcome {
        RequestOutcome::TransportFailed(m) => BrailleState::Error(m),
        RequestOutcome::Completed { success, body } => match body {
            BodyOutcome::Text(s) => if success {
                BrailleState::Showing(s)
            } else {
                BrailleState::Error(s)
            },
            BodyOutcome::Undecodable(m) => BrailleState::Error(m),
        },
    }
}

/// Turn the outcome of the request into the display state to show.
pub fn classify_outcome(outcome: RequestOutcome) -> (r: BrailleState)
    ensures
        r == spec_classify(outcome),
{
    match outcome {
        RequestOutcome::TransportFailed(m) => BrailleState::Error(m),
        RequestOutcome::Completed { success, body } => match body {
            BodyOutcome::Text(s) => {
                if success {
                    BrailleState::Showing(s)
                } else {
                    BrailleState::Error(s)
                }
            },
            BodyOutcome::Undecodable(m) => BrailleState::Error(m),
        },
    }
}

/// The message that hands the outcome of a finished request back to the
/// controller, so that it replaces the display state and a redraw follows.
pub fn outcome_message(outcome: RequestOutcome) -> (m: AppMsg)
    ensures
        m == AppMsg::SetBrailleState(spec_classify(outcome)),
{
    AppMsg::SetBrailleState(classify_outcome(outcome))
}

/// The endpoint the request goes to: the configured value if one was
/// supplied at build time, else the default path on the page's own origin.
pub fn resolve_endpoint(configured: Option<String>) -> (r: String)
    ensures
        match configured {
            Some(s) => r == s,
            None => r@ == "/braille"@,
        },
{
    match configured {
        Some(s) => s,
        None => "/braille".to_owned(),
    }
}

/// The single query parameter the request carries: the submitted URL,
/// under the key the conversion service expects.
pub fn query_param(img_url: String) -> (r: (String, String))
    ensures
        r.0@ == "img_url"@,
        r.1 == img_url,
{
    ("img_url".to_owned(), img_url)
}

/// Submitting the same URL twice, with the request ending the same way both
/// times, leaves the display in the same state both times: the resolved
/// display state depends only on the outcome of the request.
pub proof fn lemma_resubmit_same_outcome(app: App, outcome: RequestOutcome)
    ensures
        ({
            let first = spec_update(
                spec_update(app, AppMsg::GenBraille).0,
                AppMsg::SetBrailleState(spec_classify(outcome)),
            ).0;
            let second = spec_update(
                spec_update(first, AppMsg::GenBraille).0,
                AppMsg::SetBrailleState(spec_classify(outcome)),
            ).0;
            first.state == spec_classify(outcome) && second.state == first.state
                && second.url == app.url
        }),
{
}

/// A transport failure always resolves to the failure state carrying the
/// transport message, never to a result.
pub proof fn lemma_transport_failure_is_error(m: String)
    ensures
        spec_classify(RequestOutcome::TransportFailed(m)) == BrailleState::Error(m),
        !(spec_classify(RequestOutcome::TransportFailed(m)) is Showing),
{
}

} // verus!
