//! The form controller: it owns the URL text and the display state, and
//! steps them in response to messages.

use vstd::prelude::*;

use crate::state::BrailleState;

verus! {

/// The form controller's state: the URL currently in the form and the
/// state of the braille display.
#[derive(Clone, Debug, PartialEq, Eq)]
pub struct App {
    /// The URL currently in the form.
    pub url: String,
    /// The state for the braille display.
    pub state: BrailleState,
}

/// The messages the controller reacts to.
#[derive(Clone, Debug, PartialEq, Eq)]
pub enum AppMsg {
    /// A change in the URL in the form.
    UrlChange(String),
    /// Generate button hit.
    GenBraille,
    /// Set the braille display state.
    SetBrailleState(BrailleState),
}

/// What one message does to the controller: the new controller state, and
/// the URL to request, if the message asks for a request to be issued.
pub open spec fn spec_update(app: App, msg: AppMsg) -> (App, Option<String>) {
    match msg {
        AppMsg::UrlChange(s) => (App { url: s, state: app.state }, None::<String>),
        AppMsg::GenBraille => (
            App { url: app.url, state: BrailleState::Requesting },
            Some(app.url),
        ),
        AppMsg::SetBrailleState(bs) => (App { url: app.url, state: bs }, None::<String>),
    }
}

impl App {
    /// The controller at page load: empty URL, nothing to show.
    pub fn create() -> (app: App)
        ensures
            app.url@ == Seq::<char>::empty(),
            app.state == BrailleState::Waiting,
    {
        App { url: String::new(), state: BrailleState::Waiting }
    }

    /// React to one message. The first component of the result says whether
    /// the view must be redrawn (it always must); the second carries the URL
    /// for which one GET request is to be issued, if the message was a
    /// submission.
    pub fn update(&mut self, msg: AppMsg) -> (r: (bool, Option<String>))
        ensures
            *final(self) == spec_update(*old(self), msg).0,
            r.1 == spec_update(*old(self), msg).1,
            r.0 == true,
    {
        let request: Option<String> = match msg {
            AppMsg::UrlChange(s) => {
                self.url = s;
                None
            },
            AppMsg::GenBraille => {
                self.state = BrailleState::Requesting;
                Some(self.url.clone())
            },
            AppMsg::SetBrailleState(bs) => {
                self.state = bs;
                None
            },
        };
        (true, request)
    }
}

/// The stored URL equals the most recently entered text: editing and then
/// submitting issues a request for exactly the edited text, whatever was
/// stored before.
pub proof fn lemma_latest_url_submitted(app: App, s: String)
    ensures
        ({
            let edited = spec_update(app, AppMsg::UrlChange(s)).0;
            let submit = spec_update(edited, AppMsg::GenBraille);
            edited.url == s && submit.1 == Some(s) && submit.0.state == BrailleState::Requesting
        }),
{
}

/// Submission synchronously moves the display state to the pending state,
/// whatever state the display was in, and leaves the URL unchanged: the
/// outcome of the network call only arrives later, as its own message.
pub proof fn lemma_submit_enters_pending(app: App)
    ensures
        spec_update(app, AppMsg::GenBraille).0.state == BrailleState::Requesting,
        spec_update(app, AppMsg::GenBraille).0.url == app.url,
        spec_update(app, AppMsg::GenBraille).1 == Some(app.url),
{
}

} // verus!
