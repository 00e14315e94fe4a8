//! The display state of the braille viewer, and its pure rendering.

use vstd::prelude::*;

verus! {

/// The states the braille display can be in. Exactly one is active at any
/// time; the controller is the only code that replaces it.
#[derive(Clone, Debug, PartialEq, Eq)]
pub enum BrailleState {
    /// Waiting for a URL, nothing to show.
    Waiting,
    /// Request ongoing.
    Requesting,
    /// Showing a braille string.
    Showing(String),
    /// Got an error.
    Error(String),
}

/// One of the four mutually exclusive views the display renders: the class
/// of the container and the text shown inside it.
#[derive(Clone, Debug, PartialEq, Eq)]
pub struct Rendered {
    pub css_class: String,
    pub text: String,
}

/// The container class a state is rendered with.
pub open spec fn spec_class_of(state: BrailleState) -> Seq<char> {
    match state {
        BrailleState::Waiting => "waiting"@,
        BrailleState::Requesting => "waiting"@,
        BrailleState::Showing(_) => "braille"@,
        BrailleState::Error(_) => "error"@,
    }
}

/// The text a state is rendered with: the empty placeholder, the loading
/// indicator, the braille artwork, or the error message.
pub open spec fn spec_text_of(state: BrailleState) -> Seq<char> {
    match state {
        BrailleState::Waiting => Seq::<char>::empty(),
        BrailleState::Requesting => "Loading..."@,
        BrailleState::Showing(s) => s@,
        BrailleState::Error(s) => s@,
    }
}

/// Pure mapping from display state to the view to show. It must be applied
/// again whenever the state changes.
pub fn render(state: &BrailleState) -> (r: Rendered)
    ensures
        r.css_class@ == spec_class_of(*state),
        r.text@ == spec_text_of(*state),
{
    match state {
        BrailleState::Waiting => Rendered { css_class: "waiting".to_owned(), text: String::new() },
        BrailleState::Requesting => Rendered {
            css_class: "waiting".to_owned(),
            text: "Loading...".to_owned(),
        },
        BrailleState::Showing(s) => Rendered { css_class: "braille".to_owned(), text: s.clone() },
        BrailleState::Error(s) => Rendered { css_class: "error".to_owned(), text: s.clone() },
    }
}

/// Before any submission the display renders the empty placeholder view:
/// its text is empty, unlike the loading view's, and its container class
/// differs from the result and error containers'.
pub proof fn lemma_initial_view_is_placeholder()
    ensures
        spec_text_of(BrailleState::Waiting) == Seq::<char>::empty(),
        spec_class_of(BrailleState::Waiting) == "waiting"@,
        spec_text_of(BrailleState::Waiting) != spec_text_of(BrailleState::Requesting),
        forall|s: String|
            spec_class_of(BrailleState::Waiting) != spec_class_of(BrailleState::Showing(s)),
        forall|s: String|
            spec_class_of(BrailleState::Waiting) != spec_class_of(BrailleState::Error(s)),
{
    reveal_strlit("waiting");
    reveal_strlit("Loading...");
    reveal_strlit("braille");
    reveal_strlit("error");
    assert("Loading..."@.len() == 10);
    assert("waiting"@[0] != "braille"@[0]);
    assert("waiting"@.len() != "error"@.len());
}

} // verus!
