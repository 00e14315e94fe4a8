//! The request/state lifecycle, driven exactly as the browser glue drives
//! it: messages into the controller, outcomes classified into states.

use ascii_artinator_web::controller::{App, AppMsg};
use ascii_artinator_web::request::{classify_outcome, outcome_message, BodyOutcome, RequestOutcome};
use ascii_artinator_web::state::BrailleState;

fn success_outcome(body: &str) -> RequestOutcome {
    RequestOutcome::Completed {
        success: true,
        body: BodyOutcome::Text(body.to_string()),
    }
}

fn error_outcome(body: &str) -> RequestOutcome {
    RequestOutcome::Completed {
        success: false,
        body: BodyOutcome::Text(body.to_string()),
    }
}

/// One full cycle: edit the URL, submit, deliver the outcome; the final
/// display state is returned.
fn run_cycle(app: &mut App, url: &str, outcome: RequestOutcome) -> BrailleState {
    let (_, _) = app.update(AppMsg::UrlChange(url.to_string()));
    let (_, request) = app.update(AppMsg::GenBraille);
    assert_eq!(request, Some(url.to_string()));
    let (_, _) = app.update(outcome_message(outcome));
    app.state.clone()
}

#[test]
fn initial_state_is_waiting() {
    let app = App::create();
    assert_eq!(app.url, "");
    assert_eq!(app.state, BrailleState::Waiting);
}

#[test]
fn stored_url_is_latest_entered() {
    let mut app = App::create();
    app.update(AppMsg::UrlChange("http://a/1.png".to_string()));
    app.update(AppMsg::UrlChange("http://a/2.png".to_string()));
    assert_eq!(app.url, "http://a/2.png");
    let (_, request) = app.update(AppMsg::GenBraille);
    assert_eq!(request, Some("http://a/2.png".to_string()));
}

#[test]
fn submit_enters_pending_synchronously() {
    let mut app = App::create();
    app.update(AppMsg::UrlChange("http://a/img.png".to_string()));
    let (redraw, request) = app.update(AppMsg::GenBraille);
    assert!(redraw);
    assert_eq!(request, Some("http://a/img.png".to_string()));
    assert_eq!(app.state, BrailleState::Requesting);
}

#[test]
fn success_resolves_to_result() {
    let mut app = App::create();
    let end = run_cycle(&mut app, "http://a/img.png", success_outcome("⠃⠗⠁⠊⠇⠇⠑"));
    assert_eq!(end, BrailleState::Showing("⠃⠗⠁⠊⠇⠇⠑".to_string()));
}

#[test]
fn error_status_resolves_to_failure_with_body() {
    let mut app = App::create();
    let end = run_cycle(&mut app, "http://a/img.png", error_outcome("bad url"));
    assert_eq!(end, BrailleState::Error("bad url".to_string()));
}

#[test]
fn transport_failure_resolves_to_failure_never_result() {
    let outcome = RequestOutcome::TransportFailed("connection refused".to_string());
    let state = classify_outcome(outcome.clone());
    assert_eq!(state, BrailleState::Error("connection refused".to_string()));
    assert!(!matches!(state, BrailleState::Showing(_)));
    let mut app = App::create();
    let end = run_cycle(&mut app, "http://a/img.png", outcome);
    assert!(!matches!(end, BrailleState::Showing(_)));
}

#[test]
fn undecodable_body_resolves_to_failure() {
    let on_success = RequestOutcome::Completed {
        success: true,
        body: BodyOutcome::Undecodable("stream did not contain valid UTF-8".to_string()),
    };
    assert_eq!(
        classify_outcome(on_success),
        BrailleState::Error("stream did not contain valid UTF-8".to_string())
    );
    let on_error = RequestOutcome::Completed {
        success: false,
        body: BodyOutcome::Undecodable("stream did not contain valid UTF-8".to_string()),
    };
    assert_eq!(
        classify_outcome(on_error),
        BrailleState::Error("stream did not contain valid UTF-8".to_string())
    );
}

#[test]
fn same_submission_same_outcome_is_idempotent() {
    let mut app = App::create();
    let first = run_cycle(&mut app, "http://a/img.png", success_outcome("⠃⠗"));
    let second = run_cycle(&mut app, "http://a/img.png", success_outcome("⠃⠗"));
    assert_eq!(first, second);

    let mut other = App::create();
    let first = run_cycle(&mut other, "http://a/img.png", error_outcome("bad url"));
    let second = run_cycle(&mut other, "http://a/img.png", error_outcome("bad url"));
    assert_eq!(first, second);
}

#[test]
fn outcome_message_carries_classified_state() {
    let msg = outcome_message(success_outcome("⠃⠗"));
    assert_eq!(
        msg,
        AppMsg::SetBrailleState(BrailleState::Showing("⠃⠗".to_string()))
    );
}

#[test]
fn url_change_leaves_display_state_alone() {
    let mut app = App::create();
    run_cycle(&mut app, "http://a/img.png", error_outcome("bad url"));
    let (redraw, request) = app.update(AppMsg::UrlChange("http://a/other.png".to_string()));
    assert!(redraw);
    assert_eq!(request, None);
    assert_eq!(app.state, BrailleState::Error("bad url".to_string()));
}
