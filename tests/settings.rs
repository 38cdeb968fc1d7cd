use wasm_http::kind::HttpRequestType;
use wasm_http::profile::{Cache, Credentials, HttpRequest, Mode, Redirect, ReferrerPolicy};
use wasm_http::state::{CallAction, CallEvent, CallState};
use wasm_http::call::Call;

#[test]
fn kind_tokens() {
    assert_eq!(HttpRequestType::get_type(0), HttpRequestType::Json);
    assert_eq!(HttpRequestType::get_type(1), HttpRequestType::FormSubmit);
    assert_eq!(HttpRequestType::get_type(2), HttpRequestType::FormData);
    assert_eq!(HttpRequestType::get_type(3), HttpRequestType::Blob);
    assert_eq!(HttpRequestType::get_type(4), HttpRequestType::Text);
    assert_eq!(HttpRequestType::get_type(5), HttpRequestType::Html);
    assert_eq!(HttpRequestType::get_type(6), HttpRequestType::Json);
    assert_eq!(HttpRequestType::get_type(-1), HttpRequestType::Json);
    assert_eq!(HttpRequestType::from_token("3"), HttpRequestType::Blob);
    assert_eq!(HttpRequestType::from_token("+05"), HttpRequestType::Html);
    assert_eq!(HttpRequestType::from_token("blob"), HttpRequestType::Json);
    assert_eq!(HttpRequestType::from_token(" 3"), HttpRequestType::Json);
}

#[test]
fn credentials_tokens() {
    assert_eq!(Credentials::get_credentials(" OMIT ".to_string()), Credentials::Omit);
    assert_eq!(Credentials::get_credentials("include".to_string()), Credentials::Include);
    assert_eq!(Credentials::get_credentials("  ".to_string()), Credentials::SameOrigin);
    assert_eq!(Credentials::get_credentials("other".to_string()), Credentials::SameOrigin);
}

#[test]
fn mode_tokens() {
    assert_eq!(Mode::get_mode("  CORS ".to_string()), Mode::Cors);
    assert_eq!(Mode::get_mode("same-origin".to_string()), Mode::SameOrigin);
    assert_eq!(Mode::get_mode("Navigate".to_string()), Mode::Navigate);
    assert_eq!(Mode::get_mode("".to_string()), Mode::NoCors);
    assert_eq!(Mode::get_mode("x".to_string()), Mode::NoCors);
}

#[test]
fn redirect_tokens() {
    assert_eq!(Redirect::get_redirect("ERROR".to_string()), Redirect::Error);
    assert_eq!(Redirect::get_redirect(" manual".to_string()), Redirect::Manual);
    assert_eq!(Redirect::get_redirect("".to_string()), Redirect::Follow);
    assert_eq!(Redirect::get_redirect("follow".to_string()), Redirect::Follow);
}

#[test]
fn cache_and_referrer_tokens() {
    assert_eq!(Cache::get_cache("No-Store".to_string()), Cache::NoStore);
    assert_eq!(Cache::get_cache("only-if-cached".to_string()), Cache::OnlyIfCached);
    assert_eq!(Cache::get_cache("".to_string()), Cache::Default);
    assert_eq!(ReferrerPolicy::get_referrer_policy("unsafe-url".to_string()), ReferrerPolicy::UnsafeUrl);
    assert_eq!(ReferrerPolicy::get_referrer_policy("NO-REFERRER".to_string()), ReferrerPolicy::NoReferrer);
    assert_eq!(ReferrerPolicy::get_referrer_policy("?".to_string()), ReferrerPolicy::StrictOriginWhenCrossOrigin);
}

#[test]
fn profile_builder_sets_fields() {
    let p = HttpRequest::new()
        .cache(Cache::Reload)
        .credentials(Credentials::Include)
        .integrity("sha256-abc".to_string())
        .mode(Mode::Cors)
        .redirect(Redirect::Manual)
        .referrer("https://a.example/".to_string())
        .referrer_policy(ReferrerPolicy::Origin);
    assert_eq!(p.cache, Some(Cache::Reload));
    assert_eq!(p.credentials, Some(Credentials::Include));
    assert_eq!(p.integrity.as_deref(), Some("sha256-abc"));
    assert_eq!(p.mode, Some(Mode::Cors));
    assert_eq!(p.redirect, Some(Redirect::Manual));
    assert_eq!(p.referrer.as_deref(), Some("https://a.example/"));
    assert_eq!(p.referrer_policy, Some(ReferrerPolicy::Origin));
    assert!(HttpRequest::new().cache.is_none());
}

fn drive(events: &[CallEvent]) -> (CallState, Vec<CallAction>) {
    let mut s = CallState::Building;
    let mut actions = vec![];
    for e in events {
        let (next, a) = s.step(*e);
        s = next;
        actions.push(a);
    }
    (s, actions)
}

#[test]
fn deadline_of_one_second_times_out() {
    assert_eq!(Call::deadline_millis(Some(1)), Some(1000));
    let (s, actions) = drive(&[
        CallEvent::HeadersBuilt,
        CallEvent::RequestAssembled,
        CallEvent::Dispatched,
        CallEvent::DeadlineElapsed,
        CallEvent::ResponseRead,
    ]);
    assert_eq!(s, CallState::TimedOut);
    assert_eq!(actions[3], CallAction::Abort);
    assert_eq!(actions[4], CallAction::Nothing);
    assert!(s.is_terminal());
}

#[test]
fn first_terminal_transition_wins() {
    let (s, _) = drive(&[
        CallEvent::HeadersBuilt,
        CallEvent::RequestAssembled,
        CallEvent::Dispatched,
        CallEvent::ResponseRead,
        CallEvent::DeadlineElapsed,
        CallEvent::TransportError,
    ]);
    assert_eq!(s, CallState::Completed);
    let (s, _) = drive(&[CallEvent::HeadersBuilt, CallEvent::RequestAssembled, CallEvent::Dispatched, CallEvent::TransportError]);
    assert_eq!(s, CallState::TransportFailed);
    let (s, _) = drive(&[CallEvent::HeadersBuilt, CallEvent::RequestAssembled, CallEvent::Dispatched, CallEvent::BodyUnreadable]);
    assert_eq!(s, CallState::DecodeFailed);
}

#[test]
fn deadline_before_dispatch_changes_nothing() {
    let (s, actions) = drive(&[CallEvent::HeadersBuilt, CallEvent::DeadlineElapsed]);
    assert_eq!(s, CallState::HeadersReady);
    assert_eq!(actions[1], CallAction::Nothing);
    assert!(!s.is_terminal());
}
