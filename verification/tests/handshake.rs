//! The handshake engine: request phase, callback pipeline, and the
//! end-to-end login scenario.

use fict::errors::FictError;
use fict::model::UserStore;
use fict::model::User;
use fict::oauth::Options;
use fict::oauth::Provider;
use fict::oauth::callback_response;
use fict::oauth::callback_start;
use fict::oauth::complete_callback;
use fict::oauth::complete_login;
use fict::oauth::extract_callback_params;
use fict::oauth::request_handler;
use fict::oauth::token_from_response;
use fict::session::Session;
use fict::session::SessionStore;
use fict::state::Shared;

fn github_options() -> Options {
    Options {
        name: "github".to_string(),
        root: "/oauth".to_string(),
        client_id: "cid".to_string(),
        client_secret: "sekrit".to_string(),
        request_uri: "https://github.example/login/oauth/authorize".to_string(),
        token_uri: "https://github.example/login/oauth/access_token".to_string(),
    }
}

fn pairs(items: &[(&str, &str)]) -> Option<Vec<(String, String)>> {
    Some(items.iter().map(|(k, v)| (k.to_string(), v.to_string())).collect())
}

#[test]
fn globs_and_callback_url() {
    let o = github_options();
    assert_eq!(o.request_glob(), "/oauth/github");
    assert_eq!(o.callback_glob(), "/oauth/github/callback");
    assert_eq!(o.callback_url(), "http://localhost:3000//oauth/github/callback");
}

#[test]
fn authorization_url_carries_all_parameters() {
    let o = github_options();
    let url = o.authorization_url("user:email", "STATE123");
    assert_eq!(
        url,
        "https://github.example/login/oauth/authorize?client_id=cid\
         &redirect_uri=http://localhost:3000//oauth/github/callback\
         &scope=user:email&state=STATE123"
    );
}

#[test]
fn request_handler_redirects_and_remembers_the_state() {
    let o = github_options();
    let mut shared = Shared::new();
    let (status, url) = request_handler(&o, "user:email", &mut shared);
    assert_eq!(status, 302);
    let marker = "&state=";
    let at = url.find(marker).expect("redirect carries a state");
    let state = &url[at + marker.len()..];
    assert_eq!(state.len(), 20);
    assert!(shared.validate_state(state));
}

#[test]
fn extract_takes_the_last_occurrence() {
    let q = pairs(&[("code", "first"), ("state", "s"), ("code", "second"), ("noise", "x")]);
    let (code, state) = extract_callback_params(&q).unwrap();
    assert_eq!(code, "second");
    assert_eq!(state, "s");
}

#[test]
fn callback_rejects_missing_parameters() {
    assert_eq!(extract_callback_params(&None).unwrap_err(), FictError::MissingParameters);
    assert_eq!(
        extract_callback_params(&pairs(&[("code", "abc")])).unwrap_err(),
        FictError::MissingParameters
    );
    assert_eq!(
        extract_callback_params(&pairs(&[("state", "s1")])).unwrap_err(),
        FictError::MissingParameters
    );
    assert_eq!(
        extract_callback_params(&pairs(&[])).unwrap_err(),
        FictError::MissingParameters
    );

    // A malformed callback never reaches state validation: the stored state
    // stays valid.
    let o = github_options();
    let mut shared = Shared::new();
    let s1 = shared.generate_state();
    let r = callback_start(&o, &mut shared, &pairs(&[("code", "abc")]));
    assert_eq!(r.unwrap_err(), FictError::MissingParameters);
    assert!(shared.validate_state(&s1));
}

#[test]
fn callback_rejects_unknown_state() {
    let o = github_options();
    let mut shared = Shared::new();
    let s1 = shared.generate_state();
    let r = callback_start(&o, &mut shared, &pairs(&[("code", "abc"), ("state", "QQQQQQQQQQQQQQQQQQQQ")]));
    assert_eq!(r.unwrap_err(), FictError::InvalidState);
    // No token exchange was prepared and the issued state stays valid.
    assert!(shared.validate_state(&s1));
}

#[test]
fn token_from_response_judges_the_exchange() {
    assert_eq!(token_from_response(&None).unwrap_err(), FictError::TokenExchangeFailed);
    assert_eq!(
        token_from_response(&Some("not json at all".to_string())).unwrap_err(),
        FictError::TokenExchangeFailed
    );
    assert_eq!(
        token_from_response(&Some("{}".to_string())).unwrap_err(),
        FictError::TokenExchangeFailed
    );
    assert_eq!(
        token_from_response(&Some("{\"access_token\": 5}".to_string())).unwrap_err(),
        FictError::TokenExchangeFailed
    );
    assert_eq!(
        token_from_response(&Some("{\"access_token\":\"tok1\"}".to_string())).unwrap(),
        "tok1"
    );
}

#[test]
fn end_to_end_login() {
    let o = github_options();
    let mut shared = Shared::new();
    let mut users = UserStore::new();
    let mut sessions = SessionStore::new();

    let s1 = shared.generate_state();

    let tr = callback_start(&o, &mut shared, &pairs(&[("code", "abc"), ("state", &s1)])).unwrap();
    assert_eq!(tr.uri, "https://github.example/login/oauth/access_token");
    assert_eq!(tr.body, "client_id=cid&client_secret=sekrit&code=abc");

    let token = token_from_response(&Some("{\"access_token\":\"tok1\"}".to_string())).unwrap();
    assert_eq!(token, "tok1");

    let result = complete_login(&mut users, &mut sessions, "u@example.com".to_string(), "U".to_string());
    let session = result.unwrap();

    assert_eq!(users.len(), 1);
    assert_eq!(sessions.len(), 1);
    assert_eq!(session.user_id, 1);

    let (status, body) = callback_response(&Ok(session));
    assert_eq!(status, 200);
    assert_eq!(
        body,
        format!("You've successfully created a session: [{}]", session.token)
    );

    // The state was consumed by the callback and cannot be replayed.
    assert!(!shared.validate_state(&s1));

    // The issued bearer token validates to the session just created; any
    // other value is "not found", not an error.
    assert_eq!(Session::validate(&sessions, session.token).unwrap(), Some(session));
    assert_eq!(Session::validate(&sessions, session.token ^ 1).unwrap(), None);
}

#[derive(Clone)]
struct StubProvider {
    options: Options,
    outcome: Result<(String, String), FictError>,
}

impl Provider for StubProvider {
    fn options(&self) -> &Options {
        &self.options
    }

    fn scopes(&self) -> &'static str {
        "user:email"
    }

    fn get_user_data(&self, _token: &str) -> Result<(String, String), FictError> {
        self.outcome.clone()
    }
}

#[test]
fn complete_callback_resolves_the_fetched_identity() {
    let p = StubProvider {
        options: github_options(),
        outcome: Ok(("u@example.com".to_string(), "U".to_string())),
    };
    let mut users = UserStore::new();
    let mut sessions = SessionStore::new();
    let session = complete_callback(&p, &mut users, &mut sessions, "tok1").unwrap();
    assert_eq!(session.user_id, 1);
    assert_eq!(users.len(), 1);
    assert_eq!(sessions.len(), 1);
    let owner = session.user(&users).unwrap();
    assert_eq!(owner.email, "u@example.com");
    assert_eq!(owner.name, "U");
}

#[test]
fn complete_callback_passes_a_provider_failure_through() {
    let p = StubProvider {
        options: github_options(),
        outcome: Err(FictError::ProviderApiError),
    };
    let mut users = UserStore::new();
    let mut sessions = SessionStore::new();
    let r = complete_callback(&p, &mut users, &mut sessions, "tok1");
    assert_eq!(r.unwrap_err(), FictError::ProviderApiError);
    assert_eq!(users.len(), 0);
    assert_eq!(sessions.len(), 0);

    let (status, body) = callback_response(&r);
    assert_eq!(status, 400);
    assert_eq!(body, "Unable to retrieve user data from the provider");
}

#[test]
fn failure_descriptions() {
    assert_eq!(
        FictError::MissingParameters.description(),
        "Callback request missing required query parameters"
    );
    assert_eq!(
        FictError::InvalidState.description(),
        "Unfamiliar state encountered. Danger: this could be an XSS attack!"
    );
    assert_eq!(
        FictError::TokenExchangeFailed.description(),
        "Unable to exchange the authorization code for an access token"
    );
    assert_eq!(
        FictError::ProviderApiError.description(),
        "Unable to retrieve user data from the provider"
    );
    assert_eq!(FictError::StorageError.description(), "Storage failure");
}

#[test]
fn negative_tokens_format_correctly() {
    let mut users = UserStore::new();
    let mut sessions = SessionStore::new();
    let u = User::find_or_create(&mut users, "a@x.com".to_string(), "A".to_string()).unwrap();
    let s = Session::assign_with_token(&mut sessions, &u, -7).unwrap();
    let (status, body) = callback_response(&Ok(s));
    assert_eq!(status, 200);
    assert_eq!(body, "You've successfully created a session: [-7]");
}

#[test]
fn extreme_tokens_format_correctly() {
    let mut users = UserStore::new();
    let mut sessions = SessionStore::new();
    let u = User::find_or_create(&mut users, "a@x.com".to_string(), "A".to_string()).unwrap();

    let lowest = Session::assign_with_token(&mut sessions, &u, i64::MIN).unwrap();
    let (_, body) = callback_response(&Ok(lowest));
    assert_eq!(
        body,
        "You've successfully created a session: [-9223372036854775808]"
    );

    let highest = Session::assign_with_token(&mut sessions, &u, i64::MAX).unwrap();
    let (_, body) = callback_response(&Ok(highest));
    assert_eq!(
        body,
        "You've successfully created a session: [9223372036854775807]"
    );
}
