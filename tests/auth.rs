use strava_client::endpoint::{url_for, EXCHANGE_ENDPOINT, REFRESH_ENDPOINT};
use strava_client::{ApiError, AuthData, Reply, Settings, Token};

fn settings() -> Settings {
    Settings::from_values(
        Some("id".to_string()),
        Some("sec".to_string()),
        Some("c0de".to_string()),
    )
    .unwrap()
}

fn token(refresh: &str, access: &str, expires_at: Option<u32>) -> Token {
    Token {
        refresh_token: refresh.to_string(),
        access_token: access.to_string(),
        expires_at,
    }
}

fn answered(status: u16, body: Option<Token>) -> Reply<Token> {
    Reply::Answered { status, body }
}

fn credentials() -> AuthData {
    AuthData::new(settings(), answered(200, Some(token("r1", "a1", Some(1000))))).unwrap()
}

#[test]
fn exchange_ok_gives_tokens_of_body() {
    let a = AuthData::new(settings(), answered(200, Some(token("r1", "a1", None)))).unwrap();
    assert_eq!(a.refresh_token, "r1");
    assert_eq!(a.access_token, "a1");
    assert_eq!(a.client_id, "id");
    assert_eq!(a.client_secret, "sec");
    assert_eq!(a.token_expire_time, None);
}

#[test]
fn exchange_keeps_expiry() {
    let a = AuthData::new(settings(), answered(200, Some(token("r", "a", Some(1_700_000_000)))))
        .unwrap();
    assert_eq!(a.token_expire_time, Some(1_700_000_000));
}

#[test]
fn exchange_non_ok_status_is_auth_error() {
    for status in [201u16, 400, 401, 403, 500] {
        let r = AuthData::new(settings(), answered(status, Some(token("r", "a", None))));
        assert_eq!(r.unwrap_err(), ApiError::Auth(status));
    }
}

#[test]
fn exchange_transport_failure() {
    let r = AuthData::new(settings(), Reply::Failed);
    assert_eq!(r.unwrap_err(), ApiError::Transport);
}

#[test]
fn exchange_undecodable_body() {
    let r = AuthData::new(settings(), answered(200, None));
    assert_eq!(r.unwrap_err(), ApiError::Decode);
}

#[test]
fn exchange_empty_access_token_is_decode_error() {
    let r = AuthData::new(settings(), answered(200, Some(token("r", "", None))));
    assert_eq!(r.unwrap_err(), ApiError::Decode);
}

#[test]
fn exchange_empty_refresh_token_is_accepted() {
    let a = AuthData::new(settings(), answered(200, Some(token("", "a", None)))).unwrap();
    assert_eq!(a.refresh_token, "");
    assert_eq!(a.access_token, "a");
}

#[test]
fn refresh_accepts_empty_refresh_token_in_body() {
    let mut a = credentials();
    a.request_new_token(answered(200, Some(token("", "a2", None)))).unwrap();
    assert_eq!(a.refresh_token, "");
    assert_eq!(a.access_token, "a2");
    assert_eq!(a.token_expire_time, None);
}

#[test]
fn refresh_url_needs_refresh_token() {
    let a = AuthData::new(settings(), answered(200, Some(token("", "a", None)))).unwrap();
    assert_eq!(a.refresh_url(), Err(ApiError::Config));
}

#[test]
fn refresh_takes_second_response() {
    let mut a = credentials();
    a.request_new_token(answered(200, Some(token("r2", "a2", Some(2000))))).unwrap();
    assert_eq!(a.refresh_token, "r2");
    assert_eq!(a.access_token, "a2");
    assert_eq!(a.token_expire_time, Some(2000));
    assert_eq!(a.client_id, "id");
    assert_eq!(a.client_secret, "sec");
}

#[test]
fn refresh_401_leaves_credentials_unchanged() {
    let mut a = credentials();
    let r = a.request_new_token(answered(401, Some(token("r2", "a2", Some(2000)))));
    assert_eq!(r, Err(ApiError::Auth(401)));
    assert_eq!(a.refresh_token, "r1");
    assert_eq!(a.access_token, "a1");
    assert_eq!(a.token_expire_time, Some(1000));
}

#[test]
fn refresh_failures_leave_credentials_unchanged() {
    for reply in [Reply::Failed, answered(200, None), answered(200, Some(token("r2", "", None)))] {
        let mut a = credentials();
        assert!(a.request_new_token(reply).is_err());
        assert_eq!(a.refresh_token, "r1");
        assert_eq!(a.access_token, "a1");
        assert_eq!(a.token_expire_time, Some(1000));
    }
}

#[test]
fn settings_must_be_present_and_non_empty() {
    let s = |v: &str| Some(v.to_string());
    assert_eq!(Settings::from_values(None, s("b"), s("c")).unwrap_err(), ApiError::Config);
    assert_eq!(Settings::from_values(s("a"), None, s("c")).unwrap_err(), ApiError::Config);
    assert_eq!(Settings::from_values(s("a"), s("b"), None).unwrap_err(), ApiError::Config);
    assert_eq!(Settings::from_values(s(""), s("b"), s("c")).unwrap_err(), ApiError::Config);
    assert_eq!(Settings::from_values(s("a"), s("b"), s("")).unwrap_err(), ApiError::Config);
    let ok = Settings::from_values(s("a"), s("b"), s("c")).unwrap();
    assert_eq!((ok.client_id.as_str(), ok.client_secret.as_str(), ok.oauth_code.as_str()), ("a", "b", "c"));
}

#[test]
fn exchange_url_has_query() {
    let u = AuthData::exchange_url(&settings()).unwrap();
    assert_eq!(
        u,
        "https://www.strava.com/oauth/token?client_id=id&client_secret=sec&code=c0de&grant_type=authorization_code"
    );
}

#[test]
fn refresh_url_has_query() {
    let u = credentials().refresh_url().unwrap();
    assert_eq!(
        u,
        "https://www.strava.com/api/v3/oauth/token?client_id=id&client_secret=sec&grant_type=refresh_token&refresh_token=r1"
    );
}

#[test]
fn url_query_is_form_encoded() {
    let params = vec![("a b".to_string(), "x&y=z".to_string())];
    let u = url_for(REFRESH_ENDPOINT, &params).unwrap();
    assert_eq!(u, "https://www.strava.com/api/v3/oauth/token?a+b=x%26y%3Dz");
    let u = url_for(EXCHANGE_ENDPOINT, &Vec::new()).unwrap();
    assert!(u.starts_with("https://www.strava.com/oauth/token"));
}

#[test]
fn unparsable_base_is_config_error() {
    assert_eq!(url_for("not a url", &Vec::new()), Err(ApiError::Config));
}
