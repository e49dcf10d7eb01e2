use valorant_store::auth::{
    refresh_after_answer, refresh_after_sign_in, RefreshStep,
    entitlements_token_from, is_login_redirect, puuid_from_userinfo, silent_refresh_body,
    silent_refresh_uri, token_is_fresh, LoginPoll, LoginResult, PollAction, Session,
    LOGIN_POLL_LIMIT,
};
use valorant_store::error::CommandError;
use valorant_store::json::JsonValue;
use valorant_store::redirect::parse_login_redirect;
use valorant_store::store::ConfigData;

fn s(t: &str) -> JsonValue {
    JsonValue::Str(t.to_string())
}

fn obj(members: Vec<(&str, JsonValue)>) -> JsonValue {
    JsonValue::Object(members.into_iter().map(|(k, v)| (k.to_string(), v)).collect())
}

fn config(expiry: Option<u64>) -> ConfigData {
    ConfigData { puuid: None, token_expiry: expiry }
}

#[test]
fn freshness_keeps_a_five_minute_margin() {
    assert!(token_is_fresh(&config(Some(1000)), 699));
    assert!(!token_is_fresh(&config(Some(1000)), 700));
    assert!(!token_is_fresh(&config(Some(1000)), 5000));
    assert!(!token_is_fresh(&config(Some(0)), 0));
    assert!(!token_is_fresh(&config(None), 0));
    assert!(!token_is_fresh(&config(Some(300)), 0));
    assert!(token_is_fresh(&config(Some(301)), 0));
}

#[test]
fn login_then_requests_then_logout() {
    let mut session = Session::restore(None, None, ConfigData::default());
    assert!(!session.has_access_token());
    assert_eq!(session.tokens(), Err(CommandError::MissingAccessToken));
    let redirect = parse_login_redirect("https://playvalorant.com/opt_in#access_token=AT&expires_in=3600").unwrap();
    let r = session.complete_login(&redirect, "ENT".into(), "PUUID".into(), 1_000);
    assert_eq!(r, LoginResult::Success);
    assert!(session.has_access_token());
    assert_eq!(session.config.token_expiry, Some(4_600));
    assert!(token_is_fresh(&session.config, 1_000));
    let (tokens, puuid) = session.player_credentials().unwrap();
    assert_eq!((tokens.access_token.as_str(), tokens.entitlements_token.as_str(), puuid.as_str()), ("AT", "ENT", "PUUID"));
    session.logout();
    assert_eq!(session.config, ConfigData::default());
    assert!(!token_is_fresh(&session.config, 0));
    let e = session.player_credentials().unwrap_err();
    assert_eq!(e.message(), "Not logged in (Missing access token)");
}

#[test]
fn missing_credentials_are_named_in_order() {
    let s1 = Session::restore(Some("a".into()), None, ConfigData::default());
    let e = s1.tokens().unwrap_err();
    assert_eq!(e, CommandError::MissingEntitlements);
    assert_eq!(e.message(), "Not logged in (Missing entitlements token)");
    let s2 = Session::restore(Some("a".into()), Some("e".into()), ConfigData::default());
    assert!(s2.tokens().is_ok());
    let e = s2.player_credentials().unwrap_err();
    assert_eq!(e, CommandError::MissingPuuid);
    assert_eq!(e.message(), "Missing PUUID");
}

#[test]
fn login_window_redirect_detection() {
    assert!(is_login_redirect("https://playvalorant.com/opt_in#access_token=x"));
    assert!(!is_login_redirect("https://playvalorant.com/opt_in"));
    assert!(!is_login_redirect("https://auth.riotgames.com/login#access_token=x"));
}

#[test]
fn login_window_poll_finishes_on_redirect() {
    let mut p = LoginPoll::new();
    assert_eq!(p.observe(Some("https://auth.riotgames.com/login".into()), Some(true)), PollAction::Wait);
    assert_eq!(p.observe(None, Some(true)), PollAction::Wait);
    let u = "https://playvalorant.com/opt_in#access_token=x&expires_in=3600".to_string();
    assert_eq!(p.observe(Some(u.clone()), Some(true)), PollAction::Finish(u));
    assert_eq!(p.polls, 3);
}

#[test]
fn login_window_poll_abandons() {
    let mut p = LoginPoll::new();
    assert_eq!(p.observe(None, Some(false)), PollAction::Abandon);
    let mut p = LoginPoll::new();
    assert_eq!(p.observe(Some("about:blank".into()), None), PollAction::Abandon);
    let mut p = LoginPoll::new();
    let mut waits = 0;
    loop {
        match p.observe(None, Some(true)) {
            PollAction::Wait => waits += 1,
            other => {
                assert_eq!(other, PollAction::Abandon);
                break;
            }
        }
    }
    assert_eq!(waits, LOGIN_POLL_LIMIT - 1);
    assert_eq!(p.polls, LOGIN_POLL_LIMIT);
    assert_eq!(CommandError::LoginCancelled.message(), "Login cancelled or timed out");
}

#[test]
fn sign_in_answers() {
    assert_eq!(entitlements_token_from(&obj(vec![("entitlements_token", s("E"))])), Ok("E".to_string()));
    let e = entitlements_token_from(&obj(vec![("entitlements_token", JsonValue::Null)])).unwrap_err();
    assert_eq!(e.message(), "Missing entitlements_token in response");
    assert_eq!(puuid_from_userinfo(&obj(vec![("sub", s("p"))])), Ok("p".to_string()));
    let e = puuid_from_userinfo(&JsonValue::Array(vec![])).unwrap_err();
    assert_eq!(e.message(), "Missing sub (puuid) in userinfo");
}

#[test]
fn silent_refresh_request_and_answers() {
    match silent_refresh_body() {
        JsonValue::Object(m) => {
            let pairs: Vec<(String, String)> = m
                .into_iter()
                .map(|(k, v)| match v {
                    JsonValue::Str(t) => (k, t),
                    _ => panic!("not a string"),
                })
                .collect();
            assert_eq!(
                pairs,
                vec![
                    ("client_id".to_string(), "play-valorant-web-prod".to_string()),
                    ("nonce".to_string(), "1".to_string()),
                    ("redirect_uri".to_string(), "https://playvalorant.com/opt_in".to_string()),
                    ("response_type".to_string(), "token id_token".to_string()),
                    ("scope".to_string(), "account openid".to_string()),
                ]
            );
        }
        _ => panic!("not an object"),
    }
    let ok = obj(vec![
        ("type", s("response")),
        ("response", obj(vec![("parameters", obj(vec![("uri", s("https://playvalorant.com/opt_in#access_token=n"))]))])),
    ]);
    assert_eq!(silent_refresh_uri(&ok), Ok("https://playvalorant.com/opt_in#access_token=n".to_string()));
    let no_uri = obj(vec![("type", s("response"))]);
    let e = silent_refresh_uri(&no_uri).unwrap_err();
    assert_eq!(e.message(), "Missing URI in auth response");
    let auth = obj(vec![("type", s("auth"))]);
    let e = silent_refresh_uri(&auth).unwrap_err();
    assert_eq!(e, CommandError::SilentRefreshFailed);
    assert_eq!(e.message(), "Token expired and silent refresh failed");
    assert_eq!(silent_refresh_uri(&JsonValue::Null), Err(CommandError::SilentRefreshFailed));
}

#[test]
fn silent_refresh_steps() {
    let ok = obj(vec![
        ("type", s("response")),
        ("response", obj(vec![("parameters", obj(vec![("uri", s("u#access_token=n"))]))])),
    ]);
    assert_eq!(refresh_after_answer(&ok), RefreshStep::SignInWith("u#access_token=n".to_string()));
    assert_eq!(
        refresh_after_answer(&obj(vec![("type", s("response"))])),
        RefreshStep::GiveUp { error: CommandError::MissingAuthUri, announce_expiry: false }
    );
    assert_eq!(
        refresh_after_answer(&obj(vec![("type", s("multifactor"))])),
        RefreshStep::GiveUp { error: CommandError::SilentRefreshFailed, announce_expiry: true }
    );
    assert_eq!(refresh_after_sign_in(true), RefreshStep::Renewed);
    assert_eq!(
        refresh_after_sign_in(false),
        RefreshStep::GiveUp { error: CommandError::SilentRefreshFailed, announce_expiry: true }
    );
}
