//! Tests of the authenticated request pipeline: response classification,
//! the retry-once rule, ETag handling, and the refresh cycle.

use tidalrs::authz::{Authz, AuthzToken, User};
use tidalrs::json::{api_error_from_value, inject_etag, normalize_etag};
use tidalrs::authz::DeviceAuthorizationResponse;
use tidalrs::request::{
    authorize_credential, bearer_header, complete_refresh, device_authorization_finalize,
    handle_response, plan_refresh, user_agent, ExecState, ExecStep, HttpMethod, RefreshDirective,
};
use tidalrs::{Error, TidalClient};

fn make_user(user_id: u64, country_code: &str) -> User {
    User {
        accepted_eula: true,
        account_link_created: false,
        address: None,
        apple_uid: None,
        birthday: None,
        channel_id: 0,
        city: None,
        country_code: country_code.to_string(),
        created: 0,
        email: "user@example.com".to_string(),
        email_verified: true,
        facebook_uid: None,
        first_name: None,
        full_name: None,
        google_uid: String::new(),
        last_name: None,
        new_user: false,
        nickname: None,
        parent_id: 0,
        phone_number: None,
        postalcode: None,
        updated: 0,
        us_state: None,
        user_id,
        username: "user".to_string(),
    }
}

fn make_token(user_id: u64, country_code: &str, refresh_token: Option<&str>) -> AuthzToken {
    AuthzToken {
        access_token: "new_access".to_string(),
        client_name: "client".to_string(),
        expires_in: 3600,
        refresh_token: refresh_token.map(|s| s.to_string()),
        scope: "r_usr w_usr w_sub".to_string(),
        token_type: "Bearer".to_string(),
        user: make_user(user_id, country_code),
        user_id: user_id as i64,
    }
}

fn expired_response() -> tidalrs::HttpResponse {
    tidalrs::HttpResponse {
        status: 401,
        etag: None,
        body: br#"{"status":401,"subStatus":11003,"userMessage":"The token has expired."}"#
            .to_vec(),
    }
}

#[test]
fn expired_token_retries_exactly_once() {
    let mut st = ExecState::fresh();

    // First expired-token failure: the pipeline refreshes and retries.
    let step = handle_response(&mut st, expired_response());
    assert!(matches!(step, ExecStep::RefreshAndRetry));

    // A server that keeps answering expired-token: the error now propagates.
    let step = handle_response(&mut st, expired_response());
    match step {
        ExecStep::Fail(Error::TidalApiError(e)) => {
            assert_eq!(e.status, 401);
            assert_eq!(e.sub_status, 11003);
            assert_eq!(e.user_message, "The token has expired.");
        }
        other => panic!("expected the error to propagate, got {:?}", other),
    }

    // And it keeps propagating, never looping.
    let step = handle_response(&mut st, expired_response());
    assert!(matches!(step, ExecStep::Fail(Error::TidalApiError(_))));
}

#[test]
fn other_401_is_not_retried() {
    let mut st = ExecState::fresh();
    let resp = tidalrs::HttpResponse {
        status: 401,
        etag: None,
        body: br#"{"status":401,"subStatus":4005,"userMessage":"bad"}"#.to_vec(),
    };
    let step = handle_response(&mut st, resp);
    match step {
        ExecStep::Fail(Error::TidalApiError(e)) => {
            assert_eq!(e.sub_status, 4005);
        }
        other => panic!("expected a surfaced error, got {:?}", other),
    }
}

#[test]
fn token_endpoint_call_never_retries() {
    // The refresh call itself runs outside the expired-token-retry path.
    let mut st = ExecState::no_retry();
    let step = handle_response(&mut st, expired_response());
    assert!(matches!(step, ExecStep::Fail(Error::TidalApiError(_))));
}

#[test]
fn success_with_etag_header_injects_field() {
    let mut st = ExecState::fresh();
    let resp = tidalrs::HttpResponse {
        status: 200,
        etag: Some("\"12345\"".to_string()),
        body: br#"{"items":[],"limit":10,"offset":0,"totalNumberOfItems":0}"#.to_vec(),
    };
    match handle_response(&mut st, resp) {
        ExecStep::Deliver(value) => {
            assert_eq!(value.get("etag").and_then(|v| v.as_str()), Some("12345"));
            assert_eq!(value.get("limit").and_then(|v| v.as_u64()), Some(10));
        }
        other => panic!("expected delivery, got {:?}", other),
    }
}

#[test]
fn body_level_etag_is_not_overwritten() {
    let mut value: serde_json::Value = serde_json::from_str(r#"{"etag":"original"}"#).unwrap();
    inject_etag(&mut value, "from_header");
    assert_eq!(value.get("etag").and_then(|v| v.as_str()), Some("original"));

    let mut value: serde_json::Value = serde_json::from_str(r#"{"total":3}"#).unwrap();
    inject_etag(&mut value, "from_header");
    assert_eq!(value.get("etag").and_then(|v| v.as_str()), Some("from_header"));
    assert_eq!(value.get("total").and_then(|v| v.as_u64()), Some(3));
}

#[test]
fn empty_success_body_is_null() {
    let mut st = ExecState::fresh();
    let resp = tidalrs::HttpResponse { status: 204, etag: None, body: Vec::new() };
    match handle_response(&mut st, resp) {
        ExecStep::Deliver(value) => assert!(value.is_null()),
        other => panic!("expected delivery, got {:?}", other),
    }
}

#[test]
fn malformed_success_body_is_a_decode_error() {
    let mut st = ExecState::fresh();
    let resp = tidalrs::HttpResponse { status: 200, etag: None, body: b"not json".to_vec() };
    assert!(matches!(
        handle_response(&mut st, resp),
        ExecStep::Fail(Error::SerdeJson(_))
    ));
}

#[test]
fn etag_header_normalization() {
    assert_eq!(normalize_etag("\"abc\"".to_string()), "abc");
    assert_eq!(normalize_etag("abc".to_string()), "abc");
}

#[test]
fn refresh_plan_awaits_when_permit_is_held() {
    let cred = Authz::new("at".to_string(), "rt".to_string(), 1, None);
    assert!(matches!(
        plan_refresh("cid", Some(&cred), false),
        RefreshDirective::AwaitHolder
    ));
}

#[test]
fn refresh_plan_fails_without_credential() {
    assert!(matches!(
        plan_refresh("cid", None, true),
        RefreshDirective::FailNoToken
    ));
}

#[test]
fn refresh_plan_builds_the_token_call() {
    let cred = Authz::new("at".to_string(), "rt".to_string(), 1, None);
    match plan_refresh("cid", Some(&cred), true) {
        RefreshDirective::FetchToken(p) => {
            assert_eq!(p.method, HttpMethod::Post);
            assert_eq!(p.url, "https://auth.tidal.com/v1/oauth2/token");
            assert!(p.etag.is_none());
            let params = p.params.unwrap();
            assert_eq!(
                params,
                vec![
                    ("client_id".to_string(), "cid".to_string()),
                    ("refresh_token".to_string(), "rt".to_string()),
                    ("grant_type".to_string(), "refresh_token".to_string()),
                    ("scope".to_string(), "r_usr w_usr w_sub".to_string()),
                ]
            );
        }
        other => panic!("expected a token call, got {:?}", other),
    }
}

#[test]
fn failed_refresh_stores_nothing_and_propagates() {
    let prior = Authz::new("at".to_string(), "rt".to_string(), 1, Some("DE".to_string()));
    let err_body: serde_json::Value =
        serde_json::from_str(r#"{"status":500,"sub_status":999,"userMessage":"down"}"#).unwrap();
    let api_error = api_error_from_value(&err_body).unwrap();
    let completion = complete_refresh(&prior, Err(Error::TidalApiError(api_error)));

    // The store is left unchanged and the callback must not run.
    assert!(completion.new_credential.is_none());
    match completion.result {
        Err(Error::TidalApiError(e)) => {
            assert_eq!(e.status, 500);
            assert_eq!(e.sub_status, 999);
        }
        other => panic!("expected the error to propagate, got {:?}", other),
    }
}

#[test]
fn successful_refresh_merges_the_credential() {
    // Vendor rotates the refresh token: the response's token wins.
    let prior = Authz::new("old_at".to_string(), "old_rt".to_string(), 7, Some("DE".to_string()));
    let completion = complete_refresh(&prior, Ok(make_token(7, "NO", Some("new_rt"))));
    let merged = completion.new_credential.expect("refresh should store a credential");
    assert_eq!(merged.access_token, "new_access");
    assert_eq!(merged.refresh_token, "new_rt");
    assert_eq!(merged.user_id, 7);
    assert_eq!(merged.country_code, Some("DE".to_string())); // prior country kept
    assert!(completion.result.is_ok());

    // Vendor omits the refresh token: the prior one is retained; a prior
    // credential without a country takes the response's.
    let prior = Authz::new("old_at".to_string(), "old_rt".to_string(), 7, None);
    let completion = complete_refresh(&prior, Ok(make_token(7, "NO", None)));
    let merged = completion.new_credential.unwrap();
    assert_eq!(merged.refresh_token, "old_rt");
    assert_eq!(merged.country_code, Some("NO".to_string()));
}

#[test]
fn credential_store_roundtrip() {
    let client = TidalClient::new("cid".to_string());
    assert!(client.get_authz().is_none());
    client.authz.store_value(Authz::new("a".to_string(), "r".to_string(), 9, None));
    let loaded = client.get_authz().expect("stored credential should be loadable");
    assert_eq!(loaded.access_token, "a");
    assert_eq!(loaded.refresh_token, "r");
    assert_eq!(loaded.user_id, 9);
}

#[test]
fn bearer_header_form() {
    let cred = Authz::new("tok123".to_string(), "rt".to_string(), 1, None);
    assert_eq!(bearer_header(&cred), "Bearer tok123");
}

#[test]
fn device_authorization_url_gets_its_scheme() {
    let resp = DeviceAuthorizationResponse {
        url: "link.tidal.com/ABCDE".to_string(),
        device_code: "dev".to_string(),
        expires_in: 300,
        user_code: "ABCDE".to_string(),
    };
    let finalized = device_authorization_finalize(resp);
    assert_eq!(finalized.url, "https://link.tidal.com/ABCDE");
    assert_eq!(finalized.user_code, "ABCDE");
}

#[test]
fn authorization_credential_country_precedence() {
    // An explicitly configured country wins over the one the token reports.
    let token = make_token(3, "SE", Some("rt"));
    let explicit = Some("JP".to_string());
    let authz = authorize_credential(&explicit, &token);
    assert_eq!(authz.access_token, "new_access");
    assert_eq!(authz.refresh_token, "rt");
    assert_eq!(authz.user_id, 3);
    assert_eq!(authz.country_code, Some("JP".to_string()));

    // Without one, the token's country is taken.
    let authz = authorize_credential(&None, &token);
    assert_eq!(authz.country_code, Some("SE".to_string()));
}

#[test]
fn user_agent_is_the_fixed_browser_identification() {
    assert!(user_agent().starts_with("Mozilla/5.0 (Linux; Android 12; wv)"));
}
