//! The authenticated request pipeline: request plans, response
//! classification, the retry-once rule for expired credentials, and the
//! decision functions of the single-flight refresh coordinator.
//!
//! The pipeline alternates network work with decisions. The network work —
//! sending a plan and collecting status, headers and body — is done by the
//! embedding application; every decision in between is made here, on plain
//! values, and is verified.

use vstd::prelude::*;
use crate::authz::{
    Authz, AuthzToken, DeviceAuthorizationResponse, spec_merge_refreshed, merge_refreshed,
};
use crate::error::{Error, TidalApiError};
use crate::json::{
    decode_success_body, json_parse, api_error_from_value, normalize_etag, json_is_object,
    json_parsed, spec_api_error, spec_etag_merged, spec_normalize_etag,
};

verus! {

/// The vendor's sub-status for "the access token has expired" under a 401.
pub const EXPIRED_TOKEN_SUB_STATUS: u64 = 11003;

/// Base URL of the vendor's OAuth2 endpoints.
pub open spec fn spec_auth_base_url() -> Seq<char> {
    "https://auth.tidal.com/v1"@
}

/// Base URL of the vendor's catalog and user endpoints.
pub open spec fn spec_api_base_url() -> Seq<char> {
    "https://api.tidal.com/v1"@
}

pub fn auth_base_url() -> (s: &'static str)
    ensures
        s@ == spec_auth_base_url(),
{
    "https://auth.tidal.com/v1"
}

pub fn api_base_url() -> (s: &'static str)
    ensures
        s@ == spec_api_base_url(),
{
    "https://api.tidal.com/v1"
}

/// The fixed device/browser identification header attached to every request.
pub fn user_agent() -> (s: &'static str)
    ensures
        s@
            == "Mozilla/5.0 (Linux; Android 12; wv) AppleWebKit/537.36 (KHTML, like Gecko) Version/4.0 Chrome/91.0.4472.114 Safari/537.36"@,
{
    "Mozilla/5.0 (Linux; Android 12; wv) AppleWebKit/537.36 (KHTML, like Gecko) Version/4.0 Chrome/91.0.4472.114 Safari/537.36"
}

/// The HTTP methods the pipeline supports. Any other method would be a
/// programming error, so none other can be expressed.
#[derive(Clone, Copy, Debug, PartialEq, Eq, Structural)]
pub enum HttpMethod {
    Get,
    Delete,
    Post,
}

/// One outbound call, constructed fresh per request and never shared:
/// method, absolute URL, the parameters to send (as a query string for
/// GET/DELETE, form-encoded for POST), and an optional precondition token
/// attached as an "if-none-match"-style conditional header.
#[derive(Clone, Debug)]
pub struct RequestPlan {
    pub method: HttpMethod,
    pub url: String,
    pub params: Option<Vec<(String, String)>>,
    pub etag: Option<String>,
}

/// The parameter pairs of a plan, as sequences of characters.
pub open spec fn spec_pairs(ps: Seq<(String, String)>) -> Seq<(Seq<char>, Seq<char>)> {
    ps.map_values(|p: (String, String)| (p.0@, p.1@))
}

/// Append one named parameter to a parameter list.
pub fn push_pair(ps: &mut Vec<(String, String)>, k: &str, v: String)
    ensures
        spec_pairs(final(ps)@) == spec_pairs(old(ps)@).push((k@, v@)),
{
    let ghost v_view = v@;
    ps.push((String::from_str(k), v));
    proof {
        assert(spec_pairs(ps@) =~= spec_pairs(old(ps)@).push((k@, v_view)));
    }
}

/// Concatenate two parameter lists.
pub fn append_pairs(mut a: Vec<(String, String)>, b: Vec<(String, String)>) -> (r: Vec<
    (String, String)
>)
    ensures
        spec_pairs(r@) == spec_pairs(a@) + spec_pairs(b@),
{
    let ghost a0 = a@;
    let mut i: usize = 0;
    proof {
        assert(spec_pairs(a@) =~= spec_pairs(a0) + spec_pairs(b@.take(0)));
    }
    while i < b.len()
        invariant
            i <= b@.len(),
            spec_pairs(a@) == spec_pairs(a0) + spec_pairs(b@.take(i as int)),
        decreases b@.len() - i,
    {
        let ghost before = a@;
        let pair = (b[i].0.clone(), b[i].1.clone());
        let ghost pv = (pair.0@, pair.1@);
        a.push(pair);
        proof {
            assert(spec_pairs(a@) =~= spec_pairs(before).push(pv));
            assert(pv == (b@[i as int].0@, b@[i as int].1@));
            assert(spec_pairs(b@.take(i + 1)) =~= spec_pairs(b@.take(i as int)).push(pv));
            assert(spec_pairs(a@) =~= spec_pairs(a0) + spec_pairs(b@.take(i + 1)));
        }
        i += 1;
    }
    proof {
        assert(b@.take(b@.len() as int) =~= b@);
    }
    a
}

/// What the transport hands back for one attempt: the HTTP status, the raw
/// concurrency-control header value when one was present, and the body.
pub struct HttpResponse {
    pub status: u16,
    pub etag: Option<String>,
    pub body: Vec<u8>,
}

/// The bearer-authorization header value for a credential.
pub fn bearer_header(a: &Authz) -> (h: String)
    ensures
        h@ == "Bearer "@ + a.access_token@,
{
    let mut h = String::from_str("Bearer ");
    h.append(a.access_token.as_str());
    h
}

/// Whether an HTTP status reports success.
pub open spec fn spec_is_success(status: u16) -> bool {
    200 <= status < 300
}

/// Whether a failure is the vendor's expired-access-token condition: a 401
/// whose vendor sub-status is the known expired-token code.
pub open spec fn spec_is_expired_token(status: u16, sub_status: u64) -> bool {
    status == 401 && sub_status == EXPIRED_TOKEN_SUB_STATUS
}

/// Per-request retry state: whether this original call has already been
/// retried after a credential refresh.
#[derive(Clone, Copy, Debug, PartialEq, Eq, Structural)]
pub struct ExecState {
    pub retried: bool,
}

impl ExecState {
    /// The state of a fresh original request, which may retry once.
    pub fn fresh() -> (st: ExecState)
        ensures
            !st.retried,
    {
        ExecState { retried: false }
    }

    /// The state under which a call never triggers a refresh-and-retry:
    /// used for the token-endpoint call itself, which must not recursively
    /// trigger another refresh.
    pub fn no_retry() -> (st: ExecState)
        ensures
            st.retried,
    {
        ExecState { retried: true }
    }
}

/// What the executor does after classifying one response.
#[derive(Debug)]
pub enum ExecStep {
    /// A success response: decode this structured value into the caller's
    /// expected type.
    Deliver(serde_json::Value),
    /// The expired-token failure on a not-yet-retried call: refresh the
    /// credential, then re-issue the identical original request once.
    RefreshAndRetry,
    /// Surface this error to the caller.
    Fail(Error),
}

/// Whether a failure response triggers the refresh-and-retry path: only the
/// expired-token condition, and only on a call that has not yet retried.
pub open spec fn spec_wants_retry(st: ExecState, status: u16, sub_status: u64) -> bool {
    !st.retried && spec_is_expired_token(status, sub_status)
}

/// The retry state after one failure has been classified.
pub open spec fn spec_after_decision(st: ExecState, status: u16, sub_status: u64) -> ExecState {
    if spec_wants_retry(st, status, sub_status) {
        ExecState { retried: true }
    } else {
        st
    }
}

/// Retry-once: once a call has retried after a refresh, no later failure of
/// that call can trigger a second retry — a second expired-token response
/// propagates as an error instead of looping.
pub proof fn lemma_retry_at_most_once(st: ExecState, s1: u16, b1: u64, s2: u16, b2: u64)
    ensures
        spec_wants_retry(st, s1, b1) ==> !spec_wants_retry(
            spec_after_decision(st, s1, b1),
            s2,
            b2,
        ),
{
}

/// The number of refresh-and-retry decisions a request starting in state
/// `st` makes over a whole sequence of failure responses.
pub open spec fn spec_retry_count(st: ExecState, events: Seq<(u16, u64)>) -> nat
    decreases events.len(),
{
    if events.len() == 0 {
        0
    } else {
        let e = events[0];
        (if spec_wants_retry(st, e.0, e.1) {
            1nat
        } else {
            0nat
        }) + spec_retry_count(spec_after_decision(st, e.0, e.1), events.skip(1))
    }
}

proof fn lemma_no_retry_once_retried(st: ExecState, events: Seq<(u16, u64)>)
    requires
        st.retried,
    ensures
        spec_retry_count(st, events) == 0,
    decreases events.len(),
{
    if events.len() > 0 {
        let e = events[0];
        lemma_no_retry_once_retried(spec_after_decision(st, e.0, e.1), events.skip(1));
    }
}

/// Retry-once, over a whole request: however many failure responses the
/// server returns — even one that always reports the expired-token
/// condition — an original request triggers at most one refresh-and-retry;
/// every later expired-token failure propagates, so the request terminates.
pub proof fn lemma_retry_once_per_request(st: ExecState, events: Seq<(u16, u64)>)
    ensures
        spec_retry_count(st, events) <= 1,
    decreases events.len(),
{
    if events.len() > 0 {
        let e = events[0];
        if spec_wants_retry(st, e.0, e.1) {
            lemma_no_retry_once_retried(spec_after_decision(st, e.0, e.1), events.skip(1));
        } else {
            lemma_retry_once_per_request(spec_after_decision(st, e.0, e.1), events.skip(1));
        }
    }
}

/// Classify a failure response whose vendor error body has been read:
/// exactly the expired-token sub-status under a 401, on a call that has not
/// yet retried, turns into a refresh-and-retry; everything else is surfaced
/// unchanged as a remote-API error.
pub fn decide_failure(st: &mut ExecState, status: u16, err: TidalApiError) -> (step: ExecStep)
    ensures
        step is RefreshAndRetry <==> spec_wants_retry(*old(st), status, err.sub_status),
        *final(st) == spec_after_decision(*old(st), status, err.sub_status),
        !(step is RefreshAndRetry) ==> step == ExecStep::Fail(Error::TidalApiError(err)),
{
    if !st.retried && status == 401 && err.sub_status == EXPIRED_TOKEN_SUB_STATUS {
        st.retried = true;
        ExecStep::RefreshAndRetry
    } else {
        ExecStep::Fail(Error::TidalApiError(err))
    }
}

/// Classify one response of an attempt of a request.
///
/// On a success status the body is decoded (empty bodies standing for JSON
/// null) and a normalized header ETag is merged into it when the body does
/// not already carry one. On a failure status the body is read as the
/// vendor's error shape; the expired-token condition on a first attempt —
/// and nothing else — yields `RefreshAndRetry`, every other failure is
/// surfaced unchanged. A failure body that cannot be read as the vendor's
/// error shape surfaces as a decode error.
pub fn handle_response(st: &mut ExecState, resp: HttpResponse) -> (step: ExecStep)
    ensures
        spec_is_success(resp.status) ==> (step is Deliver || step matches ExecStep::Fail(
            Error::SerdeJson(_),
        )),
        spec_is_success(resp.status) && resp.body@.len() == 0 ==> step is Deliver,
        spec_is_success(resp.status) && resp.body@.len() > 0 ==> (step is Deliver <==> json_parsed(
            resp.body@,
        ) is Some),
        step matches ExecStep::Deliver(v) ==> (resp.body@.len() == 0 ==> !json_is_object(v)),
        step matches ExecStep::Deliver(v) ==> (resp.body@.len() > 0 ==> match resp.etag {
            Some(raw) => spec_etag_merged(
                json_parsed(resp.body@).unwrap(),
                spec_normalize_etag(raw@),
                v,
            ),
            None => v == json_parsed(resp.body@).unwrap(),
        }),
        !spec_is_success(resp.status) ==> (step is RefreshAndRetry <==> (json_parsed(
            resp.body@,
        ) matches Some(p) && spec_api_error(p) matches Some(e) && spec_wants_retry(
            *old(st),
            resp.status,
            e.sub_status,
        ))),
        !spec_is_success(resp.status) ==> (step is RefreshAndRetry || (step matches ExecStep::Fail(
            e,
        ) && (e is TidalApiError || e is SerdeJson))),
        step matches ExecStep::Fail(Error::TidalApiError(ae)) ==> (json_parsed(
            resp.body@,
        ) matches Some(p) && spec_api_error(p) == Some(ae@)),
        step is RefreshAndRetry ==> !old(st).retried && final(st).retried,
        !(step is RefreshAndRetry) ==> *final(st) == *old(st),
        old(st).retried ==> !(step is RefreshAndRetry),
{
    let normalized: Option<String> = match resp.etag {
        Some(raw) => Some(normalize_etag(raw)),
        None => None,
    };
    if 200 <= resp.status && resp.status < 300 {
        match decode_success_body(&resp.body, normalized.as_ref()) {
            Ok(value) => ExecStep::Deliver(value),
            Err(e) => ExecStep::Fail(e),
        }
    } else {
        let parsed = match json_parse(resp.body.as_slice()) {
            Ok(v) => v,
            Err(msg) => {
                return ExecStep::Fail(Error::SerdeJson(msg));
            },
        };
        match api_error_from_value(&parsed) {
            Some(err) => decide_failure(st, resp.status, err),
            None => ExecStep::Fail(
                Error::SerdeJson(String::from_str("error body is not the vendor error shape")),
            ),
        }
    }
}

/// What the refresh coordinator tells its caller to do after the attempt to
/// become the sole refresher.
#[derive(Debug)]
pub enum RefreshDirective {
    /// This caller is the sole refresher: issue this token-endpoint call,
    /// outside the expired-token-retry path, then hand the outcome to
    /// `complete_refresh`.
    FetchToken(RequestPlan),
    /// Another caller is already refreshing: wait until it releases the
    /// permit, then proceed with the now-current credential.
    AwaitHolder,
    /// Refresh is impossible: no credential is stored.
    FailNoToken,
}

/// The parameters of the token-endpoint call that a refresh issues.
pub open spec fn spec_refresh_params(client_id: Seq<char>, refresh_token: Seq<char>) -> Seq<
    (Seq<char>, Seq<char>),
> {
    seq![
        ("client_id"@, client_id),
        ("refresh_token"@, refresh_token),
        ("grant_type"@, "refresh_token"@),
        ("scope"@, "r_usr w_usr w_sub"@),
    ]
}

/// Decide how a caller that detected an expired credential takes part in the
/// refresh cycle, given whether it acquired the refresh permit without
/// blocking and the credential loaded from the store.
pub fn plan_refresh(client_id: &str, cred: Option<&Authz>, permit_acquired: bool) -> (d:
    RefreshDirective)
    ensures
        !permit_acquired ==> d is AwaitHolder,
        permit_acquired && cred is None ==> d is FailNoToken,
        permit_acquired && cred is Some ==> (d matches RefreshDirective::FetchToken(p) && {
            &&& p.method == HttpMethod::Post
            &&& p.url@ == spec_auth_base_url() + "/oauth2/token"@
            &&& p.etag is None
            &&& p.params matches Some(ps) && spec_pairs(ps@) == spec_refresh_params(
                client_id@,
                cred.unwrap().refresh_token@,
            )
        }),
{
    if !permit_acquired {
        return RefreshDirective::AwaitHolder;
    }
    let prior = match cred {
        Some(a) => a,
        None => {
            return RefreshDirective::FailNoToken;
        },
    };
    let mut url = String::from_str(auth_base_url());
    url.append("/oauth2/token");
    let mut params: Vec<(String, String)> = Vec::new();
    params.push((String::from_str("client_id"), String::from_str(client_id)));
    params.push((String::from_str("refresh_token"), prior.refresh_token.clone()));
    params.push((String::from_str("grant_type"), String::from_str("refresh_token")));
    params.push((String::from_str("scope"), String::from_str("r_usr w_usr w_sub")));
    proof {
        assert(spec_pairs(params@) =~= spec_refresh_params(client_id@, prior.refresh_token@));
    }
    RefreshDirective::FetchToken(RequestPlan { method: HttpMethod::Post, url, params: Some(params), etag: None })
}

/// What the sole refresher must do once the token-endpoint call came back:
/// which credential to store (before releasing the permit), which credential
/// to hand to the registered refresh callback (after releasing the permit),
/// and what `ensure_fresh` returns.
#[derive(Debug)]
pub struct RefreshCompletion {
    /// The new credential, when the refresh succeeded. It is swapped into
    /// the store first, then the permit is released, and then the refresh
    /// callback — when one is registered — is invoked with exactly this
    /// credential. `None` means the store stays as it was and the callback
    /// must not run.
    pub new_credential: Option<Authz>,
    /// The outcome the caller of the refresh reports.
    pub result: Result<(), Error>,
}

/// Complete a refresh cycle from the token-endpoint outcome. On success the
/// merged credential (see `spec_merge_refreshed`) is stored and the callback
/// is notified with exactly that credential; on failure nothing is stored,
/// the callback does not run, and the error propagates unchanged.
pub fn complete_refresh(prior: &Authz, outcome: Result<AuthzToken, Error>) -> (c:
    RefreshCompletion)
    ensures
        outcome matches Ok(tok) ==> {
            &&& c.new_credential == Some(spec_merge_refreshed(*prior, tok))
            &&& c.result is Ok
        },
        outcome matches Err(e) ==> {
            &&& c.new_credential is None
            &&& c.result == Result::<(), Error>::Err(e)
        },
{
    match outcome {
        Ok(tok) => {
            let merged = merge_refreshed(prior, &tok);
            RefreshCompletion { new_credential: Some(merged), result: Ok(()) }
        },
        Err(e) => RefreshCompletion { new_credential: None, result: Err(e) },
    }
}

/// The call that starts the OAuth2 device-authorization flow.
pub fn device_authorization_plan(client_id: &str) -> (p: RequestPlan)
    ensures
        p.method == HttpMethod::Post,
        p.url@ == spec_auth_base_url() + "/oauth2/device_authorization"@,
        p.params matches Some(ps) && spec_pairs(ps@) == seq![
            ("client_id"@, client_id@),
            ("scope"@, "r_usr w_usr w_sub"@),
        ],
        p.etag is None,
{
    let mut url = String::from_str(auth_base_url());
    url.append("/oauth2/device_authorization");
    proof {
        assert(url@ =~= spec_auth_base_url() + "/oauth2/device_authorization"@);
    }
    let mut params: Vec<(String, String)> = Vec::new();
    push_pair(&mut params, "client_id", String::from_str(client_id));
    push_pair(&mut params, "scope", String::from_str("r_usr w_usr w_sub"));
    proof {
        assert(spec_pairs(params@) =~= seq![
            ("client_id"@, client_id@),
            ("scope"@, "r_usr w_usr w_sub"@),
        ]);
    }
    RequestPlan { method: HttpMethod::Post, url, params: Some(params), etag: None }
}

/// Turn the bare verification URL of a device-authorization response into a
/// complete one by prefixing the scheme, leaving the rest of the response
/// as it came.
pub fn device_authorization_finalize(resp: DeviceAuthorizationResponse) -> (r:
    DeviceAuthorizationResponse)
    ensures
        r.url@ == "https://"@ + resp.url@,
        r.device_code == resp.device_code,
        r.expires_in == resp.expires_in,
        r.user_code == resp.user_code,
{
    let mut url = String::from_str("https://");
    url.append(resp.url.as_str());
    DeviceAuthorizationResponse {
        url,
        device_code: resp.device_code,
        expires_in: resp.expires_in,
        user_code: resp.user_code,
    }
}

/// The call that completes the OAuth2 device-authorization flow with the
/// user-approved device code.
pub fn authorize_plan(client_id: &str, device_code: &str, client_secret: &str) -> (p: RequestPlan)
    ensures
        p.method == HttpMethod::Post,
        p.url@ == spec_auth_base_url() + "/oauth2/token"@,
        p.params matches Some(ps) && spec_pairs(ps@) == seq![
            ("client_id"@, client_id@),
            ("client_secret"@, client_secret@),
            ("device_code"@, device_code@),
            ("grant_type"@, "urn:ietf:params:oauth:grant-type:device_code"@),
            ("scope"@, "r_usr w_usr w_sub"@),
        ],
        p.etag is None,
{
    let mut url = String::from_str(auth_base_url());
    url.append("/oauth2/token");
    let mut params: Vec<(String, String)> = Vec::new();
    push_pair(&mut params, "client_id", String::from_str(client_id));
    push_pair(&mut params, "client_secret", String::from_str(client_secret));
    push_pair(&mut params, "device_code", String::from_str(device_code));
    push_pair(
        &mut params,
        "grant_type",
        String::from_str("urn:ietf:params:oauth:grant-type:device_code"),
    );
    push_pair(&mut params, "scope", String::from_str("r_usr w_usr w_sub"));
    proof {
        assert(spec_pairs(params@) =~= seq![
            ("client_id"@, client_id@),
            ("client_secret"@, client_secret@),
            ("device_code"@, device_code@),
            ("grant_type"@, "urn:ietf:params:oauth:grant-type:device_code"@),
            ("scope"@, "r_usr w_usr w_sub"@),
        ]);
    }
    RequestPlan { method: HttpMethod::Post, url, params: Some(params), etag: None }
}

/// The credential stored after a completed authorization: the token
/// response's tokens and user id, with an explicitly configured country
/// code taking precedence over the one the response reports. The vendor is
/// owed to return a refresh token here, so a response without one is a
/// caller error and is left out.
pub fn authorize_credential(explicit_country: &Option<String>, resp: &AuthzToken) -> (a: Authz)
    requires
        resp.refresh_token is Some,
    ensures
        a.access_token == resp.access_token,
        Some(a.refresh_token) == resp.refresh_token,
        a.user_id == resp.user.user_id,
        a.country_code == match *explicit_country {
            Some(cc) => Some(cc),
            None => Some(resp.user.country_code),
        },
{
    let refresh_token = match &resp.refresh_token {
        Some(rt) => rt.clone(),
        None => String::new(),
    };
    Authz {
        access_token: resp.access_token.clone(),
        refresh_token,
        user_id: resp.user.user_id,
        country_code: match explicit_country {
            Some(cc) => Some(cc.clone()),
            None => Some(resp.user.country_code.clone()),
        },
    }
}

} // verus!
