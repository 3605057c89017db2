//! Credentials, the token-endpoint response shapes, and the credential store.

use vstd::prelude::*;

verus! {

/// Authorization tokens and user information for API access.
///
/// A credential is immutable once constructed: a refresh produces a brand-new
/// value, never a field-by-field mutation of an existing one.
#[derive(Clone, Debug)]
pub struct Authz {
    /// Access token attached as a bearer header to authenticated requests
    pub access_token: String,
    /// Refresh token used to obtain new access tokens
    pub refresh_token: String,
    /// User ID associated with these tokens
    pub user_id: u64,
    /// User's country code, when known
    pub country_code: Option<String>,
}

impl Authz {
    pub fn new(
        access_token: String,
        refresh_token: String,
        user_id: u64,
        country_code: Option<String>,
    ) -> (a: Authz)
        ensures
            a == (Authz { access_token, refresh_token, user_id, country_code }),
    {
        Authz { access_token, refresh_token, user_id, country_code }
    }
}

/// A user account as the token endpoint reports it.
#[derive(Clone, Debug)]
pub struct User {
    /// Whether the user has accepted the End User License Agreement
    pub accepted_eula: bool,
    /// Whether an account link has been created
    pub account_link_created: bool,
    /// User's address (if provided)
    pub address: Option<String>,
    /// Apple ID associated with the account (if any)
    pub apple_uid: Option<String>,
    /// User's birthday (if provided)
    pub birthday: Option<String>,
    /// Channel ID associated with the user
    pub channel_id: u64,
    /// User's city (if provided)
    pub city: Option<String>,
    /// User's country code (e.g., "US", "GB")
    pub country_code: String,
    /// Unix timestamp when the account was created
    pub created: u64,
    /// User's email address
    pub email: String,
    /// Whether the email address has been verified
    pub email_verified: bool,
    /// Facebook UID associated with the account (if any)
    pub facebook_uid: Option<u64>,
    /// User's first name (if provided)
    pub first_name: Option<String>,
    /// User's full name (if provided)
    pub full_name: Option<String>,
    /// Google UID associated with the account
    pub google_uid: String,
    /// User's last name (if provided)
    pub last_name: Option<String>,
    /// Whether this is a new user account
    pub new_user: bool,
    /// User's nickname (if provided)
    pub nickname: Option<String>,
    /// Parent ID associated with the user
    pub parent_id: u64,
    /// User's phone number (if provided)
    pub phone_number: Option<String>,
    /// User's postal code (if provided)
    pub postalcode: Option<String>,
    /// Unix timestamp when the account was last updated
    pub updated: u64,
    /// User's US state (if provided and in US)
    pub us_state: Option<String>,
    /// Unique user ID
    pub user_id: u64,
    /// User's username
    pub username: String,
}

/// Complete authorization token response from the vendor's OAuth2 endpoint.
#[derive(Clone, Debug)]
pub struct AuthzToken {
    /// Access token for API authentication
    pub access_token: String,
    /// Name of the client application
    pub client_name: String,
    /// Token expiration time in seconds
    pub expires_in: i64,
    /// Refresh token for obtaining new access tokens; the vendor may omit it
    pub refresh_token: Option<String>,
    /// OAuth2 scope granted to the application
    pub scope: String,
    /// Type of token (typically "Bearer")
    pub token_type: String,
    /// User information
    pub user: User,
    /// User ID (same as user.user_id but signed)
    pub user_id: i64,
}

impl AuthzToken {
    /// The storable credential carried by this token response, when it
    /// carries a refresh token; `None` otherwise.
    pub fn authz(&self) -> (r: Option<Authz>)
        ensures
            r is Some <==> self.refresh_token is Some,
            r matches Some(a) ==> {
                &&& a.access_token == self.access_token
                &&& Some(a.refresh_token) == self.refresh_token
                &&& a.user_id == self.user_id as u64
                &&& a.country_code == Some(self.user.country_code)
            },
    {
        match &self.refresh_token {
            Some(refresh_token) => Some(
                Authz {
                    access_token: self.access_token.clone(),
                    refresh_token: refresh_token.clone(),
                    user_id: self.user_id as u64,
                    country_code: Some(self.user.country_code.clone()),
                },
            ),
            None => None,
        }
    }
}

/// Response from the device-authorization endpoint: what the user needs to
/// complete the OAuth2 device flow.
#[derive(Clone, Debug)]
pub struct DeviceAuthorizationResponse {
    /// The URL the user should visit to authorize the application
    pub url: String,
    /// The device code used to complete the authorization flow
    pub device_code: String,
    /// How long the device code remains valid (in seconds)
    pub expires_in: u64,
    /// The code the user enters on the authorization page
    pub user_code: String,
}

/// The credential constructed after a successful refresh: the new access
/// token as the response carries it; the response's refresh token when the
/// vendor rotated it, the prior one otherwise; the user id from the
/// response; the prior credential's country code when it had one, else the
/// one the response reports.
pub open spec fn spec_merge_refreshed(prior: Authz, resp: AuthzToken) -> Authz {
    Authz {
        access_token: resp.access_token,
        refresh_token: match resp.refresh_token {
            Some(rt) => rt,
            None => prior.refresh_token,
        },
        user_id: resp.user.user_id,
        country_code: match prior.country_code {
            Some(cc) => Some(cc),
            None => Some(resp.user.country_code),
        },
    }
}

/// Build the credential that a successful refresh stores.
pub fn merge_refreshed(prior: &Authz, resp: &AuthzToken) -> (a: Authz)
    ensures
        a == spec_merge_refreshed(*prior, *resp),
{
    Authz {
        access_token: resp.access_token.clone(),
        refresh_token: match &resp.refresh_token {
            Some(rt) => rt.clone(),
            None => prior.refresh_token.clone(),
        },
        user_id: resp.user.user_id,
        country_code: match &prior.country_code {
            Some(cc) => Some(cc.clone()),
            None => Some(resp.user.country_code.clone()),
        },
    }
}

/// The credential store: a single slot holding the current credential, read
/// and replaced wholesale.
///
/// The slot is shared between concurrent tasks, so nothing relates one load
/// to the next: two loads of the same cell may return different credentials,
/// and every function that reasons about a loaded credential takes it as an
/// argument. Relies on arc_swap::ArcSwapOption, whose `load_full` returns a
/// complete snapshot and whose `store` replaces the value atomically; that
/// declaration is refused by the verifier, so the cell is held opaquely here.
#[verifier::external_body]
pub struct CredentialCell {
    cell: arc_swap::ArcSwapOption<Authz>,
}

impl CredentialCell {
    /// Relies on arc_swap::ArcSwapOption::from: a cell holding no credential.
    #[verifier::external_body]
    pub(crate) fn empty() -> CredentialCell {
        CredentialCell { cell: arc_swap::ArcSwapOption::from(None) }
    }

    /// Relies on arc_swap::ArcSwapOption::from_pointee: a cell holding the
    /// given credential.
    #[verifier::external_body]
    pub(crate) fn with_value(a: Authz) -> CredentialCell {
        CredentialCell { cell: arc_swap::ArcSwapOption::from_pointee(a) }
    }

    /// Relies on arc_swap::ArcSwapAny::load_full: an atomic snapshot of the
    /// current credential, never a partially updated one.
    #[verifier::external_body]
    pub fn load(&self) -> Option<Authz> {
        self.cell.load_full().map(|a| (*a).clone())
    }

    /// Relies on arc_swap::ArcSwapAny::store: atomically replaces the current
    /// credential, without blocking concurrent readers.
    #[verifier::external_body]
    pub fn store_value(&self, a: Authz) {
        self.cell.store(Some(std::sync::Arc::new(a)));
    }
}

} // verus!
