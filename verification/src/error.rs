//! The library's error taxonomy: transport failures, vendor-reported API
//! errors, decode failures, and the local precondition failures of the
//! authentication and playlist operations.

use vstd::prelude::*;
use crate::text::{spec_digits, u64_string};

verus! {

/// Error response reported by the vendor API: an HTTP status, a
/// vendor-specific sub-status that refines it, and a human-readable message.
#[derive(Debug, Clone)]
pub struct TidalApiError {
    /// HTTP status code
    pub status: u16,
    /// Vendor-specific sub-status code
    pub sub_status: u64,
    /// Human-readable error message; empty when the response carried none
    pub user_message: String,
}

/// The mathematical content of a `TidalApiError`.
pub struct ApiErrorView {
    pub status: u16,
    pub sub_status: u64,
    pub user_message: Seq<char>,
}

impl View for TidalApiError {
    type V = ApiErrorView;

    open spec fn view(&self) -> ApiErrorView {
        ApiErrorView {
            status: self.status,
            sub_status: self.sub_status,
            user_message: self.user_message@,
        }
    }
}

impl TidalApiError {
    /// A one-line rendering of the error, in place of a `Display` impl.
    pub fn message(&self) -> (m: String)
        ensures
            m@ == "Tidal API error: "@ + spec_digits(self.status as nat) + " "@ + spec_digits(
                self.sub_status as nat,
            ) + " "@ + self.user_message@,
    {
        let mut m = String::from_str("Tidal API error: ");
        m.append(u64_string(self.status as u64).as_str());
        m.append(" ");
        m.append(u64_string(self.sub_status).as_str());
        m.append(" ");
        m.append(self.user_message.as_str());
        m
    }
}

/// Everything that can go wrong when using the library.
///
/// Failures of outside collaborators (the HTTP transport, the JSON codec,
/// the stream initializer) are carried as their rendered messages.
#[derive(Debug, Clone)]
pub enum Error {
    /// HTTP request failed (network issues, timeouts, etc.)
    Http(String),
    /// The vendor API returned an error response
    TidalApiError(TidalApiError),
    /// No authorization token available for refresh
    NoAuthzToken,
    /// JSON decoding failed
    SerdeJson(String),
    /// No primary streaming URL available for the track
    NoPrimaryUrl,
    /// Failed to initialize an audio stream
    StreamInitializationError(String),
    /// No access token available - the client needs authentication
    NoAccessTokenAvailable,
    /// Requested audio quality not available for this track
    TrackQualityNotAvailable,
    /// User authentication required for this operation
    UserAuthenticationRequired,
    /// Track not found in the specified playlist
    PlaylistTrackNotFound(String, u64),
}

} // verus!
