//! A typed client library for a music-streaming vendor's REST API: catalog
//! browsing, search, favorites, playlist mutation and stream resolution,
//! layered over OAuth2 device-flow authentication with silent token refresh.
//!
//! The heart of the library is the authenticated request pipeline: building
//! outbound calls, classifying responses, detecting the vendor's
//! expired-token failure, refreshing the credential exactly once under
//! concurrent load, and retrying the original call exactly once. The
//! decision logic of that pipeline is verified here; an embedding
//! application drives the HTTP transport and feeds responses back in as
//! plain values.

pub mod album;
pub mod artist;
pub mod authz;
pub mod client;
pub mod error;
pub mod flight;
pub mod json;
pub mod playlist;
pub mod request;
pub mod search;
pub mod text;
pub mod track;
pub mod types;

pub use album::{Album, AlbumType, FavoriteAlbum};
pub use artist::{Artist, ArtistRole, ArtistSummary, FavoriteArtist};
pub use authz::{Authz, AuthzToken, CredentialCell, DeviceAuthorizationResponse, User};
pub use client::{RequestContext, TidalClient};
pub use error::{Error, TidalApiError};
pub use playlist::{Playlist, PlaylistCreator, RemoveScan};
pub use request::{
    ExecState, ExecStep, HttpMethod, HttpResponse, RefreshCompletion, RefreshDirective,
    RequestPlan,
};
pub use search::{Resource, SearchQuery, SearchResults};
pub use track::{AlbumSummary, FavoriteTrack, Track, TrackStream};
pub use types::{
    AudioQuality, DeviceType, List, MediaMetadata, Order, OrderDirection, ResourceType,
};
