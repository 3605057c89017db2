//! Albums: catalog data shapes and the plans of the album endpoints.

use vstd::prelude::*;
use crate::artist::ArtistSummary;
use crate::client::{
    RequestContext, spec_context_params, spec_paged_params, spec_favorites_params, spec_u32_or,
    context_params, paged_params, favorites_params, u32_or,
};
use crate::error::Error;
use crate::request::{
    HttpMethod, RequestPlan, spec_api_base_url, spec_pairs, api_base_url, push_pair, append_pairs,
};
use crate::text::{spec_digits, spec_image_url, image_resource_url, u64_string};
use crate::types::{AudioQuality, MediaMetadata, Order, OrderDirection};

verus! {

/// Types of albums in the catalog, used for filtering album listings.
#[derive(Clone, Copy, Debug, PartialEq, Eq, Structural)]
pub enum AlbumType {
    /// Standard album release
    ALBUM,
    /// Long play album
    Lp,
    /// Extended play album
    Ep,
    /// Single track release
    Single,
    /// Collection of EPs and singles
    EpsAndSingles,
    /// Compilation album
    Compilations,
}

/// The wire spelling of an album type.
pub open spec fn spec_album_type_str(t: AlbumType) -> Seq<char> {
    match t {
        AlbumType::ALBUM => "ALBUM"@,
        AlbumType::Lp => "LP"@,
        AlbumType::Ep => "EP"@,
        AlbumType::Single => "SINGLE"@,
        AlbumType::EpsAndSingles => "EPSANDSINGLES"@,
        AlbumType::Compilations => "COMPILATIONS"@,
    }
}

impl AlbumType {
    pub fn as_str(&self) -> (s: &'static str)
        ensures
            s@ == spec_album_type_str(*self),
    {
        match self {
            AlbumType::ALBUM => "ALBUM",
            AlbumType::Lp => "LP",
            AlbumType::Ep => "EP",
            AlbumType::Single => "SINGLE",
            AlbumType::EpsAndSingles => "EPSANDSINGLES",
            AlbumType::Compilations => "COMPILATIONS",
        }
    }
}

impl Default for AlbumType {
    fn default() -> (t: AlbumType)
        ensures
            t == AlbumType::ALBUM,
    {
        AlbumType::ALBUM
    }
}

/// An album from the catalog.
#[derive(Clone, Debug)]
pub struct Album {
    /// Unique album identifier
    pub id: u64,
    /// List of artists who contributed to this album
    pub artists: Vec<ArtistSummary>,
    /// Audio quality available for standard streaming
    pub audio_quality: AudioQuality,
    /// Total duration of the album in seconds
    pub duration: u32,
    /// Whether the album contains explicit content
    pub explicit: bool,
    /// Album title
    pub title: String,
    /// Popularity score for the album
    pub popularity: u32,
    /// Additional media metadata and tags
    pub media_metadata: Option<MediaMetadata>,
    /// Album cover image identifier; see `cover_url`
    pub cover: Option<String>,
    /// Video cover identifier (if available)
    pub video_cover: Option<String>,
    /// Dominant color extracted from the cover art
    pub vibrant_color: Option<String>,
    /// Original release date of the album
    pub release_date: Option<String>,
    /// Date when the album became available for streaming
    pub stream_start_date: Option<String>,
    /// Copyright information
    pub copyright: Option<String>,
    /// Total number of tracks on the album
    pub number_of_tracks: u32,
    /// Number of videos included with the album
    pub number_of_videos: u32,
    /// Number of volumes (for multi-disc albums)
    pub number_of_volumes: u32,
    /// Universal Product Code (UPC) for the album
    pub upc: Option<String>,
    /// Vendor URL for the album
    pub url: String,
    /// Album version or edition
    pub version: Option<String>,
    /// Type of album (album, EP, single, ...)
    pub album_type: AlbumType,
    /// Whether the album is ready for ad-supported streaming
    pub ad_supported_stream_ready: bool,
    /// Whether streaming is allowed for this album
    pub allow_streaming: bool,
    /// Whether the album is ready for DJ use
    pub dj_ready: bool,
    /// Whether the album requires payment to stream
    pub pay_to_stream: bool,
    /// Whether the album is only available to premium subscribers
    pub premium_streaming_only: bool,
    /// Whether the album supports stem separation
    pub stem_ready: bool,
    /// Whether the album is ready for streaming
    pub stream_ready: bool,
    /// Available audio modes for this album
    pub audio_modes: Vec<String>,
}

impl Album {
    /// The URL of the album cover at the given dimensions, or `None` when
    /// no cover image is set.
    pub fn cover_url(&self, height: u16, width: u16) -> (r: Option<String>)
        ensures
            r is Some <==> self.cover is Some,
            self.cover matches Some(c) ==> r matches Some(u) && u@ == spec_image_url(
                c@,
                height as nat,
                width as nat,
            ),
    {
        match &self.cover {
            Some(cover) => Some(image_resource_url(cover.as_str(), height, width)),
            None => None,
        }
    }
}

/// An album in the user's favorites, with the time it was added.
#[derive(Clone, Debug)]
pub struct FavoriteAlbum {
    /// ISO timestamp when the album was added to favorites
    pub created: String,
    /// The album data
    pub item: Album,
}

/// The call that fetches one album by id.
pub fn album_plan(ctx: &RequestContext, album_id: u64) -> (p: RequestPlan)
    ensures
        p.method == HttpMethod::Get,
        p.url@ == spec_api_base_url() + "/albums/"@ + spec_digits(album_id as nat),
        p.params matches Some(ps) && spec_pairs(ps@) == spec_context_params(*ctx),
        p.etag is None,
{
    let mut url = String::from_str(api_base_url());
    url.append("/albums/");
    url.append(u64_string(album_id).as_str());
    proof {
        assert(url@ =~= spec_api_base_url() + "/albums/"@ + spec_digits(album_id as nat));
    }
    RequestPlan { method: HttpMethod::Get, url, params: Some(context_params(ctx)), etag: None }
}

/// The call that lists an album's tracks. Offset defaults to 0, limit to
/// 100.
pub fn album_tracks_plan(
    ctx: &RequestContext,
    album_id: u64,
    offset: Option<u32>,
    limit: Option<u32>,
) -> (p: RequestPlan)
    ensures
        p.method == HttpMethod::Get,
        p.url@ == spec_api_base_url() + "/albums/"@ + spec_digits(album_id as nat) + "/tracks"@,
        p.params matches Some(ps) && spec_pairs(ps@) == spec_paged_params(
            spec_u32_or(offset, 0),
            spec_u32_or(limit, 100),
            *ctx,
        ),
        p.etag is None,
{
    let mut url = String::from_str(api_base_url());
    url.append("/albums/");
    url.append(u64_string(album_id).as_str());
    url.append("/tracks");
    proof {
        assert(url@ =~= spec_api_base_url() + "/albums/"@ + spec_digits(album_id as nat)
            + "/tracks"@);
    }
    let params = paged_params(ctx, u32_or(offset, 0), u32_or(limit, 100));
    RequestPlan { method: HttpMethod::Get, url, params: Some(params), etag: None }
}

/// The call that lists the authenticated user's favorite albums; it needs a
/// known user, and fails fast with `UserAuthenticationRequired` without
/// one. Offset defaults to 0, limit to 100, the ordering to date
/// descending.
pub fn favorite_albums_plan(
    ctx: &RequestContext,
    offset: Option<u32>,
    limit: Option<u32>,
    order: Option<Order>,
    order_direction: Option<OrderDirection>,
) -> (r: Result<RequestPlan, Error>)
    ensures
        r is Err <==> ctx.user_id is None,
        r matches Err(e) ==> e is UserAuthenticationRequired,
        r matches Ok(p) ==> {
            &&& p.method == HttpMethod::Get
            &&& p.url@ == spec_api_base_url() + "/users/"@ + spec_digits(
                ctx.user_id.unwrap() as nat,
            ) + "/favorites/albums"@
            &&& p.params matches Some(ps) && spec_pairs(ps@) == spec_favorites_params(
                spec_u32_or(offset, 0),
                spec_u32_or(limit, 100),
                match order {
                    Some(o) => o,
                    None => Order::Date,
                },
                match order_direction {
                    Some(d) => d,
                    None => OrderDirection::Desc,
                },
                *ctx,
            )
            &&& p.etag is None
        },
{
    let user_id = match ctx.user_id {
        Some(uid) => uid,
        None => {
            return Err(Error::UserAuthenticationRequired);
        },
    };
    let mut url = String::from_str(api_base_url());
    url.append("/users/");
    url.append(u64_string(user_id).as_str());
    url.append("/favorites/albums");
    proof {
        assert(url@ =~= spec_api_base_url() + "/users/"@ + spec_digits(user_id as nat)
            + "/favorites/albums"@);
    }
    let order = match order {
        Some(o) => o,
        None => Order::Date,
    };
    let direction = match order_direction {
        Some(d) => d,
        None => OrderDirection::Desc,
    };
    let params = favorites_params(ctx, u32_or(offset, 0), u32_or(limit, 100), order, direction);
    Ok(RequestPlan { method: HttpMethod::Get, url, params: Some(params), etag: None })
}

/// The call that adds an album to the authenticated user's favorites; it
/// needs a known user.
pub fn add_favorite_album_plan(ctx: &RequestContext, album_id: u64) -> (r: Result<
    RequestPlan,
    Error,
>)
    ensures
        r is Err <==> ctx.user_id is None,
        r matches Err(e) ==> e is UserAuthenticationRequired,
        r matches Ok(p) ==> {
            &&& p.method == HttpMethod::Post
            &&& p.url@ == spec_api_base_url() + "/users/"@ + spec_digits(
                ctx.user_id.unwrap() as nat,
            ) + "/favorites/albums"@
            &&& p.params matches Some(ps) && spec_pairs(ps@) == seq![
                ("albumId"@, spec_digits(album_id as nat)),
            ] + spec_context_params(*ctx)
            &&& p.etag is None
        },
{
    let user_id = match ctx.user_id {
        Some(uid) => uid,
        None => {
            return Err(Error::UserAuthenticationRequired);
        },
    };
    let mut url = String::from_str(api_base_url());
    url.append("/users/");
    url.append(u64_string(user_id).as_str());
    url.append("/favorites/albums");
    proof {
        assert(url@ =~= spec_api_base_url() + "/users/"@ + spec_digits(user_id as nat)
            + "/favorites/albums"@);
    }
    let mut params: Vec<(String, String)> = Vec::new();
    push_pair(&mut params, "albumId", u64_string(album_id));
    let params = append_pairs(params, context_params(ctx));
    proof {
        assert(spec_pairs(params@) =~= seq![("albumId"@, spec_digits(album_id as nat))]
            + spec_context_params(*ctx));
    }
    Ok(RequestPlan { method: HttpMethod::Post, url, params: Some(params), etag: None })
}

/// The call that removes an album from the authenticated user's favorites;
/// it needs a known user.
pub fn remove_favorite_album_plan(ctx: &RequestContext, album_id: u64) -> (r: Result<
    RequestPlan,
    Error,
>)
    ensures
        r is Err <==> ctx.user_id is None,
        r matches Err(e) ==> e is UserAuthenticationRequired,
        r matches Ok(p) ==> {
            &&& p.method == HttpMethod::Delete
            &&& p.url@ == spec_api_base_url() + "/users/"@ + spec_digits(
                ctx.user_id.unwrap() as nat,
            ) + "/favorites/albums/"@ + spec_digits(album_id as nat)
            &&& p.params matches Some(ps) && spec_pairs(ps@) == spec_context_params(*ctx)
            &&& p.etag is None
        },
{
    let user_id = match ctx.user_id {
        Some(uid) => uid,
        None => {
            return Err(Error::UserAuthenticationRequired);
        },
    };
    let mut url = String::from_str(api_base_url());
    url.append("/users/");
    url.append(u64_string(user_id).as_str());
    url.append("/favorites/albums/");
    url.append(u64_string(album_id).as_str());
    proof {
        assert(url@ =~= spec_api_base_url() + "/users/"@ + spec_digits(user_id as nat)
            + "/favorites/albums/"@ + spec_digits(album_id as nat));
    }
    Ok(
        RequestPlan {
            method: HttpMethod::Delete,
            url,
            params: Some(context_params(ctx)),
            etag: None,
        },
    )
}

} // verus!
