//! Tracks: catalog data shapes, the plans of the track endpoints, stream
//! resolution, and the manifest decoder.

use vstd::prelude::*;
use base64::Engine;
use crate::artist::ArtistSummary;
use crate::client::{
    RequestContext, spec_context_params, spec_paged_params, spec_favorites_params, spec_u32_or,
    context_params, paged_params, favorites_params, u32_or,
};
use crate::error::Error;
use crate::request::{
    HttpMethod, RequestPlan, spec_api_base_url, spec_pairs, api_base_url, push_pair, append_pairs,
};
use crate::text::{spec_digits, u64_string};
use crate::types::{AudioQuality, MediaMetadata, Order, OrderDirection, spec_audio_quality_str};

verus! {

/// A track from the catalog.
#[derive(Clone, Debug)]
pub struct Track {
    /// Unique track identifier
    pub id: u64,
    /// Track number within the album
    pub track_number: u32,
    /// List of artists who contributed to this track
    pub artists: Vec<ArtistSummary>,
    /// Album information for this track
    pub album: AlbumSummary,
    /// Audio quality available for standard streaming
    pub audio_quality: AudioQuality,
    /// Duration of the track in seconds
    pub duration: u32,
    /// Whether the track contains explicit content
    pub explicit: bool,
    /// International Standard Recording Code (ISRC)
    pub isrc: Option<String>,
    /// Popularity score for the track
    pub popularity: u32,
    /// Track title
    pub title: String,
    /// Version or remix information
    pub version: Option<String>,
    /// Additional media metadata and tags
    pub media_metadata: Option<MediaMetadata>,
    /// Copyright information
    pub copyright: Option<String>,
    /// Vendor URL for the track
    pub url: Option<String>,
    /// Beats per minute (BPM) of the track
    pub bpm: Option<u32>,
    /// Whether the track is a user upload
    pub upload: Option<bool>,
}

/// The simplified album shape used in track metadata and search results.
#[derive(Clone, Debug)]
pub struct AlbumSummary {
    /// Unique album identifier
    pub id: u64,
    /// Album title
    pub title: String,
    /// Album cover image identifier
    pub cover: Option<String>,
    /// Album release date
    pub release_date: Option<String>,
    /// Dominant color extracted from the cover art
    pub vibrant_color: Option<String>,
    /// Video cover identifier (if available)
    pub video_cover: Option<String>,
}

/// A track in the user's favorites, with the time it was added.
#[derive(Clone, Debug)]
pub struct FavoriteTrack {
    /// ISO timestamp when the track was added to favorites
    pub created: String,
    /// The track data
    pub item: Track,
}

/// Streaming information for a track: the time-limited signed URLs and the
/// codec and security metadata that go with them.
#[derive(Clone, Debug)]
pub struct TrackStream {
    /// Asset presentation format
    pub asset_presentation: String,
    /// Audio mode (e.g., "STEREO", "SURROUND")
    pub audio_mode: String,
    /// Audio quality level
    pub audio_quality: AudioQuality,
    /// Audio codec used for streaming
    pub codec: String,
    /// Security token for accessing the stream
    pub security_token: Option<String>,
    /// Type of security applied to the stream
    pub security_type: Option<String>,
    /// Session ID for the streaming session
    pub streaming_session_id: Option<String>,
    /// Track identifier
    pub track_id: u64,
    /// Streaming URLs; the primary URL is the first
    pub urls: Vec<String>,
}

impl TrackStream {
    /// The primary streaming URL: the first of the URL list, when the list
    /// is not empty.
    pub fn primary_url(&self) -> (r: Option<&str>)
        ensures
            r is Some <==> self.urls@.len() > 0,
            r matches Some(u) ==> u@ == self.urls@[0]@,
    {
        if self.urls.len() > 0 {
            Some(self.urls[0].as_str())
        } else {
            None
        }
    }
}

/// The bytes a standard-alphabet base64 reading of `s` denotes, when `s` is
/// valid base64.
pub uninterp spec fn spec_base64_decoded(s: Seq<char>) -> Option<Seq<u8>>;

/// Relies on base64's general_purpose::STANDARD engine: decodes standard
/// base64 with padding; the result depends on the input alone.
#[verifier::external_body]
fn base64_decode(s: &str) -> (r: Result<Vec<u8>, String>)
    ensures
        r is Ok <==> spec_base64_decoded(s@) is Some,
        r matches Ok(v) ==> spec_base64_decoded(s@) == Some(v@),
{
    base64::engine::general_purpose::STANDARD.decode(s.as_bytes()).map_err(|e| e.to_string())
}

/// The characters a UTF-8 reading of `b` denotes, when `b` is valid UTF-8.
pub uninterp spec fn spec_utf8_decoded(b: Seq<u8>) -> Option<Seq<char>>;

/// Relies on String::from_utf8: decodes the bytes as UTF-8; the result
/// depends on the input alone.
#[verifier::external_body]
fn utf8_string(b: Vec<u8>) -> (r: Result<String, String>)
    ensures
        r is Ok <==> spec_utf8_decoded(b@) is Some,
        r matches Ok(s) ==> spec_utf8_decoded(b@) == Some(s@),
{
    String::from_utf8(b).map_err(|e| e.to_string())
}

/// Decode a base64-encoded playback manifest into its text, which may be
/// XML or JSON. The error message says what failed: the base64 reading or
/// the UTF-8 reading.
pub fn decode_manifest(manifest: &str) -> (r: Result<String, String>)
    ensures
        r is Ok <==> (spec_base64_decoded(manifest@) is Some && spec_utf8_decoded(
            spec_base64_decoded(manifest@).unwrap(),
        ) is Some),
        r matches Ok(s) ==> spec_utf8_decoded(spec_base64_decoded(manifest@).unwrap()) == Some(
            s@,
        ),
{
    let decoded = base64_decode(manifest)?;
    utf8_string(decoded)
}

/// The call that resolves a track's streaming URLs at the given quality.
pub fn track_stream_plan(track_id: u64, audio_quality: AudioQuality) -> (p: RequestPlan)
    ensures
        p.method == HttpMethod::Get,
        p.url@ == spec_api_base_url() + "/tracks/"@ + spec_digits(track_id as nat)
            + "/urlpostpaywall"@,
        p.params matches Some(ps) && spec_pairs(ps@) == seq![
            ("audioquality"@, spec_audio_quality_str(audio_quality)),
            ("urlusagemode"@, "STREAM"@),
            ("assetpresentation"@, "FULL"@),
        ],
        p.etag is None,
{
    let mut url = String::from_str(api_base_url());
    url.append("/tracks/");
    url.append(u64_string(track_id).as_str());
    url.append("/urlpostpaywall");
    proof {
        assert(url@ =~= spec_api_base_url() + "/tracks/"@ + spec_digits(track_id as nat)
            + "/urlpostpaywall"@);
    }
    let mut params: Vec<(String, String)> = Vec::new();
    push_pair(&mut params, "audioquality", String::from_str(audio_quality.as_str()));
    push_pair(&mut params, "urlusagemode", String::from_str("STREAM"));
    push_pair(&mut params, "assetpresentation", String::from_str("FULL"));
    proof {
        assert(spec_pairs(params@) =~= seq![
            ("audioquality"@, spec_audio_quality_str(audio_quality)),
            ("urlusagemode"@, "STREAM"@),
            ("assetpresentation"@, "FULL"@),
        ]);
    }
    RequestPlan { method: HttpMethod::Get, url, params: Some(params), etag: None }
}

/// The call that fetches one track by id.
pub fn track_plan(ctx: &RequestContext, track_id: u64) -> (p: RequestPlan)
    ensures
        p.method == HttpMethod::Get,
        p.url@ == spec_api_base_url() + "/tracks/"@ + spec_digits(track_id as nat),
        p.params matches Some(ps) && spec_pairs(ps@) == spec_context_params(*ctx),
        p.etag is None,
{
    let mut url = String::from_str(api_base_url());
    url.append("/tracks/");
    url.append(u64_string(track_id).as_str());
    proof {
        assert(url@ =~= spec_api_base_url() + "/tracks/"@ + spec_digits(track_id as nat));
    }
    RequestPlan { method: HttpMethod::Get, url, params: Some(context_params(ctx)), etag: None }
}

/// The call that lists recommendations for a track. Offset defaults to 0,
/// limit to 5.
pub fn track_recommendations_plan(
    ctx: &RequestContext,
    track_id: u64,
    offset: Option<u32>,
    limit: Option<u32>,
) -> (p: RequestPlan)
    ensures
        p.method == HttpMethod::Get,
        p.url@ == spec_api_base_url() + "/tracks/"@ + spec_digits(track_id as nat)
            + "/recommendations"@,
        p.params matches Some(ps) && spec_pairs(ps@) == spec_paged_params(
            spec_u32_or(offset, 0),
            spec_u32_or(limit, 5),
            *ctx,
        ),
        p.etag is None,
{
    let mut url = String::from_str(api_base_url());
    url.append("/tracks/");
    url.append(u64_string(track_id).as_str());
    url.append("/recommendations");
    proof {
        assert(url@ =~= spec_api_base_url() + "/tracks/"@ + spec_digits(track_id as nat)
            + "/recommendations"@);
    }
    let params = paged_params(ctx, u32_or(offset, 0), u32_or(limit, 5));
    RequestPlan { method: HttpMethod::Get, url, params: Some(params), etag: None }
}

/// The call that fetches technical playback information for a track.
pub fn track_playback_info_plan(track_id: u64, audio_quality: AudioQuality) -> (p: RequestPlan)
    ensures
        p.method == HttpMethod::Get,
        p.url@ == spec_api_base_url() + "/tracks/"@ + spec_digits(track_id as nat)
            + "/playbackinfo"@,
        p.params matches Some(ps) && spec_pairs(ps@) == seq![
            ("audioquality"@, spec_audio_quality_str(audio_quality)),
            ("playbackmode"@, "STREAM"@),
            ("assetpresentation"@, "FULL"@),
        ],
        p.etag is None,
{
    let mut url = String::from_str(api_base_url());
    url.append("/tracks/");
    url.append(u64_string(track_id).as_str());
    url.append("/playbackinfo");
    proof {
        assert(url@ =~= spec_api_base_url() + "/tracks/"@ + spec_digits(track_id as nat)
            + "/playbackinfo"@);
    }
    let mut params: Vec<(String, String)> = Vec::new();
    push_pair(&mut params, "audioquality", String::from_str(audio_quality.as_str()));
    push_pair(&mut params, "playbackmode", String::from_str("STREAM"));
    push_pair(&mut params, "assetpresentation", String::from_str("FULL"));
    proof {
        assert(spec_pairs(params@) =~= seq![
            ("audioquality"@, spec_audio_quality_str(audio_quality)),
            ("playbackmode"@, "STREAM"@),
            ("assetpresentation"@, "FULL"@),
        ]);
    }
    RequestPlan { method: HttpMethod::Get, url, params: Some(params), etag: None }
}

/// The call that fetches DASH playback information for a track.
pub fn track_dash_playback_info_plan(
    ctx: &RequestContext,
    track_id: u64,
    audio_quality: AudioQuality,
) -> (p: RequestPlan)
    ensures
        p.method == HttpMethod::Get,
        p.url@ == spec_api_base_url() + "/tracks/"@ + spec_digits(track_id as nat)
            + "/playbackinfopostpaywall"@,
        p.params matches Some(ps) && spec_pairs(ps@) == seq![
            ("audioquality"@, spec_audio_quality_str(audio_quality)),
            ("playbackmode"@, "STREAM"@),
            ("assetpresentation"@, "FULL"@),
            ("countryCode"@, ctx.country_code@),
        ],
        p.etag is None,
{
    let mut url = String::from_str(api_base_url());
    url.append("/tracks/");
    url.append(u64_string(track_id).as_str());
    url.append("/playbackinfopostpaywall");
    proof {
        assert(url@ =~= spec_api_base_url() + "/tracks/"@ + spec_digits(track_id as nat)
            + "/playbackinfopostpaywall"@);
    }
    let mut params: Vec<(String, String)> = Vec::new();
    push_pair(&mut params, "audioquality", String::from_str(audio_quality.as_str()));
    push_pair(&mut params, "playbackmode", String::from_str("STREAM"));
    push_pair(&mut params, "assetpresentation", String::from_str("FULL"));
    push_pair(&mut params, "countryCode", ctx.country_code.clone());
    proof {
        assert(spec_pairs(params@) =~= seq![
            ("audioquality"@, spec_audio_quality_str(audio_quality)),
            ("playbackmode"@, "STREAM"@),
            ("assetpresentation"@, "FULL"@),
            ("countryCode"@, ctx.country_code@),
        ]);
    }
    RequestPlan { method: HttpMethod::Get, url, params: Some(params), etag: None }
}

/// The call that lists the authenticated user's favorite tracks; it needs a
/// known user, and fails fast with `UserAuthenticationRequired` without
/// one. Offset defaults to 0, limit to 100, the ordering to date
/// descending.
pub fn favorite_tracks_plan(
    ctx: &RequestContext,
    offset: Option<u32>,
    limit: Option<u32>,
    order: Option<Order>,
    order_direction: Option<OrderDirection>,
) -> (r: Result<RequestPlan, Error>)
    ensures
        r is Err <==> ctx.user_id is None,
        r matches Err(e) ==> e is UserAuthenticationRequired,
        r matches Ok(p) ==> {
            &&& p.method == HttpMethod::Get
            &&& p.url@ == spec_api_base_url() + "/users/"@ + spec_digits(
                ctx.user_id.unwrap() as nat,
            ) + "/favorites/tracks"@
            &&& p.params matches Some(ps) && spec_pairs(ps@) == spec_favorites_params(
                spec_u32_or(offset, 0),
                spec_u32_or(limit, 100),
                match order {
                    Some(o) => o,
                    None => Order::Date,
                },
                match order_direction {
                    Some(d) => d,
                    None => OrderDirection::Desc,
                },
                *ctx,
            )
            &&& p.etag is None
        },
{
    let user_id = match ctx.user_id {
        Some(uid) => uid,
        None => {
            return Err(Error::UserAuthenticationRequired);
        },
    };
    let mut url = String::from_str(api_base_url());
    url.append("/users/");
    url.append(u64_string(user_id).as_str());
    url.append("/favorites/tracks");
    proof {
        assert(url@ =~= spec_api_base_url() + "/users/"@ + spec_digits(user_id as nat)
            + "/favorites/tracks"@);
    }
    let order = match order {
        Some(o) => o,
        None => Order::Date,
    };
    let direction = match order_direction {
        Some(d) => d,
        None => OrderDirection::Desc,
    };
    let params = favorites_params(ctx, u32_or(offset, 0), u32_or(limit, 100), order, direction);
    Ok(RequestPlan { method: HttpMethod::Get, url, params: Some(params), etag: None })
}

/// The call that adds a track to the authenticated user's favorites; it
/// needs a known user.
pub fn add_favorite_track_plan(ctx: &RequestContext, track_id: u64) -> (r: Result<
    RequestPlan,
    Error,
>)
    ensures
        r is Err <==> ctx.user_id is None,
        r matches Err(e) ==> e is UserAuthenticationRequired,
        r matches Ok(p) ==> {
            &&& p.method == HttpMethod::Post
            &&& p.url@ == spec_api_base_url() + "/users/"@ + spec_digits(
                ctx.user_id.unwrap() as nat,
            ) + "/favorites/tracks"@
            &&& p.params matches Some(ps) && spec_pairs(ps@) == seq![
                ("trackId"@, spec_digits(track_id as nat)),
            ] + spec_context_params(*ctx)
            &&& p.etag is None
        },
{
    let user_id = match ctx.user_id {
        Some(uid) => uid,
        None => {
            return Err(Error::UserAuthenticationRequired);
        },
    };
    let mut url = String::from_str(api_base_url());
    url.append("/users/");
    url.append(u64_string(user_id).as_str());
    url.append("/favorites/tracks");
    proof {
        assert(url@ =~= spec_api_base_url() + "/users/"@ + spec_digits(user_id as nat)
            + "/favorites/tracks"@);
    }
    let mut params: Vec<(String, String)> = Vec::new();
    push_pair(&mut params, "trackId", u64_string(track_id));
    let params = append_pairs(params, context_params(ctx));
    proof {
        assert(spec_pairs(params@) =~= seq![("trackId"@, spec_digits(track_id as nat))]
            + spec_context_params(*ctx));
    }
    Ok(RequestPlan { method: HttpMethod::Post, url, params: Some(params), etag: None })
}

/// The call that removes a track from the authenticated user's favorites;
/// it needs a known user.
pub fn remove_favorite_track_plan(ctx: &RequestContext, track_id: u64) -> (r: Result<
    RequestPlan,
    Error,
>)
    ensures
        r is Err <==> ctx.user_id is None,
        r matches Err(e) ==> e is UserAuthenticationRequired,
        r matches Ok(p) ==> {
            &&& p.method == HttpMethod::Delete
            &&& p.url@ == spec_api_base_url() + "/users/"@ + spec_digits(
                ctx.user_id.unwrap() as nat,
            ) + "/favorites/tracks/"@ + spec_digits(track_id as nat)
            &&& p.params matches Some(ps) && spec_pairs(ps@) == spec_context_params(*ctx)
            &&& p.etag is None
        },
{
    let user_id = match ctx.user_id {
        Some(uid) => uid,
        None => {
            return Err(Error::UserAuthenticationRequired);
        },
    };
    let mut url = String::from_str(api_base_url());
    url.append("/users/");
    url.append(u64_string(user_id).as_str());
    url.append("/favorites/tracks/");
    url.append(u64_string(track_id).as_str());
    proof {
        assert(url@ =~= spec_api_base_url() + "/users/"@ + spec_digits(user_id as nat)
            + "/favorites/tracks/"@ + spec_digits(track_id as nat));
    }
    Ok(
        RequestPlan {
            method: HttpMethod::Delete,
            url,
            params: Some(context_params(ctx)),
            etag: None,
        },
    )
}

} // verus!
