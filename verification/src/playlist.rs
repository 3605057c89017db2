//! Playlists: catalog data shapes, the plans of the playlist endpoints, and
//! the paged search that removing a track by id performs.

use vstd::prelude::*;
use crate::artist::ArtistSummary;
use crate::client::{
    RequestContext, spec_context_params, spec_paged_params, spec_u32_or, context_params,
    paged_params, u32_or,
};
use crate::error::Error;
use crate::request::{
    HttpMethod, RequestPlan, spec_api_base_url, spec_pairs, api_base_url, push_pair, append_pairs,
};
use crate::text::{spec_digits, spec_image_url, image_resource_url, u64_string, usize_string};
use crate::track::Track;
use crate::types::{List, spec_num_left};

verus! {

/// A playlist from the catalog.
#[derive(Clone, Debug)]
pub struct Playlist {
    /// Unique playlist identifier (UUID format)
    pub uuid: String,
    /// Playlist title
    pub title: String,
    /// Vendor URL for the playlist
    pub url: String,
    /// Information about the playlist creator
    pub creator: PlaylistCreator,
    /// Playlist description
    pub description: String,
    /// Total number of tracks in the playlist
    pub number_of_tracks: u32,
    /// Total number of videos in the playlist
    pub number_of_videos: u32,
    /// Total duration of the playlist in seconds
    pub duration: u32,
    /// Popularity score for the playlist
    pub popularity: u32,
    /// ISO timestamp when the playlist was last updated
    pub last_updated: String,
    /// ISO timestamp when the playlist was created
    pub created: String,
    /// ISO timestamp when the last item was added to the playlist
    pub last_item_added_at: Option<String>,
    /// Type of playlist (e.g., "USER", "EDITORIAL")
    pub playlist_type: Option<String>,
    /// Whether the playlist is publicly visible
    pub public_playlist: bool,
    /// Playlist cover image identifier; see `image_url`
    pub image: Option<String>,
    /// Square cover image identifier; see `square_image_url`
    pub square_image: Option<String>,
    /// Custom image URL for the playlist
    pub custom_image_url: Option<String>,
    /// Artists promoted in this playlist
    pub promoted_artists: Option<Vec<ArtistSummary>>,
    /// Concurrency-control token needed to modify the playlist
    pub etag: Option<String>,
}

/// Information about the creator of a playlist.
#[derive(Clone, Debug)]
pub struct PlaylistCreator {
    /// The user ID of the playlist creator; `None` or zero when the creator
    /// is not a known user
    pub id: Option<u64>,
}

impl Playlist {
    /// The URL of the playlist cover at the given dimensions, or `None`
    /// when no image is set.
    pub fn image_url(&self, height: u16, width: u16) -> (r: Option<String>)
        ensures
            r is Some <==> self.image is Some,
            self.image matches Some(img) ==> r matches Some(u) && u@ == spec_image_url(
                img@,
                height as nat,
                width as nat,
            ),
    {
        match &self.image {
            Some(image) => Some(image_resource_url(image.as_str(), height, width)),
            None => None,
        }
    }

    /// The URL of the square playlist cover at the given size, or `None`
    /// when no square image is set.
    pub fn square_image_url(&self, size: u16) -> (r: Option<String>)
        ensures
            r is Some <==> self.square_image is Some,
            self.square_image matches Some(img) ==> r matches Some(u) && u@ == spec_image_url(
                img@,
                size as nat,
                size as nat,
            ),
    {
        match &self.square_image {
            Some(image) => Some(image_resource_url(image.as_str(), size, size)),
            None => None,
        }
    }
}

/// The call that fetches one playlist by its UUID.
pub fn playlist_plan(ctx: &RequestContext, playlist_id: &str) -> (p: RequestPlan)
    ensures
        p.method == HttpMethod::Get,
        p.url@ == spec_api_base_url() + "/playlists/"@ + playlist_id@,
        p.params matches Some(ps) && spec_pairs(ps@) == spec_context_params(*ctx),
        p.etag is None,
{
    let mut url = String::from_str(api_base_url());
    url.append("/playlists/");
    url.append(playlist_id);
    proof {
        assert(url@ =~= spec_api_base_url() + "/playlists/"@ + playlist_id@);
    }
    RequestPlan { method: HttpMethod::Get, url, params: Some(context_params(ctx)), etag: None }
}

/// The call that lists a playlist's tracks. Offset defaults to 0, limit to
/// 100.
pub fn playlist_tracks_plan(
    ctx: &RequestContext,
    playlist_id: &str,
    offset: Option<u32>,
    limit: Option<u32>,
) -> (p: RequestPlan)
    ensures
        p.method == HttpMethod::Get,
        p.url@ == spec_api_base_url() + "/playlists/"@ + playlist_id@ + "/tracks"@,
        p.params matches Some(ps) && spec_pairs(ps@) == spec_paged_params(
            spec_u32_or(offset, 0),
            spec_u32_or(limit, 100),
            *ctx,
        ),
        p.etag is None,
{
    let mut url = String::from_str(api_base_url());
    url.append("/playlists/");
    url.append(playlist_id);
    url.append("/tracks");
    proof {
        assert(url@ =~= spec_api_base_url() + "/playlists/"@ + playlist_id@ + "/tracks"@);
    }
    let params = paged_params(ctx, u32_or(offset, 0), u32_or(limit, 100));
    RequestPlan { method: HttpMethod::Get, url, params: Some(params), etag: None }
}

/// The call that creates a playlist for the authenticated user; it needs a
/// known user, and fails fast with `UserAuthenticationRequired` without
/// one.
pub fn create_playlist_plan(ctx: &RequestContext, title: &str, description: &str) -> (r: Result<
    RequestPlan,
    Error,
>)
    ensures
        r is Err <==> ctx.user_id is None,
        r matches Err(e) ==> e is UserAuthenticationRequired,
        r matches Ok(p) ==> {
            &&& p.method == HttpMethod::Post
            &&& p.url@ == spec_api_base_url() + "/users/"@ + spec_digits(
                ctx.user_id.unwrap() as nat,
            ) + "/playlists"@
            &&& p.params matches Some(ps) && spec_pairs(ps@) == seq![
                ("title"@, title@),
                ("description"@, description@),
            ] + spec_context_params(*ctx)
            &&& p.etag is None
        },
{
    let user_id = match ctx.user_id {
        Some(uid) => uid,
        None => {
            return Err(Error::UserAuthenticationRequired);
        },
    };
    let mut url = String::from_str(api_base_url());
    url.append("/users/");
    url.append(u64_string(user_id).as_str());
    url.append("/playlists");
    proof {
        assert(url@ =~= spec_api_base_url() + "/users/"@ + spec_digits(user_id as nat)
            + "/playlists"@);
    }
    let mut params: Vec<(String, String)> = Vec::new();
    push_pair(&mut params, "title", String::from_str(title));
    push_pair(&mut params, "description", String::from_str(description));
    let params = append_pairs(params, context_params(ctx));
    proof {
        assert(spec_pairs(params@) =~= seq![("title"@, title@), ("description"@, description@)]
            + spec_context_params(*ctx));
    }
    Ok(RequestPlan { method: HttpMethod::Post, url, params: Some(params), etag: None })
}

/// The comma-separated rendering of a list of track ids.
pub open spec fn spec_joined_ids(ids: Seq<u64>) -> Seq<char>
    decreases ids.len(),
{
    if ids.len() == 0 {
        Seq::<char>::empty()
    } else if ids.len() == 1 {
        spec_digits(ids[0] as nat)
    } else {
        spec_joined_ids(ids.drop_last()) + ","@ + spec_digits(ids.last() as nat)
    }
}

/// Render a list of track ids as a comma-separated string.
pub fn join_ids(ids: &Vec<u64>) -> (s: String)
    ensures
        s@ == spec_joined_ids(ids@),
{
    let mut s = String::new();
    let mut i: usize = 0;
    proof {
        assert(ids@.take(0) =~= Seq::<u64>::empty());
    }
    while i < ids.len()
        invariant
            i <= ids@.len(),
            s@ == spec_joined_ids(ids@.take(i as int)),
        decreases ids@.len() - i,
    {
        if i > 0 {
            s.append(",");
        }
        s.append(u64_string(ids[i]).as_str());
        proof {
            let taken = ids@.take(i + 1);
            assert(taken.drop_last() =~= ids@.take(i as int));
            assert(taken.last() == ids@[i as int]);
            assert(s@ =~= spec_joined_ids(taken));
        }
        i += 1;
    }
    proof {
        assert(ids@.take(ids@.len() as int) =~= ids@);
    }
    s
}

/// The call that adds tracks to a playlist under its concurrency token; the
/// ids are joined into one comma-separated parameter, and `add_dupes`
/// chooses whether duplicates are added or make the call fail.
pub fn add_tracks_to_playlist_plan(
    ctx: &RequestContext,
    playlist_id: &str,
    playlist_etag: &str,
    track_ids: &Vec<u64>,
    add_dupes: bool,
) -> (p: RequestPlan)
    ensures
        p.method == HttpMethod::Post,
        p.url@ == spec_api_base_url() + "/playlists/"@ + playlist_id@ + "/items"@,
        p.params matches Some(ps) && spec_pairs(ps@) == seq![
            ("trackIds"@, spec_joined_ids(track_ids@)),
            ("onDupes"@, if add_dupes { "ADD"@ } else { "FAIL"@ }),
        ] + spec_context_params(*ctx),
        p.etag matches Some(t) && t@ == playlist_etag@,
{
    let mut url = String::from_str(api_base_url());
    url.append("/playlists/");
    url.append(playlist_id);
    url.append("/items");
    proof {
        assert(url@ =~= spec_api_base_url() + "/playlists/"@ + playlist_id@ + "/items"@);
    }
    let on_dupes = if add_dupes {
        "ADD"
    } else {
        "FAIL"
    };
    let mut params: Vec<(String, String)> = Vec::new();
    push_pair(&mut params, "trackIds", join_ids(track_ids));
    push_pair(&mut params, "onDupes", String::from_str(on_dupes));
    let params = append_pairs(params, context_params(ctx));
    proof {
        assert(spec_pairs(params@) =~= seq![
            ("trackIds"@, spec_joined_ids(track_ids@)),
            ("onDupes"@, if add_dupes { "ADD"@ } else { "FAIL"@ }),
        ] + spec_context_params(*ctx));
    }
    RequestPlan {
        method: HttpMethod::Post,
        url,
        params: Some(params),
        etag: Some(String::from_str(playlist_etag)),
    }
}

/// The call that removes the track at one index of a playlist, under the
/// playlist's concurrency token.
pub fn remove_track_from_playlist_by_index_plan(
    playlist_id: &str,
    playlist_etag: &str,
    index: usize,
) -> (p: RequestPlan)
    ensures
        p.method == HttpMethod::Delete,
        p.url@ == spec_api_base_url() + "/playlists/"@ + playlist_id@ + "/items/"@ + spec_digits(
            index as nat,
        ),
        p.params is None,
        p.etag matches Some(t) && t@ == playlist_etag@,
{
    let mut url = String::from_str(api_base_url());
    url.append("/playlists/");
    url.append(playlist_id);
    url.append("/items/");
    url.append(usize_string(index).as_str());
    proof {
        assert(url@ =~= spec_api_base_url() + "/playlists/"@ + playlist_id@ + "/items/"@
            + spec_digits(index as nat));
    }
    RequestPlan {
        method: HttpMethod::Delete,
        url,
        params: None,
        etag: Some(String::from_str(playlist_etag)),
    }
}

/// What one page tells the remove-by-id search to do next.
#[derive(Clone, Copy, Debug, PartialEq, Eq, Structural)]
pub enum RemoveScan {
    /// The target was found: remove at this playlist-global index — the
    /// page's offset plus the position within the page.
    RemoveAt(usize),
    /// The target is not on this page and items remain: fetch the page at
    /// this offset.
    Continue(u32),
    /// The target is not on this page and no items remain: the track is not
    /// on the playlist.
    NotFound,
}

/// Scan one fetched page for the target track. The page was fetched at
/// `offset`, so the target's first occurrence at page position `i` names
/// the playlist-global index `offset + i` for the by-index removal. A page
/// without the target either continues at the offset just past this page
/// or, when the remaining count has reached zero, reports the track as
/// absent.
pub fn scan_page_for_track(page: &List<Track>, track_id: u64, offset: u32) -> (r: RemoveScan)
    requires
        offset + page.items@.len() <= u32::MAX,
    ensures
        r matches RemoveScan::RemoveAt(i) ==> {
            &&& offset <= i < offset + page.items@.len()
            &&& page.items@[i - offset as int].id == track_id
            &&& forall|j: int|
                0 <= j < i - offset ==> (#[trigger] page.items@[j]).id != track_id
        },
        (exists|j: int|
            0 <= j < page.items@.len() && (#[trigger] page.items@[j]).id == track_id)
            <==> r is RemoveAt,
        !(r is RemoveAt) && spec_num_left(
            page.total as nat,
            page.offset as nat,
            page.items@.len(),
        ) == 0 ==> r is NotFound,
        !(r is RemoveAt) && spec_num_left(
            page.total as nat,
            page.offset as nat,
            page.items@.len(),
        ) > 0 ==> r == RemoveScan::Continue((offset + page.items@.len()) as u32),
{
    let mut i: usize = 0;
    while i < page.items.len()
        invariant
            i <= page.items@.len(),
            offset + page.items@.len() <= u32::MAX,
            forall|j: int| 0 <= j < i ==> (#[trigger] page.items@[j]).id != track_id,
        decreases page.items@.len() - i,
    {
        if page.items[i].id == track_id {
            return RemoveScan::RemoveAt(offset as usize + i);
        }
        i += 1;
    }
    if page.num_left() == 0 {
        RemoveScan::NotFound
    } else {
        RemoveScan::Continue(offset + page.items.len() as u32)
    }
}

/// The call that lists the authenticated user's playlists; it needs a known
/// user, and fails fast with `UserAuthenticationRequired` without one.
/// Offset defaults to 0, limit to 100.
pub fn user_playlists_plan(ctx: &RequestContext, offset: Option<u32>, limit: Option<u32>) -> (r:
    Result<RequestPlan, Error>)
    ensures
        r is Err <==> ctx.user_id is None,
        r matches Err(e) ==> e is UserAuthenticationRequired,
        r matches Ok(p) ==> {
            &&& p.method == HttpMethod::Get
            &&& p.url@ == spec_api_base_url() + "/users/"@ + spec_digits(
                ctx.user_id.unwrap() as nat,
            ) + "/playlists"@
            &&& p.params matches Some(ps) && spec_pairs(ps@) == spec_paged_params(
                spec_u32_or(offset, 0),
                spec_u32_or(limit, 100),
                *ctx,
            )
            &&& p.etag is None
        },
{
    let user_id = match ctx.user_id {
        Some(uid) => uid,
        None => {
            return Err(Error::UserAuthenticationRequired);
        },
    };
    let mut url = String::from_str(api_base_url());
    url.append("/users/");
    url.append(u64_string(user_id).as_str());
    url.append("/playlists");
    proof {
        assert(url@ =~= spec_api_base_url() + "/users/"@ + spec_digits(user_id as nat)
            + "/playlists"@);
    }
    let params = paged_params(ctx, u32_or(offset, 0), u32_or(limit, 100));
    Ok(RequestPlan { method: HttpMethod::Get, url, params: Some(params), etag: None })
}

/// The call that lists recommended tracks for a playlist. Offset defaults
/// to 0, limit to 50.
pub fn playlist_recommendations_plan(
    ctx: &RequestContext,
    playlist_id: &str,
    offset: Option<u32>,
    limit: Option<u32>,
) -> (p: RequestPlan)
    ensures
        p.method == HttpMethod::Get,
        p.url@ == spec_api_base_url() + "/playlists/"@ + playlist_id@ + "/recommendations/items"@,
        p.params matches Some(ps) && spec_pairs(ps@) == spec_paged_params(
            spec_u32_or(offset, 0),
            spec_u32_or(limit, 50),
            *ctx,
        ),
        p.etag is None,
{
    let mut url = String::from_str(api_base_url());
    url.append("/playlists/");
    url.append(playlist_id);
    url.append("/recommendations/items");
    proof {
        assert(url@ =~= spec_api_base_url() + "/playlists/"@ + playlist_id@
            + "/recommendations/items"@);
    }
    let params = paged_params(ctx, u32_or(offset, 0), u32_or(limit, 50));
    RequestPlan { method: HttpMethod::Get, url, params: Some(params), etag: None }
}

} // verus!
