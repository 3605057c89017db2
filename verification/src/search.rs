//! Search: the query shape, the mixed-content result shapes, and the plan
//! of the search endpoint.

use vstd::prelude::*;
use crate::album::Album;
use crate::artist::Artist;
use crate::client::RequestContext;
use crate::json::json_field_text;
use crate::playlist::Playlist;
use crate::request::{
    HttpMethod, RequestPlan, spec_api_base_url, spec_pairs, api_base_url, push_pair,
};
use crate::text::{spec_digits, u32_string, u64_string};
use crate::track::Track;
use crate::types::{List, ResourceType, spec_device_type_str};

verus! {

/// A search query: the query string and its filtering and pagination
/// options.
#[derive(Clone, Debug)]
pub struct SearchQuery<'a> {
    /// The search query string
    pub query: &'a str,
    /// Number of results to skip (for pagination)
    pub offset: Option<u32>,
    /// Maximum number of results to return
    pub limit: Option<u32>,
    /// Whether to include contribution information in results
    pub include_contributions: Option<bool>,
    /// Whether to include "did you mean" suggestions
    pub include_did_you_mean: Option<bool>,
    /// Whether to include user-created playlists in results
    pub include_user_playlists: Option<bool>,
    /// Whether the search supports user-specific data
    pub supports_user_data: Option<bool>,
    /// Types of content to search for
    pub search_types: Option<Vec<ResourceType>>,
}

impl<'a> SearchQuery<'a> {
    /// A query for the given search string, with every option unset.
    pub fn new(query: &'a str) -> (q: SearchQuery<'a>)
        ensures
            q.query@ == query@,
            q.offset is None,
            q.limit is None,
            q.include_contributions is None,
            q.include_did_you_mean is None,
            q.include_user_playlists is None,
            q.supports_user_data is None,
            q.search_types is None,
    {
        SearchQuery {
            query,
            offset: None,
            limit: None,
            include_contributions: None,
            include_did_you_mean: None,
            include_user_playlists: None,
            supports_user_data: None,
            search_types: None,
        }
    }
}

/// The plural wire spelling of a resource type, as the search filter wants
/// it.
pub open spec fn spec_plural_type_str(t: ResourceType) -> Seq<char> {
    match t {
        ResourceType::Artist => "ARTISTS"@,
        ResourceType::Album => "ALBUMS"@,
        ResourceType::Track => "TRACKS"@,
        ResourceType::Video => "VIDEOS"@,
        ResourceType::Playlist => "PLAYLISTS"@,
        ResourceType::UserProfile => "USER_PROFILES"@,
    }
}

fn plural_type_str(t: ResourceType) -> (s: &'static str)
    ensures
        s@ == spec_plural_type_str(t),
{
    match t {
        ResourceType::Artist => "ARTISTS",
        ResourceType::Album => "ALBUMS",
        ResourceType::Track => "TRACKS",
        ResourceType::Video => "VIDEOS",
        ResourceType::Playlist => "PLAYLISTS",
        ResourceType::UserProfile => "USER_PROFILES",
    }
}

/// The comma-separated search filter for a list of resource types.
pub open spec fn spec_types_string(ts: Seq<ResourceType>) -> Seq<char>
    decreases ts.len(),
{
    if ts.len() == 0 {
        Seq::<char>::empty()
    } else if ts.len() == 1 {
        spec_plural_type_str(ts[0])
    } else {
        spec_types_string(ts.drop_last()) + ","@ + spec_plural_type_str(ts.last())
    }
}

/// The search filter a query sends: the joined requested types, or the
/// default set.
pub open spec fn spec_search_types(ts: Option<Vec<ResourceType>>) -> Seq<char> {
    match ts {
        Some(ts) => spec_types_string(ts@),
        None => "ARTISTS,ALBUMS,TRACKS,PLAYLISTS"@,
    }
}

/// Render a list of resource types as the comma-separated search filter.
pub fn types_string(ts: &Vec<ResourceType>) -> (s: String)
    ensures
        s@ == spec_types_string(ts@),
{
    let mut s = String::new();
    let mut i: usize = 0;
    proof {
        assert(ts@.take(0) =~= Seq::<ResourceType>::empty());
    }
    while i < ts.len()
        invariant
            i <= ts@.len(),
            s@ == spec_types_string(ts@.take(i as int)),
        decreases ts@.len() - i,
    {
        if i > 0 {
            s.append(",");
        }
        s.append(plural_type_str(ts[i]));
        proof {
            let taken = ts@.take(i + 1);
            assert(taken.drop_last() =~= ts@.take(i as int));
            assert(taken.last() == ts@[i as int]);
            assert(s@ =~= spec_types_string(taken));
        }
        i += 1;
    }
    proof {
        assert(ts@.take(ts@.len() as int) =~= ts@);
    }
    s
}

/// The wire spelling of a boolean query parameter.
pub open spec fn spec_bool_str(b: bool) -> Seq<char> {
    if b {
        "true"@
    } else {
        "false"@
    }
}

fn bool_string(b: bool) -> (s: &'static str)
    ensures
        s@ == spec_bool_str(b),
{
    if b {
        "true"
    } else {
        "false"
    }
}

/// The required parameters every search sends: the query, the type filter,
/// and the three context parameters.
pub open spec fn spec_search_base_params(
    query: Seq<char>,
    ts: Option<Vec<ResourceType>>,
    ctx: RequestContext,
) -> Seq<(Seq<char>, Seq<char>)> {
    seq![
        ("query"@, query),
        ("types"@, spec_search_types(ts)),
        ("countryCode"@, ctx.country_code@),
        ("locale"@, ctx.locale@),
        ("deviceType"@, spec_device_type_str(ctx.device_type)),
    ]
}

/// The optional parameters a search appends, in a fixed order, each only
/// when the query sets it.
pub open spec fn spec_search_option_params(q: SearchQuery) -> Seq<(Seq<char>, Seq<char>)> {
    let with_offset = match q.offset {
        Some(o) => seq![("offset"@, spec_digits(o as nat))],
        None => Seq::<(Seq<char>, Seq<char>)>::empty(),
    };
    let with_limit = match q.limit {
        Some(l) => with_offset.push(("limit"@, spec_digits(l as nat))),
        None => with_offset,
    };
    let with_contrib = match q.include_contributions {
        Some(b) => with_limit.push(("includeContributions"@, spec_bool_str(b))),
        None => with_limit,
    };
    let with_dym = match q.include_did_you_mean {
        Some(b) => with_contrib.push(("includeDidYouMean"@, spec_bool_str(b))),
        None => with_contrib,
    };
    let with_up = match q.include_user_playlists {
        Some(b) => with_dym.push(("includeUserPlaylists"@, spec_bool_str(b))),
        None => with_dym,
    };
    match q.supports_user_data {
        Some(b) => with_up.push(("supportsUserData"@, spec_bool_str(b))),
        None => with_up,
    }
}

/// The call that searches the catalog: the query and type filter, the
/// context parameters, and whichever options the query sets.
#[verifier::rlimit(100)]
#[verifier::spinoff_prover]
pub fn search_plan(ctx: &RequestContext, search: SearchQuery<'_>) -> (p: RequestPlan)
    ensures
        p.method == HttpMethod::Get,
        p.url@ == spec_api_base_url() + "/search/top-hits"@,
        p.params matches Some(ps) && spec_pairs(ps@) == spec_search_base_params(
            search.query@,
            search.search_types,
            *ctx,
        ) + spec_search_option_params(search),
        p.etag is None,
{
    let mut url = String::from_str(api_base_url());
    url.append("/search/top-hits");
    proof {
        assert(url@ =~= spec_api_base_url() + "/search/top-hits"@);
    }
    let types = match &search.search_types {
        Some(ts) => types_string(ts),
        None => String::from_str("ARTISTS,ALBUMS,TRACKS,PLAYLISTS"),
    };
    let mut params: Vec<(String, String)> = Vec::new();
    push_pair(&mut params, "query", String::from_str(search.query));
    push_pair(&mut params, "types", types);
    push_pair(&mut params, "countryCode", ctx.country_code.clone());
    push_pair(&mut params, "locale", ctx.locale.clone());
    push_pair(&mut params, "deviceType", String::from_str(ctx.device_type.as_str()));
    proof {
        assert(spec_pairs(params@) =~= spec_search_base_params(
            search.query@,
            search.search_types,
            *ctx,
        ));
    }
    if let Some(o) = search.offset {
        push_pair(&mut params, "offset", u32_string(o));
    }
    if let Some(l) = search.limit {
        push_pair(&mut params, "limit", u32_string(l));
    }
    if let Some(b) = search.include_contributions {
        push_pair(&mut params, "includeContributions", String::from_str(bool_string(b)));
    }
    if let Some(b) = search.include_did_you_mean {
        push_pair(&mut params, "includeDidYouMean", String::from_str(bool_string(b)));
    }
    if let Some(b) = search.include_user_playlists {
        push_pair(&mut params, "includeUserPlaylists", String::from_str(bool_string(b)));
    }
    if let Some(b) = search.supports_user_data {
        push_pair(&mut params, "supportsUserData", String::from_str(bool_string(b)));
    }
    proof {
        assert(spec_pairs(params@) =~= spec_search_base_params(
            search.query@,
            search.search_types,
            *ctx,
        ) + spec_search_option_params(search));
    }
    RequestPlan { method: HttpMethod::Get, url, params: Some(params), etag: None }
}

/// A unified resource that can stand for any catalog content, as mixed
/// search results carry it.
#[derive(Clone, Debug)]
pub enum Resource {
    /// Artist resource
    Artists(Artist),
    /// Album resource
    Albums(Album),
    /// Track resource
    Tracks(Track),
    /// Playlist resource
    Playlists(Playlist),
    /// Video resource, as a raw structured value
    Videos(serde_json::Value),
    /// User profile resource, as a raw structured value
    UserProfiles(serde_json::Value),
}

impl Resource {
    /// The resource's identifier, rendered as text: the decimal id of an
    /// artist, album or track, the UUID of a playlist, and the JSON text of
    /// the "id" field of a raw resource ("null" when it has none).
    pub fn id(&self) -> (r: String)
        ensures
            self matches Resource::Artists(a) ==> r@ == spec_digits(a.id as nat),
            self matches Resource::Albums(a) ==> r@ == spec_digits(a.id as nat),
            self matches Resource::Tracks(t) ==> r@ == spec_digits(t.id as nat),
            self matches Resource::Playlists(p) ==> r@ == p.uuid@,
            self matches Resource::Videos(v) ==> r@ == match crate::json::json_text_field(
                *v,
                "id"@,
            ) {
                Some(t) => t,
                None => "null"@,
            },
            self matches Resource::UserProfiles(v) ==> r@ == match crate::json::json_text_field(
                *v,
                "id"@,
            ) {
                Some(t) => t,
                None => "null"@,
            },
    {
        match self {
            Resource::Artists(artist) => u64_string(artist.id),
            Resource::Albums(album) => u64_string(album.id),
            Resource::Tracks(track) => u64_string(track.id),
            Resource::Playlists(playlist) => playlist.uuid.clone(),
            Resource::Videos(video) => match json_field_text(video, "id") {
                Some(t) => t,
                None => String::from_str("null"),
            },
            Resource::UserProfiles(profile) => match json_field_text(profile, "id") {
                Some(t) => t,
                None => String::from_str("null"),
            },
        }
    }
}

/// Results of one search, organized by content type, with the mixed top
/// hits last.
#[derive(Clone, Debug)]
pub struct SearchResults {
    /// Matching albums
    pub albums: List<Album>,
    /// Matching artists
    pub artists: List<Artist>,
    /// Matching tracks
    pub tracks: List<Track>,
    /// Matching playlists
    pub playlists: List<Playlist>,
    /// Matching user profiles, as raw structured values
    pub user_profiles: List<serde_json::Value>,
    /// Matching videos, as raw structured values
    pub videos: List<serde_json::Value>,
    /// Top hits across all content types
    pub top_hits: Vec<Resource>,
}

} // verus!
