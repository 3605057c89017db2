//! Artists: catalog data shapes and the plans of the artist endpoints.

use vstd::prelude::*;
use std::collections::HashMap;
use crate::album::AlbumType;
use crate::client::{
    RequestContext, spec_context_params, spec_paged_params, spec_favorites_params, context_params,
    paged_params, favorites_params, u32_or,
};
use crate::error::Error;
use crate::request::{
    HttpMethod, RequestPlan, spec_api_base_url, spec_pairs, api_base_url, push_pair, append_pairs,
};
use crate::album::spec_album_type_str;
use crate::text::{spec_digits, spec_image_url, image_resource_url, u64_string};
use crate::types::{Order, OrderDirection};

verus! {

/// An artist from the catalog.
#[derive(Clone, Debug)]
pub struct Artist {
    /// Unique artist identifier
    pub id: u64,
    /// Artist name
    pub name: String,
    /// Artist profile picture identifier; see `picture_url`
    pub picture: Option<String>,
    /// Vendor URL for the artist
    pub url: String,
    /// The user ID of the artist, `None` or zero if the artist is not a
    /// known user
    pub user_id: Option<u64>,
    /// Popularity score for the artist
    pub popularity: Option<u32>,
    /// Types/categories associated with the artist
    pub artist_types: Vec<String>,
    /// Roles the artist has in various contexts
    pub artist_roles: Vec<ArtistRole>,
    /// Fallback album cover to use when no artist picture is available
    pub selected_album_cover_fallback: Option<String>,
    /// Mix playlists associated with the artist
    pub mixes: HashMap<String, String>,
    /// Whether the artist is currently being spotlighted
    pub spotlighted: bool,
}

impl Artist {
    /// The URL of the artist's profile picture at the given dimensions,
    /// falling back to the selected album cover when no picture is set, and
    /// `None` when neither is available.
    pub fn picture_url(&self, height: u16, width: u16) -> (r: Option<String>)
        ensures
            r is Some <==> (self.picture is Some || self.selected_album_cover_fallback is Some),
            self.picture matches Some(p) ==> r matches Some(u) && u@ == spec_image_url(
                p@,
                height as nat,
                width as nat,
            ),
            (self.picture is None && self.selected_album_cover_fallback is Some) ==> (
            r matches Some(u) && u@ == spec_image_url(
                self.selected_album_cover_fallback.unwrap()@,
                height as nat,
                width as nat,
            )),
    {
        match &self.picture {
            Some(picture) => Some(image_resource_url(picture.as_str(), height, width)),
            None => match &self.selected_album_cover_fallback {
                Some(fallback) => Some(image_resource_url(fallback.as_str(), height, width)),
                None => None,
            },
        }
    }
}

/// An artist in the user's favorites, with the time it was added.
#[derive(Clone, Debug)]
pub struct FavoriteArtist {
    pub created: String,
    pub item: Artist,
}

/// A role or category an artist has (e.g. producer, songwriter).
#[derive(Clone, Debug)]
pub struct ArtistRole {
    /// Name of the role category
    pub category: String,
    /// Unique identifier for the role category
    pub category_id: i64,
}

/// The simplified artist shape used in album credits, track listings and
/// search results.
#[derive(Clone, Debug)]
pub struct ArtistSummary {
    /// Unique artist identifier
    pub id: u64,
    /// Artist name
    pub name: String,
    /// Artist profile picture identifier; see `picture_url`
    pub picture: Option<String>,
    /// Whether the artist has cover art available
    pub contains_cover: bool,
    /// Popularity score for the artist
    pub popularity: Option<u32>,
    /// Type/category of the artist
    pub artist_type: Option<String>,
}

impl ArtistSummary {
    /// The URL of the artist's profile picture at the given dimensions, or
    /// `None` when no picture is set.
    pub fn picture_url(&self, height: u16, width: u16) -> (r: Option<String>)
        ensures
            r is Some <==> self.picture is Some,
            self.picture matches Some(p) ==> r matches Some(u) && u@ == spec_image_url(
                p@,
                height as nat,
                width as nat,
            ),
    {
        match &self.picture {
            Some(picture) => Some(image_resource_url(picture.as_str(), height, width)),
            None => None,
        }
    }
}

/// The call that fetches one artist by id.
pub fn artist_plan(ctx: &RequestContext, artist_id: u64) -> (p: RequestPlan)
    ensures
        p.method == HttpMethod::Get,
        p.url@ == spec_api_base_url() + "/artists/"@ + spec_digits(artist_id as nat),
        p.params matches Some(ps) && spec_pairs(ps@) == spec_context_params(*ctx),
        p.etag is None,
{
    let mut url = String::from_str(api_base_url());
    url.append("/artists/");
    url.append(u64_string(artist_id).as_str());
    proof {
        assert(url@ =~= spec_api_base_url() + "/artists/"@ + spec_digits(artist_id as nat));
    }
    RequestPlan { method: HttpMethod::Get, url, params: Some(context_params(ctx)), etag: None }
}

/// The call that lists the authenticated user's favorite artists; it needs
/// a known user, and fails fast with `UserAuthenticationRequired` without
/// one. Offset defaults to 0, limit to 100, the ordering to date
/// descending.
pub fn favorite_artists_plan(
    ctx: &RequestContext,
    offset: Option<u32>,
    limit: Option<u32>,
    order: Option<Order>,
    order_direction: Option<OrderDirection>,
) -> (r: Result<RequestPlan, Error>)
    ensures
        r is Err <==> ctx.user_id is None,
        r matches Err(e) ==> e is UserAuthenticationRequired,
        r matches Ok(p) ==> {
            &&& p.method == HttpMethod::Get
            &&& p.url@ == spec_api_base_url() + "/users/"@ + spec_digits(
                ctx.user_id.unwrap() as nat,
            ) + "/favorites/artists"@
            &&& p.params matches Some(ps) && spec_pairs(ps@) == spec_favorites_params(
                crate::client::spec_u32_or(offset, 0),
                crate::client::spec_u32_or(limit, 100),
                match order {
                    Some(o) => o,
                    None => Order::Date,
                },
                match order_direction {
                    Some(d) => d,
                    None => OrderDirection::Desc,
                },
                *ctx,
            )
            &&& p.etag is None
        },
{
    let user_id = match ctx.user_id {
        Some(uid) => uid,
        None => {
            return Err(Error::UserAuthenticationRequired);
        },
    };
    let mut url = String::from_str(api_base_url());
    url.append("/users/");
    url.append(u64_string(user_id).as_str());
    url.append("/favorites/artists");
    proof {
        assert(url@ =~= spec_api_base_url() + "/users/"@ + spec_digits(user_id as nat)
            + "/favorites/artists"@);
    }
    let order = match order {
        Some(o) => o,
        None => Order::Date,
    };
    let direction = match order_direction {
        Some(d) => d,
        None => OrderDirection::Desc,
    };
    let params = favorites_params(ctx, u32_or(offset, 0), u32_or(limit, 100), order, direction);
    Ok(RequestPlan { method: HttpMethod::Get, url, params: Some(params), etag: None })
}

/// The call that lists an artist's albums, optionally filtered to one album
/// type. Offset defaults to 0, limit to 100.
pub fn artist_albums_plan(
    ctx: &RequestContext,
    artist_id: u64,
    album_type: Option<AlbumType>,
    offset: Option<u32>,
    limit: Option<u32>,
) -> (p: RequestPlan)
    ensures
        p.method == HttpMethod::Get,
        p.url@ == spec_api_base_url() + "/artists/"@ + spec_digits(artist_id as nat) + "/albums"@,
        p.params matches Some(ps) && spec_pairs(ps@) == {
            let base = spec_paged_params(
                crate::client::spec_u32_or(offset, 0),
                crate::client::spec_u32_or(limit, 100),
                *ctx,
            );
            match album_type {
                Some(t) => base.push(("filter"@, spec_album_type_str(t))),
                None => base,
            }
        },
        p.etag is None,
{
    let mut url = String::from_str(api_base_url());
    url.append("/artists/");
    url.append(u64_string(artist_id).as_str());
    url.append("/albums");
    proof {
        assert(url@ =~= spec_api_base_url() + "/artists/"@ + spec_digits(artist_id as nat)
            + "/albums"@);
    }
    let mut params = paged_params(ctx, u32_or(offset, 0), u32_or(limit, 100));
    if let Some(t) = album_type {
        push_pair(&mut params, "filter", String::from_str(t.as_str()));
    }
    RequestPlan { method: HttpMethod::Get, url, params: Some(params), etag: None }
}

/// The call that adds an artist to the authenticated user's favorites; it
/// needs a known user.
pub fn add_favorite_artist_plan(ctx: &RequestContext, artist_id: u64) -> (r: Result<
    RequestPlan,
    Error,
>)
    ensures
        r is Err <==> ctx.user_id is None,
        r matches Err(e) ==> e is UserAuthenticationRequired,
        r matches Ok(p) ==> {
            &&& p.method == HttpMethod::Post
            &&& p.url@ == spec_api_base_url() + "/users/"@ + spec_digits(
                ctx.user_id.unwrap() as nat,
            ) + "/favorites/artists"@
            &&& p.params matches Some(ps) && spec_pairs(ps@) == seq![
                ("artistId"@, spec_digits(artist_id as nat)),
            ] + spec_context_params(*ctx)
            &&& p.etag is None
        },
{
    let user_id = match ctx.user_id {
        Some(uid) => uid,
        None => {
            return Err(Error::UserAuthenticationRequired);
        },
    };
    let mut url = String::from_str(api_base_url());
    url.append("/users/");
    url.append(u64_string(user_id).as_str());
    url.append("/favorites/artists");
    proof {
        assert(url@ =~= spec_api_base_url() + "/users/"@ + spec_digits(user_id as nat)
            + "/favorites/artists"@);
    }
    let mut params: Vec<(String, String)> = Vec::new();
    push_pair(&mut params, "artistId", u64_string(artist_id));
    let params = append_pairs(params, context_params(ctx));
    proof {
        assert(spec_pairs(params@) =~= seq![("artistId"@, spec_digits(artist_id as nat))]
            + spec_context_params(*ctx));
    }
    Ok(RequestPlan { method: HttpMethod::Post, url, params: Some(params), etag: None })
}

/// The call that removes an artist from the authenticated user's favorites;
/// it needs a known user.
pub fn remove_favorite_artist_plan(ctx: &RequestContext, artist_id: u64) -> (r: Result<
    RequestPlan,
    Error,
>)
    ensures
        r is Err <==> ctx.user_id is None,
        r matches Err(e) ==> e is UserAuthenticationRequired,
        r matches Ok(p) ==> {
            &&& p.method == HttpMethod::Delete
            &&& p.url@ == spec_api_base_url() + "/users/"@ + spec_digits(
                ctx.user_id.unwrap() as nat,
            ) + "/favorites/artists/"@ + spec_digits(artist_id as nat)
            &&& p.params matches Some(ps) && spec_pairs(ps@) == spec_context_params(*ctx)
            &&& p.etag is None
        },
{
    let user_id = match ctx.user_id {
        Some(uid) => uid,
        None => {
            return Err(Error::UserAuthenticationRequired);
        },
    };
    let mut url = String::from_str(api_base_url());
    url.append("/users/");
    url.append(u64_string(user_id).as_str());
    url.append("/favorites/artists/");
    url.append(u64_string(artist_id).as_str());
    proof {
        assert(url@ =~= spec_api_base_url() + "/users/"@ + spec_digits(user_id as nat)
            + "/favorites/artists/"@ + spec_digits(artist_id as nat));
    }
    Ok(
        RequestPlan {
            method: HttpMethod::Delete,
            url,
            params: Some(context_params(ctx)),
            etag: None,
        },
    )
}

} // verus!
