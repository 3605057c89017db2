//! Tests of the catalog shapes: pagination arithmetic, image URLs, endpoint
//! plans, the remove-by-id page scan, and the manifest decoder.

use tidalrs::album::{album_plan, favorite_albums_plan};
use tidalrs::artist::ArtistSummary;
use tidalrs::authz::{AuthzToken, User};
use tidalrs::client::RequestContext;
use tidalrs::playlist::{
    add_tracks_to_playlist_plan, remove_track_from_playlist_by_index_plan, scan_page_for_track,
    Playlist, PlaylistCreator, RemoveScan,
};
use tidalrs::request::{authorize_plan, device_authorization_plan, HttpMethod};
use tidalrs::search::{search_plan, Resource, SearchQuery};
use tidalrs::track::{decode_manifest, track_stream_plan, AlbumSummary, Track, TrackStream};
use tidalrs::types::{AudioQuality, DeviceType, List, Order, OrderDirection, ResourceType};
use tidalrs::{Error, TidalApiError};

fn ctx_with_user(user_id: Option<u64>) -> RequestContext {
    RequestContext {
        country_code: "US".to_string(),
        locale: "en_US".to_string(),
        device_type: DeviceType::Browser,
        user_id,
    }
}

fn make_track(id: u64) -> Track {
    Track {
        id,
        track_number: 1,
        artists: Vec::new(),
        album: AlbumSummary {
            id: 1,
            title: "Album".to_string(),
            cover: None,
            release_date: None,
            vibrant_color: None,
            video_cover: None,
        },
        audio_quality: AudioQuality::Lossless,
        duration: 200,
        explicit: false,
        isrc: None,
        popularity: 0,
        title: format!("Track {}", id),
        version: None,
        media_metadata: None,
        copyright: None,
        url: None,
        bpm: None,
        upload: None,
    }
}

fn make_playlist(uuid: &str) -> Playlist {
    Playlist {
        uuid: uuid.to_string(),
        title: "P".to_string(),
        url: String::new(),
        creator: PlaylistCreator { id: None },
        description: String::new(),
        number_of_tracks: 0,
        number_of_videos: 0,
        duration: 0,
        popularity: 0,
        last_updated: String::new(),
        created: String::new(),
        last_item_added_at: None,
        playlist_type: None,
        public_playlist: false,
        image: Some("aa-bb-cc".to_string()),
        square_image: Some("dd-ee".to_string()),
        custom_image_url: None,
        promoted_artists: None,
        etag: None,
    }
}

fn track_page(ids: &[u64], offset: usize, total: usize) -> List<Track> {
    List {
        items: ids.iter().map(|id| make_track(*id)).collect(),
        offset,
        limit: 100,
        total,
        etag: None,
    }
}

#[test]
fn num_left_counts_the_remainder() {
    let page = track_page(&[1, 2, 3], 20, 23);
    assert_eq!(page.num_left(), 0);

    let ids: Vec<u64> = (1..=10).collect();
    let page = track_page(&ids, 0, 23);
    assert_eq!(page.num_left(), 13);
}

#[test]
fn num_left_saturates_on_inconsistent_metadata() {
    // A page reaching past its reported total yields zero, not an underflow.
    let page = track_page(&[1, 2, 3], 4, 5);
    assert_eq!(page.num_left(), 0);
}

#[test]
fn list_is_empty_and_default() {
    let page = track_page(&[], 0, 0);
    assert!(page.is_empty());
    let d: List<Track> = Default::default();
    assert_eq!(d.items.len(), 0);
    assert_eq!(d.total, 0);
    assert!(d.etag.is_none());
}

#[test]
fn remove_scan_finds_the_target_index() {
    // A playlist page [A, B, C] where the target is B: remove at index 1.
    let page = track_page(&[101, 202, 303], 0, 3);
    assert_eq!(scan_page_for_track(&page, 202, 0), RemoveScan::RemoveAt(1));
}

#[test]
fn remove_scan_returns_the_playlist_global_index() {
    // The target sits at position 1 of the page fetched at offset 3: the
    // removal must address playlist index 4, not the in-page 1.
    let page = track_page(&[4, 5], 3, 5);
    assert_eq!(scan_page_for_track(&page, 5, 3), RemoveScan::RemoveAt(4));
}

#[test]
fn remove_scan_pages_through_and_reports_absence() {
    // First page of five tracks in total: the target is not there, so the
    // search continues just past this page.
    let page1 = track_page(&[1, 2, 3], 0, 5);
    assert_eq!(scan_page_for_track(&page1, 999, 0), RemoveScan::Continue(3));

    // Last page: still absent, and nothing remains.
    let page2 = track_page(&[4, 5], 3, 5);
    assert_eq!(scan_page_for_track(&page2, 999, 3), RemoveScan::NotFound);
}

#[test]
fn remove_by_index_plan_addresses_the_index() {
    let p = remove_track_from_playlist_by_index_plan("pl-uuid", "etag1", 1);
    assert_eq!(p.method, HttpMethod::Delete);
    assert_eq!(p.url, "https://api.tidal.com/v1/playlists/pl-uuid/items/1");
    assert!(p.params.is_none());
    assert_eq!(p.etag.as_deref(), Some("etag1"));
}

#[test]
fn album_plan_url_and_params() {
    let p = album_plan(&ctx_with_user(None), 4567);
    assert_eq!(p.method, HttpMethod::Get);
    assert_eq!(p.url, "https://api.tidal.com/v1/albums/4567");
    assert_eq!(
        p.params.unwrap(),
        vec![
            ("countryCode".to_string(), "US".to_string()),
            ("locale".to_string(), "en_US".to_string()),
            ("deviceType".to_string(), "BROWSER".to_string()),
        ]
    );
}

#[test]
fn user_scoped_plan_fails_fast_without_a_user() {
    match favorite_albums_plan(&ctx_with_user(None), None, None, None, None) {
        Err(Error::UserAuthenticationRequired) => {}
        other => panic!("expected authentication-required, got {:?}", other),
    }
}

#[test]
fn favorites_plan_defaults() {
    let p = favorite_albums_plan(&ctx_with_user(Some(42)), None, None, None, None).unwrap();
    assert_eq!(p.url, "https://api.tidal.com/v1/users/42/favorites/albums");
    let params = p.params.unwrap();
    assert_eq!(params[0], ("offset".to_string(), "0".to_string()));
    assert_eq!(params[1], ("limit".to_string(), "100".to_string()));
    assert_eq!(params[2], ("order".to_string(), "DATE".to_string()));
    assert_eq!(params[3], ("orderDirection".to_string(), "DESC".to_string()));
}

#[test]
fn favorites_plan_explicit_ordering() {
    let p = favorite_albums_plan(
        &ctx_with_user(Some(42)),
        Some(10),
        Some(20),
        Some(Order::Date),
        Some(OrderDirection::Asc),
    )
    .unwrap();
    let params = p.params.unwrap();
    assert_eq!(params[0], ("offset".to_string(), "10".to_string()));
    assert_eq!(params[1], ("limit".to_string(), "20".to_string()));
    assert_eq!(params[3], ("orderDirection".to_string(), "ASC".to_string()));
}

#[test]
fn add_tracks_plan_joins_ids_and_carries_the_precondition() {
    let p = add_tracks_to_playlist_plan(
        &ctx_with_user(Some(1)),
        "pl-uuid",
        "etag9",
        &vec![1, 2, 3],
        false,
    );
    assert_eq!(p.method, HttpMethod::Post);
    assert_eq!(p.url, "https://api.tidal.com/v1/playlists/pl-uuid/items");
    assert_eq!(p.etag.as_deref(), Some("etag9"));
    let params = p.params.unwrap();
    assert_eq!(params[0], ("trackIds".to_string(), "1,2,3".to_string()));
    assert_eq!(params[1], ("onDupes".to_string(), "FAIL".to_string()));
}

#[test]
fn track_stream_plan_quality_spellings() {
    let p = track_stream_plan(9, AudioQuality::HiResLossless);
    assert_eq!(p.url, "https://api.tidal.com/v1/tracks/9/urlpostpaywall");
    let params = p.params.unwrap();
    assert_eq!(params[0], ("audioquality".to_string(), "HI_RES_LOSSLESS".to_string()));
    assert_eq!(params[1], ("urlusagemode".to_string(), "STREAM".to_string()));
    assert_eq!(params[2], ("assetpresentation".to_string(), "FULL".to_string()));

    let p = track_stream_plan(9, AudioQuality::Low);
    assert_eq!(p.params.unwrap()[0].1, "LOW");
}

#[test]
fn search_plan_default_types_and_options() {
    let q = SearchQuery::new("The Beatles");
    let p = search_plan(&ctx_with_user(None), q);
    assert_eq!(p.url, "https://api.tidal.com/v1/search/top-hits");
    let params = p.params.unwrap();
    assert_eq!(params[0], ("query".to_string(), "The Beatles".to_string()));
    assert_eq!(params[1], ("types".to_string(), "ARTISTS,ALBUMS,TRACKS,PLAYLISTS".to_string()));
    assert_eq!(params.len(), 5); // no options set

    let mut q = SearchQuery::new("x");
    q.search_types = Some(vec![ResourceType::Artist, ResourceType::Track]);
    q.limit = Some(7);
    q.include_did_you_mean = Some(true);
    let p = search_plan(&ctx_with_user(None), q);
    let params = p.params.unwrap();
    assert_eq!(params[1], ("types".to_string(), "ARTISTS,TRACKS".to_string()));
    assert_eq!(params[5], ("limit".to_string(), "7".to_string()));
    assert_eq!(params[6], ("includeDidYouMean".to_string(), "true".to_string()));
}

#[test]
fn image_urls_substitute_dashes() {
    let summary = ArtistSummary {
        id: 1,
        name: "A".to_string(),
        picture: Some("aa-bb-cc".to_string()),
        contains_cover: false,
        popularity: None,
        artist_type: None,
    };
    assert_eq!(
        summary.picture_url(320, 240).as_deref(),
        Some("https://resources.tidal.com/images/aa/bb/cc/320x240.jpg")
    );
    let bare = ArtistSummary { picture: None, ..summary };
    assert!(bare.picture_url(320, 240).is_none());
}

#[test]
fn playlist_image_urls() {
    let playlist = make_playlist("u-1");
    assert_eq!(
        playlist.image_url(10, 20).as_deref(),
        Some("https://resources.tidal.com/images/aa/bb/cc/10x20.jpg")
    );
    assert_eq!(
        playlist.square_image_url(64).as_deref(),
        Some("https://resources.tidal.com/images/dd/ee/64x64.jpg")
    );
}

#[test]
fn resource_ids_render_as_text() {
    assert_eq!(Resource::Tracks(make_track(7)).id(), "7");
    assert_eq!(Resource::Playlists(make_playlist("u-1")).id(), "u-1");
    let video: serde_json::Value = serde_json::from_str(r#"{"id":42}"#).unwrap();
    assert_eq!(Resource::Videos(video).id(), "42");
    let profile: serde_json::Value = serde_json::from_str("{}").unwrap();
    assert_eq!(Resource::UserProfiles(profile).id(), "null");
}

#[test]
fn resource_type_spellings() {
    assert_eq!(ResourceType::UserProfile.as_str(), "USER_PROFILE");
    assert_eq!(ResourceType::from_str("TRACKS"), Some(ResourceType::Track));
    assert_eq!(ResourceType::from_str("TRACK"), Some(ResourceType::Track));
    assert_eq!(ResourceType::from_str("SONG"), None);
}

#[test]
fn authz_token_credential_extraction() {
    let user = User {
        accepted_eula: true,
        account_link_created: false,
        address: None,
        apple_uid: None,
        birthday: None,
        channel_id: 0,
        city: None,
        country_code: "SE".to_string(),
        created: 0,
        email: String::new(),
        email_verified: false,
        facebook_uid: None,
        first_name: None,
        full_name: None,
        google_uid: String::new(),
        last_name: None,
        new_user: false,
        nickname: None,
        parent_id: 0,
        phone_number: None,
        postalcode: None,
        updated: 0,
        us_state: None,
        user_id: 5,
        username: String::new(),
    };
    let token = AuthzToken {
        access_token: "at".to_string(),
        client_name: String::new(),
        expires_in: 0,
        refresh_token: Some("rt".to_string()),
        scope: String::new(),
        token_type: String::new(),
        user,
        user_id: 5,
    };
    let authz = token.authz().expect("a token with a refresh token yields a credential");
    assert_eq!(authz.access_token, "at");
    assert_eq!(authz.refresh_token, "rt");
    assert_eq!(authz.user_id, 5);
    assert_eq!(authz.country_code, Some("SE".to_string()));

    let token = AuthzToken { refresh_token: None, ..token };
    assert!(token.authz().is_none());
}

#[test]
fn api_error_message_rendering() {
    let e = TidalApiError { status: 404, sub_status: 2001, user_message: "Not found".to_string() };
    assert_eq!(e.message(), "Tidal API error: 404 2001 Not found");
}

#[test]
fn manifest_decoding() {
    assert_eq!(decode_manifest("aGVsbG8=").as_deref(), Ok("hello"));
    assert!(decode_manifest("!!!").is_err());
}

#[test]
fn primary_url_is_the_first() {
    let stream = TrackStream {
        asset_presentation: String::new(),
        audio_mode: String::new(),
        audio_quality: AudioQuality::Low,
        codec: String::new(),
        security_token: None,
        security_type: None,
        streaming_session_id: None,
        track_id: 1,
        urls: vec!["https://cdn.example/one".to_string(), "https://cdn.example/two".to_string()],
    };
    assert_eq!(stream.primary_url(), Some("https://cdn.example/one"));
    let empty = TrackStream { urls: Vec::new(), ..stream };
    assert!(empty.primary_url().is_none());
}

#[test]
fn device_flow_plans() {
    let p = device_authorization_plan("cid");
    assert_eq!(p.method, HttpMethod::Post);
    assert_eq!(p.url, "https://auth.tidal.com/v1/oauth2/device_authorization");
    assert_eq!(
        p.params.unwrap(),
        vec![
            ("client_id".to_string(), "cid".to_string()),
            ("scope".to_string(), "r_usr w_usr w_sub".to_string()),
        ]
    );

    let p = authorize_plan("cid", "devcode", "secret");
    assert_eq!(p.url, "https://auth.tidal.com/v1/oauth2/token");
    let params = p.params.unwrap();
    assert_eq!(params[2], ("device_code".to_string(), "devcode".to_string()));
    assert_eq!(
        params[3],
        (
            "grant_type".to_string(),
            "urn:ietf:params:oauth:grant-type:device_code".to_string()
        )
    );
}
