//! Shared vocabulary of the API surface: paginated lists, device types,
//! audio qualities, orderings, and resource kinds.

use vstd::prelude::*;

verus! {

/// Device type reported to the vendor API with every call.
#[derive(Clone, Copy, Debug, PartialEq, Eq, Structural)]
pub enum DeviceType {
    /// Browser-based client
    Browser,
}

/// The wire spelling of a device type.
pub open spec fn spec_device_type_str(d: DeviceType) -> Seq<char> {
    "BROWSER"@
}

impl DeviceType {
    pub fn as_str(&self) -> (s: &'static str)
        ensures
            s@ == spec_device_type_str(*self),
    {
        "BROWSER"
    }
}

impl Default for DeviceType {
    fn default() -> (d: DeviceType)
        ensures
            d == DeviceType::Browser,
    {
        DeviceType::Browser
    }
}

/// Audio quality levels available for streaming.
#[derive(Clone, Copy, Debug, PartialEq, Eq, Structural)]
pub enum AudioQuality {
    /// Low quality (typically 96 kbps AAC)
    Low,
    /// High quality (typically 320 kbps AAC)
    High,
    /// Lossless quality (FLAC, typically 44.1 kHz / 16-bit)
    Lossless,
    /// Hi-Res Lossless quality (FLAC, up to 192 kHz / 24-bit)
    HiResLossless,
}

/// The wire spelling of an audio quality.
pub open spec fn spec_audio_quality_str(q: AudioQuality) -> Seq<char> {
    match q {
        AudioQuality::Low => "LOW"@,
        AudioQuality::High => "HIGH"@,
        AudioQuality::Lossless => "LOSSLESS"@,
        AudioQuality::HiResLossless => "HI_RES_LOSSLESS"@,
    }
}

impl AudioQuality {
    pub fn as_str(&self) -> (s: &'static str)
        ensures
            s@ == spec_audio_quality_str(*self),
    {
        match self {
            AudioQuality::Low => "LOW",
            AudioQuality::High => "HIGH",
            AudioQuality::Lossless => "LOSSLESS",
            AudioQuality::HiResLossless => "HI_RES_LOSSLESS",
        }
    }
}

/// Sort order for listing operations.
#[derive(Clone, Copy, Debug, PartialEq, Eq, Structural)]
pub enum Order {
    /// Sort by date
    Date,
}

/// The wire spelling of a sort order.
pub open spec fn spec_order_str(o: Order) -> Seq<char> {
    "DATE"@
}

impl Order {
    pub fn as_str(&self) -> (s: &'static str)
        ensures
            s@ == spec_order_str(*self),
    {
        "DATE"
    }
}

/// Direction for sorting operations.
#[derive(Clone, Copy, Debug, PartialEq, Eq, Structural)]
pub enum OrderDirection {
    /// Ascending order
    Asc,
    /// Descending order
    Desc,
}

/// The wire spelling of a sort direction.
pub open spec fn spec_order_direction_str(d: OrderDirection) -> Seq<char> {
    match d {
        OrderDirection::Asc => "ASC"@,
        OrderDirection::Desc => "DESC"@,
    }
}

impl OrderDirection {
    pub fn as_str(&self) -> (s: &'static str)
        ensures
            s@ == spec_order_direction_str(*self),
    {
        match self {
            OrderDirection::Asc => "ASC",
            OrderDirection::Desc => "DESC",
        }
    }
}

/// Media metadata associated with tracks and albums.
#[derive(Clone, Debug)]
pub struct MediaMetadata {
    /// Tags associated with the media
    pub tags: Vec<String>,
}

/// Types of resources available in the catalog, used for search filtering.
#[derive(Clone, Copy, Debug, PartialEq, Eq, Structural)]
pub enum ResourceType {
    /// Artist resource
    Artist,
    /// Album resource
    Album,
    /// Track resource
    Track,
    /// Video resource
    Video,
    /// Playlist resource
    Playlist,
    /// User profile resource
    UserProfile,
}

/// The canonical wire spelling of a resource type.
pub open spec fn spec_resource_type_str(t: ResourceType) -> Seq<char> {
    match t {
        ResourceType::Artist => "ARTIST"@,
        ResourceType::Album => "ALBUM"@,
        ResourceType::Track => "TRACK"@,
        ResourceType::Video => "VIDEO"@,
        ResourceType::Playlist => "PLAYLIST"@,
        ResourceType::UserProfile => "USER_PROFILE"@,
    }
}

/// The resource type denoted by a wire spelling, which may be the canonical
/// singular name or its plural.
pub open spec fn spec_resource_type_of(s: Seq<char>) -> Option<ResourceType> {
    if s == "ARTIST"@ || s == "ARTISTS"@ {
        Some(ResourceType::Artist)
    } else if s == "ALBUM"@ || s == "ALBUMS"@ {
        Some(ResourceType::Album)
    } else if s == "TRACK"@ || s == "TRACKS"@ {
        Some(ResourceType::Track)
    } else if s == "VIDEO"@ || s == "VIDEOS"@ {
        Some(ResourceType::Video)
    } else if s == "PLAYLIST"@ || s == "PLAYLISTS"@ {
        Some(ResourceType::Playlist)
    } else if s == "USER_PROFILE"@ || s == "USER_PROFILES"@ {
        Some(ResourceType::UserProfile)
    } else {
        None
    }
}

impl ResourceType {
    pub fn as_str(&self) -> (s: &str)
        ensures
            s@ == spec_resource_type_str(*self),
    {
        match self {
            ResourceType::Artist => "ARTIST",
            ResourceType::Album => "ALBUM",
            ResourceType::Track => "TRACK",
            ResourceType::Video => "VIDEO",
            ResourceType::Playlist => "PLAYLIST",
            ResourceType::UserProfile => "USER_PROFILE",
        }
    }

    /// Parse a wire spelling, singular or plural.
    pub fn from_str(s: &str) -> (r: Option<ResourceType>)
        ensures
            r == spec_resource_type_of(s@),
    {
        if crate::text::str_eq(s, "ARTIST") || crate::text::str_eq(s, "ARTISTS") {
            Some(ResourceType::Artist)
        } else if crate::text::str_eq(s, "ALBUM") || crate::text::str_eq(s, "ALBUMS") {
            Some(ResourceType::Album)
        } else if crate::text::str_eq(s, "TRACK") || crate::text::str_eq(s, "TRACKS") {
            Some(ResourceType::Track)
        } else if crate::text::str_eq(s, "VIDEO") || crate::text::str_eq(s, "VIDEOS") {
            Some(ResourceType::Video)
        } else if crate::text::str_eq(s, "PLAYLIST") || crate::text::str_eq(s, "PLAYLISTS") {
            Some(ResourceType::Playlist)
        } else if crate::text::str_eq(s, "USER_PROFILE") || crate::text::str_eq(s, "USER_PROFILES") {
            Some(ResourceType::UserProfile)
        } else {
            None
        }
    }
}

/// A paginated list response: the items of the current page, the page's
/// offset and size limit, the total number of items available, and the
/// concurrency-control token that playlist modifications need.
#[derive(Clone, Debug)]
pub struct List<T> {
    /// Items in the current page
    pub items: Vec<T>,
    /// Offset of the current page
    pub offset: usize,
    /// Maximum number of items per page
    pub limit: usize,
    /// Total number of items available
    pub total: usize,
    /// ETag for optimistic concurrency control (used in playlist
    /// modifications)
    pub etag: Option<String>,
}

/// The number of items that remain beyond this page: the total minus the
/// offset and the page's length, and zero when the reported pagination
/// metadata is inconsistent (the page reaching past the reported total).
pub open spec fn spec_num_left(total: nat, offset: nat, page_len: nat) -> nat {
    if offset + page_len <= total {
        (total - offset - page_len) as nat
    } else {
        0
    }
}

impl<T> List<T> {
    /// Whether the listing holds no items at all.
    pub fn is_empty(&self) -> (r: bool)
        ensures
            r == (self.total == 0),
    {
        self.total == 0
    }

    /// The number of items left to fetch after this page. A vendor response
    /// whose page reaches past its reported total yields zero rather than
    /// underflowing.
    pub fn num_left(&self) -> (r: usize)
        ensures
            r == spec_num_left(self.total as nat, self.offset as nat, self.items@.len()),
    {
        let page_len = self.items.len();
        if self.offset <= self.total && page_len <= self.total - self.offset {
            self.total - self.offset - page_len
        } else {
            0
        }
    }
}

impl<T> Default for List<T> {
    /// An empty listing.
    fn default() -> (r: List<T>)
        ensures
            r.items@.len() == 0,
            r.offset == 0,
            r.limit == 0,
            r.total == 0,
            r.etag is None,
    {
        List { items: Vec::new(), offset: 0, limit: 0, total: 0, etag: None }
    }
}

} // verus!
