//! The functions a Komorei source provides, and the values they exchange.
use vstd::prelude::*;

use crate::imports::error::Result;
use crate::map::StringMap;
use crate::structs::stream::{StreamData, StreamInfo};
use crate::structs::{Anime, AnimePageResult, Episode, FilterValue, Listing};

verus! {

/// The required functions a Komorei source must implement.
pub trait Source: Sized {
    /// Called to initialize a source.
    fn new() -> Self;

    /// Returns the anime for a search query with filters.
    fn get_search_anime_list(
        &self,
        query: Option<String>,
        page: i32,
        filters: Vec<FilterValue>,
    ) -> Result<AnimePageResult>;

    /// Updates a given anime with new details and episodes, as requested.
    fn get_anime_update(&self, anime: Anime, needs_details: bool, needs_chapters: bool) -> Result<
        Anime,
    >;

    /// Returns the playable streams (servers) for a given anime episode.
    fn get_stream_list(&self, anime: Anime, episode: Episode) -> Result<Vec<StreamInfo>>;

    /// Resolves the stream data (media url, headers, subtitles) for a given stream.
    fn get_stream(&self, anime: Anime, episode: Episode, stream: StreamInfo) -> Result<StreamData>;
}

/// A source that rewrites media request urls before they are fetched.
///
/// Return the url unchanged to leave it untouched.
pub trait SegmentUrlInterceptor: Source {
    fn intercept_segment_url(&self, stream_data: Option<&StreamData>, url: String) -> String;
}

/// A source that transforms media response data after it is fetched.
///
/// Return the data unchanged to leave it untouched.
pub trait SegmentDataInterceptor: Source {
    fn intercept_segment_data(
        &self,
        stream_data: Option<&StreamData>,
        url: String,
        data: &[u8],
    ) -> Vec<u8>;
}

/// A source that provides listings.
pub trait ListingProvider: Source {
    /// Returns the anime for the provided listing.
    fn get_anime_list(&self, listing: Listing, page: i32) -> Result<AnimePageResult>;
}

/// A home page layout as the app receives it: its serialized form, which this crate
/// carries through unread.
#[derive(Default, Clone, Debug, PartialEq)]
pub struct HomeLayout {
    pub encoded: Vec<u8>,
}

/// A search filter definition as the app receives it: its serialized form, which this
/// crate carries through unread.
#[derive(Default, Clone, Debug, PartialEq)]
pub struct Filter {
    pub encoded: Vec<u8>,
}

/// A source setting definition as the app receives it: its serialized form, which this
/// crate carries through unread.
#[derive(Default, Clone, Debug, PartialEq)]
pub struct Setting {
    pub encoded: Vec<u8>,
}

/// A reference to image data held by the host.
#[derive(Default, Clone, Copy, Debug, PartialEq, Eq)]
pub struct ImageRef {
    /// The host's descriptor of the image.
    pub rid: i32,
    /// Whether the host, rather than the source, releases the image.
    pub externally_managed: bool,
}

/// A source that provides a home layout.
pub trait Home: Source {
    fn get_home(&self) -> Result<HomeLayout>;
}

/// A source that provides dynamic listings.
pub trait DynamicListings: Source {
    fn get_dynamic_listings(&self) -> Result<Vec<Listing>>;
}

/// A source that provides dynamic filters.
pub trait DynamicFilters: Source {
    fn get_dynamic_filters(&self) -> Result<Vec<Filter>>;
}

/// A source that provides dynamic settings.
pub trait DynamicSettings: Source {
    fn get_dynamic_settings(&self) -> Result<Vec<Setting>>;
}

/// A source that processes cover image data after being fetched.
pub trait CoverImageProcessor: Source {
    fn process_cover_image(&self, response: ImageResponse) -> Result<ImageRef>;
}

/// A source that provides a programmatic base url.
pub trait BaseUrlProvider: Source {
    fn get_base_url(&self) -> Result<String>;
}

/// A source that handles notification callbacks, sent on source setting changes.
pub trait NotificationHandler: Source {
    fn handle_notification(&self, notification: String);
}

/// A source that handles deep links: urls within one of the source's base urls.
pub trait DeepLinkHandler: Source {
    fn handle_deep_link(&self, url: String) -> Result<Option<DeepLinkResult>>;
}

/// A source that provides "related / recommended" anime for a given title.
pub trait RecommendationsHandler: Source {
    fn get_recommended_anime(&self, anime: Anime) -> Result<AnimePageResult>;
}

/// A source that handles basic login with username and password; returns whether the
/// login succeeded.
pub trait BasicLoginHandler: Source {
    fn handle_basic_login(&self, key: String, username: String, password: String) -> Result<bool>;
}

/// A source that handles custom webview login; called whenever cookies are updated,
/// returns whether the login succeeded.
pub trait WebLoginHandler: Source {
    fn handle_web_login(&self, key: String, cookies: StringMap) -> Result<bool>;
}

/// A source that handles key migration: returns the new key for an old one.
pub trait MigrationHandler: Source {
    fn handle_anime_migration(&self, key: String) -> Result<String>;

    fn handle_episode_migration(&self, anime_key: String, episode_key: String) -> Result<String>;
}

/// A result of a deep link handling.
#[derive(Debug, Clone, PartialEq)]
pub enum DeepLinkResult {
    Anime { key: String },
    Episode { anime_key: String, key: String },
    Listing(Listing),
}

/// The three fields that a deep link result is sent as; exactly the ones that apply to
/// its kind are present.
#[derive(Debug, Clone, PartialEq)]
pub struct DeepLinkFields {
    pub anime_key: Option<String>,
    pub episode_key: Option<String>,
    pub listing: Option<Listing>,
}

impl DeepLinkResult {
    /// The fields this result is sent as: an anime link sets `anime_key`, an episode
    /// link sets `anime_key` and `episode_key`, a listing link sets `listing`.
    pub fn into_fields(self) -> (fields: DeepLinkFields)
        ensures
            match self {
                DeepLinkResult::Anime { key } => fields == (DeepLinkFields {
                    anime_key: Some(key),
                    episode_key: None,
                    listing: None,
                }),
                DeepLinkResult::Episode { anime_key, key } => fields == (DeepLinkFields {
                    anime_key: Some(anime_key),
                    episode_key: Some(key),
                    listing: None,
                }),
                DeepLinkResult::Listing(listing) => fields == (DeepLinkFields {
                    anime_key: None,
                    episode_key: None,
                    listing: Some(listing),
                }),
            },
    {
        match self {
            DeepLinkResult::Anime { key } => DeepLinkFields {
                anime_key: Some(key),
                episode_key: None,
                listing: None,
            },
            DeepLinkResult::Episode { anime_key, key } => DeepLinkFields {
                anime_key: Some(anime_key),
                episode_key: Some(key),
                listing: None,
            },
            DeepLinkResult::Listing(listing) => DeepLinkFields {
                anime_key: None,
                episode_key: None,
                listing: Some(listing),
            },
        }
    }
}

/// The details of an HTTP request.
#[derive(Debug, Clone, PartialEq)]
pub struct ImageRequest {
    pub url: Option<String>,
    pub headers: StringMap,
}

/// A response from a network image request.
#[derive(Debug)]
pub struct ImageResponse {
    /// The HTTP status code.
    pub code: u16,
    /// The HTTP response headers.
    pub headers: StringMap,
    /// The HTTP request details.
    pub request: ImageRequest,
    /// A reference to image data.
    pub image: ImageRef,
}

} // verus!
