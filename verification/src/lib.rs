//! Data model, codecs and repository rules for Komorei anime sources.
pub mod imports;
pub mod map;
pub mod repo;
pub mod structs;

pub use imports::error::{KomoreiError, Result};
pub use map::StringMap;
pub use structs::source::{
    BaseUrlProvider, BasicLoginHandler, CoverImageProcessor, DeepLinkFields, DeepLinkHandler,
    DeepLinkResult, DynamicFilters, DynamicListings, DynamicSettings, Filter, Home, HomeLayout,
    ImageRef, ImageRequest, ImageResponse, ListingProvider, MigrationHandler, NotificationHandler,
    Setting,
    RecommendationsHandler, SegmentDataInterceptor, SegmentUrlInterceptor, Source,
    WebLoginHandler,
};
pub use structs::rating::Rating;
pub use structs::stream::{RangeLong, StreamData, StreamInfo, StreamType, SubtitleInfo};
pub use structs::{
    Anime, AnimePageResult, AnimeSeason, AnimeStatus, CategoryLink, ContentRating, Episode,
    FilterValue, Listing, ListingKind, UpdateStrategy,
};
