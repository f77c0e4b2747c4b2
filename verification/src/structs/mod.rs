//! Data structures that are sent between Komorei and sources.
use vstd::prelude::*;

use crate::map::{merge_into, StringMap};

pub mod rating;
pub mod source;
pub mod stream;

use rating::Rating;

verus! {

/// The publishing status of an anime.
#[derive(Default, PartialEq, Eq, Clone, Copy, Debug)]
pub enum AnimeStatus {
    #[default]
    Unknown,
    Ongoing,
    Completed,
    Cancelled,
    Hiatus,
}

/// The content rating of an anime.
#[derive(Default, PartialEq, Eq, Clone, Copy, Debug)]
pub enum ContentRating {
    #[default]
    Unknown,
    Safe,
    Suggestive,
    NSFW,
}

/// The preferred update strategy for an anime.
///
/// Titles marked as `Always` are included in library refreshes by default, while
/// `Never` are excluded.
#[derive(Default, PartialEq, Eq, Clone, Copy, Debug)]
pub enum UpdateStrategy {
    #[default]
    Always,
    Never,
}

/// A filter selection as the app hands it over: its serialized form, which this
/// crate carries through unread.
#[derive(Default, Clone, Debug, PartialEq)]
pub struct FilterValue {
    pub encoded: Vec<u8>,
}

/// An interactive metadata link used for filtering (genre, studio, author, ...).
///
/// Selecting a link in the app applies its filters to a search.
#[derive(Default, Clone, Debug, PartialEq)]
pub struct CategoryLink {
    /// Display name of the link.
    pub name: String,
    /// Filters applied when the link is selected.
    pub filters: Vec<FilterValue>,
}

/// A specific season or part of a franchise.
///
/// Seasons are often separate anime ids in many source extensions.
#[derive(Default, Clone, Debug, PartialEq)]
pub struct AnimeSeason {
    /// The anime id of the season.
    pub anime_id: String,
    /// Title of the season.
    pub title: String,
    /// Unique identity. Defaults to `anime_id`; virtual seasons may override it.
    pub id: String,
}

impl AnimeSeason {
    /// Create a new season with the given anime id and title; its identity is the
    /// anime id.
    pub fn new(anime_id: String, title: String) -> (season: Self)
        ensures
            season.anime_id == anime_id,
            season.title == title,
            season.id == anime_id,
    {
        Self { anime_id: anime_id.clone(), title, id: anime_id }
    }
}

/// An episode of an anime.
#[derive(Default, Clone, Debug, PartialEq)]
pub struct Episode {
    /// Unique identifier for the episode.
    pub key: String,
    /// Episode number, as displayed by the source (e.g. "1", "12.5", "HD").
    pub episode_number: String,
    /// Title of the episode (excluding the episode number).
    pub title: Option<String>,
    /// Date the episode was uploaded (unix timestamp).
    pub date_uploaded: Option<i64>,
    /// Optional thumbnail image url for the episode.
    pub thumbnail: Option<String>,
    /// Quality of the episode, e.g. "1080p FHD".
    pub quality: Option<String>,
    /// Duration of the episode in seconds (reference only).
    pub duration_seconds: Option<i64>,
    /// Link to the episode on the source website.
    pub url: Option<String>,
    /// Language of the episode.
    pub language: Option<String>,
    /// Whether the episode is locked.
    pub locked: bool,
}

/// An anime, series, or other type of content for Komorei to watch.
///
/// Usually fetched in two stages: Lite (listing) and Full (details + episodes).
#[derive(Default, Clone, Debug, PartialEq)]
pub struct Anime {
    /// Unique identifier for the anime.
    pub key: String,
    /// Identifier of the source this anime belongs to.
    pub source_id: String,
    /// Title of the anime.
    pub title: String,
    /// Original (raw) title of the anime.
    pub original_title: String,
    /// Link to the anime cover (poster) image.
    pub cover: String,
    /// Link to the anime banner image.
    pub banner: Option<String>,
    /// Description of the anime.
    pub description: Option<String>,
    /// Total number of episodes.
    pub episode_count: i32,
    /// Current episode label, e.g. "Tập 12/12" or "HD Vietsub".
    pub current_episode: Option<String>,
    /// Rating of the anime (0 to 10).
    pub rating: Option<Rating>,
    /// Number of ratings.
    pub rating_count: Option<i32>,
    /// Publishing status of the anime.
    pub status: AnimeStatus,
    /// Year the anime was released.
    pub release_year: Option<CategoryLink>,
    /// List of genres.
    pub genres: Vec<CategoryLink>,
    /// List of authors.
    pub authors: Vec<CategoryLink>,
    /// Studio that produced the anime.
    pub studio: Option<CategoryLink>,
    /// The season this anime belongs to.
    pub season_of: Option<CategoryLink>,
    /// List of countries.
    pub countries: Vec<CategoryLink>,
    /// Whether the anime is featured (e.g. on the home banner).
    pub is_featured: bool,
    /// Number of views.
    pub views: i32,
    /// Info on the next episode airing.
    pub next_episode_air_info: Option<String>,
    /// Quality tag of the anime, e.g. "FHD".
    pub quality_tag: Option<String>,
    /// List of seasons.
    pub seasons: Vec<AnimeSeason>,
    /// List of episodes. Only populated when episodes were requested.
    pub episodes: Option<Vec<Episode>>,
    /// Link to the anime on the source website.
    pub url: Option<String>,
    /// Source-defined extras, keyed by a dotted name (e.g. `"avs.recommendations"`).
    pub extra: StringMap,
}

/// The incoming optional value when it is present, else the current one.
pub open spec fn present_or<T>(incoming: Option<T>, current: Option<T>) -> Option<T> {
    if incoming is Some {
        incoming
    } else {
        current
    }
}

/// The incoming list when it is not empty, else the current one.
pub open spec fn nonempty_or<T>(incoming: Vec<T>, current: Vec<T>) -> Vec<T> {
    if incoming@.len() != 0 {
        incoming
    } else {
        current
    }
}

/// The incoming number when it is not zero, else the current one.
pub open spec fn nonzero_or(incoming: i32, current: i32) -> i32 {
    if incoming != 0 {
        incoming
    } else {
        current
    }
}

/// Replaces `slot` with `incoming` when `incoming` holds a value.
fn take_present<T>(slot: &mut Option<T>, incoming: Option<T>)
    ensures
        *final(slot) == present_or(incoming, *old(slot)),
        incoming is Some ==> *final(slot) == incoming,
        incoming is None ==> *final(slot) == *old(slot),
{
    if let Some(value) = incoming {
        *slot = Some(value);
    }
}

/// Replaces `slot` with `incoming` when `incoming` is not empty.
fn take_nonempty<T>(slot: &mut Vec<T>, incoming: Vec<T>)
    ensures
        *final(slot) == nonempty_or(incoming, *old(slot)),
        incoming@.len() > 0 ==> *final(slot) == incoming,
        incoming@.len() == 0 ==> *final(slot) == *old(slot),
{
    if !incoming.is_empty() {
        *slot = incoming;
    }
}

/// Replaces `slot` with `incoming` when `incoming` is not zero.
fn take_nonzero(slot: &mut i32, incoming: i32)
    ensures
        *final(slot) == nonzero_or(incoming, *old(slot)),
        incoming != 0 ==> *final(slot) == incoming,
        incoming == 0 ==> *final(slot) == *old(slot),
{
    if incoming != 0 {
        *slot = incoming;
    }
}

impl Anime {
    /// `result` is what `current` becomes when `incoming` is copied into it: the
    /// identity fields, titles, cover and status are replaced; optional fields, lists
    /// and counters are replaced only when `incoming` has a value for them; the
    /// featured flag stays; and the extras are merged, `incoming` winning on a shared
    /// key.
    pub open spec fn copied_into(current: Anime, incoming: Anime, result: Anime) -> bool {
        &&& result.key == incoming.key
        &&& result.source_id == incoming.source_id
        &&& result.title == incoming.title
        &&& result.original_title == incoming.original_title
        &&& result.cover == incoming.cover
        &&& result.banner == present_or(incoming.banner, current.banner)
        &&& result.description == present_or(incoming.description, current.description)
        &&& result.episode_count == nonzero_or(incoming.episode_count, current.episode_count)
        &&& result.current_episode == present_or(incoming.current_episode, current.current_episode)
        &&& result.rating == present_or(incoming.rating, current.rating)
        &&& result.rating_count == present_or(incoming.rating_count, current.rating_count)
        &&& result.status == incoming.status
        &&& result.release_year == present_or(incoming.release_year, current.release_year)
        &&& result.genres == nonempty_or(incoming.genres, current.genres)
        &&& result.authors == nonempty_or(incoming.authors, current.authors)
        &&& result.studio == present_or(incoming.studio, current.studio)
        &&& result.season_of == present_or(incoming.season_of, current.season_of)
        &&& result.countries == nonempty_or(incoming.countries, current.countries)
        &&& result.is_featured == current.is_featured
        &&& result.views == nonzero_or(incoming.views, current.views)
        &&& result.next_episode_air_info == present_or(
            incoming.next_episode_air_info,
            current.next_episode_air_info,
        )
        &&& result.quality_tag == present_or(incoming.quality_tag, current.quality_tag)
        &&& result.seasons == nonempty_or(incoming.seasons, current.seasons)
        &&& result.episodes == present_or(incoming.episodes, current.episodes)
        &&& result.url == present_or(incoming.url, current.url)
        &&& result.extra@ == current.extra@.union_prefer_right(incoming.extra@)
    }

    /// Copy the values from another anime into this one.
    ///
    /// Used to upgrade a Lite anime with full details and episodes.
    pub fn copy_from(&mut self, anime: Anime)
        ensures
            Anime::copied_into(*old(self), anime, *final(self)),
            final(self).key == anime.key,
            final(self).source_id == anime.source_id,
            final(self).title == anime.title,
            final(self).original_title == anime.original_title,
            final(self).cover == anime.cover,
            final(self).status == anime.status,
            anime.banner is Some ==> final(self).banner == anime.banner,
            anime.banner is None ==> final(self).banner == old(self).banner,
            anime.description is Some ==> final(self).description == anime.description,
            anime.description is None ==> final(self).description == old(self).description,
            anime.current_episode is Some ==> final(self).current_episode == anime.current_episode,
            anime.current_episode is None ==> final(self).current_episode == old(self).current_episode,
            anime.rating is Some ==> final(self).rating == anime.rating,
            anime.rating is None ==> final(self).rating == old(self).rating,
            anime.rating_count is Some ==> final(self).rating_count == anime.rating_count,
            anime.rating_count is None ==> final(self).rating_count == old(self).rating_count,
            anime.release_year is Some ==> final(self).release_year == anime.release_year,
            anime.release_year is None ==> final(self).release_year == old(self).release_year,
            anime.studio is Some ==> final(self).studio == anime.studio,
            anime.studio is None ==> final(self).studio == old(self).studio,
            anime.season_of is Some ==> final(self).season_of == anime.season_of,
            anime.season_of is None ==> final(self).season_of == old(self).season_of,
            anime.next_episode_air_info is Some ==> final(self).next_episode_air_info == anime.next_episode_air_info,
            anime.next_episode_air_info is None ==> final(self).next_episode_air_info == old(self).next_episode_air_info,
            anime.quality_tag is Some ==> final(self).quality_tag == anime.quality_tag,
            anime.quality_tag is None ==> final(self).quality_tag == old(self).quality_tag,
            anime.episodes is Some ==> final(self).episodes == anime.episodes,
            anime.episodes is None ==> final(self).episodes == old(self).episodes,
            anime.url is Some ==> final(self).url == anime.url,
            anime.url is None ==> final(self).url == old(self).url,
            anime.genres@.len() > 0 ==> final(self).genres == anime.genres,
            anime.genres@.len() == 0 ==> final(self).genres == old(self).genres,
            anime.authors@.len() > 0 ==> final(self).authors == anime.authors,
            anime.authors@.len() == 0 ==> final(self).authors == old(self).authors,
            anime.countries@.len() > 0 ==> final(self).countries == anime.countries,
            anime.countries@.len() == 0 ==> final(self).countries == old(self).countries,
            anime.seasons@.len() > 0 ==> final(self).seasons == anime.seasons,
            anime.seasons@.len() == 0 ==> final(self).seasons == old(self).seasons,
            anime.episode_count != 0 ==> final(self).episode_count == anime.episode_count,
            anime.episode_count == 0 ==> final(self).episode_count == old(self).episode_count,
            anime.views != 0 ==> final(self).views == anime.views,
            anime.views == 0 ==> final(self).views == old(self).views,
            final(self).is_featured == old(self).is_featured,
            forall|k: Seq<char>| #[trigger] final(self).extra@.contains_key(k) <==> (old(self).extra@.contains_key(k) || anime.extra@.contains_key(k)),
            forall|k: Seq<char>| #[trigger] anime.extra@.contains_key(k) ==> final(self).extra@[k] == anime.extra@[k],
            forall|k: Seq<char>| old(self).extra@.contains_key(k) && !anime.extra@.contains_key(k) ==> #[trigger] final(self).extra@[k] == old(self).extra@[k],
    {
        let Anime {
            key,
            source_id,
            title,
            original_title,
            cover,
            banner,
            description,
            episode_count,
            current_episode,
            rating,
            rating_count,
            status,
            release_year,
            genres,
            authors,
            studio,
            season_of,
            countries,
            is_featured: _,
            views,
            next_episode_air_info,
            quality_tag,
            seasons,
            episodes,
            url,
            extra,
        } = anime;
        self.key = key;
        self.source_id = source_id;
        self.title = title;
        self.original_title = original_title;
        self.cover = cover;
        take_present(&mut self.banner, banner);
        take_present(&mut self.description, description);
        take_nonzero(&mut self.episode_count, episode_count);
        take_present(&mut self.current_episode, current_episode);
        take_present(&mut self.rating, rating);
        take_present(&mut self.rating_count, rating_count);
        self.status = status;
        take_present(&mut self.release_year, release_year);
        take_nonempty(&mut self.genres, genres);
        take_nonempty(&mut self.authors, authors);
        take_present(&mut self.studio, studio);
        take_present(&mut self.season_of, season_of);
        take_nonempty(&mut self.countries, countries);
        take_nonzero(&mut self.views, views);
        take_present(&mut self.next_episode_air_info, next_episode_air_info);
        take_present(&mut self.quality_tag, quality_tag);
        take_nonempty(&mut self.seasons, seasons);
        take_present(&mut self.episodes, episodes);
        take_present(&mut self.url, url);
        // Merged rather than replaced: a Lite pass may already have cached an extra the
        // full pass knows nothing about (or the other way round), and the full pass wins
        // on a shared key.
        merge_into(&mut self.extra, extra);
    }
}

impl Anime {
    /// `a` and `b` hold the same values, the extras compared by their contents.
    pub open spec fn same_values(a: Anime, b: Anime) -> bool {
        &&& a.key == b.key
        &&& a.source_id == b.source_id
        &&& a.title == b.title
        &&& a.original_title == b.original_title
        &&& a.cover == b.cover
        &&& a.banner == b.banner
        &&& a.description == b.description
        &&& a.episode_count == b.episode_count
        &&& a.current_episode == b.current_episode
        &&& a.rating == b.rating
        &&& a.rating_count == b.rating_count
        &&& a.status == b.status
        &&& a.release_year == b.release_year
        &&& a.genres == b.genres
        &&& a.authors == b.authors
        &&& a.studio == b.studio
        &&& a.season_of == b.season_of
        &&& a.countries == b.countries
        &&& a.is_featured == b.is_featured
        &&& a.views == b.views
        &&& a.next_episode_air_info == b.next_episode_air_info
        &&& a.quality_tag == b.quality_tag
        &&& a.seasons == b.seasons
        &&& a.episodes == b.episodes
        &&& a.url == b.url
        &&& a.extra@ == b.extra@
    }
}

/// What copying an anime in means, field by field: the incoming anime's key, titles,
/// cover and status always win; any optional field it holds wins over the current one,
/// whatever that was; any non-empty list it holds replaces the current list, whatever
/// that held; any non-zero counter it holds wins; what it leaves empty keeps its
/// current value; the featured flag is never taken from it; and the extras end with
/// every key of both, the incoming value winning on a shared key.
pub proof fn lemma_copy_from_incoming_wins(current: Anime, incoming: Anime, result: Anime)
    requires
        Anime::copied_into(current, incoming, result),
    ensures
        result.key == incoming.key,
        result.source_id == incoming.source_id,
        result.title == incoming.title,
        result.original_title == incoming.original_title,
        result.cover == incoming.cover,
        result.status == incoming.status,
        incoming.banner is Some ==> result.banner == incoming.banner,
        incoming.banner is None ==> result.banner == current.banner,
        incoming.description is Some ==> result.description == incoming.description,
        incoming.description is None ==> result.description == current.description,
        incoming.current_episode is Some ==> result.current_episode == incoming.current_episode,
        incoming.current_episode is None ==> result.current_episode == current.current_episode,
        incoming.rating is Some ==> result.rating == incoming.rating,
        incoming.rating is None ==> result.rating == current.rating,
        incoming.rating_count is Some ==> result.rating_count == incoming.rating_count,
        incoming.rating_count is None ==> result.rating_count == current.rating_count,
        incoming.release_year is Some ==> result.release_year == incoming.release_year,
        incoming.release_year is None ==> result.release_year == current.release_year,
        incoming.studio is Some ==> result.studio == incoming.studio,
        incoming.studio is None ==> result.studio == current.studio,
        incoming.season_of is Some ==> result.season_of == incoming.season_of,
        incoming.season_of is None ==> result.season_of == current.season_of,
        incoming.next_episode_air_info is Some ==> result.next_episode_air_info == incoming.next_episode_air_info,
        incoming.next_episode_air_info is None ==> result.next_episode_air_info == current.next_episode_air_info,
        incoming.quality_tag is Some ==> result.quality_tag == incoming.quality_tag,
        incoming.quality_tag is None ==> result.quality_tag == current.quality_tag,
        incoming.episodes is Some ==> result.episodes == incoming.episodes,
        incoming.episodes is None ==> result.episodes == current.episodes,
        incoming.url is Some ==> result.url == incoming.url,
        incoming.url is None ==> result.url == current.url,
        incoming.genres@.len() > 0 ==> result.genres == incoming.genres,
        incoming.genres@.len() == 0 ==> result.genres == current.genres,
        incoming.authors@.len() > 0 ==> result.authors == incoming.authors,
        incoming.authors@.len() == 0 ==> result.authors == current.authors,
        incoming.countries@.len() > 0 ==> result.countries == incoming.countries,
        incoming.countries@.len() == 0 ==> result.countries == current.countries,
        incoming.seasons@.len() > 0 ==> result.seasons == incoming.seasons,
        incoming.seasons@.len() == 0 ==> result.seasons == current.seasons,
        incoming.episode_count != 0 ==> result.episode_count == incoming.episode_count,
        incoming.episode_count == 0 ==> result.episode_count == current.episode_count,
        incoming.views != 0 ==> result.views == incoming.views,
        incoming.views == 0 ==> result.views == current.views,
        result.is_featured == current.is_featured,
        forall|k: Seq<char>| #[trigger] result.extra@.contains_key(k) <==> (current.extra@.contains_key(k) || incoming.extra@.contains_key(k)),
        forall|k: Seq<char>| #[trigger] incoming.extra@.contains_key(k) ==> result.extra@[k] == incoming.extra@[k],
        forall|k: Seq<char>| current.extra@.contains_key(k) && !incoming.extra@.contains_key(k) ==> #[trigger] result.extra@[k] == current.extra@[k],
{
}

/// Copying the same anime in twice gives what copying it in once gives.
pub proof fn lemma_copy_from_idempotent(current: Anime, incoming: Anime, once: Anime, twice: Anime)
    requires
        Anime::copied_into(current, incoming, once),
        Anime::copied_into(once, incoming, twice),
    ensures
        Anime::same_values(once, twice),
{
    assert(twice.extra@ =~= once.extra@);
}

/// Copying `b` and then `c` into `a` gives what copying into `a` the result of copying
/// `c` into `b` gives: successive upgrades can be folded together first.
pub proof fn lemma_copy_from_associative(
    a: Anime,
    b: Anime,
    c: Anime,
    ab: Anime,
    ab_c: Anime,
    bc: Anime,
    a_bc: Anime,
)
    requires
        Anime::copied_into(a, b, ab),
        Anime::copied_into(ab, c, ab_c),
        Anime::copied_into(b, c, bc),
        Anime::copied_into(a, bc, a_bc),
    ensures
        Anime::same_values(ab_c, a_bc),
{
    assert(ab_c.extra@ =~= a_bc.extra@);
}

/// A page of anime entries.
#[derive(Default, Clone, Debug, PartialEq)]
pub struct AnimePageResult {
    /// List of anime entries.
    pub entries: Vec<Anime>,
    /// Whether the next page is available or not.
    pub has_next_page: bool,
}

/// The display type of a listing.
#[derive(Default, PartialEq, Eq, Clone, Copy, Debug)]
pub enum ListingKind {
    #[default]
    Default,
    List,
}

/// A listing of anime.
#[derive(Default, Clone, Debug, PartialEq)]
pub struct Listing {
    /// Unique identifier for the listing.
    pub id: String,
    /// Title of the listing.
    pub name: String,
    /// Type of listing.
    pub kind: ListingKind,
}

} // verus!
