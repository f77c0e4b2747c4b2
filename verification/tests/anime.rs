use komorei::{Anime, AnimeSeason, AnimeStatus, CategoryLink, Episode, Rating, StringMap};

fn link(name: &str) -> CategoryLink {
    CategoryLink { name: String::from(name), filters: Vec::new() }
}

fn lite() -> Anime {
    let mut extra = StringMap::new();
    extra.insert(String::from("avs.lite"), String::from("kept"));
    extra.insert(String::from("avs.shared"), String::from("old"));
    Anime {
        key: String::from("1"),
        source_id: String::from("en.example"),
        title: String::from("Lite title"),
        cover: String::from("https://example.com/lite.png"),
        description: Some(String::from("lite description")),
        banner: Some(String::from("lite banner")),
        episode_count: 12,
        views: 5,
        genres: vec![link("Action")],
        is_featured: true,
        rating: Some(Rating::from_bits(7.5f32.to_bits())),
        extra,
        ..Default::default()
    }
}

fn full() -> Anime {
    let mut extra = StringMap::new();
    extra.insert(String::from("avs.shared"), String::from("new"));
    extra.insert(String::from("avs.full"), String::from("added"));
    Anime {
        key: String::from("1"),
        source_id: String::from("en.example"),
        title: String::from("Full title"),
        original_title: String::from("Original"),
        cover: String::from("https://example.com/full.png"),
        description: Some(String::from("full description")),
        status: AnimeStatus::Completed,
        authors: vec![link("Author")],
        seasons: vec![AnimeSeason::new(String::from("2"), String::from("Season 2"))],
        episodes: Some(vec![Episode { key: String::from("e1"), ..Default::default() }]),
        url: Some(String::from("https://example.com/anime/1")),
        extra,
        ..Default::default()
    }
}

#[test]
fn copy_from_replaces_identity_fields() {
    let mut anime = lite();
    anime.copy_from(full());
    assert_eq!(anime.title, "Full title");
    assert_eq!(anime.original_title, "Original");
    assert_eq!(anime.cover, "https://example.com/full.png");
    assert_eq!(anime.status, AnimeStatus::Completed);
}

#[test]
fn copy_from_keeps_fields_the_full_pass_lacks() {
    let mut anime = lite();
    anime.copy_from(full());
    assert_eq!(anime.banner.as_deref(), Some("lite banner"));
    assert_eq!(anime.description.as_deref(), Some("full description"));
    assert_eq!(anime.episode_count, 12);
    assert_eq!(anime.views, 5);
    assert_eq!(anime.genres, vec![link("Action")]);
    assert_eq!(anime.authors, vec![link("Author")]);
    assert_eq!(anime.rating.map(|r| f32::from_bits(r.to_bits())), Some(7.5));
    assert_eq!(anime.episodes.as_ref().map(|e| e.len()), Some(1));
    assert_eq!(anime.url.as_deref(), Some("https://example.com/anime/1"));
    assert_eq!(anime.seasons.len(), 1);
}

#[test]
fn copy_from_keeps_featured_flag() {
    let mut anime = lite();
    anime.copy_from(full());
    assert!(anime.is_featured);
    let mut other = full();
    other.copy_from(lite());
    assert!(!other.is_featured);
}

#[test]
fn copy_from_merges_extras_with_incoming_winning() {
    let mut anime = lite();
    anime.copy_from(full());
    assert_eq!(anime.extra.get("avs.lite").map(|s| s.as_str()), Some("kept"));
    assert_eq!(anime.extra.get("avs.full").map(|s| s.as_str()), Some("added"));
    assert_eq!(anime.extra.get("avs.shared").map(|s| s.as_str()), Some("new"));
    assert_eq!(anime.extra.get("missing"), None);
}

#[test]
fn copy_from_twice_is_copy_from_once() {
    let mut once = lite();
    once.copy_from(full());
    let mut twice = once.clone();
    twice.copy_from(full());
    assert_eq!(once, twice);
}

#[test]
fn copy_from_folds_successive_upgrades() {
    let a = lite();
    let b = full();
    let mut c = Anime::default();
    c.title = String::from("Third");
    c.views = 42;
    let mut ab_c = a.clone();
    ab_c.copy_from(b.clone());
    ab_c.copy_from(c.clone());
    let mut bc = b.clone();
    bc.copy_from(c.clone());
    let mut a_bc = a.clone();
    a_bc.copy_from(bc);
    assert_eq!(ab_c, a_bc);
    assert_eq!(ab_c.views, 42);
    assert_eq!(ab_c.title, "Third");
}

#[test]
fn anime_season_new_uses_anime_id_as_identity() {
    let season = AnimeSeason::new(String::from("abc"), String::from("Season 1"));
    assert_eq!(season.anime_id, "abc");
    assert_eq!(season.title, "Season 1");
    assert_eq!(season.id, "abc");
}

#[test]
fn string_map_insert_returns_previous_value() {
    let mut m = StringMap::default();
    assert_eq!(m.insert(String::from("k"), String::from("1")), None);
    assert_eq!(m.insert(String::from("k"), String::from("2")), Some(String::from("1")));
    assert_eq!(m.get("k").map(|s| s.as_str()), Some("2"));
}

#[test]
fn rating_equality_follows_f32() {
    let nan = Rating::from_bits(f32::NAN.to_bits());
    assert!(nan != nan);
    assert!(Rating::from_bits(0.0f32.to_bits()) == Rating::from_bits((-0.0f32).to_bits()));
    assert!(Rating::from_bits(7.5f32.to_bits()) == Rating::from_bits(7.5f32.to_bits()));
    assert!(Rating::from_bits(7.5f32.to_bits()) != Rating::from_bits(8.0f32.to_bits()));
    let mut a = Anime::default();
    a.rating = Some(nan);
    assert!(a != a.clone());
    let mut zero = Anime::default();
    zero.rating = Some(Rating::from_bits(0.0f32.to_bits()));
    let mut negative_zero = Anime::default();
    negative_zero.rating = Some(Rating::from_bits((-0.0f32).to_bits()));
    assert_eq!(zero, negative_zero);
}
