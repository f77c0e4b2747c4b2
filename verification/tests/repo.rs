use komorei::repo::{
    fill_repo_name,
    list_name, repo_name, scaffold_action, scaffold_dirs, scaffold_files, scanned_containers,
    select_sources, Container, DiscoverError, ScaffoldAction, SourceCandidate, DEFAULT_NAME,
    REPO_GITIGNORE, REPO_README,
};
use komorei::{DeepLinkResult, ImageRef, ImageRequest, ImageResponse, Listing, ListingKind, StringMap};

fn crate_dir(name: &str) -> SourceCandidate {
    SourceCandidate {
        name: name.as_bytes().to_vec(),
        is_dir: true,
        has_manifest: true,
        has_source_json: true,
        has_skip_marker: false,
    }
}

#[test]
fn select_sources_sorts_filters_and_skips() {
    let mut skipped = crate_dir("vi.skipped");
    skipped.has_skip_marker = true;
    let mut file = crate_dir("notes.txt");
    file.is_dir = false;
    let mut no_manifest = crate_dir("templates");
    no_manifest.has_manifest = false;
    let mut no_json = crate_dir("vi.half");
    no_json.has_source_json = false;
    let candidates = vec![
        crate_dir("vi.ophim"),
        skipped,
        file,
        crate_dir("en.example"),
        no_manifest,
        no_json,
        crate_dir("vi.animevietsub"),
    ];
    let sel = select_sources(&candidates);
    assert_eq!(
        sel.sources,
        vec![b"en.example".to_vec(), b"vi.animevietsub".to_vec(), b"vi.ophim".to_vec()]
    );
    assert_eq!(sel.skipped, vec![b"vi.skipped".to_vec()]);
    assert_eq!(sel.into_sources().map(|s| s.len()), Ok(3));
}

#[test]
fn select_sources_removes_duplicates() {
    let candidates = vec![crate_dir("b"), crate_dir("a"), crate_dir("b"), crate_dir("ab")];
    let sel = select_sources(&candidates);
    assert_eq!(sel.sources, vec![b"a".to_vec(), b"ab".to_vec(), b"b".to_vec()]);
}

#[test]
fn no_sources_is_an_error() {
    let mut skipped = crate_dir("only");
    skipped.has_skip_marker = true;
    let sel = select_sources(&vec![skipped]);
    assert_eq!(sel.skipped, vec![b"only".to_vec()]);
    assert_eq!(sel.into_sources(), Err(DiscoverError::NoSources));
    assert_eq!(select_sources(&Vec::new()).into_sources(), Err(DiscoverError::NoSources));
}

#[test]
fn scanned_containers_fall_back_to_root() {
    assert_eq!(scanned_containers(true), vec![Container::SourcesDir]);
    assert_eq!(scanned_containers(false), vec![Container::SourcesDir, Container::Root]);
}

#[test]
fn names_default() {
    assert_eq!(repo_name(Some(String::from("Mine")), Some(String::from("dir"))), "Mine");
    assert_eq!(repo_name(None, Some(String::from("dir"))), "dir");
    assert_eq!(repo_name(None, None), "Komorei Sources");
    assert_eq!(list_name(None), DEFAULT_NAME);
    assert_eq!(list_name(Some(String::from("List"))), "List");
}

#[test]
fn scaffold_plan_lists_every_file() {
    let files = scaffold_files("My Repo");
    let paths: Vec<&str> = files.iter().map(|f| f.path.as_str()).collect();
    assert_eq!(
        paths,
        vec![
            ".gitignore",
            "rustfmt.toml",
            "README.md",
            "CONTRIBUTING.md",
            ".github/workflows/build.yaml",
            ".github/workflows/pr.yaml",
            "templates/README.md",
        ]
    );
    assert_eq!(files[0].contents, REPO_GITIGNORE);
    assert_eq!(files[2].contents, REPO_README);
    assert_eq!(scaffold_dirs(), vec![String::from("sources"), String::from("templates")]);
}

#[test]
fn scaffold_never_overwrites() {
    assert_eq!(scaffold_action(true), ScaffoldAction::Skip);
    assert_eq!(scaffold_action(false), ScaffoldAction::Create);
}

#[test]
fn deep_link_fields_per_kind() {
    let anime = DeepLinkResult::Anime { key: String::from("a") }.into_fields();
    assert_eq!(anime.anime_key.as_deref(), Some("a"));
    assert_eq!(anime.episode_key, None);
    assert_eq!(anime.listing, None);
    let episode =
        DeepLinkResult::Episode { anime_key: String::from("a"), key: String::from("e") }
            .into_fields();
    assert_eq!(episode.anime_key.as_deref(), Some("a"));
    assert_eq!(episode.episode_key.as_deref(), Some("e"));
    let listing = Listing { id: String::from("l"), name: String::from("L"), kind: ListingKind::List };
    let fields = DeepLinkResult::Listing(listing.clone()).into_fields();
    assert_eq!(fields.anime_key, None);
    assert_eq!(fields.listing, Some(listing));
}

#[test]
fn fill_repo_name_replaces_every_placeholder() {
    assert_eq!(
        fill_repo_name("# {{REPO_NAME}}\nsee {{REPO_NAME}} {{REPO", "Mine"),
        "# Mine\nsee Mine {{REPO"
    );
    assert_eq!(fill_repo_name("no placeholder", "Mine"), "no placeholder");
}

#[test]
fn image_response_carries_its_parts() {
    let mut headers = StringMap::new();
    headers.insert(String::from("Content-Type"), String::from("image/png"));
    let response = ImageResponse {
        code: 200,
        headers,
        request: ImageRequest { url: Some(String::from("https://example.com/c.png")), headers: StringMap::new() },
        image: ImageRef { rid: 4, externally_managed: false },
    };
    assert_eq!(response.code, 200);
    assert_eq!(response.image.rid, 4);
    assert_eq!(response.headers.get("Content-Type").map(|s| s.as_str()), Some("image/png"));
}
