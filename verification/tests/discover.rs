use qobuz_player::discover::{Genre, GenrePlaylistTag, PlaylistTag};
use qobuz_player::discover_load::{
    discover_sections, shows_album_shelf, timeout_outcome, AlbumShelf, DiscoverFetch, DiscoverLoad,
    DiscoverSection, LoadError, LoadStage, LoadStep, LOAD_TIMEOUT_SECONDS,
};

fn tag(name: &str, slug: &str) -> PlaylistTag {
    PlaylistTag { name: name.to_string(), slug: slug.to_string() }
}

fn tags() -> Vec<PlaylistTag> {
    vec![tag("New", "new"), tag("Focus", "focus"), tag("Focus again", "focus")]
}

#[test]
fn new_selection_is_empty() {
    let s = GenrePlaylistTag::new();
    assert_eq!(s.genre_id, None);
    assert!(s.playlist_tag.is_none());
}

#[test]
fn select_genre_reads_ids() {
    let mut s = GenrePlaylistTag::new();
    s.playlist_tag = Some(tag("New", "new"));
    s.select_genre("112");
    assert_eq!(s.genre_id, Some(112));
    assert!(s.playlist_tag.is_none());
    s.select_genre("all");
    assert_eq!(s.genre_id, None);
    s.select_genre("+7");
    assert_eq!(s.genre_id, Some(7));
    s.select_genre("007");
    assert_eq!(s.genre_id, Some(7));
    s.select_genre("4294967295");
    assert_eq!(s.genre_id, Some(u32::MAX));
}

#[test]
fn select_genre_unreadable_clears() {
    let mut s = GenrePlaylistTag::new();
    for bad in ["", "abc", "-1", " 5", "5 ", "4294967296", "+", "1_000", "ALL", "٣"] {
        s.genre_id = Some(3);
        s.select_genre(bad);
        assert_eq!(s.genre_id, None, "{bad}");
    }
}

#[test]
fn playlist_tag_pick_and_repeat() {
    let tags = tags();
    let mut s = GenrePlaylistTag::new();
    assert!(s.select_playlist_tag("focus", &tags));
    let picked = s.playlist_tag.clone().unwrap();
    assert_eq!(picked.name, "Focus");
    assert!(!s.select_playlist_tag("focus", &tags));
    assert_eq!(s.playlist_tag.as_ref().unwrap().name, "Focus");
    assert!(s.select_playlist_tag("new", &tags));
    assert_eq!(s.playlist_tag.as_ref().unwrap().slug, "new");
}

#[test]
fn playlist_tag_all() {
    let tags = tags();
    let mut s = GenrePlaylistTag::new();
    assert!(!s.select_playlist_tag("all", &tags));
    assert!(s.playlist_tag.is_none());
    s.select_playlist_tag("new", &tags);
    assert!(s.select_playlist_tag("all", &tags));
    assert!(s.playlist_tag.is_none());
}

#[test]
fn playlist_tag_unknown_slug() {
    let tags = tags();
    let mut s = GenrePlaylistTag::new();
    s.genre_id = Some(5);
    s.select_playlist_tag("new", &tags);
    assert!(s.select_playlist_tag("jazz", &tags));
    assert!(s.playlist_tag.is_none());
    assert!(s.select_playlist_tag("jazz", &tags));
    assert_eq!(s.genre_id, Some(5));
}

#[test]
fn labels() {
    let genres = vec![
        Genre { id: 1, name: "Pop".to_string() },
        Genre { id: 2, name: "Jazz".to_string() },
        Genre { id: 2, name: "Jazz again".to_string() },
    ];
    let mut s = GenrePlaylistTag::new();
    assert_eq!(s.genre_label(&genres), "All genres");
    assert_eq!(s.playlist_tag_label(), "All playlists");
    s.genre_id = Some(2);
    assert_eq!(s.genre_label(&genres), "Jazz");
    s.genre_id = Some(9);
    assert_eq!(s.genre_label(&genres), "All genres");
    s.playlist_tag = Some(tag("Focus", "focus"));
    assert_eq!(s.playlist_tag_label(), "Focus");
}

#[test]
fn playlist_request_of_selection() {
    let mut s = GenrePlaylistTag::new();
    let r = s.playlist_request();
    assert_eq!(r.genre_id, None);
    assert_eq!(r.playlist_slug, None);
    s.genre_id = Some(4);
    s.playlist_tag = Some(tag("Focus", "focus"));
    let r = s.playlist_request();
    assert_eq!(r.genre_id, Some(4));
    assert_eq!(r.playlist_slug.as_deref(), Some("focus"));
}

#[test]
fn load_error_messages() {
    assert_eq!(LoadError::Timeout.to_string(), "Request timed out");
    assert_eq!(LoadError::Request("boom".to_string()).to_string(), "boom");
    assert_eq!(LOAD_TIMEOUT_SECONDS, 10);
}

#[test]
fn timeout_outcomes() {
    assert!(matches!(timeout_outcome::<u8>(None), Err(LoadError::Timeout)));
    assert!(matches!(timeout_outcome(Some(Ok::<u8, String>(3))), Ok(3)));
    match timeout_outcome::<u8>(Some(Err("no".to_string()))) {
        Err(LoadError::Request(m)) => assert_eq!(m, "no"),
        _ => panic!("expected a request error"),
    }
}

#[test]
fn load_all_succeed() {
    let mut s = GenrePlaylistTag::new();
    s.genre_id = Some(6);
    s.playlist_tag = Some(tag("Focus", "focus"));
    let (mut load, step) = DiscoverLoad::start(&s);
    assert!(matches!(step, LoadStep::Fetch(DiscoverFetch::Discover)));
    assert_eq!(load.genre_id(), Some(6));
    assert_eq!(load.playlist_request().playlist_slug.as_deref(), Some("focus"));
    s.select_genre("all");
    assert_eq!(load.genre_id(), Some(6));
    assert!(matches!(load.advance(true), LoadStep::Fetch(DiscoverFetch::Genres)));
    assert!(matches!(load.advance(true), LoadStep::Fetch(DiscoverFetch::Playlists)));
    assert!(matches!(load.advance(true), LoadStep::ShowPage));
    assert_eq!(load.stage(), LoadStage::Shown);
}

#[test]
fn load_failures() {
    let s = GenrePlaylistTag::new();
    let expected = ["Failed to load Discover", "Failed to load genres", "Failed to load playlists"];
    for failing in 0..3 {
        let (mut load, _) = DiscoverLoad::start(&s);
        for _ in 0..failing {
            load.advance(true);
        }
        match load.advance(false) {
            LoadStep::ShowError(m) => assert_eq!(m, expected[failing]),
            _ => panic!("expected an error"),
        }
        assert_eq!(load.stage(), LoadStage::Failed);
    }
}

#[test]
fn sections_in_order() {
    let sections = discover_sections();
    assert_eq!(sections.len(), 7);
    assert_eq!(sections[0], DiscoverSection::Albums(AlbumShelf::NewReleases));
    assert_eq!(sections[1], DiscoverSection::Playlists);
    let titles: Vec<&str> = sections
        .iter()
        .filter_map(|s| match s {
            DiscoverSection::Albums(shelf) => Some(shelf.title()),
            DiscoverSection::Playlists => None,
        })
        .collect();
    assert_eq!(
        titles,
        vec![
            "New releases",
            "Essential Discography",
            "Qobuzissime",
            "Album of the week",
            "Press Accolades",
            "Most streamed"
        ]
    );
    assert!(!shows_album_shelf(0));
    assert!(shows_album_shelf(1));
}
