use radio_core::caption::caption_text;
use radio_core::caption::usize_to_string;
use radio_core::errors::SelectionError;
use radio_core::repo::AlbumRecord;
use radio_core::repo::DiscRecord;
use radio_core::repo::RepoManager;
use radio_core::repo::TrackRecord;
use radio_core::repo::TrackRef;
use radio_core::repo::TrackType;
use radio_core::selector::SelectionStrategy;
use radio_core::selector::TrackList;
use radio_core::selector::TrackSelector;

fn track(title: &str, artist: &str, track_type: TrackType) -> TrackRecord {
    TrackRecord { title: String::from(title), artist: String::from(artist), track_type }
}

fn album(id: &str, title: &str, discs: Vec<DiscRecord>) -> AlbumRecord {
    AlbumRecord { album_id: String::from(id), title: String::from(title), discs }
}

fn mixed_album() -> AlbumRecord {
    album(
        "CAT-001",
        "First Album",
        vec![DiscRecord {
            tracks: vec![
                track("Alpha", "Ann", TrackType::Normal),
                track("Beta", "Ben", TrackType::Instrumental),
                track("Gamma", "Gil", TrackType::Normal),
            ],
        }],
    )
}

#[test]
fn load_album_finds_by_id() {
    let repo = RepoManager::new(vec![mixed_album(), album("CAT-002", "Second", vec![])]);
    let found = repo.load_album(&String::from("CAT-002")).expect("album should be found");
    assert_eq!(found.title, "Second");
    assert!(repo.load_album(&String::from("CAT-404")).is_none());
}

#[test]
fn filter_tracks_keeps_only_playable_in_order() {
    let repo = RepoManager::new(vec![mixed_album()]);
    let ids = vec![String::from("CAT-001")];
    let list = repo.filter_tracks(&ids);
    assert_eq!(list.len(), 2);
    let first = list.get(0);
    assert_eq!(first.title, "Alpha");
    assert_eq!(first.disc_id, 1);
    assert_eq!(first.track_id, 1);
    assert_eq!(first.disc_total, 3);
    assert_eq!(first.album_title, "First Album");
    assert_eq!(first.album_id, "CAT-001");
    let second = list.get(1);
    assert_eq!(second.title, "Gamma");
    assert_eq!(second.track_id, 3);
    assert!(matches!(second.track_type, TrackType::Normal));
}

#[test]
fn filter_tracks_walks_discs_and_albums_in_order() {
    let two_discs = album(
        "CAT-010",
        "Doubles",
        vec![
            DiscRecord { tracks: vec![track("D1T1", "a", TrackType::Normal)] },
            DiscRecord {
                tracks: vec![
                    track("D2T1", "b", TrackType::Drama),
                    track("D2T2", "c", TrackType::Normal),
                ],
            },
        ],
    );
    let repo = RepoManager::new(vec![two_discs, mixed_album()]);
    let ids = vec![String::from("CAT-001"), String::from("CAT-010"), String::from("CAT-404")];
    let list = repo.filter_tracks(&ids);
    assert_eq!(list.len(), 4);
    assert_eq!(list.get(0).title, "Alpha");
    assert_eq!(list.get(1).title, "Gamma");
    let third = list.get(2);
    assert_eq!(third.title, "D1T1");
    assert_eq!(third.disc_id, 1);
    assert_eq!(third.disc_total, 1);
    let fourth = list.get(3);
    assert_eq!(fourth.title, "D2T2");
    assert_eq!(fourth.disc_id, 2);
    assert_eq!(fourth.track_id, 2);
    assert_eq!(fourth.disc_total, 2);
}

#[test]
fn empty_corpus_is_a_selection_error() {
    let list = TrackList::new(Vec::new());
    assert!(matches!(list.random(), Err(SelectionError::EmptyCorpus)));
    let selector = TrackSelector::new(SelectionStrategy::FlatUniform, Vec::new());
    assert!(matches!(selector.random(), Err(SelectionError::EmptyCorpus)));
}

#[test]
fn single_candidate_is_always_drawn() {
    let repo = RepoManager::new(vec![album(
        "CAT-9",
        "Solo",
        vec![DiscRecord { tracks: vec![track("Only", "One", TrackType::Normal)] }],
    )]);
    let list = repo.filter_tracks(&vec![String::from("CAT-9")]);
    for _ in 0..100 {
        let t = list.random().expect("nonempty list must yield a track");
        assert_eq!(t.title, "Only");
    }
}

#[test]
fn selector_never_returns_excluded_type() {
    let repo = RepoManager::new(vec![mixed_album()]);
    let ids = vec![String::from("CAT-001")];
    let flat = repo.filter_tracks(&ids);
    for _ in 0..1000 {
        let t = flat.random().expect("two playable candidates exist");
        assert!(matches!(t.track_type, TrackType::Normal));
        assert_ne!(t.title, "Beta");
    }
}

#[test]
fn selector_strategies_stay_within_corpus() {
    let other = album(
        "CAT-002",
        "Second Album",
        vec![DiscRecord {
            tracks: vec![
                track("Delta", "Dee", TrackType::Normal),
                track("Epsilon", "Eve", TrackType::Radio),
            ],
        }],
    );
    let repo = RepoManager::new(vec![mixed_album(), other]);
    let ids = vec![String::from("CAT-001"), String::from("CAT-002")];
    let groups = repo.filter_tracks_by_album(&ids);
    assert_eq!(groups.len(), 2);
    assert_eq!(groups[0].len(), 2);
    assert_eq!(groups[1].len(), 1);
    let flat = TrackSelector::new(SelectionStrategy::FlatUniform, repo.filter_tracks_by_album(&ids));
    let by_album = TrackSelector::new(SelectionStrategy::AlbumThenTrack, groups);
    for _ in 0..500 {
        let t = flat.random().expect("three candidates exist");
        assert!(matches!(t.track_type, TrackType::Normal));
        let u = by_album.random().expect("three candidates exist");
        assert!(matches!(u.track_type, TrackType::Normal));
        assert!(u.title == "Alpha" || u.title == "Gamma" || u.title == "Delta");
    }
}

#[test]
fn decimal_rendering_is_exact() {
    assert_eq!(usize_to_string(0), "0");
    assert_eq!(usize_to_string(7), "7");
    assert_eq!(usize_to_string(10), "10");
    assert_eq!(usize_to_string(905), "905");
    assert_eq!(usize_to_string(18446744073709551615), "18446744073709551615");
}

#[test]
fn caption_is_composed_from_the_track() {
    let t = TrackRef {
        album_id: String::from("C-1"),
        disc_id: 1,
        track_id: 2,
        disc_total: 10,
        title: String::from("T"),
        artist: String::from("Ar"),
        album_title: String::from("Al"),
        track_type: TrackType::Normal,
    };
    let caption = caption_text(&t);
    assert_eq!(caption, "Track 2/10\nTitle: T\nArtist: Ar\nAlbum: Al\nCatalog: C-1\n");
}

#[test]
fn album_without_playable_tracks_contributes_nothing() {
    let silent = album(
        "CAT-020",
        "Voiceless",
        vec![DiscRecord {
            tracks: vec![
                track("Hum", "h", TrackType::Instrumental),
                track("Talk", "t", TrackType::Drama),
            ],
        }],
    );
    let repo = RepoManager::new(vec![silent]);
    let ids = vec![String::from("CAT-020")];
    let list = repo.filter_tracks(&ids);
    assert_eq!(list.len(), 0);
    let groups = repo.filter_tracks_by_album(&ids);
    assert!(groups.is_empty());
    let selector = TrackSelector::new(SelectionStrategy::AlbumThenTrack, groups);
    assert!(matches!(selector.random(), Err(SelectionError::EmptyCorpus)));
}
