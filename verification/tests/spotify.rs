use hitster::application::models::PlaylistId as ModelPlaylistId;
use hitster::domain::playlist::SpotifyId as StoredSpotifyId;
use hitster::infrastructure::spotify::mapper::{map_full_playlist, track_from_parts as card_from_parts, TrackParts};
use hitster::infrastructure::spotify::service::{
    page_offsets, playlist_from_spotify, playlist_without_tracks, spotify_playlist_id_of, track_from_parts,
    tracks_from_items,
};
use hitster::infrastructure::spotify_service::{lenient_track_from_parts, playlist_from_items};
use hitster::spotify_service::{
    song_card_from_parts, song_cards_from_items, spotify_playlist_id, PlaylistId as ServicePlaylistId,
};
use hitster::SongCard;

fn parts(name: &str, artists: &[&str], date: Option<&str>, url: Option<&str>) -> TrackParts {
    TrackParts {
        name: name.to_string(),
        artist_names: artists.iter().map(|a| a.to_string()).collect(),
        release_date: date.map(|d| d.to_string()),
        spotify_url: url.map(|u| u.to_string()),
        first_image_url: Some("https://i.scdn.co/image/cover".to_string()),
    }
}

#[test]
fn mapper_test_playlist_id_from_valid_url() {
    let url = "https://open.spotify.com/playlist/37i9dQZF1DXcBWIGoYBM5M";
    let result: Result<ModelPlaylistId, _> = url.parse();
    assert!(result.is_ok());
    assert_eq!(result.unwrap().as_str(), "37i9dQZF1DXcBWIGoYBM5M");
}

#[test]
fn mapper_test_playlist_id_from_id_string() {
    let id = "37i9dQZF1DXcBWIGoYBM5M";
    let result: Result<ModelPlaylistId, _> = id.parse();
    assert!(result.is_ok());
    assert_eq!(result.unwrap().as_str(), "37i9dQZF1DXcBWIGoYBM5M");
}

#[test]
fn mapper_test_playlist_id_from_url_with_query_params() {
    let url = "https://open.spotify.com/playlist/37i9dQZF1DXcBWIGoYBM5M?si=abc123";
    let result: Result<ModelPlaylistId, _> = url.parse();
    assert!(result.is_ok());
    assert_eq!(result.unwrap().as_str(), "37i9dQZF1DXcBWIGoYBM5M");
}

#[test]
fn mapper_test_playlist_id_from_empty_string() {
    let url = "";
    let result: Result<ModelPlaylistId, _> = url.parse();
    assert!(result.is_err());
}

#[test]
fn mapper_test_playlist_id_from_no_id() {
    let url = "https://open.spotify.com/playlist/";
    let result: Result<ModelPlaylistId, _> = url.parse();
    assert!(result.is_err());
}

#[test]
fn spotify_service_test_playlist_id_from_valid_url() {
    let url = "https://open.spotify.com/playlist/37i9dQZF1DXcBWIGoYBM5M";
    let result: Result<ModelPlaylistId, _> = url.parse();
    assert!(result.is_ok());
    assert_eq!(result.unwrap().as_str(), "37i9dQZF1DXcBWIGoYBM5M");
    let result: Result<ServicePlaylistId, _> = url.parse();
    assert!(result.is_ok());
    assert_eq!(result.unwrap().as_str(), "37i9dQZF1DXcBWIGoYBM5M");
}

#[test]
fn spotify_service_test_playlist_id_from_id_string() {
    let id = "37i9dQZF1DXcBWIGoYBM5M";
    let result: Result<ModelPlaylistId, _> = id.parse();
    assert!(result.is_ok());
    assert_eq!(result.unwrap().as_str(), "37i9dQZF1DXcBWIGoYBM5M");
    let result: Result<ServicePlaylistId, _> = id.parse();
    assert!(result.is_ok());
    assert_eq!(result.unwrap().as_str(), "37i9dQZF1DXcBWIGoYBM5M");
}

#[test]
fn spotify_service_test_playlist_id_from_url_with_query_params() {
    let url = "https://open.spotify.com/playlist/37i9dQZF1DXcBWIGoYBM5M?si=abc123";
    let result: Result<ModelPlaylistId, _> = url.parse();
    assert!(result.is_ok());
    assert_eq!(result.unwrap().as_str(), "37i9dQZF1DXcBWIGoYBM5M");
    let result: Result<ServicePlaylistId, _> = url.parse();
    assert!(result.is_ok());
    assert_eq!(result.unwrap().as_str(), "37i9dQZF1DXcBWIGoYBM5M");
}

#[test]
fn spotify_service_test_playlist_id_from_empty_string() {
    let url = "";
    let result: Result<ModelPlaylistId, _> = url.parse();
    assert!(result.is_err());
    let result: Result<ServicePlaylistId, _> = url.parse();
    assert!(result.is_err());
}

#[test]
fn spotify_service_test_playlist_id_from_no_id() {
    let url = "https://open.spotify.com/playlist/";
    let result: Result<ModelPlaylistId, _> = url.parse();
    assert!(result.is_err());
    let result: Result<ServicePlaylistId, _> = url.parse();
    assert!(result.is_err());
}

#[test]
fn test_playlist_id_from_invalid_url() {
    let url = "https://open.spotify.com/invalid/37i9dQZF1DXcBWIGoYBM5M";
    let result: Result<ServicePlaylistId, _> = url.parse();
    assert!(result.is_ok());
    assert_eq!(result.unwrap().as_str(), "https://open.spotify.com/invalid/37i9dQZF1DXcBWIGoYBM5M");
}

#[test]
fn service_playlist_id_error_messages() {
    assert_eq!(ServicePlaylistId::from_str(""), Err("Playlist ID cannot be empty".to_string()));
    assert_eq!(
        ServicePlaylistId::from_str("https://open.spotify.com/playlist/"),
        Err("Invalid playlist URL: missing ID".to_string())
    );
    assert_eq!(
        ServicePlaylistId::from_str("https://open.spotify.com/playlist/?si=1"),
        Err("Invalid playlist URL: empty ID".to_string())
    );
    assert_eq!(ServicePlaylistId::extract_playlist_id_from_url(""), Err("URL cannot be empty".to_string()));
    assert_eq!(ServicePlaylistId::extract_playlist_id_from_url("a/b?c"), Ok("b".to_string()));
}

#[test]
fn spotify_service_test_playlist_creation() {
    let playlist_id: ModelPlaylistId = "37i9dQZF1DXcBWIGoYBM5M".parse().unwrap();
    let tracks = vec![hitster::application::models::Track::new(
        "Test Song".to_string(),
        "Test Artist".to_string(),
        "2023".to_string(),
        "https://open.spotify.com/track/test".to_string(),
    )];
    let playlist = hitster::application::models::Playlist::with_tracks(playlist_id, "Test Playlist".to_string(), tracks);
    assert_eq!(playlist.name, "Test Playlist");
    assert_eq!(playlist.tracks.len(), 1);
    assert_eq!(playlist.tracks[0].title, "Test Song");
}

#[test]
fn test_spotify_playlist_url_parsing() {
    let test_cases = vec![
        ("https://open.spotify.com/playlist/37i9dQZF1DXcBWIGoYBM5M", "37i9dQZF1DXcBWIGoYBM5M"),
        ("spotify:playlist:37i9dQZF1DXcBWIGoYBM5M", "37i9dQZF1DXcBWIGoYBM5M"),
        ("37i9dQZF1DXcBWIGoYBM5M", "37i9dQZF1DXcBWIGoYBM5M"),
    ];

    for (input, expected) in test_cases {
        let result = ModelPlaylistId::from_str(input).map(|id| id.into_string());
        assert!(result.is_ok(), "Failed to parse URL: {}", input);
        assert_eq!(result.unwrap(), expected);
    }
}

#[test]
fn test_song_card_creation() {
    let card = SongCard {
        title: "Test Song".to_string(),
        artist: "Test Artist".to_string(),
        year: "2023".to_string(),
        spotify_url: "https://open.spotify.com/track/test".to_string(),
    };

    assert_eq!(card.title, "Test Song");
    assert_eq!(card.artist, "Test Artist");
    assert_eq!(card.year, "2023");
    assert_eq!(card.spotify_url, "https://open.spotify.com/track/test");
}

#[test]
fn song_cards_take_what_spotify_gives() {
    let card = song_card_from_parts(parts("Song", &["A", "B"], Some("1999-03-01"), Some("https://x")));
    assert_eq!(card.artist, "A, B");
    assert_eq!(card.year, "1999");
    assert_eq!(card.spotify_url, "https://x");
    let bare = song_card_from_parts(parts("Song", &[], None, None));
    assert_eq!(bare.artist, "");
    assert_eq!(bare.year, "Unknown");
    assert_eq!(bare.spotify_url, "");
    let track = lenient_track_from_parts(parts("Song", &["A"], Some("2001"), None));
    assert_eq!(track.year, "2001");
    assert_eq!(track.spotify_url, "");
}

#[test]
fn strict_cards_need_date_and_link() {
    let card = card_from_parts(parts("Song", &["A", "B", "C"], Some("2010-01-01"), Some("u"))).unwrap();
    assert_eq!(card.artist, "A, B, C");
    assert_eq!(card.year, "2010");
    assert_eq!(card_from_parts(parts("Song", &["A"], None, Some("u"))), Err("No year found".to_string()));
    assert_eq!(card_from_parts(parts("Song", &["A"], Some("2010"), None)), Err("No url found".to_string()));
}

#[test]
fn stored_tracks_read_the_release_year() {
    let t = track_from_parts(parts("Song", &["A"], Some("1987-06-15"), Some("u"))).unwrap();
    assert_eq!(t.year, 1987);
    assert_eq!(t.album_cover_url, Some("https://i.scdn.co/image/cover".to_string()));
    let t = track_from_parts(parts("Song", &["A"], Some("1975"), Some("u"))).unwrap();
    assert_eq!(t.year, 1975);
    assert_eq!(
        track_from_parts(parts("Song", &["A"], None, Some("u"))).unwrap_err(),
        "Missing release date for track: Song"
    );
    assert_eq!(
        track_from_parts(parts("Song", &["A"], Some(""), Some("u"))).unwrap_err(),
        "Empty release date for track: Song"
    );
    assert_eq!(
        track_from_parts(parts("Song", &["A"], Some("0000"), Some("u"))).unwrap_err(),
        "Year cannot be zero for track: Song"
    );
    assert_eq!(
        track_from_parts(parts("Song", &["A"], Some("19x5"), Some("u"))).unwrap_err(),
        "Invalid year format 19x5"
    );
    assert_eq!(
        track_from_parts(parts("Song", &["A"], Some("1987-13"), Some("u"))).unwrap_err(),
        "Invalid date format 1987-13"
    );
    assert_eq!(
        track_from_parts(parts("Song", &["A"], Some("1987"), None)).unwrap_err(),
        "Missing Spotify URL for track: Song"
    );
}

#[test]
fn playlist_items_keep_converting_tracks_in_order() {
    let items = vec![
        Some(parts("One", &["A"], Some("2001"), Some("u1"))),
        None,
        Some(parts("Two", &["B"], None, Some("u2"))),
        Some(parts("Three", &["C"], Some("2003-02-02"), Some("u3"))),
    ];
    let tracks = tracks_from_items(&items);
    assert_eq!(tracks.len(), 2);
    assert_eq!(tracks[0].title, "One");
    assert_eq!(tracks[1].title, "Three");
    assert_eq!(tracks[1].year, 2003);

    let id = StoredSpotifyId::from_str("37i9dQZF1DXcBWIGoYBM5M").unwrap();
    let playlist = playlist_from_spotify(&id, "Mix".to_string(), &items);
    assert_eq!(playlist.name, "Mix");
    assert_eq!(playlist.tracks.len(), 2);
    assert_eq!(playlist.spotify_id, Some(id.clone()));
    assert_eq!(playlist.created_at, None);
    let bare = playlist_without_tracks(&id, "Mix".to_string());
    assert!(bare.tracks.is_empty());
    assert_eq!(bare.spotify_id, Some(id));
}

#[test]
fn full_playlist_fails_on_first_bad_track() {
    let good = vec![
        Some(parts("One", &["A"], Some("2001-01-01"), Some("u1"))),
        None,
        Some(parts("Two", &["B"], Some("2002"), Some("u2"))),
    ];
    let playlist = map_full_playlist("spotify:playlist:37i9dQZF1DXcBWIGoYBM5M", "Mix".to_string(), &good).unwrap();
    assert_eq!(playlist.id.as_str(), "37i9dQZF1DXcBWIGoYBM5M");
    assert_eq!(playlist.tracks.len(), 2);
    assert_eq!(playlist.tracks[0].year, "2001");

    let bad = vec![
        Some(parts("One", &["A"], Some("2001"), None)),
        Some(parts("Two", &["B"], None, Some("u2"))),
    ];
    assert_eq!(
        map_full_playlist("37i9dQZF1DXcBWIGoYBM5M", "Mix".to_string(), &bad).unwrap_err(),
        "No url found"
    );
    assert_eq!(
        map_full_playlist("not/an:id", "Mix".to_string(), &good).unwrap_err(),
        "Invalid Spotify playlist format"
    );
}

#[test]
fn remaining_pages_start_after_first_hundred() {
    assert_eq!(page_offsets(250, 100), vec![100, 200]);
    assert_eq!(page_offsets(99, 100), Vec::<u32>::new());
    assert_eq!(page_offsets(100, 50), vec![100, 150]);
}

#[test]
fn lenient_cards_skip_only_non_tracks() {
    let items = vec![
        None,
        Some(parts("One", &["A"], None, None)),
        Some(parts("Two", &["B", "C"], Some("1999-12-31"), Some("u2"))),
        None,
    ];
    let cards = song_cards_from_items(&items);
    assert_eq!(cards.len(), 2);
    assert_eq!(cards[0].year, "Unknown");
    assert_eq!(cards[0].spotify_url, "");
    assert_eq!(cards[1].artist, "B, C");
    assert_eq!(cards[1].year, "1999");

    let id = ModelPlaylistId("37i9dQZF1DXcBWIGoYBM5M".to_string());
    let playlist = playlist_from_items(id.clone(), "Mix".to_string(), &items);
    assert_eq!(playlist.id, id);
    assert_eq!(playlist.tracks.len(), 2);
    assert_eq!(playlist.tracks[1].title, "Two");
    assert_eq!(playlist.tracks[0].year, "Unknown");
}

#[test]
fn spotify_accepts_only_ascii_playlist_ids() {
    let id: ServicePlaylistId = "37i9dQZF1DXcBWIGoYBM5M".parse().unwrap();
    assert_eq!(spotify_playlist_id(&id), Ok("37i9dQZF1DXcBWIGoYBM5M".to_string()));
    let accented: ServicePlaylistId = "caf\u{e9}".parse().unwrap();
    assert!(spotify_playlist_id(&accented).is_err());
    let with_query: ServicePlaylistId = "https://open.spotify.com/invalid/x".parse().unwrap();
    assert!(spotify_playlist_id(&with_query).is_err());

    let stored = StoredSpotifyId::from_str("37i9dQZF1DXcBWIGoYBM5M").unwrap();
    assert_eq!(spotify_playlist_id_of(&stored), Ok("37i9dQZF1DXcBWIGoYBM5M".to_string()));
    let stored_accented = StoredSpotifyId::from_str("caf\u{e9}").unwrap();
    assert!(spotify_playlist_id_of(&stored_accented).is_err());
}
