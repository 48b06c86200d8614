use hitster::application::pdf_generator::html_cards::{
    PdfGenerator as HtmlSheets, BACK_HEAD, DOCUMENT_END, FRONT_CARD, FRONT_HEAD, GRID_CLOSE, GRID_OPEN,
};
use hitster::application::pdf_generator::{CardSlot, PdfGenerator as DrawnSheets};
use hitster::domain::playlist::{Playlist, PlaylistId, Track};
use hitster::html_generator::HtmlGenerator;
use hitster::html_templates::{error_template, ERROR_PAGE_HEAD, ERROR_PAGE_TAIL, WELCOME_TEMPLATE};
use hitster::pdf_generator::PdfGenerator as SummarySheets;
use hitster::qr_generator::generate_qr_data_url;
use hitster::templates::CardTemplate;
use hitster::SongCard;

fn stored_track(title: &str, artist: &str, year: i32) -> Track {
    Track {
        title: title.to_string(),
        artist: artist.to_string(),
        year,
        spotify_url: "https://open.spotify.com/track/x".to_string(),
        album_cover_url: None,
    }
}

fn stored_playlist(n: usize) -> Playlist {
    Playlist {
        id: PlaylistId::from_uuid(1),
        spotify_id: None,
        name: "Mix".to_string(),
        tracks: (0..n).map(|i| stored_track(&format!("Song {}", i), "Artist", 2000)).collect(),
        created_at: None,
        updated_at: None,
    }
}

#[test]
fn test_card_template_variants() {
    let front = CardTemplate::Front { qr_data_url: "test_qr".to_string() };
    let back = CardTemplate::Back { title: "Test".to_string(), artist: "Artist".to_string(), year: "2023".to_string() };

    match front {
        CardTemplate::Front { qr_data_url } => {
            assert_eq!(qr_data_url, "test_qr");
        },
        CardTemplate::Back { .. } => panic!("Expected front card"),
    }

    match back {
        CardTemplate::Back { title, artist, year } => {
            assert_eq!(title, "Test");
            assert_eq!(artist, "Artist");
            assert_eq!(year, "2023");
        },
        CardTemplate::Front { .. } => panic!("Expected back card"),
    }
}

#[test]
fn test_qr_generation() {
    let result = generate_qr_data_url("https://example.com");
    assert!(result.is_ok());

    let url = result.unwrap();
    assert!(url.starts_with("data:image/png;base64,"));
}

#[test]
fn test_qr_with_empty_url() {
    let result = generate_qr_data_url("");
    assert!(result.is_ok());
}

#[test]
fn qr_link_holds_a_png() {
    let url = generate_qr_data_url("https://open.spotify.com/track/4u7EnebtmKWzUH433cf5Qv").unwrap();
    let body = &url["data:image/png;base64,".len()..];
    assert!(body.starts_with("iVBORw0KGgo"));
    assert_eq!(body.len() % 4, 0);
    assert_eq!(generate_qr_data_url("https://example.com").unwrap(), generate_qr_data_url("https://example.com").unwrap());
}

#[test]
fn card_page_alternates_fronts_and_backs() {
    let generator = HtmlGenerator::new().unwrap();
    let cards = vec![
        SongCard {
            title: "Bohemian <Rhapsody>".to_string(),
            artist: "Queen & Co".to_string(),
            year: "1975".to_string(),
            spotify_url: "https://open.spotify.com/track/4u7EnebtmKWzUH433cf5Qv".to_string(),
        },
        SongCard {
            title: "Hotel California".to_string(),
            artist: "Eagles".to_string(),
            year: "1976".to_string(),
            spotify_url: "https://open.spotify.com/track/40riOy7x9W7GXjyGp4pjAv".to_string(),
        },
    ];
    let page = generator.build_html_content(cards, "Classic Rock Test");
    assert_eq!(page.title, "Classic Rock Test");
    assert_eq!(page.total_cards, 2);
    assert_eq!(page.cards.len(), 4);
    match &page.cards[0] {
        CardTemplate::Front { qr_data_url } => {
            assert_eq!(qr_data_url, &generate_qr_data_url("https://open.spotify.com/track/4u7EnebtmKWzUH433cf5Qv").unwrap())
        },
        _ => panic!("Expected front card"),
    }
    match &page.cards[1] {
        CardTemplate::Back { title, artist, year } => {
            assert_eq!(title, "Bohemian &lt;Rhapsody&gt;");
            assert_eq!(artist, "Queen &amp; Co");
            assert_eq!(year, "1975");
        },
        _ => panic!("Expected back card"),
    }
    assert!(matches!(page.cards[2], CardTemplate::Front { .. }));
    assert!(matches!(&page.cards[3], CardTemplate::Back { title, .. } if title == "Hotel California"));
    let empty = HtmlGenerator::default().build_html_content(Vec::new(), "Nothing");
    assert_eq!(empty.total_cards, 0);
    assert!(empty.cards.is_empty());
}

#[test]
fn error_page_holds_message() {
    let page = error_template("playlist not found");
    assert_eq!(page, format!("{}playlist not found{}", ERROR_PAGE_HEAD, ERROR_PAGE_TAIL));
    assert!(page.contains("<p class=\"text-red-700 mb-4\">Failed to generate cards: playlist not found</p>"));
    assert!(WELCOME_TEMPLATE.starts_with("<!DOCTYPE html>"));
    assert!(WELCOME_TEMPLATE.contains("Generate Cards from Spotify Playlist"));
}

#[test]
fn drawn_sheet_layout() {
    let _generator = DrawnSheets::new();
    assert_eq!(DrawnSheets::card_slot(0), CardSlot { page: 0, row: 1, col: 0 });
    assert_eq!(DrawnSheets::card_slot(5), CardSlot { page: 0, row: 2, col: 2 });
    assert_eq!(DrawnSheets::card_slot(23), CardSlot { page: 0, row: 8, col: 2 });
    assert_eq!(DrawnSheets::card_slot(24), CardSlot { page: 1, row: 1, col: 0 });
    assert_eq!(DrawnSheets::page_count(0), 0);
    assert_eq!(DrawnSheets::page_count(24), 1);
    assert_eq!(DrawnSheets::page_count(25), 2);
}

#[test]
fn artist_lines_split_at_commas() {
    assert_eq!(DrawnSheets::artist_lines(&"A, B ,C".to_string()), vec!["A,", "B,", "C"]);
    assert_eq!(DrawnSheets::artist_lines(&"Solo".to_string()), vec!["Solo"]);
    assert_eq!(DrawnSheets::artist_lines(&"A, ,B".to_string()), vec!["A,", "B"]);
    assert_eq!(DrawnSheets::artist_lines(&"A, ".to_string()), vec!["A,"]);
    assert!(DrawnSheets::artist_lines(&"".to_string()).is_empty());
}

#[test]
fn html_front_sheet_pages() {
    let _generator = HtmlSheets::new();
    let one = HtmlSheets::generate_front_cards_html(&stored_playlist(1));
    assert_eq!(one, format!("{}{}{}{}{}", FRONT_HEAD, GRID_OPEN, FRONT_CARD, GRID_CLOSE, DOCUMENT_END));
    let none = HtmlSheets::generate_front_cards_html(&stored_playlist(0));
    assert_eq!(none, format!("{}{}", FRONT_HEAD, DOCUMENT_END));
    let many = HtmlSheets::generate_front_cards_html(&stored_playlist(25));
    assert_eq!(many.matches(FRONT_CARD).count(), 25);
    assert_eq!(many.matches(GRID_OPEN).count(), 2);
}

#[test]
fn html_back_sheet_escapes() {
    let mut playlist = stored_playlist(0);
    playlist.tracks.push(stored_track("R&B <Live>", "Artist", -5));
    let html = HtmlSheets::generate_back_cards_html(&playlist);
    assert!(html.starts_with(BACK_HEAD));
    assert!(html.contains("R&amp;B &lt;Live&gt;"));
    assert!(html.contains("<div class=\"track-year\">-5</div>"));
    assert!(html.ends_with(DOCUMENT_END));
}

#[test]
fn summary_pages() {
    let playlist = stored_playlist(12);
    let front = SummarySheets::front_page_lines(&playlist);
    assert_eq!(front.len(), 13);
    assert_eq!(front[0], "Playlist: Mix");
    assert_eq!(front[1], "Total tracks: 12");
    assert_eq!(front[2], "1. Song 0 - Artist (2000)");
    assert_eq!(front[12], "... and 2 more tracks");
    let short = SummarySheets::front_page_lines(&stored_playlist(2));
    assert_eq!(short.len(), 4);
    assert_eq!(SummarySheets::back_page_lines(3), vec!["HITSTER - Card Backs", "Total cards: 3"]);
    assert_eq!(SummarySheets::track_line(9, &stored_track("T", "A", -1)), "10. T - A (-1)");
    assert_eq!(SummarySheets::track_line(41, &stored_track("T", "A", 1999)), "42. T - A (1999)");
}
