use hitster::application::models::{JobId, JobType, Playlist, PlaylistId, Track};
use hitster::domain::errors::DomainError;
use hitster::domain::job::{Job as DomainJob, JobId as DomainJobId, JobKind, JobStatus};
use hitster::domain::pdf::Pdf;
use hitster::domain::playlist::{PlaylistId as StoreId, SpotifyId as StoredSpotifyId};
use hitster::domain::services::{JobDomainService, PlaylistDomainService};
use hitster::domain::spotify_id::{SpotifyId, SpotifyIdParserError};
use hitster::time::Timestamp;

#[test]
fn test_domain_error_display() {
    assert_eq!(DomainError::PlaylistNotFound("test".to_string()).to_string(), "Playlist not found: test");
    assert_eq!(DomainError::InvalidPlaylistId("test".to_string()).to_string(), "Invalid playlist ID: test");
    assert_eq!(DomainError::JobNotFound("test".to_string()).to_string(), "Job not found: test");
    assert_eq!(DomainError::PdfGenerationFailed("test".to_string()).to_string(), "PDF generation failed: test");
}

#[test]
fn domain_error_display_other_variants() {
    assert_eq!(DomainError::InvalidJobId("x".to_string()).to_string(), "Invalid job ID: x");
    assert_eq!(DomainError::PdfNotFound("x".to_string()).to_string(), "PDF not found: x");
    assert_eq!(DomainError::InvalidPdfSide("x".to_string()).to_string(), "Invalid PDF side: x");
    assert_eq!(DomainError::SpotifyError("x".to_string()).to_string(), "Spotify API error: x");
    assert_eq!(DomainError::ValidationError("x".to_string()).to_string(), "Validation error: x");
    assert_eq!(DomainError::BusinessRuleViolation("x".to_string()).to_string(), "Business rule violation: x");
}

#[test]
fn test_domain_error_to_anyhow() {
    let domain_err = DomainError::PlaylistNotFound("test".to_string());
    let anyhow_err: anyhow::Error = anyhow::Error::msg(domain_err.to_string());
    assert_eq!(anyhow_err.to_string(), "Playlist not found: test");
}

#[test]
fn test_anyhow_to_domain_error() {
    let anyhow_err = anyhow::Error::msg("test error");
    let domain_err: DomainError = DomainError::from_error_message(anyhow_err.to_string());
    assert!(matches!(domain_err, DomainError::ValidationError(_)));
    assert_eq!(domain_err.to_string(), "Validation error: test error");
}

#[test]
fn test_pdf_into_vec() {
    let data = vec![1, 2, 3];
    let pdf: Pdf = data.clone().into();
    let result: Vec<u8> = pdf.into();
    assert_eq!(result, data);
}

#[test]
fn pdf_bytes_and_length() {
    let pdf = Pdf::new(vec![37, 80, 68, 70]);
    assert_eq!(pdf.len(), 4);
    assert_eq!(pdf.as_bytes(), &[37u8, 80, 68, 70][..]);
    assert_eq!(pdf.into_bytes(), vec![37, 80, 68, 70]);
}

fn one_track_playlist() -> Playlist {
    let id = PlaylistId::from_str("3vnwX8FuGWpGgQX4hBa8sE").unwrap();
    Playlist::with_tracks(
        id,
        "Test Playlist".to_string(),
        vec![Track::new("Song".to_string(), "Artist".to_string(), "2023".to_string(), "url".to_string())],
    )
}

#[test]
fn test_validate_playlist_id_valid() {
    let service = PlaylistDomainService::new();
    let result = service.validate_playlist_id("3vnwX8FuGWpGgQX4hBa8sE");
    assert!(result.is_ok());
}

#[test]
fn test_validate_playlist_id_invalid() {
    let service = PlaylistDomainService::new();
    let result = service.validate_playlist_id("invalid");
    assert!(result.is_err());
    assert!(matches!(result.unwrap_err(), DomainError::InvalidPlaylistId(_)));
}

#[test]
fn test_validate_playlist_valid() {
    let service = PlaylistDomainService::new();
    let result = service.validate_playlist(&one_track_playlist());
    assert!(result.is_ok());
}

#[test]
fn test_validate_playlist_empty_name() {
    let service = PlaylistDomainService::new();
    let id = PlaylistId::from_str("3vnwX8FuGWpGgQX4hBa8sE").unwrap();
    let playlist = Playlist::new(id, "".to_string());
    let result = service.validate_playlist(&playlist);
    assert!(result.is_err());
    assert!(matches!(result.unwrap_err(), DomainError::ValidationError(_)));
}

#[test]
fn validate_playlist_reports_first_invalid_track() {
    let service = PlaylistDomainService::new();
    let id = PlaylistId::from_str("3vnwX8FuGWpGgQX4hBa8sE").unwrap();
    let playlist = Playlist::with_tracks(
        id,
        "Mix".to_string(),
        vec![
            Track::new("A".to_string(), "B".to_string(), "2020".to_string(), "u".to_string()),
            Track::new("".to_string(), "B".to_string(), "2020".to_string(), "u".to_string()),
            Track::new("C".to_string(), "".to_string(), "2020".to_string(), "u".to_string()),
        ],
    );
    match service.validate_playlist(&playlist) {
        Err(DomainError::ValidationError(m)) => assert_eq!(m, "Track at index 1 is invalid"),
        other => panic!("unexpected {:?}", other),
    }
    let bad_id = Playlist::new(PlaylistId("short".to_string()), "Mix".to_string());
    match service.validate_playlist(&bad_id) {
        Err(DomainError::InvalidPlaylistId(m)) => assert_eq!(m, "short"),
        other => panic!("unexpected {:?}", other),
    }
}

#[test]
fn test_can_generate_pdfs_valid() {
    let service = PlaylistDomainService::new();
    let result = service.can_generate_pdfs(&one_track_playlist());
    assert!(result.is_ok());
}

#[test]
fn test_can_generate_pdfs_empty() {
    let service = PlaylistDomainService::new();
    let id = PlaylistId::from_str("3vnwX8FuGWpGgQX4hBa8sE").unwrap();
    let playlist = Playlist::new(id, "Test Playlist".to_string());
    let result = service.can_generate_pdfs(&playlist);
    assert!(result.is_err());
    assert!(matches!(result.unwrap_err(), DomainError::BusinessRuleViolation(_)));
}

#[test]
fn can_generate_pdfs_limits() {
    let service = PlaylistDomainService::new();
    let id = PlaylistId::from_str("3vnwX8FuGWpGgQX4hBa8sE").unwrap();
    let track = Track::new("S".to_string(), "A".to_string(), "1999".to_string(), "u".to_string());
    let at_limit = Playlist::with_tracks(id.clone(), "Big".to_string(), vec![track.clone(); 1000]);
    assert!(service.can_generate_pdfs(&at_limit).is_ok());
    let over = Playlist::with_tracks(id, "Big".to_string(), vec![track; 1001]);
    match service.can_generate_pdfs(&over) {
        Err(DomainError::BusinessRuleViolation(m)) => {
            assert_eq!(m, "Playlist too large for PDF generation (max 1000 tracks)")
        },
        other => panic!("unexpected {:?}", other),
    }
}

#[test]
fn playlist_preview_takes_three_tracks() {
    let service = PlaylistDomainService::new();
    let id = PlaylistId::from_str("3vnwX8FuGWpGgQX4hBa8sE").unwrap();
    let tracks: Vec<Track> = (0..5)
        .map(|i| Track::new(format!("S{}", i), "A".to_string(), "2000".to_string(), "u".to_string()))
        .collect();
    let playlist = Playlist::with_tracks(id, "Five".to_string(), tracks.clone());
    let preview = service.get_playlist_preview(&playlist);
    assert_eq!(preview.track_count, 5);
    assert_eq!(preview.name, "Five");
    assert_eq!(preview.sample_tracks, tracks[0..3].to_vec());
}

#[test]
fn test_validate_job_id_valid() {
    let service = JobDomainService::new();
    let job_id = JobId::new();
    let result = service.validate_job_id(job_id.as_str());
    assert!(result.is_ok());
}

#[test]
fn test_validate_job_id_invalid() {
    let service = JobDomainService::new();
    let result = service.validate_job_id("invalid");
    assert!(result.is_err());
    assert!(matches!(result.unwrap_err(), DomainError::InvalidJobId(_)));
}

#[test]
fn test_validate_job_type_valid() {
    let service = JobDomainService::new();
    let id = PlaylistId::from_str("3vnwX8FuGWpGgQX4hBa8sE").unwrap();
    let job_type = JobType::GeneratePlaylistPdf { id };
    let result = service.validate_job_type(&job_type);
    assert!(result.is_ok());
    assert!(service.can_create_job(&job_type).is_ok());
}

#[test]
fn validate_job_type_invalid() {
    let service = JobDomainService::new();
    let job_type = JobType::GeneratePlaylistPdf { id: PlaylistId("nope".to_string()) };
    match service.validate_job_type(&job_type) {
        Err(DomainError::InvalidPlaylistId(m)) => assert_eq!(m, "nope"),
        other => panic!("unexpected {:?}", other),
    }
    assert!(service.can_create_job(&job_type).is_err());
}

#[test]
fn test_get_job_type_description() {
    let service = JobDomainService::new();
    let id = PlaylistId::from_str("3vnwX8FuGWpGgQX4hBa8sE").unwrap();
    let job_type = JobType::GeneratePlaylistPdf { id };
    let description = service.get_job_type_description(&job_type);
    assert!(description.contains("Generate PDFs for playlist"));
    assert_eq!(description, "Generate PDFs for playlist 3vnwX8FuGWpGgQX4hBa8sE");
}

#[test]
fn test_parse_url_format() {
    let id = SpotifyId::parse("http://open.spotify.com/playlist/6rqhFgbbKwnb9MLmUQDhG6").unwrap();
    assert_eq!(id.as_str(), "6rqhFgbbKwnb9MLmUQDhG6");
}

#[test]
fn test_parse_uri_format() {
    let id = SpotifyId::parse("spotify:playlist:6rqhFgbbKwnb9MLmUQDhG6").unwrap();
    assert_eq!(id.as_str(), "6rqhFgbbKwnb9MLmUQDhG6");
}

#[test]
fn test_parse_raw_id() {
    let id = SpotifyId::parse("6rqhFgbbKwnb9MLmUQDhG6").unwrap();
    assert_eq!(id.as_str(), "6rqhFgbbKwnb9MLmUQDhG6");
}

#[test]
fn test_from_str() {
    let id: SpotifyId = "6rqhFgbbKwnb9MLmUQDhG6".parse().unwrap();
    assert_eq!(id.as_str(), "6rqhFgbbKwnb9MLmUQDhG6");
}

#[test]
fn test_url_generation() {
    let id = SpotifyId::parse("6rqhFgbbKwnb9MLmUQDhG6").unwrap();
    assert_eq!(id.as_url(), "https://open.spotify.com/playlist/6rqhFgbbKwnb9MLmUQDhG6");
}

#[test]
fn test_uri_generation() {
    let id = SpotifyId::parse("6rqhFgbbKwnb9MLmUQDhG6").unwrap();
    assert_eq!(id.as_uri(), "spotify:playlist:6rqhFgbbKwnb9MLmUQDhG6");
}

#[test]
fn test_invalid_formats() {
    assert!(SpotifyId::parse("").is_err());
    assert!(SpotifyId::parse("invalid-url").is_err());
    assert!(SpotifyId::parse("http://invalid.com/playlist/abc").is_err());
    assert!(SpotifyId::parse("spotify:invalid:abc").is_err());
}

#[test]
fn spotify_id_uri_reads_back_and_errors_name_input() {
    let id = SpotifyId::parse("6rqhFgbbKwnb9MLmUQDhG6").unwrap();
    assert_eq!(SpotifyId::parse(&id.as_uri()), Ok(id.clone()));
    assert!(SpotifyId::parse(&id.as_url()).is_err());
    let err = SpotifyId::parse("spotify:playlist:").unwrap_err();
    assert_eq!(err, SpotifyIdParserError::InvalidFormat("spotify:playlist:".to_string()));
    assert_eq!(err.to_string(), "Invalid Spotify ID format: spotify:playlist:");
    assert_eq!(SpotifyIdParserError::EmptyInput.to_string(), "Empty Spotify ID input");
    assert_eq!(id.to_string(), "6rqhFgbbKwnb9MLmUQDhG6");
    assert_eq!(id.into_string(), "6rqhFgbbKwnb9MLmUQDhG6");
}

#[test]
fn stored_spotify_id_accepts_alphanumeric_only() {
    let ok = StoredSpotifyId::from_str("abc123").unwrap();
    assert_eq!(ok.to_string(), "abc123");
    assert_eq!(StoredSpotifyId::from_str("abc-123"), Err("Invalid Spotify ID: abc-123".to_string()));
    assert_eq!(StoredSpotifyId::from_str(""), Err("Invalid Spotify ID: ".to_string()));
}

#[test]
fn store_ids_read_uuid_text() {
    let id = StoreId::from_str("550e8400-e29b-41d4-a716-446655440000").unwrap();
    assert_eq!(id.as_uuid(), 0x550e8400_e29b_41d4_a716_446655440000u128);
    assert_eq!(id.to_string(), "550e8400-e29b-41d4-a716-446655440000");
    assert!(StoreId::from_str("not a uuid").is_err());
    let job_id = DomainJobId::from_uuid(7);
    assert_eq!(job_id.to_string(), "00000000-0000-0000-0000-000000000007");
    assert_eq!(DomainJobId::from_str(&job_id.to_string()), Ok(job_id));
    assert_eq!(DomainJobId::default().as_uuid(), 0);
}

#[test]
fn domain_job_starts_pending() {
    let at = Timestamp { seconds: 10, nanos: 5 };
    let job = DomainJob::created(DomainJobId::from_uuid(1), at, JobKind::GeneratePdfs, "{}".to_string());
    assert_eq!(job.status, JobStatus::Pending);
    assert_eq!(job.created_at, at);
    assert_eq!(job.completed_at, None);
    assert_eq!(job.result, None);
    let fresh = DomainJob::new(JobKind::RefetchPlaylist, "{\"a\":1}".to_string());
    assert_eq!(fresh.status, JobStatus::Pending);
    assert_eq!(fresh.kind, JobKind::RefetchPlaylist);
    assert_eq!(JobStatus::Completed.to_string(), "completed");
    assert_eq!(JobStatus::Pending.to_string(), "pending");
}
