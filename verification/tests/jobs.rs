use hitster::application::hitster_service::playlist_cards_title;
use hitster::application::jobs::{record_pdf_outcome, JobMessage};
use hitster::application::models::{JobId, PdfSide, PlaylistId as ModelPlaylistId};
use hitster::application::playlist_service::{
    create_step, latest_generation_job, latest_job, require_playlist, CreateEvent, CreateStep,
};
use hitster::application::worker::{
    job_finished, job_started, merge_refetched, pdf_output_paths, playlist_not_found_message, refetch_source,
    worker_step, TaskOutcome, WorkerAction, WorkerEvent,
};
use hitster::domain::errors::DomainError;
use hitster::domain::job::{Job, JobId as DomainJobId, JobKind, JobStatus};
use hitster::domain::playlist::{Playlist, PlaylistId, SpotifyId, Track};
use hitster::infrastructure::database::{Job as StoredJob, JobStatus as StoredStatus};
use hitster::infrastructure::entities::{
    entity_from_job, entity_from_track, job_from_entity, playlist_from_entities, playlist_from_entity, track_rows,
    JobEntity, JobStatusEntity, PlaylistEntity, TrackEntity,
};
use hitster::infrastructure::job_processor::{check_pdf_job_input, job_is_completed, job_pdf_path, status_after_run};
use hitster::time::Timestamp;

fn at(seconds: i64) -> Timestamp {
    Timestamp { seconds, nanos: 0 }
}

fn job(id: u128, created: i64) -> Job {
    Job::created(DomainJobId::from_uuid(id), at(created), JobKind::GeneratePdfs, "{}".to_string())
}

fn stored_job(status: StoredStatus, front: Option<&str>, back: Option<&str>) -> StoredJob {
    StoredJob {
        id: 7,
        playlist_id: 3,
        status,
        front_pdf_path: front.map(|s| s.to_string()),
        back_pdf_path: back.map(|s| s.to_string()),
        created_at: at(1),
        completed_at: None,
    }
}

#[test]
fn test_job_processor_creation() {
    // The processor itself holds the database connection and is made by the program.
}

#[test]
fn job_status_after_run() {
    assert_eq!(status_after_run(&Ok(())), StoredStatus::Completed);
    assert_eq!(status_after_run(&Err(DomainError::PdfGenerationFailed("x".to_string()))), StoredStatus::Failed);
    assert!(job_is_completed(&stored_job(StoredStatus::Completed, None, None)));
    assert!(!job_is_completed(&stored_job(StoredStatus::Processing, None, None)));
}

#[test]
fn pdf_job_input_checks() {
    let id = ModelPlaylistId("3vnwX8FuGWpGgQX4hBa8sE".to_string());
    match check_pdf_job_input(&id, None) {
        Err(DomainError::PlaylistNotFound(m)) => assert_eq!(m, "3vnwX8FuGWpGgQX4hBa8sE"),
        other => panic!("unexpected {:?}", other),
    }
    match check_pdf_job_input(&id, Some(0)) {
        Err(DomainError::BusinessRuleViolation(m)) => assert_eq!(m, "Cannot generate PDFs for empty playlist"),
        other => panic!("unexpected {:?}", other),
    }
    assert!(check_pdf_job_input(&id, Some(3)).is_ok());
}

#[test]
fn job_pdf_paths() {
    let job_id = JobId::from_str("550e8400-e29b-41d4-a716-446655440000").unwrap();
    let pending = stored_job(StoredStatus::Pending, Some("f.pdf"), Some("b.pdf"));
    match job_pdf_path(&job_id, PdfSide::Front, &pending) {
        Err(DomainError::BusinessRuleViolation(m)) => assert_eq!(
            m,
            "Job 550e8400-e29b-41d4-a716-446655440000 is not completed (status: Pending)"
        ),
        other => panic!("unexpected {:?}", other),
    }
    let done = stored_job(StoredStatus::Completed, Some("f.pdf"), None);
    assert_eq!(job_pdf_path(&job_id, PdfSide::Front, &done).unwrap(), "f.pdf");
    match job_pdf_path(&job_id, PdfSide::Back, &done) {
        Err(DomainError::PdfNotFound(m)) => assert_eq!(m, "Back PDF for job 550e8400-e29b-41d4-a716-446655440000"),
        other => panic!("unexpected {:?}", other),
    }
}

#[test]
fn job_status_entity_round_trip() {
    for status in [JobStatus::Pending, JobStatus::Processing, JobStatus::Completed, JobStatus::Failed] {
        let entity: JobStatusEntity = status.into();
        let back: JobStatus = entity.into();
        assert_eq!(back, status);
    }
    let stored: JobStatusEntity = JobStatus::Failed.into();
    assert_eq!(stored, JobStatusEntity::Failed);
}

#[test]
fn job_entity_round_trip() {
    let mut before = job(42, 100);
    before.status = JobStatus::Completed;
    before.completed_at = Some(at(200));
    before.result = Some("{\"front\":\"f\"}".to_string());
    let entity = entity_from_job(before.clone());
    assert_eq!(entity.id, 42);
    assert_eq!(entity.status, JobStatusEntity::Completed);
    let back = job_from_entity(entity);
    assert_eq!(back.id, before.id);
    assert_eq!(back.status, JobStatus::Completed);
    assert_eq!(back.completed_at, Some(at(200)));
    assert_eq!(back.result, before.result);
    let row = JobEntity {
        id: 9,
        status: JobStatusEntity::Pending,
        created_at: at(1),
        completed_at: None,
        kind: JobKind::RefetchPlaylist,
        payload: "{}".to_string(),
        result: None,
    };
    assert_eq!(job_from_entity(row).kind, JobKind::RefetchPlaylist);
}

#[test]
fn playlist_rows_to_domain() {
    let row = PlaylistEntity {
        id: 5,
        spotify_id: Some("37i9dQZF1DXcBWIGoYBM5M".to_string()),
        name: "Mix".to_string(),
        created_at: at(10),
        updated_at: None,
    };
    let tracks = vec![
        TrackEntity {
            id: 1,
            playlist_id: 5,
            title: "One".to_string(),
            artist: "A".to_string(),
            year: 2001,
            spotify_url: "u1".to_string(),
            album_cover_url: None,
            position: 0,
        },
        TrackEntity {
            id: 2,
            playlist_id: 5,
            title: "Two".to_string(),
            artist: "B".to_string(),
            year: 2002,
            spotify_url: "u2".to_string(),
            album_cover_url: Some("c".to_string()),
            position: 1,
        },
    ];
    let playlist = playlist_from_entities(row.clone(), tracks);
    assert_eq!(playlist.id.as_uuid(), 5);
    assert_eq!(playlist.spotify_id.as_ref().map(|s| s.to_string()), Some("37i9dQZF1DXcBWIGoYBM5M".to_string()));
    assert_eq!(playlist.created_at, Some(at(10)));
    assert_eq!(playlist.tracks.len(), 2);
    assert_eq!(playlist.tracks[1].title, "Two");
    assert_eq!(playlist.tracks[1].album_cover_url, Some("c".to_string()));

    let mut bad_row = row;
    bad_row.spotify_id = Some("not valid!".to_string());
    assert_eq!(playlist_from_entity(bad_row).spotify_id, None);

    let rows = track_rows(&playlist);
    assert_eq!(rows.len(), 2);
    assert_eq!(rows[0].position, 0);
    assert_eq!(rows[1].position, 1);
    assert_eq!(rows[1].playlist_id, 5);
    assert_eq!(rows[1].album_cover_url, None);
    assert_ne!(rows[0].id, rows[1].id);

    let single = entity_from_track(Track {
        title: "T".to_string(),
        artist: "A".to_string(),
        year: 1990,
        spotify_url: "u".to_string(),
        album_cover_url: None,
    });
    assert_eq!(single.playlist_id, 0);
    assert_eq!(single.position, 0);
    let back: Track = single.into();
    assert_eq!(back.year, 1990);
}

#[test]
fn worker_records_job_state() {
    let started = job_started(job(1, 5));
    assert_eq!(started.status, JobStatus::Processing);
    let done = job_finished(started.clone(), TaskOutcome::Output("{}".to_string()), at(9));
    assert_eq!(done.status, JobStatus::Completed);
    assert_eq!(done.completed_at, Some(at(9)));
    assert_eq!(done.result, Some("{}".to_string()));
    let failed = job_finished(started.clone(), TaskOutcome::Failed, at(9));
    assert_eq!(failed.status, JobStatus::Failed);
    assert_eq!(failed.result, None);
    let unserialisable = job_finished(started, TaskOutcome::OutputNotSerializable, at(9));
    assert_eq!(unserialisable.status, JobStatus::Failed);
    assert_eq!(unserialisable.completed_at, Some(at(9)));
}

#[test]
fn latest_jobs() {
    let jobs = vec![job(1, 5), job(2, 9), job(3, 9), job(4, 1)];
    assert_eq!(latest_job(&jobs), Some(2));
    assert_eq!(latest_job(&Vec::new()), None);

    let mut finished = vec![job(1, 1), job(2, 2), job(3, 3)];
    for (i, j) in finished.iter_mut().enumerate() {
        j.status = JobStatus::Completed;
        j.result = Some("{}".to_string());
        j.completed_at = Some(at(10 - i as i64));
    }
    assert_eq!(latest_generation_job(&finished, &vec![true, true, true]), Some(0));
    assert_eq!(latest_generation_job(&finished, &vec![false, true, true]), Some(1));
    assert_eq!(latest_generation_job(&finished, &vec![false, false, false]), None);
    finished[1].status = JobStatus::Failed;
    assert_eq!(latest_generation_job(&finished, &vec![false, true, true]), Some(2));
}

#[test]
fn task_paths_and_messages() {
    let id = PlaylistId::from_uuid(0x550e8400_e29b_41d4_a716_446655440000u128);
    let paths = pdf_output_paths(&id, &"20240101_120000".to_string());
    assert_eq!(paths.front, "generated_pdfs/550e8400-e29b-41d4-a716-446655440000_20240101_120000_front.pdf");
    assert_eq!(paths.back, "generated_pdfs/550e8400-e29b-41d4-a716-446655440000_20240101_120000_back.pdf");
    assert_eq!(
        playlist_not_found_message(&id),
        "playlist not found for id: 550e8400-e29b-41d4-a716-446655440000"
    );
}

#[test]
fn refetching_keeps_identity() {
    let id = PlaylistId::from_uuid(3);
    assert_eq!(
        refetch_source(&None, &id).unwrap_err(),
        "Playlist with ID 00000000-0000-0000-0000-000000000003 not found"
    );
    let stored = Playlist {
        id,
        spotify_id: None,
        name: "Old".to_string(),
        tracks: Vec::new(),
        created_at: Some(at(1)),
        updated_at: None,
    };
    assert_eq!(
        refetch_source(&Some(stored.clone()), &id).unwrap_err(),
        "Playlist 00000000-0000-0000-0000-000000000003 has no associated Spotify ID"
    );
    let sid = SpotifyId::from_str("abc").unwrap();
    let mut linked = stored.clone();
    linked.spotify_id = Some(sid.clone());
    assert_eq!(refetch_source(&Some(linked.clone()), &id), Ok(sid.clone()));

    let fresh = Playlist {
        id: PlaylistId::from_uuid(99),
        spotify_id: None,
        name: "New".to_string(),
        tracks: Vec::new(),
        created_at: None,
        updated_at: None,
    };
    let merged = merge_refetched(linked.clone(), Some(fresh), &sid, at(50)).unwrap();
    assert_eq!(merged.id, id);
    assert_eq!(merged.name, "New");
    assert_eq!(merged.spotify_id, Some(sid.clone()));
    assert_eq!(merged.created_at, Some(at(1)));
    assert_eq!(merged.updated_at, Some(at(50)));
    assert_eq!(
        merge_refetched(linked, None, &sid, at(50)).unwrap_err(),
        "Playlist with Spotify ID abc not found in Spotify"
    );
}

#[test]
fn pdf_job_outcomes() {
    let done = record_pdf_outcome(Ok(("f.pdf".to_string(), "b.pdf".to_string())));
    assert_eq!(done.status, StoredStatus::Completed);
    assert_eq!(done.pdf_paths, Some(("f.pdf".to_string(), "b.pdf".to_string())));
    let failed = record_pdf_outcome(Err("renderer crashed".to_string()));
    assert_eq!(failed.status, StoredStatus::Failed);
    assert_eq!(failed.pdf_paths, None);
    let message = JobMessage { job_id: "1".to_string(), playlist_id: "2".to_string() };
    assert_eq!(message.playlist_id, "2");
}

#[test]
fn card_page_titles() {
    let id = ModelPlaylistId("3vnwX8FuGWpGgQX4hBa8sE".to_string());
    assert_eq!(playlist_cards_title(&id, None), "Playlist: 3vnwX8FuGWpGgQX4hBa8sE");
    assert_eq!(playlist_cards_title(&id, Some("Party".to_string())), "Party");
}

fn named(name: &str) -> Playlist {
    Playlist {
        id: PlaylistId::from_uuid(8),
        spotify_id: None,
        name: name.to_string(),
        tracks: Vec::new(),
        created_at: None,
        updated_at: None,
    }
}

#[test]
fn creating_from_spotify_steps() {
    assert!(matches!(create_step(false, CreateEvent::Found(Some(named("Old")))), CreateStep::Done(Some(p), None) if p.name == "Old"));
    assert!(matches!(create_step(false, CreateEvent::Found(None)), CreateStep::Fetch));
    assert!(matches!(create_step(true, CreateEvent::Fetched(None)), CreateStep::Done(None, None)));
    assert!(matches!(create_step(true, CreateEvent::Fetched(Some(named("New")))), CreateStep::Store(p) if p.name == "New"));
    assert!(matches!(create_step(false, CreateEvent::Stored(named("New"))), CreateStep::Done(Some(_), None)));
    assert!(matches!(create_step(true, CreateEvent::Stored(named("New"))), CreateStep::StartRefetch(p) if p.name == "New"));
    assert!(matches!(
        create_step(true, CreateEvent::RefetchStarted(named("New"), job(5, 1))),
        CreateStep::Done(Some(_), Some(j)) if j.id == DomainJobId::from_uuid(5)
    ));
}

#[test]
fn jobs_need_a_stored_playlist() {
    let id = PlaylistId::from_uuid(8);
    assert_eq!(require_playlist(Some(named("Mix")), &id).unwrap().name, "Mix");
    assert_eq!(
        require_playlist(None, &id).unwrap_err(),
        "Playlist with ID 00000000-0000-0000-0000-000000000008 not found"
    );
}

#[test]
fn stored_status_texts() {
    assert_eq!(StoredStatus::Completed.completion_marker(), "completed");
    assert_eq!(StoredStatus::Failed.completion_marker(), "other");
    assert_eq!(StoredStatus::Pending.debug_text(), "Pending");
    assert_eq!(StoredStatus::Processing.debug_text(), "Processing");
}

#[test]
fn worker_steps_run_one_job_at_a_time() {
    let action = worker_step(WorkerEvent::Received(job(1, 5)));
    let started = match action {
        WorkerAction::RecordStart(j) => j,
        other => panic!("unexpected {:?}", other),
    };
    assert_eq!(started.status, JobStatus::Processing);
    assert!(matches!(worker_step(WorkerEvent::StartRecorded(started.clone(), false)), WorkerAction::TakeNext));
    let running = match worker_step(WorkerEvent::StartRecorded(started, true)) {
        WorkerAction::RunTask(j) => j,
        other => panic!("unexpected {:?}", other),
    };
    match worker_step(WorkerEvent::TaskEnded(running, TaskOutcome::Output("{}".to_string()), at(7))) {
        WorkerAction::RecordFinish(j) => {
            assert_eq!(j.status, JobStatus::Completed);
            assert_eq!(j.completed_at, Some(at(7)));
            assert_eq!(j.result, Some("{}".to_string()));
        },
        other => panic!("unexpected {:?}", other),
    }
    assert!(matches!(worker_step(WorkerEvent::FinishRecorded), WorkerAction::TakeNext));
}

#[test]
fn file_stamps() {
    assert_eq!(at(0).file_stamp(), Some("19700101_000000".to_string()));
    assert_eq!(at(1_704_110_400).file_stamp(), Some("20240101_120000".to_string()));
    assert_eq!(Timestamp { seconds: i64::MAX, nanos: 0 }.file_stamp(), None);
}
