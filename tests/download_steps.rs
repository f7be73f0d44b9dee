use cardano_book_image_fetcher::download::{DownloadAction, DownloadEvent, DownloadPhase, DownloadRun};

#[test]
fn existing_file_is_skipped() {
    let mut run = DownloadRun::new();
    assert!(run.on_event(DownloadEvent::Begun { dir_exists: true }) == DownloadAction::CheckTarget);
    assert!(run.on_event(DownloadEvent::TargetChecked { exists: true }) == DownloadAction::Finish { ok: true });
    assert!(run.is_done());
    assert!(run.phase == DownloadPhase::Done { ok: true });
    assert_eq!(run.transferred, 0);
    assert!(run.on_event(DownloadEvent::BodyEnded) == DownloadAction::Ignore);
    assert_eq!(run.transferred, 0);
}

#[test]
fn missing_directory_is_created_first() {
    let mut run = DownloadRun::new();
    assert!(run.on_event(DownloadEvent::Begun { dir_exists: false }) == DownloadAction::CreateDir);
    assert!(run.on_event(DownloadEvent::DirCreated) == DownloadAction::CheckTarget);
    assert!(run.on_event(DownloadEvent::TargetChecked { exists: true }) == DownloadAction::Finish { ok: true });
    assert_eq!(run.transferred, 0);
}

#[test]
fn new_file_is_streamed_then_renamed() {
    let mut run = DownloadRun::new();
    run.on_event(DownloadEvent::Begun { dir_exists: true });
    assert!(run.on_event(DownloadEvent::TargetChecked { exists: false }) == DownloadAction::StartTransfer);
    assert!(run.on_event(DownloadEvent::ChunkWritten { len: 1024 }) == DownloadAction::ContinueTransfer);
    assert!(run.on_event(DownloadEvent::ChunkWritten { len: 76 }) == DownloadAction::ContinueTransfer);
    assert_eq!(run.transferred, 1100);
    assert!(run.on_event(DownloadEvent::BodyEnded) == DownloadAction::Persist);
    assert!(!run.is_done());
    assert!(run.on_event(DownloadEvent::Persisted) == DownloadAction::Finish { ok: true });
    assert!(run.phase == DownloadPhase::Done { ok: true });
}

#[test]
fn failure_mid_transfer_finishes_unsuccessfully() {
    let mut run = DownloadRun::new();
    run.on_event(DownloadEvent::Begun { dir_exists: true });
    run.on_event(DownloadEvent::TargetChecked { exists: false });
    run.on_event(DownloadEvent::ChunkWritten { len: 10 });
    assert!(run.on_event(DownloadEvent::Failed) == DownloadAction::Finish { ok: false });
    assert!(run.phase == DownloadPhase::Done { ok: false });
    assert!(run.on_event(DownloadEvent::Persisted) == DownloadAction::Ignore);
}

#[test]
fn byte_count_saturates() {
    let mut run = DownloadRun::new();
    run.on_event(DownloadEvent::Begun { dir_exists: true });
    run.on_event(DownloadEvent::TargetChecked { exists: false });
    run.on_event(DownloadEvent::ChunkWritten { len: u64::MAX });
    run.on_event(DownloadEvent::ChunkWritten { len: 5 });
    assert_eq!(run.transferred, u64::MAX);
}

#[test]
fn out_of_order_events_are_ignored() {
    let mut run = DownloadRun::new();
    assert!(run.on_event(DownloadEvent::BodyEnded) == DownloadAction::Ignore);
    assert!(run.on_event(DownloadEvent::TargetChecked { exists: true }) == DownloadAction::Ignore);
    assert!(run.phase == DownloadPhase::Start);
}
