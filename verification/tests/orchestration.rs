//! Orchestrator behaviour: download lifecycle and cancellation,
//! bounded concurrency, idempotent sync, and the metadata worker's
//! pause discipline.

use mediaflow::adapter::ListingRow;
use mediaflow::download::{
    BeginOutcome, DownloadManager, DownloadOutcome, FinishReport, LineAction, SlotDecision,
};
use mediaflow::metadata::{prepare_fetch, apply_fetch_result, MetadataWorker};
use mediaflow::model::{
    CreateCreatorRequest, CreateCredentialRequest, CreateFeedItemRequest, CreateSourceRequest,
    DownloadStatus, Platform, SourceStatus,
};
use mediaflow::store::Store;
use mediaflow::sync::{
    apply_sync_failure, apply_sync_success, begin_sync, classify_listing_failure, SyncBegin,
    SyncManager, SyncStep,
};
use mediaflow::events::CoreError;

const NOW: &str = "2024-01-01T00:00:00Z";

/// A store with one creator, one source on the given platform, and one
/// feed item; returns the store with the source and item ids.
fn store_with_item(platform: &str) -> (Store, String, String) {
    let mut store = Store::new();
    store.initialize_settings("/library".to_string());
    let creator = store.create_creator(
        CreateCreatorRequest { name: "Creator".to_string(), photo_path: None },
        NOW,
    );
    let source = store.create_source(
        CreateSourceRequest {
            creator_id: creator.id.clone(),
            platform: platform.to_string(),
            channel_url: "https://example.com/chan".to_string(),
            credential_id: None,
        },
        NOW,
    );
    let item = store
        .create_feed_item(
            CreateFeedItemRequest {
                source_id: source.id.clone(),
                external_id: "vid1".to_string(),
                title: "First Video".to_string(),
                thumbnail_url: None,
                published_at: None,
                duration: Some(63),
            },
            NOW,
        )
        .unwrap();
    (store, source.id, item.id)
}

fn listing_row(id: &str, title: &str) -> ListingRow {
    ListingRow {
        id: id.to_string(),
        title: title.to_string(),
        thumbnail: None,
        duration: None,
        upload_date: Some("20240102".to_string()),
    }
}

#[test]
fn download_lifecycle_walks_the_status_chain() {
    let (mut store, _source_id, item_id) = store_with_item("youtube");
    let mut statuses = vec![store.get_feed_item(&item_id).unwrap().download_status];

    let plan = match DownloadManager::begin_download(&mut store, &item_id) {
        BeginOutcome::Run(plan) => plan,
        _ => panic!("expected a runnable plan"),
    };
    statuses.push(store.get_feed_item(&item_id).unwrap().download_status);
    assert_eq!(plan.video_url, "https://www.youtube.com/watch?v=vid1");
    assert_eq!(
        plan.output_path,
        "/library/Creator/youtube/vid1__First Video.mp4"
    );
    assert_eq!(plan.args.len(), 7);
    assert_eq!(plan.args[3], plan.output_path);
    assert_eq!(plan.args[6], plan.video_url);

    let mut manager = DownloadManager::new();
    let report = manager.finish_download(
        &mut store,
        &item_id,
        DownloadOutcome::Success { file_size: 4096 },
        &plan.output_path,
        NOW,
    );
    statuses.push(store.get_feed_item(&item_id).unwrap().download_status);
    assert_eq!(
        statuses,
        vec![
            DownloadStatus::NotDownloaded,
            DownloadStatus::Downloading,
            DownloadStatus::Downloaded,
        ]
    );
    let event = match report {
        FinishReport::Completed(event) => event,
        _ => panic!("expected a completed download"),
    };
    assert_eq!(event.feed_item_id, item_id);
    let artifact = store.warehouse_items.last().unwrap();
    assert_eq!(artifact.id, event.warehouse_item_id);
    assert_eq!(artifact.file_size, 4096);
    assert_eq!(artifact.feed_item_id.as_deref(), Some(item_id.as_str()));
    assert!(!artifact.is_manual_import);
    let item = store.get_feed_item(&item_id).unwrap();
    assert_eq!(item.warehouse_item_id.as_deref(), Some(event.warehouse_item_id.as_str()));
}

#[test]
fn failed_download_marks_the_item_errored() {
    let (mut store, _source_id, item_id) = store_with_item("youtube");
    match DownloadManager::begin_download(&mut store, &item_id) {
        BeginOutcome::Run(_) => {},
        _ => panic!("expected a runnable plan"),
    }
    let mut manager = DownloadManager::new();
    let report = manager.finish_download(
        &mut store,
        &item_id,
        DownloadOutcome::Failure,
        "/library/out.mp4",
        NOW,
    );
    let event = match report {
        FinishReport::Failed(event) => event,
        _ => panic!("expected a failed download"),
    };
    assert_eq!(event.error, "yt-dlp failed");
    assert!(matches!(
        store.get_feed_item(&item_id).unwrap().download_status,
        DownloadStatus::Error
    ));
    assert!(store.warehouse_items.is_empty());
}

#[test]
fn cancelled_download_reports_the_spec_message() {
    let (mut store, _source_id, item_id) = store_with_item("youtube");
    match DownloadManager::begin_download(&mut store, &item_id) {
        BeginOutcome::Run(_) => {},
        _ => panic!("expected a runnable plan"),
    }
    let mut manager = DownloadManager::new();
    let report = manager.finish_download(
        &mut store,
        &item_id,
        DownloadOutcome::Cancelled,
        "/library/out.mp4",
        NOW,
    );
    let event = match report {
        FinishReport::Failed(event) => event,
        _ => panic!("expected a failed download"),
    };
    assert_eq!(event.error, "cancelled");
}

#[test]
fn unsupported_platform_fails_before_the_tool_runs() {
    let (mut store, _source_id, item_id) = store_with_item("vimeo");
    match DownloadManager::begin_download(&mut store, &item_id) {
        BeginOutcome::Failed(e) => assert!(matches!(e, CoreError::UnknownPlatform)),
        _ => panic!("expected a failure"),
    }
    assert!(matches!(
        store.get_feed_item(&item_id).unwrap().download_status,
        DownloadStatus::Error
    ));
}

#[test]
fn cancel_before_permit_never_reaches_the_adapter() {
    let mut manager = DownloadManager::new();
    manager.queue_downloads(vec!["job1".to_string()]).unwrap();
    manager.cancel_download("job1".to_string()).unwrap();
    assert!(manager.step_command());
    assert!(manager.step_command());

    // a fake adapter that counts its invocations: only a Start
    // decision ever invokes it
    let mut adapter_calls = 0;
    loop {
        match manager.acquire_slot() {
            SlotDecision::Start(_) => {
                adapter_calls += 1;
            },
            SlotDecision::Abort(id) => {
                assert_eq!(id, "job1");
            },
            SlotDecision::Idle => break,
        }
    }
    assert_eq!(adapter_calls, 0);
    assert!(!manager.check_cancelled("job1"));
}

#[test]
fn at_most_two_downloads_hold_slots() {
    let mut manager = DownloadManager::new();
    let ids: Vec<String> = (0..5).map(|i| format!("job{}", i)).collect();
    manager.queue_downloads(ids).unwrap();
    assert!(manager.step_command());

    let mut in_flight = 0;
    let mut observed_max = 0;
    for _ in 0..5 {
        match manager.acquire_slot() {
            SlotDecision::Start(_) => {
                in_flight += 1;
                if in_flight > observed_max {
                    observed_max = in_flight;
                }
            },
            SlotDecision::Abort(_) => panic!("nothing was cancelled"),
            SlotDecision::Idle => {},
        }
    }
    assert_eq!(observed_max, 2);
    assert_eq!(manager.running.len(), 2);
}

#[test]
fn mid_stream_cancellation_kills_the_subprocess() {
    let mut manager = DownloadManager::new();
    manager.cancel_download("job1".to_string()).unwrap();
    assert!(manager.step_command());
    assert!(matches!(
        manager.observe_line("job1", "[download]  10.0% of 1MiB at 1MiB/s"),
        LineAction::Kill
    ));
    match manager.observe_line("job2", "[download]  10.0% of 1MiB at 1.00MiB/s ETA 0:01") {
        LineAction::Progress(ev) => {
            assert_eq!(ev.feed_item_id, "job2");
            assert_eq!(ev.percent.milli, 10_000);
            assert_eq!(ev.speed, "1.00MiB/s");
        },
        _ => panic!("expected progress"),
    }
    assert!(matches!(
        manager.observe_line("job2", "no marker here"),
        LineAction::Ignore
    ));
}

#[test]
fn resync_with_same_rows_inserts_nothing() {
    let (mut store, source_id, _item_id) = store_with_item("youtube");
    let before = store.feed_items.len();
    let rows = vec![listing_row("r1", "Row One"), listing_row("r2", "Row Two")];
    let (first_count, event) = apply_sync_success(&mut store, &source_id, rows, NOW);
    assert_eq!(first_count, 2);
    assert_eq!(event.status, "completed");
    assert_eq!(event.message.as_deref(), Some("Found 2 new items"));
    assert_eq!(event.new_items, Some(2));
    assert_eq!(store.feed_items.len(), before + 2);

    let rows_again = vec![listing_row("r1", "Row One"), listing_row("r2", "Row Two")];
    let (second_count, event2) = apply_sync_success(
        &mut store,
        &source_id,
        rows_again,
        "2024-01-02T00:00:00Z",
    );
    assert_eq!(second_count, 0);
    assert_eq!(event2.message.as_deref(), Some("Found 0 new items"));
    assert_eq!(store.feed_items.len(), before + 2);

    let source = store.get_source(&source_id).unwrap();
    assert!(matches!(source.status, SourceStatus::Validated));
    assert_eq!(source.last_synced_at.as_deref(), Some("2024-01-02T00:00:00Z"));
    let inserted = store.feed_items.last().unwrap();
    assert_eq!(inserted.published_at.as_deref(), Some("2024-01-02T00:00:00Z"));
}

#[test]
fn unknown_platform_sync_fails_without_inserting() {
    let (mut store, source_id, _item_id) = store_with_item("vimeo");
    let before = store.feed_items.len();
    match begin_sync(&mut store, &source_id) {
        SyncBegin::Failed(event) => {
            assert_eq!(event.status, "error");
            assert_eq!(event.message.as_deref(), Some("Unknown platform"));
        },
        SyncBegin::Run(_) => panic!("an unknown platform must not sync"),
    }
    let source = store.get_source(&source_id).unwrap();
    assert!(matches!(source.status, SourceStatus::Error));
    assert!(source.last_synced_at.is_none());
    assert_eq!(store.feed_items.len(), before);
}

#[test]
fn patreon_sync_requires_a_credential() {
    let (mut store, source_id, _item_id) = store_with_item("patreon");
    match begin_sync(&mut store, &source_id) {
        SyncBegin::Failed(event) => {
            assert_eq!(
                event.message.as_deref(),
                Some("No credential configured for this source. Please add a cookie file in Settings.")
            );
        },
        SyncBegin::Run(_) => panic!("a missing credential must not sync"),
    }
    assert!(matches!(
        store.get_source(&source_id).unwrap().status,
        SourceStatus::Error
    ));

    store.create_credential(
        CreateCredentialRequest {
            label: "cookie".to_string(),
            platform: "patreon".to_string(),
            cookie_path: "/cookies.txt".to_string(),
            is_default: Some(true),
        },
        NOW,
    );
    match begin_sync(&mut store, &source_id) {
        SyncBegin::Run(plan) => {
            assert!(matches!(plan.platform, Platform::Patreon));
            assert_eq!(plan.args.len(), 8);
            assert_eq!(plan.args[4], "/cookies.txt");
            assert_eq!(plan.args[7], "https://example.com/chan/posts");
        },
        SyncBegin::Failed(_) => panic!("a default credential should let the sync run"),
    }
}

#[test]
fn youtube_sync_plan_lists_the_channel() {
    let (mut store, source_id, _item_id) = store_with_item("youtube");
    match begin_sync(&mut store, &source_id) {
        SyncBegin::Run(plan) => {
            assert!(matches!(plan.platform, Platform::Youtube));
            assert_eq!(plan.args.len(), 4);
            assert_eq!(plan.args[0], "--flat-playlist");
            assert_eq!(plan.args[3], "https://example.com/chan");
            assert_eq!(plan.display_name, "https://example.com/chan");
        },
        SyncBegin::Failed(_) => panic!("a youtube source should sync"),
    }
}

#[test]
fn one_source_failure_marks_only_that_source() {
    let (mut store, source_id, _item_id) = store_with_item("youtube");
    let event = apply_sync_failure(&mut store, &source_id, CoreError::ToolExecutionFailed, None);
    assert_eq!(event.status, "error");
    assert_eq!(event.message.as_deref(), Some("yt-dlp failed"));
    let event2 = apply_sync_failure(
        &mut store,
        &source_id,
        CoreError::ToolExecutionFailed,
        Some("HTTP Error 500"),
    );
    assert_eq!(event2.message.as_deref(), Some("yt-dlp failed: HTTP Error 500"));
    assert!(matches!(
        store.get_source(&source_id).unwrap().status,
        SourceStatus::Error
    ));
}

#[test]
fn listing_failures_classify_auth_only_for_patreon() {
    assert!(matches!(
        classify_listing_failure(Platform::Patreon, "HTTP Error 401"),
        CoreError::AuthenticationFailed
    ));
    assert!(matches!(
        classify_listing_failure(Platform::Youtube, "HTTP Error 401"),
        CoreError::ToolExecutionFailed
    ));
    assert!(matches!(
        classify_listing_failure(Platform::Patreon, "timeout"),
        CoreError::ToolExecutionFailed
    ));
}

#[test]
fn sync_commands_resolve_their_targets() {
    let (store, source_id, _item_id) = store_with_item("youtube");
    let mut manager = SyncManager::new();
    manager.sync_source(source_id.clone());
    manager.sync_all();
    match manager.next_targets(&store) {
        SyncStep::Targets(targets) => assert_eq!(targets, vec![source_id.clone()]),
        _ => panic!("expected targets"),
    }
    match manager.next_targets(&store) {
        SyncStep::Targets(targets) => assert!(targets.contains(&source_id)),
        _ => panic!("expected targets"),
    }
    assert!(matches!(manager.next_targets(&store), SyncStep::Idle));
}

#[test]
fn errored_sources_are_left_out_of_the_sweep() {
    let (mut store, source_id, _item_id) = store_with_item("vimeo");
    apply_sync_failure(&mut store, &source_id, CoreError::UnknownPlatform, None);
    let mut manager = SyncManager::new();
    manager.sync_all();
    match manager.next_targets(&store) {
        SyncStep::Targets(targets) => assert!(targets.is_empty()),
        _ => panic!("expected targets"),
    }
}

#[test]
fn immediate_batch_holds_the_sweep_off_until_done() {
    let (store, _source_id, item_id) = store_with_item("youtube");
    let mut worker = MetadataWorker::new();
    assert!(worker.start_sweep(&store).is_some());

    worker.fetch_immediate(vec![item_id.clone()]).unwrap();
    assert!(worker.handle_command());
    // the batch is in progress: the concurrently ticking sweep may not
    // touch the adapter
    assert!(worker.start_sweep(&store).is_none());
    assert_eq!(worker.next_immediate().as_deref(), Some(item_id.as_str()));
    assert!(worker.start_sweep(&store).is_none());
    // batch exhausted: the pause it imposed is cleared
    assert!(worker.next_immediate().is_none());
    assert!(worker.start_sweep(&store).is_some());
}

#[test]
fn explicit_pause_and_resume_gate_the_sweep() {
    let (store, _source_id, _item_id) = store_with_item("youtube");
    let mut worker = MetadataWorker::new();
    worker.pause().unwrap();
    assert!(worker.handle_command());
    assert!(worker.start_sweep(&store).is_none());
    worker.resume().unwrap();
    assert!(worker.handle_command());
    assert!(worker.start_sweep(&store).is_some());
}

#[test]
fn sweep_picks_incomplete_items_newest_first() {
    let (store, _source_id, item_id) = store_with_item("youtube");
    let worker = MetadataWorker::new();
    let picked = worker.start_sweep(&store).unwrap();
    assert_eq!(picked, vec![item_id]);
}

#[test]
fn metadata_fetch_resolves_platform_and_merges_results() {
    let (mut store, _source_id, item_id) = store_with_item("youtube");
    let plan = prepare_fetch(&store, &item_id).expect("item should resolve");
    assert!(matches!(plan.platform, Platform::Youtube));
    assert_eq!(plan.args[3], "https://www.youtube.com/watch?v=vid1");

    let event = apply_fetch_result(
        &mut store,
        &item_id,
        Some("20240102".to_string()),
        Some(120),
        None,
    );
    assert_eq!(event.status, "completed");
    let item = store.get_feed_item(&item_id).unwrap();
    assert_eq!(item.published_at.as_deref(), Some("2024-01-02T00:00:00Z"));
    assert_eq!(item.duration, Some(120));
    assert!(item.metadata_complete);

    assert!(prepare_fetch(&store, "missing").is_err());
}
