//! Gateway model behaviour: settings, records, default credentials,
//! insert-or-ignore feed items and incomplete-metadata selection.

use mediaflow::model::{
    CreateCreatorRequest, CreateCredentialRequest, CreateFeedItemRequest, CreateSourceRequest,
    CreateWarehouseItemRequest, DownloadStatus, SourceStatus, UpdateAppSettingsRequest,
    UpdateCredentialRequest, UpdateFeedItemRequest,
};
use mediaflow::store::Store;

const NOW: &str = "2024-01-01T00:00:00Z";

fn feed_request(source_id: &str, external_id: &str, title: &str) -> CreateFeedItemRequest {
    CreateFeedItemRequest {
        source_id: source_id.to_string(),
        external_id: external_id.to_string(),
        title: title.to_string(),
        thumbnail_url: None,
        published_at: None,
        duration: None,
    }
}

#[test]
fn settings_initialize_once_and_merge_updates() {
    let mut store = Store::new();
    store.initialize_settings("/library".to_string());
    let s = store.get_app_settings().expect("settings should exist");
    assert_eq!(s.library_path, "/library");
    assert_eq!(s.default_quality, "best");
    assert_eq!(s.sync_interval_seconds, 300);
    assert_eq!(s.theme, "dark");
    assert!(!s.first_run_completed);
    assert!(s.notifications_enabled);

    store.initialize_settings("/other".to_string());
    assert_eq!(store.get_app_settings().unwrap().library_path, "/library");

    let merged = store
        .update_app_settings(UpdateAppSettingsRequest {
            library_path: None,
            default_quality: Some("720p".to_string()),
            sync_interval_seconds: None,
            theme: None,
            first_run_completed: Some(true),
            notifications_enabled: None,
            bass_boost_preset: None,
            bass_boost_custom_gain: None,
        })
        .expect("settings should exist");
    assert_eq!(merged.library_path, "/library");
    assert_eq!(merged.default_quality, "720p");
    assert!(merged.first_run_completed);
    assert!(merged.notifications_enabled);
}

#[test]
fn creators_and_sources_get_fresh_ids() {
    let mut store = Store::new();
    let a = store.create_creator(
        CreateCreatorRequest { name: "A".to_string(), photo_path: None },
        NOW,
    );
    let b = store.create_creator(
        CreateCreatorRequest { name: "B".to_string(), photo_path: None },
        NOW,
    );
    assert_ne!(a.id, b.id);
    assert_eq!(store.get_creator(&a.id).unwrap().name, "A");
    assert!(store.get_creator("no-such-id").is_none());

    let s = store.create_source(
        CreateSourceRequest {
            creator_id: a.id.clone(),
            platform: "youtube".to_string(),
            channel_url: "https://yt/chan".to_string(),
            credential_id: None,
        },
        NOW,
    );
    assert!(matches!(s.status, SourceStatus::Pending));
    assert!(s.last_synced_at.is_none());
    let ids = store.source_ids_for_creator(&a.id);
    assert_eq!(ids, vec![s.id.clone()]);
}

#[test]
fn default_credential_is_unique_per_platform() {
    let mut store = Store::new();
    let x = store.create_credential(
        CreateCredentialRequest {
            label: "X".to_string(),
            platform: "patreon".to_string(),
            cookie_path: "/x.txt".to_string(),
            is_default: Some(true),
        },
        NOW,
    );
    let y = store.create_credential(
        CreateCredentialRequest {
            label: "Y".to_string(),
            platform: "patreon".to_string(),
            cookie_path: "/y.txt".to_string(),
            is_default: Some(true),
        },
        NOW,
    );
    let defaults: Vec<&str> = store
        .credentials
        .iter()
        .filter(|c| c.platform == "patreon" && c.is_default)
        .map(|c| c.label.as_str())
        .collect();
    assert_eq!(defaults, vec!["Y"]);
    assert_eq!(store.get_default_credential("patreon").unwrap().id, y.id);
    assert!(!store.get_credential(&x.id).unwrap().is_default);
}

#[test]
fn updating_a_credential_to_default_clears_the_other() {
    let mut store = Store::new();
    let x = store.create_credential(
        CreateCredentialRequest {
            label: "X".to_string(),
            platform: "patreon".to_string(),
            cookie_path: "/x.txt".to_string(),
            is_default: Some(true),
        },
        NOW,
    );
    let y = store.create_credential(
        CreateCredentialRequest {
            label: "Y".to_string(),
            platform: "patreon".to_string(),
            cookie_path: "/y.txt".to_string(),
            is_default: None,
        },
        NOW,
    );
    assert_eq!(store.get_default_credential("patreon").unwrap().id, x.id);
    store
        .update_credential(
            &y.id,
            UpdateCredentialRequest { label: None, cookie_path: None, is_default: Some(true) },
            "2024-02-02T00:00:00Z",
        )
        .expect("credential should exist");
    let count = store
        .credentials
        .iter()
        .filter(|c| c.platform == "patreon" && c.is_default)
        .count();
    assert_eq!(count, 1);
    assert_eq!(store.get_default_credential("patreon").unwrap().id, y.id);
}

#[test]
fn feed_items_are_unique_per_source_and_external_id() {
    let mut store = Store::new();
    let first = store.create_feed_item(feed_request("s1", "e1", "One"), NOW);
    assert!(first.is_some());
    let duplicate = store.create_feed_item(feed_request("s1", "e1", "Again"), NOW);
    assert!(duplicate.is_none());
    let other_source = store.create_feed_item(feed_request("s2", "e1", "Other"), NOW);
    assert!(other_source.is_some());
    assert_eq!(store.feed_items.len(), 2);
    let item = first.unwrap();
    assert!(matches!(item.download_status, DownloadStatus::NotDownloaded));
    assert!(!item.metadata_complete);
}

#[test]
fn batch_insert_skips_existing_keys() {
    let mut store = Store::new();
    store.create_feed_item(feed_request("s1", "e1", "One"), NOW);
    let batch = vec![
        feed_request("s1", "e1", "One"),
        feed_request("s1", "e2", "Two"),
        feed_request("s1", "e3", "Three"),
    ];
    let inserted = store.create_feed_items_batch(batch, NOW);
    assert_eq!(inserted, 2);
    assert_eq!(store.feed_items.len(), 3);
}

#[test]
fn update_feed_item_merges_fields() {
    let mut store = Store::new();
    let item = store.create_feed_item(feed_request("s1", "e1", "One"), NOW).unwrap();
    let updated = store
        .update_feed_item(
            &item.id,
            UpdateFeedItemRequest {
                download_status: Some(DownloadStatus::Downloading),
                warehouse_item_id: None,
            },
        )
        .expect("item should exist");
    assert!(matches!(updated.download_status, DownloadStatus::Downloading));
    assert!(updated.warehouse_item_id.is_none());
    assert!(store
        .update_feed_item(
            "missing",
            UpdateFeedItemRequest { download_status: None, warehouse_item_id: None },
        )
        .is_none());
}

#[test]
fn metadata_merge_preserves_existing_values() {
    let mut store = Store::new();
    let mut request = feed_request("s1", "e1", "One");
    request.published_at = Some("2020-01-01T00:00:00Z".to_string());
    let item = store.create_feed_item(request, NOW).unwrap();
    store.update_feed_item_metadata(&item.id, None, Some(120), Some("https://t".to_string()));
    let after = store.get_feed_item(&item.id).unwrap();
    assert_eq!(after.published_at.as_deref(), Some("2020-01-01T00:00:00Z"));
    assert_eq!(after.duration, Some(120));
    assert_eq!(after.thumbnail_url.as_deref(), Some("https://t"));
    assert!(after.metadata_complete);
}

#[test]
fn incomplete_selection_is_newest_first_and_limited() {
    let mut store = Store::new();
    let a = store.create_feed_item(feed_request("s1", "e1", "A"), NOW).unwrap();
    let b = store.create_feed_item(feed_request("s1", "e2", "B"), NOW).unwrap();
    let c = store.create_feed_item(feed_request("s1", "e3", "C"), NOW).unwrap();
    store.update_feed_item_metadata(&b.id, None, None, None);
    let picked = store.get_incomplete_items(5);
    assert_eq!(picked, vec![c.id.clone(), a.id.clone()]);
    let limited = store.get_incomplete_items(1);
    assert_eq!(limited, vec![c.id.clone()]);
}

#[test]
fn incomplete_selection_for_creator_follows_the_join() {
    let mut store = Store::new();
    let creator = store.create_creator(
        CreateCreatorRequest { name: "A".to_string(), photo_path: None },
        NOW,
    );
    let source = store.create_source(
        CreateSourceRequest {
            creator_id: creator.id.clone(),
            platform: "youtube".to_string(),
            channel_url: "https://yt/a".to_string(),
            credential_id: None,
        },
        NOW,
    );
    let mine = store.create_feed_item(feed_request(&source.id, "e1", "Mine"), NOW).unwrap();
    store.create_feed_item(feed_request("unrelated-source", "e2", "Other"), NOW);
    let picked = Store::get_incomplete_items_for_creator(&store, &creator.id, 10);
    assert_eq!(picked, vec![mine.id]);
}

#[test]
fn warehouse_items_are_created_and_deleted() {
    let mut store = Store::new();
    let item = store.create_warehouse_item(
        CreateWarehouseItemRequest {
            creator_id: "c1".to_string(),
            feed_item_id: None,
            title: "Video".to_string(),
            file_path: "/library/v.mp4".to_string(),
            thumbnail_path: None,
            platform: Some("youtube".to_string()),
            original_url: None,
            published_at: None,
            duration: Some(10),
            file_size: 1234,
            is_manual_import: true,
        },
        NOW,
    );
    assert_eq!(store.warehouse_items.len(), 1);
    assert_eq!(item.imported_at, NOW);
    assert!(item.is_manual_import);
    assert!(!store.delete_warehouse_item("missing"));
    assert!(store.delete_warehouse_item(&item.id));
    assert!(store.warehouse_items.is_empty());
}

#[test]
fn counts_follow_the_creator_join() {
    let mut store = Store::new();
    let creator = store.create_creator(
        CreateCreatorRequest { name: "A".to_string(), photo_path: None },
        NOW,
    );
    let source = store.create_source(
        CreateSourceRequest {
            creator_id: creator.id.clone(),
            platform: "youtube".to_string(),
            channel_url: "https://yt/a".to_string(),
            credential_id: None,
        },
        NOW,
    );
    let a = store.create_feed_item(feed_request(&source.id, "e1", "A"), NOW).unwrap();
    store.create_feed_item(feed_request(&source.id, "e2", "B"), NOW);
    store.create_feed_item(feed_request("other-source", "e3", "C"), NOW);
    store.update_feed_item_status(&a.id, DownloadStatus::Downloaded);
    let counts = store.get_feed_item_counts(&creator.id);
    assert_eq!(counts.total, 2);
    assert_eq!(counts.downloaded, 1);
    assert_eq!(counts.not_downloaded, 1);
}

#[test]
fn items_by_source_keep_table_order() {
    let mut store = Store::new();
    let one = store.create_feed_item(feed_request("s1", "e1", "One"), NOW).unwrap();
    store.create_feed_item(feed_request("s2", "e2", "Two"), NOW);
    let three = store.create_feed_item(feed_request("s1", "e3", "Three"), NOW).unwrap();
    let items = store.get_feed_items_by_source("s1");
    assert_eq!(items.len(), 2);
    assert_eq!(items[0].id, one.id);
    assert_eq!(items[1].id, three.id);
}

#[test]
fn import_planning_builds_the_destination() {
    let mut store = Store::new();
    store.initialize_settings("/library".to_string());
    let creator = store.create_creator(
        CreateCreatorRequest { name: "A/B".to_string(), photo_path: None },
        NOW,
    );
    let dest = store
        .plan_import(&creator.id, "My Clip", None, "mkv")
        .expect("import should plan");
    assert_eq!(dest, "/library/A_B/other/My Clip.mkv");
    assert!(store.plan_import("missing", "T", Some("youtube"), "mp4").is_err());
}

#[test]
fn update_creator_merges_and_stamps() {
    let mut store = Store::new();
    let creator = store.create_creator(
        CreateCreatorRequest { name: "Old".to_string(), photo_path: None },
        NOW,
    );
    let merged = store
        .update_creator(
            &creator.id,
            mediaflow::model::UpdateCreatorRequest {
                name: Some("New".to_string()),
                photo_path: None,
            },
            "2024-03-03T00:00:00Z",
        )
        .expect("creator should exist");
    assert_eq!(merged.name, "New");
    assert_eq!(merged.created_at, NOW);
    assert_eq!(merged.updated_at, "2024-03-03T00:00:00Z");
}

#[test]
fn update_source_merges_fields() {
    let mut store = Store::new();
    let creator = store.create_creator(
        CreateCreatorRequest { name: "A".to_string(), photo_path: None },
        NOW,
    );
    let source = store.create_source(
        CreateSourceRequest {
            creator_id: creator.id.clone(),
            platform: "youtube".to_string(),
            channel_url: "https://yt/old".to_string(),
            credential_id: None,
        },
        NOW,
    );
    let merged = store
        .update_source(
            &source.id,
            mediaflow::model::UpdateSourceRequest {
                channel_url: Some("https://yt/new".to_string()),
                credential_id: None,
                status: Some(SourceStatus::Validated),
                channel_name: Some("Named".to_string()),
            },
        )
        .expect("source should exist");
    assert_eq!(merged.channel_url, "https://yt/new");
    assert_eq!(merged.channel_name.as_deref(), Some("Named"));
    assert!(matches!(merged.status, SourceStatus::Validated));
    assert_eq!(merged.platform, "youtube");
}
