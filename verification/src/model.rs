//! The entity types the task layer reads and writes: creators, sources,
//! feed items, warehouse items, credentials and application settings,
//! together with their specification-level views.

use vstd::prelude::*;

verus! {

/// Download state of a feed item, as persisted by the gateway.
#[derive(Clone, Copy, PartialEq, Eq, Structural, Debug)]
pub enum DownloadStatus {
    NotDownloaded,
    Downloading,
    Downloaded,
    Error,
}

/// Validation state of a source.
#[derive(Clone, Copy, PartialEq, Eq, Structural, Debug)]
pub enum SourceStatus {
    Pending,
    Validated,
    Error,
}

/// A supported remote platform. A source carries a free-form platform
/// tag; only tags naming one of these platforms can be synced.
#[derive(Clone, Copy, PartialEq, Eq, Structural, Debug)]
pub enum Platform {
    Youtube,
    Patreon,
}

/// The view of an optional string as an optional character sequence.
pub open spec fn opt_str_view(o: Option<String>) -> Option<Seq<char>> {
    match o {
        Some(s) => Some(s@),
        None => None,
    }
}

/// Clones an optional string, preserving the value exactly.
pub fn clone_opt_string(o: &Option<String>) -> (r: Option<String>)
    ensures
        r == *o,
{
    match o {
        Some(s) => Some(s.clone()),
        None => None,
    }
}

pub struct CreatorView {
    pub id: Seq<char>,
    pub name: Seq<char>,
    pub photo_path: Option<Seq<char>>,
    pub created_at: Seq<char>,
    pub updated_at: Seq<char>,
}

/// A creator: the owner under which sources and local media are grouped.
#[derive(Debug)]
pub struct Creator {
    pub id: String,
    pub name: String,
    pub photo_path: Option<String>,
    pub created_at: String,
    pub updated_at: String,
}

impl Creator {
    /// Whether this creator carries the given identifier.
    pub open spec fn creator_matches(self, id: Seq<char>) -> bool {
        self.id@ == id
    }
}

impl View for Creator {
    type V = CreatorView;

    open spec fn view(&self) -> CreatorView {
        CreatorView {
            id: self.id@,
            name: self.name@,
            photo_path: opt_str_view(self.photo_path),
            created_at: self.created_at@,
            updated_at: self.updated_at@,
        }
    }
}

impl Clone for Creator {
    fn clone(&self) -> (r: Self)
        ensures
            r == *self,
    {
        Creator {
            id: self.id.clone(),
            name: self.name.clone(),
            photo_path: clone_opt_string(&self.photo_path),
            created_at: self.created_at.clone(),
            updated_at: self.updated_at.clone(),
        }
    }
}

#[derive(Debug)]
pub struct CreateCreatorRequest {
    pub name: String,
    pub photo_path: Option<String>,
}

#[derive(Debug)]
pub struct UpdateCreatorRequest {
    pub name: Option<String>,
    pub photo_path: Option<String>,
}

pub struct CredentialView {
    pub id: Seq<char>,
    pub label: Seq<char>,
    pub platform: Seq<char>,
    pub cookie_path: Seq<char>,
    pub is_default: bool,
    pub created_at: Seq<char>,
    pub updated_at: Seq<char>,
}

/// Stored authentication material for a platform: a reference to a
/// cookie file, optionally marked as the platform's default.
#[derive(Debug)]
pub struct Credential {
    pub id: String,
    pub label: String,
    pub platform: String,
    pub cookie_path: String,
    pub is_default: bool,
    pub created_at: String,
    pub updated_at: String,
}

impl View for Credential {
    type V = CredentialView;

    open spec fn view(&self) -> CredentialView {
        CredentialView {
            id: self.id@,
            label: self.label@,
            platform: self.platform@,
            cookie_path: self.cookie_path@,
            is_default: self.is_default,
            created_at: self.created_at@,
            updated_at: self.updated_at@,
        }
    }
}

impl Clone for Credential {
    fn clone(&self) -> (r: Self)
        ensures
            r == *self,
    {
        Credential {
            id: self.id.clone(),
            label: self.label.clone(),
            platform: self.platform.clone(),
            cookie_path: self.cookie_path.clone(),
            is_default: self.is_default,
            created_at: self.created_at.clone(),
            updated_at: self.updated_at.clone(),
        }
    }
}

#[derive(Debug)]
pub struct CreateCredentialRequest {
    pub label: String,
    pub platform: String,
    pub cookie_path: String,
    pub is_default: Option<bool>,
}

#[derive(Debug)]
pub struct UpdateCredentialRequest {
    pub label: Option<String>,
    pub cookie_path: Option<String>,
    pub is_default: Option<bool>,
}

pub struct SourceView {
    pub id: Seq<char>,
    pub creator_id: Seq<char>,
    pub platform: Seq<char>,
    pub channel_url: Seq<char>,
    pub channel_name: Option<Seq<char>>,
    pub credential_id: Option<Seq<char>>,
    pub status: SourceStatus,
    pub last_synced_at: Option<Seq<char>>,
    pub created_at: Seq<char>,
}

/// An owner-scoped subscription to a remote channel or feed.
#[derive(Debug)]
pub struct Source {
    pub id: String,
    pub creator_id: String,
    pub platform: String,
    pub channel_url: String,
    pub channel_name: Option<String>,
    pub credential_id: Option<String>,
    pub status: SourceStatus,
    pub last_synced_at: Option<String>,
    pub created_at: String,
}

impl View for Source {
    type V = SourceView;

    open spec fn view(&self) -> SourceView {
        SourceView {
            id: self.id@,
            creator_id: self.creator_id@,
            platform: self.platform@,
            channel_url: self.channel_url@,
            channel_name: opt_str_view(self.channel_name),
            credential_id: opt_str_view(self.credential_id),
            status: self.status,
            last_synced_at: opt_str_view(self.last_synced_at),
            created_at: self.created_at@,
        }
    }
}

impl Clone for Source {
    fn clone(&self) -> (r: Self)
        ensures
            r == *self,
    {
        Source {
            id: self.id.clone(),
            creator_id: self.creator_id.clone(),
            platform: self.platform.clone(),
            channel_url: self.channel_url.clone(),
            channel_name: clone_opt_string(&self.channel_name),
            credential_id: clone_opt_string(&self.credential_id),
            status: self.status,
            last_synced_at: clone_opt_string(&self.last_synced_at),
            created_at: self.created_at.clone(),
        }
    }
}

#[derive(Debug)]
pub struct CreateSourceRequest {
    pub creator_id: String,
    pub platform: String,
    pub channel_url: String,
    pub credential_id: Option<String>,
}

#[derive(Debug)]
pub struct UpdateSourceRequest {
    pub channel_url: Option<String>,
    pub credential_id: Option<String>,
    pub status: Option<SourceStatus>,
    pub channel_name: Option<String>,
}

pub struct FeedItemView {
    pub id: Seq<char>,
    pub source_id: Seq<char>,
    pub external_id: Seq<char>,
    pub title: Seq<char>,
    pub thumbnail_url: Option<Seq<char>>,
    pub published_at: Option<Seq<char>>,
    pub duration: Option<i64>,
    pub download_status: DownloadStatus,
    pub warehouse_item_id: Option<Seq<char>>,
    pub metadata_complete: bool,
    pub created_at: Seq<char>,
}

/// One discovered remote entry of a source. Unique per
/// `(source_id, external_id)`.
#[derive(Debug)]
pub struct FeedItem {
    pub id: String,
    pub source_id: String,
    pub external_id: String,
    pub title: String,
    pub thumbnail_url: Option<String>,
    pub published_at: Option<String>,
    pub duration: Option<i64>,
    pub download_status: DownloadStatus,
    pub warehouse_item_id: Option<String>,
    pub metadata_complete: bool,
    pub created_at: String,
}

impl View for FeedItem {
    type V = FeedItemView;

    open spec fn view(&self) -> FeedItemView {
        FeedItemView {
            id: self.id@,
            source_id: self.source_id@,
            external_id: self.external_id@,
            title: self.title@,
            thumbnail_url: opt_str_view(self.thumbnail_url),
            published_at: opt_str_view(self.published_at),
            duration: self.duration,
            download_status: self.download_status,
            warehouse_item_id: opt_str_view(self.warehouse_item_id),
            metadata_complete: self.metadata_complete,
            created_at: self.created_at@,
        }
    }
}

impl Clone for FeedItem {
    fn clone(&self) -> (r: Self)
        ensures
            r == *self,
    {
        FeedItem {
            id: self.id.clone(),
            source_id: self.source_id.clone(),
            external_id: self.external_id.clone(),
            title: self.title.clone(),
            thumbnail_url: clone_opt_string(&self.thumbnail_url),
            published_at: clone_opt_string(&self.published_at),
            duration: self.duration,
            download_status: self.download_status,
            warehouse_item_id: clone_opt_string(&self.warehouse_item_id),
            metadata_complete: self.metadata_complete,
            created_at: self.created_at.clone(),
        }
    }
}

#[derive(Debug)]
pub struct CreateFeedItemRequest {
    pub source_id: String,
    pub external_id: String,
    pub title: String,
    pub thumbnail_url: Option<String>,
    pub published_at: Option<String>,
    pub duration: Option<i64>,
}

#[derive(Debug)]
pub struct UpdateFeedItemRequest {
    pub download_status: Option<DownloadStatus>,
    pub warehouse_item_id: Option<String>,
}

/// Per-creator totals over feed items.
#[derive(Clone, Copy, PartialEq, Eq, Structural, Debug)]
pub struct FeedItemCounts {
    pub total: i32,
    pub downloaded: i32,
    pub not_downloaded: i32,
}

pub struct WarehouseItemView {
    pub id: Seq<char>,
    pub creator_id: Seq<char>,
    pub feed_item_id: Option<Seq<char>>,
    pub title: Seq<char>,
    pub file_path: Seq<char>,
    pub thumbnail_path: Option<Seq<char>>,
    pub platform: Option<Seq<char>>,
    pub original_url: Option<Seq<char>>,
    pub published_at: Option<Seq<char>>,
    pub duration: Option<i64>,
    pub file_size: i64,
    pub imported_at: Seq<char>,
    pub is_manual_import: bool,
}

/// A locally materialized media file, fetched or manually imported.
#[derive(Debug)]
pub struct WarehouseItem {
    pub id: String,
    pub creator_id: String,
    pub feed_item_id: Option<String>,
    pub title: String,
    pub file_path: String,
    pub thumbnail_path: Option<String>,
    pub platform: Option<String>,
    pub original_url: Option<String>,
    pub published_at: Option<String>,
    pub duration: Option<i64>,
    pub file_size: i64,
    pub imported_at: String,
    pub is_manual_import: bool,
}

impl View for WarehouseItem {
    type V = WarehouseItemView;

    open spec fn view(&self) -> WarehouseItemView {
        WarehouseItemView {
            id: self.id@,
            creator_id: self.creator_id@,
            feed_item_id: opt_str_view(self.feed_item_id),
            title: self.title@,
            file_path: self.file_path@,
            thumbnail_path: opt_str_view(self.thumbnail_path),
            platform: opt_str_view(self.platform),
            original_url: opt_str_view(self.original_url),
            published_at: opt_str_view(self.published_at),
            duration: self.duration,
            file_size: self.file_size,
            imported_at: self.imported_at@,
            is_manual_import: self.is_manual_import,
        }
    }
}

impl Clone for WarehouseItem {
    fn clone(&self) -> (r: Self)
        ensures
            r == *self,
    {
        WarehouseItem {
            id: self.id.clone(),
            creator_id: self.creator_id.clone(),
            feed_item_id: clone_opt_string(&self.feed_item_id),
            title: self.title.clone(),
            file_path: self.file_path.clone(),
            thumbnail_path: clone_opt_string(&self.thumbnail_path),
            platform: clone_opt_string(&self.platform),
            original_url: clone_opt_string(&self.original_url),
            published_at: clone_opt_string(&self.published_at),
            duration: self.duration,
            file_size: self.file_size,
            imported_at: self.imported_at.clone(),
            is_manual_import: self.is_manual_import,
        }
    }
}

#[derive(Debug)]
pub struct CreateWarehouseItemRequest {
    pub creator_id: String,
    pub feed_item_id: Option<String>,
    pub title: String,
    pub file_path: String,
    pub thumbnail_path: Option<String>,
    pub platform: Option<String>,
    pub original_url: Option<String>,
    pub published_at: Option<String>,
    pub duration: Option<i64>,
    pub file_size: i64,
    pub is_manual_import: bool,
}

/// A request to import an already-downloaded file into the warehouse.
#[derive(Debug)]
pub struct ImportVideoRequest {
    pub source_path: String,
    pub creator_id: String,
    pub title: String,
    pub platform: Option<String>,
}

pub struct AppSettingsView {
    pub library_path: Seq<char>,
    pub default_quality: Seq<char>,
    pub sync_interval_seconds: i64,
    pub theme: Seq<char>,
    pub first_run_completed: bool,
    pub notifications_enabled: bool,
    pub bass_boost_preset: Seq<char>,
    pub bass_boost_custom_gain: i64,
}

/// Application-wide settings, stored as a single record.
#[derive(Debug)]
pub struct AppSettings {
    pub library_path: String,
    pub default_quality: String,
    pub sync_interval_seconds: i64,
    pub theme: String,
    pub first_run_completed: bool,
    pub notifications_enabled: bool,
    pub bass_boost_preset: String,
    pub bass_boost_custom_gain: i64,
}

impl View for AppSettings {
    type V = AppSettingsView;

    open spec fn view(&self) -> AppSettingsView {
        AppSettingsView {
            library_path: self.library_path@,
            default_quality: self.default_quality@,
            sync_interval_seconds: self.sync_interval_seconds,
            theme: self.theme@,
            first_run_completed: self.first_run_completed,
            notifications_enabled: self.notifications_enabled,
            bass_boost_preset: self.bass_boost_preset@,
            bass_boost_custom_gain: self.bass_boost_custom_gain,
        }
    }
}

impl Clone for AppSettings {
    fn clone(&self) -> (r: Self)
        ensures
            r == *self,
    {
        AppSettings {
            library_path: self.library_path.clone(),
            default_quality: self.default_quality.clone(),
            sync_interval_seconds: self.sync_interval_seconds,
            theme: self.theme.clone(),
            first_run_completed: self.first_run_completed,
            notifications_enabled: self.notifications_enabled,
            bass_boost_preset: self.bass_boost_preset.clone(),
            bass_boost_custom_gain: self.bass_boost_custom_gain,
        }
    }
}

#[derive(Debug)]
pub struct UpdateAppSettingsRequest {
    pub library_path: Option<String>,
    pub default_quality: Option<String>,
    pub sync_interval_seconds: Option<i64>,
    pub theme: Option<String>,
    pub first_run_completed: Option<bool>,
    pub notifications_enabled: Option<bool>,
    pub bass_boost_preset: Option<String>,
    pub bass_boost_custom_gain: Option<i64>,
}

} // verus!
