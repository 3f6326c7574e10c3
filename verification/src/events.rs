//! Events published to the UI event sink, and the classified errors of
//! the task layer.

use vstd::prelude::*;
use vstd::string::StringExecFns;
use crate::progress::Percent;

verus! {

/// A download began for a feed item.
#[derive(Debug)]
pub struct DownloadStartedEvent {
    pub feed_item_id: String,
}

/// A progress report for a running download.
#[derive(Debug)]
pub struct DownloadProgressEvent {
    pub feed_item_id: String,
    pub percent: Percent,
    pub speed: String,
}

/// A download finished and its file entered the warehouse.
#[derive(Debug)]
pub struct DownloadCompletedEvent {
    pub feed_item_id: String,
    pub warehouse_item_id: String,
}

/// A download failed, with a human-readable message.
#[derive(Debug)]
pub struct DownloadErrorEvent {
    pub feed_item_id: String,
    pub error: String,
}

/// A sync lifecycle event: started, completed (with the count of newly
/// discovered items) or failed.
#[derive(Debug)]
pub struct SyncEvent {
    pub source_id: String,
    pub status: String,
    pub message: Option<String>,
    pub new_items: Option<i32>,
}

/// A metadata fetch lifecycle event for one feed item.
#[derive(Debug)]
pub struct MetadataEvent {
    pub feed_item_id: String,
    pub status: String,
    pub message: Option<String>,
}

/// The classified failures of the task layer. Malformed listing or
/// progress lines are not failures: they are silently dropped where
/// they are read.
#[derive(Clone, Copy, PartialEq, Eq, Structural, Debug)]
pub enum CoreError {
    /// The external fetch tool is not available.
    ToolUnavailable,
    /// The external fetch tool failed to run or exited with an error.
    ToolExecutionFailed,
    /// The fetch tool's error output indicates an authentication
    /// failure.
    AuthenticationFailed,
    /// A platform requiring a credential has neither an explicit nor a
    /// default one.
    CredentialMissing,
    /// A referenced feed item, source or related record does not exist.
    ItemOrSourceNotFound,
    /// Cooperative cancellation was observed.
    Cancelled,
    /// A worker unit terminated abnormally.
    InternalTaskFailure,
    /// A source carries a platform tag naming no supported platform.
    UnknownPlatform,
}

impl CoreError {
    /// The human-readable message of this failure.
    pub fn message(&self) -> (r: String)
        ensures
            r@ == self.message_spec(),
    {
        match self {
            CoreError::ToolUnavailable => String::from_str("Fetch tool not available"),
            CoreError::ToolExecutionFailed => String::from_str("yt-dlp failed"),
            CoreError::AuthenticationFailed => String::from_str(
                "Authentication failed. Please check your cookie file is valid and not expired.",
            ),
            CoreError::CredentialMissing => String::from_str(
                "No credential configured for this source. Please add a cookie file in Settings.",
            ),
            CoreError::ItemOrSourceNotFound => String::from_str("Item or source not found"),
            CoreError::Cancelled => String::from_str("cancelled"),
            CoreError::InternalTaskFailure => String::from_str("Task panicked"),
            CoreError::UnknownPlatform => String::from_str("Unknown platform"),
        }
    }

    /// The message of each failure.
    pub open spec fn message_spec(self) -> Seq<char> {
        match self {
            CoreError::ToolUnavailable => "Fetch tool not available"@,
            CoreError::ToolExecutionFailed => "yt-dlp failed"@,
            CoreError::AuthenticationFailed => "Authentication failed. Please check your cookie file is valid and not expired."@,
            CoreError::CredentialMissing => "No credential configured for this source. Please add a cookie file in Settings."@,
            CoreError::ItemOrSourceNotFound => "Item or source not found"@,
            CoreError::Cancelled => "cancelled"@,
            CoreError::InternalTaskFailure => "Task panicked"@,
            CoreError::UnknownPlatform => "Unknown platform"@,
        }
    }
}

} // verus!
