use vstd::prelude::*;

verus! {

/// Every way a replay pass can end other than completion.
pub enum SnappError {
    /// The run configuration could not be read.
    ConfigurationError { msg: String },
    /// The remote archive could not be retrieved.
    SnapshotDownloadError { msg: String },
    /// The archive or one of its records could not be decoded.
    ExtractionError { msg: String },
    /// The plugin module could not be loaded or initialised.
    PluginLoadError { msg: String },
    /// The plugin does not accept account-data notifications.
    PluginCapabilityError,
    /// The plugin failed on the notification for the record named here.
    PluginNotificationError { address: [u8; 32], slot: u64, write_version: u64, msg: String },
    /// The record named here cannot be represented as a notification payload.
    TranslationError { address: [u8; 32], slot: u64, declared_len: u64, available_len: u64 },
}

/// The kind of a `SnappError`, without its details.
#[derive(Clone, Copy, Debug, PartialEq, Eq, Structural)]
pub enum ErrorKind {
    Configuration,
    Download,
    Extraction,
    PluginLoad,
    PluginCapability,
    PluginNotification,
    Translation,
}

pub open spec fn kind_of(e: SnappError) -> ErrorKind {
    match e {
        SnappError::ConfigurationError { .. } => ErrorKind::Configuration,
        SnappError::SnapshotDownloadError { .. } => ErrorKind::Download,
        SnappError::ExtractionError { .. } => ErrorKind::Extraction,
        SnappError::PluginLoadError { .. } => ErrorKind::PluginLoad,
        SnappError::PluginCapabilityError => ErrorKind::PluginCapability,
        SnappError::PluginNotificationError { .. } => ErrorKind::PluginNotification,
        SnappError::TranslationError { .. } => ErrorKind::Translation,
    }
}

impl SnappError {
    /// The kind of this error.
    pub fn kind(&self) -> (k: ErrorKind)
        ensures
            k == kind_of(*self),
    {
        match self {
            SnappError::ConfigurationError { .. } => ErrorKind::Configuration,
            SnappError::SnapshotDownloadError { .. } => ErrorKind::Download,
            SnappError::ExtractionError { .. } => ErrorKind::Extraction,
            SnappError::PluginLoadError { .. } => ErrorKind::PluginLoad,
            SnappError::PluginCapabilityError => ErrorKind::PluginCapability,
            SnappError::PluginNotificationError { .. } => ErrorKind::PluginNotification,
            SnappError::TranslationError { .. } => ErrorKind::Translation,
        }
    }
}

} // verus!
