use vstd::prelude::*;

use crate::error::SnappError;
use crate::record::{payload_of, record_fits, AccountRecord, NotificationPayload};

verus! {

/// Where a replay pass stands.
pub enum Phase {
    /// Waiting for the run configuration.
    Configuring,
    /// Waiting for the plugin module to load and report its capabilities.
    LoadingPlugin,
    /// Waiting for the remote archive to open.
    Fetching,
    /// Waiting for the extractor's next record.
    Pulling,
    /// Waiting for the plugin to take the notification for the record named here.
    Notifying { address: [u8; 32], slot: u64, write_version: u64 },
    /// Every record was forwarded.
    Done,
    /// The pass stopped on this error.
    Failed { error: SnappError },
}

/// What the driver of the pass reports back after doing the requested work.
pub enum Event {
    /// The configuration was read.
    ConfigRead,
    /// The configuration could not be read.
    ConfigFailed { msg: String },
    /// The plugin loaded; it says whether it accepts account-data notifications.
    PluginLoaded { accepts_account_data: bool },
    /// The plugin could not be loaded.
    PluginLoadFailed { msg: String },
    /// The archive is open and the extractor is ready.
    ArchiveOpened,
    /// The archive could not be retrieved.
    DownloadFailed { msg: String },
    /// The extractor yielded this record.
    Record { record: AccountRecord },
    /// The extractor failed to decode the archive or its next record.
    DecodeFailed { msg: String },
    /// The extractor has no more records.
    Exhausted,
    /// The plugin took the last notification.
    Notified,
    /// The plugin failed on the last notification.
    NotifyFailed { msg: String },
}

/// The work the driver is asked to do next.
pub enum Action {
    /// Load the plugin module named in the configuration.
    LoadPlugin,
    /// Start retrieving the remote archive and open the extractor on it.
    OpenArchive,
    /// Pull the extractor's next record.
    PullNext,
    /// Call the plugin's account-update entry point with this payload.
    Notify { payload: NotificationPayload },
    /// Release the plugin and report how the pass ended.
    Finish,
    /// The event was not one the pass was waiting for; nothing to do.
    Ignore,
}

/// The decisions of one replay pass, from configuration to the last record.
pub struct Orchestrator {
    pub phase: Phase,
}

pub open spec fn initial() -> Orchestrator {
    Orchestrator { phase: Phase::Configuring }
}

pub open spec fn failed(error: SnappError) -> (Orchestrator, Action) {
    (Orchestrator { phase: Phase::Failed { error } }, Action::Finish)
}

/// The state after an event, and the action it calls for.
pub open spec fn transition(s: Orchestrator, e: Event) -> (Orchestrator, Action) {
    match (s.phase, e) {
        (Phase::Configuring, Event::ConfigRead) => (
            Orchestrator { phase: Phase::LoadingPlugin },
            Action::LoadPlugin,
        ),
        (Phase::Configuring, Event::ConfigFailed { msg }) => failed(
            SnappError::ConfigurationError { msg },
        ),
        (Phase::LoadingPlugin, Event::PluginLoaded { accepts_account_data }) => if accepts_account_data {
            (Orchestrator { phase: Phase::Fetching }, Action::OpenArchive)
        } else {
            failed(SnappError::PluginCapabilityError)
        },
        (Phase::LoadingPlugin, Event::PluginLoadFailed { msg }) => failed(
            SnappError::PluginLoadError { msg },
        ),
        (Phase::Fetching, Event::ArchiveOpened) => (
            Orchestrator { phase: Phase::Pulling },
            Action::PullNext,
        ),
        (Phase::Fetching, Event::DownloadFailed { msg }) => failed(
            SnappError::SnapshotDownloadError { msg },
        ),
        (Phase::Fetching, Event::DecodeFailed { msg }) => failed(
            SnappError::ExtractionError { msg },
        ),
        (Phase::Pulling, Event::Record { record }) => if record_fits(record) {
            (
                Orchestrator {
                    phase: Phase::Notifying {
                        address: record.address,
                        slot: record.slot,
                        write_version: record.write_version,
                    },
                },
                Action::Notify { payload: payload_of(record) },
            )
        } else {
            failed(
                SnappError::TranslationError {
                    address: record.address,
                    slot: record.slot,
                    declared_len: record.data_len,
                    available_len: record.data@.len() as u64,
                },
            )
        },
        (Phase::Pulling, Event::DecodeFailed { msg }) => failed(
            SnappError::ExtractionError { msg },
        ),
        (Phase::Pulling, Event::Exhausted) => (Orchestrator { phase: Phase::Done }, Action::Finish),
        (Phase::Notifying { .. }, Event::Notified) => (
            Orchestrator { phase: Phase::Pulling },
            Action::PullNext,
        ),
        (Phase::Notifying { address, slot, write_version }, Event::NotifyFailed { msg }) => failed(
            SnappError::PluginNotificationError { address, slot, write_version, msg },
        ),
        _ => (s, Action::Ignore),
    }
}

impl Orchestrator {
    /// A pass that has not yet read its configuration.
    pub fn new() -> (r: Orchestrator)
        ensures
            r == initial(),
    {
        Orchestrator { phase: Phase::Configuring }
    }

    /// Takes the driver's report of the last piece of work and decides the next.
    pub fn step(&mut self, event: Event) -> (a: Action)
        ensures
            (*final(self), a) == transition(*old(self), event),
    {
        let mut phase = Phase::Done;
        core::mem::swap(&mut phase, &mut self.phase);
        let (next, action) = match (phase, event) {
            (Phase::Configuring, Event::ConfigRead) => (Phase::LoadingPlugin, Action::LoadPlugin),
            (Phase::Configuring, Event::ConfigFailed { msg }) => (
                Phase::Failed { error: SnappError::ConfigurationError { msg } },
                Action::Finish,
            ),
            (Phase::LoadingPlugin, Event::PluginLoaded { accepts_account_data }) => {
                if accepts_account_data {
                    (Phase::Fetching, Action::OpenArchive)
                } else {
                    (Phase::Failed { error: SnappError::PluginCapabilityError }, Action::Finish)
                }
            },
            (Phase::LoadingPlugin, Event::PluginLoadFailed { msg }) => (
                Phase::Failed { error: SnappError::PluginLoadError { msg } },
                Action::Finish,
            ),
            (Phase::Fetching, Event::ArchiveOpened) => (Phase::Pulling, Action::PullNext),
            (Phase::Fetching, Event::DownloadFailed { msg }) => (
                Phase::Failed { error: SnappError::SnapshotDownloadError { msg } },
                Action::Finish,
            ),
            (Phase::Fetching, Event::DecodeFailed { msg }) => (
                Phase::Failed { error: SnappError::ExtractionError { msg } },
                Action::Finish,
            ),
            (Phase::Pulling, Event::Record { record }) => {
                let address = record.address;
                let slot = record.slot;
                let write_version = record.write_version;
                match record.into_payload() {
                    Ok(payload) => (
                        Phase::Notifying { address, slot, write_version },
                        Action::Notify { payload },
                    ),
                    Err(t) => (
                        Phase::Failed {
                            error: SnappError::TranslationError {
                                address,
                                slot,
                                declared_len: t.declared_len,
                                available_len: t.available_len,
                            },
                        },
                        Action::Finish,
                    ),
                }
            },
            (Phase::Pulling, Event::DecodeFailed { msg }) => (
                Phase::Failed { error: SnappError::ExtractionError { msg } },
                Action::Finish,
            ),
            (Phase::Pulling, Event::Exhausted) => (Phase::Done, Action::Finish),
            (Phase::Notifying { .. }, Event::Notified) => (Phase::Pulling, Action::PullNext),
            (Phase::Notifying { address, slot, write_version }, Event::NotifyFailed { msg }) => (
                Phase::Failed {
                    error: SnappError::PluginNotificationError { address, slot, write_version, msg },
                },
                Action::Finish,
            ),
            (phase, _) => (phase, Action::Ignore),
        };
        self.phase = next;
        action
    }

    /// How the pass ended: `Ok` when done, the error when failed, `None`
    /// while it is still running.
    pub fn into_outcome(self) -> (r: Option<Result<(), SnappError>>)
        ensures
            self.phase is Done ==> r == Some(Ok::<(), SnappError>(())),
            self.phase matches Phase::Failed { error } ==> r == Some(Err::<(), SnappError>(error)),
            !(self.phase is Done) && !(self.phase is Failed) ==> r is None,
    {
        match self.phase {
            Phase::Done => Some(Ok(())),
            Phase::Failed { error } => Some(Err(error)),
            _ => None,
        }
    }
}

} // verus!
