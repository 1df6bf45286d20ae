use plerkle_snapshot::error::{ErrorKind, SnappError};
use plerkle_snapshot::orchestrator::{Action, Event, Orchestrator, Phase};
use plerkle_snapshot::record::AccountRecord;

fn record(addr: u8, lamports: u64) -> AccountRecord {
    AccountRecord {
        address: [addr; 32],
        owner: [9u8; 32],
        lamports,
        data_len: 3,
        data: vec![addr, 7, 8],
        executable: false,
        rent_epoch: 361,
        write_version: 1000 + lamports,
        slot: 42,
    }
}

fn streaming() -> Orchestrator {
    let mut o = Orchestrator::new();
    assert!(matches!(o.step(Event::ConfigRead), Action::LoadPlugin));
    assert!(matches!(
        o.step(Event::PluginLoaded { accepts_account_data: true }),
        Action::OpenArchive
    ));
    assert!(matches!(o.step(Event::ArchiveOpened), Action::PullNext));
    assert!(matches!(o.phase, Phase::Pulling));
    o
}

fn outcome_kind(o: Orchestrator) -> ErrorKind {
    match o.into_outcome() {
        Some(Err(e)) => e.kind(),
        _ => panic!("pass did not fail"),
    }
}

#[test]
fn duplicate_addresses_are_each_forwarded_in_order() {
    let mut o = streaming();
    let mut lamports = Vec::new();
    let mut addresses = Vec::new();
    for r in [record(1, 10), record(2, 0), record(1, 5)] {
        match o.step(Event::Record { record: r }) {
            Action::Notify { payload } => {
                lamports.push(payload.lamports);
                addresses.push(payload.pubkey[0]);
            }
            _ => panic!("record was not forwarded"),
        }
        assert!(matches!(o.step(Event::Notified), Action::PullNext));
    }
    assert!(matches!(o.step(Event::Exhausted), Action::Finish));
    assert_eq!(lamports, vec![10, 0, 5]);
    assert_eq!(addresses, vec![1, 2, 1]);
    assert!(matches!(o.into_outcome(), Some(Ok(()))));
}

#[test]
fn plugin_without_account_data_fails_before_fetch() {
    let mut o = Orchestrator::new();
    let mut actions = Vec::new();
    actions.push(o.step(Event::ConfigRead));
    actions.push(o.step(Event::PluginLoaded { accepts_account_data: false }));
    actions.push(o.step(Event::ArchiveOpened));
    actions.push(o.step(Event::Record { record: record(1, 10) }));
    assert!(matches!(actions[1], Action::Finish));
    assert!(actions
        .iter()
        .all(|a| !matches!(a, Action::OpenArchive | Action::PullNext | Action::Notify { .. })));
    assert!(matches!(
        o.phase,
        Phase::Failed { error: SnappError::PluginCapabilityError }
    ));
    assert_eq!(outcome_kind(o), ErrorKind::PluginCapability);
}

#[test]
fn payload_carries_record_fields_unchanged() {
    let r = AccountRecord {
        address: [3u8; 32],
        owner: [4u8; 32],
        lamports: 1_000_000_007,
        data_len: 4,
        data: vec![0xde, 0xad, 0xbe, 0xef],
        executable: true,
        rent_epoch: u64::MAX,
        write_version: 77,
        slot: 123_456,
    };
    let p = match r.into_payload() {
        Ok(p) => p,
        Err(_) => panic!("record should fit"),
    };
    assert_eq!(p.pubkey, [3u8; 32]);
    assert_eq!(p.owner, [4u8; 32]);
    assert_eq!(p.lamports, 1_000_000_007);
    assert_eq!(p.data, vec![0xde, 0xad, 0xbe, 0xef]);
    assert!(p.executable);
    assert_eq!(p.rent_epoch, u64::MAX);
    assert_eq!(p.write_version, 77);
    assert_eq!(p.slot, 123_456);
}

#[test]
fn empty_data_record_fits() {
    let mut r = record(5, 1);
    r.data_len = 0;
    r.data = Vec::new();
    let p = r.into_payload().ok().expect("empty data fits");
    assert!(p.data.is_empty());
}

#[test]
fn truncated_record_is_a_translation_error() {
    let mut r = record(6, 1);
    r.data_len = 10;
    match r.into_payload() {
        Err(t) => {
            assert_eq!(t.declared_len, 10);
            assert_eq!(t.available_len, 3);
        }
        Ok(_) => panic!("truncated record was accepted"),
    }
    let mut o = streaming();
    let mut bad = record(6, 1);
    bad.data_len = 10;
    assert!(matches!(o.step(Event::Record { record: bad }), Action::Finish));
    assert!(matches!(o.step(Event::Record { record: record(7, 1) }), Action::Ignore));
    match o.phase {
        Phase::Failed {
            error: SnappError::TranslationError { address, slot, declared_len, available_len },
        } => {
            assert_eq!(address, [6u8; 32]);
            assert_eq!(slot, 42);
            assert_eq!(declared_len, 10);
            assert_eq!(available_len, 3);
        }
        _ => panic!("expected a translation error"),
    }
}

#[test]
fn notification_failure_stops_the_pass() {
    let mut o = streaming();
    let mut forwarded = Vec::new();
    for (i, r) in [record(1, 10), record(2, 20), record(3, 30)].into_iter().enumerate() {
        match o.step(Event::Record { record: r }) {
            Action::Notify { payload } => forwarded.push(payload.lamports),
            _ => {}
        }
        let report = if i == 1 {
            Event::NotifyFailed { msg: "rejected".to_string() }
        } else {
            Event::Notified
        };
        o.step(report);
    }
    assert!(matches!(o.step(Event::Exhausted), Action::Ignore));
    assert_eq!(forwarded, vec![10, 20]);
    match &o.phase {
        Phase::Failed {
            error: SnappError::PluginNotificationError { address, slot, write_version, msg },
        } => {
            assert_eq!(*address, [2u8; 32]);
            assert_eq!(*slot, 42);
            assert_eq!(*write_version, 1020);
            assert_eq!(msg, "rejected");
        }
        _ => panic!("expected a plugin notification error"),
    }
    assert_eq!(outcome_kind(o), ErrorKind::PluginNotification);
}

#[test]
fn decode_failure_stops_the_pass() {
    let mut o = streaming();
    let mut forwarded = Vec::new();
    let events = vec![
        Event::Record { record: record(1, 10) },
        Event::Notified,
        Event::DecodeFailed { msg: "bad append vec".to_string() },
        Event::Record { record: record(2, 20) },
        Event::Notified,
        Event::Exhausted,
    ];
    for e in events {
        if let Action::Notify { payload } = o.step(e) {
            forwarded.push(payload.lamports);
        }
    }
    assert_eq!(forwarded, vec![10]);
    match &o.phase {
        Phase::Failed { error: SnappError::ExtractionError { msg } } => {
            assert_eq!(msg, "bad append vec")
        }
        _ => panic!("expected an extraction error"),
    }
    assert_eq!(outcome_kind(o), ErrorKind::Extraction);
}

#[test]
fn empty_snapshot_is_done_without_notifications() {
    let mut o = streaming();
    assert!(matches!(o.step(Event::Exhausted), Action::Finish));
    assert!(matches!(o.step(Event::Record { record: record(1, 1) }), Action::Ignore));
    assert!(matches!(o.into_outcome(), Some(Ok(()))));
}

#[test]
fn configuration_error_ends_the_pass() {
    let mut o = Orchestrator::new();
    assert!(matches!(
        o.step(Event::ConfigFailed { msg: "missing url".to_string() }),
        Action::Finish
    ));
    assert_eq!(outcome_kind(o), ErrorKind::Configuration);
}

#[test]
fn plugin_load_error_ends_the_pass() {
    let mut o = Orchestrator::new();
    o.step(Event::ConfigRead);
    assert!(matches!(
        o.step(Event::PluginLoadFailed { msg: "no such module".to_string() }),
        Action::Finish
    ));
    assert_eq!(outcome_kind(o), ErrorKind::PluginLoad);
}

#[test]
fn download_error_ends_the_pass() {
    let mut o = Orchestrator::new();
    o.step(Event::ConfigRead);
    o.step(Event::PluginLoaded { accepts_account_data: true });
    assert!(matches!(
        o.step(Event::DownloadFailed { msg: "404".to_string() }),
        Action::Finish
    ));
    assert_eq!(outcome_kind(o), ErrorKind::Download);
}

#[test]
fn unreadable_archive_is_an_extraction_error() {
    let mut o = Orchestrator::new();
    o.step(Event::ConfigRead);
    o.step(Event::PluginLoaded { accepts_account_data: true });
    assert!(matches!(
        o.step(Event::DecodeFailed { msg: "not a tar archive".to_string() }),
        Action::Finish
    ));
    assert_eq!(outcome_kind(o), ErrorKind::Extraction);
}

#[test]
fn unexpected_events_are_ignored() {
    let mut o = Orchestrator::new();
    assert!(matches!(o.step(Event::Notified), Action::Ignore));
    assert!(matches!(o.step(Event::ArchiveOpened), Action::Ignore));
    assert!(matches!(o.phase, Phase::Configuring));
    assert!(o.into_outcome().is_none());
    let mut o = streaming();
    assert!(matches!(o.step(Event::Notified), Action::Ignore));
    assert!(matches!(o.phase, Phase::Pulling));
}
