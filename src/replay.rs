use vstd::prelude::*;

use crate::error::SnappError;
use crate::orchestrator::{initial, transition, Action, Event, Orchestrator, Phase};
use crate::record::{payload_of, record_fits, AccountRecord, NotificationPayload};

verus! {

/// The state after a run of events, and the actions they called for, in order.
pub open spec fn drive(s: Orchestrator, events: Seq<Event>) -> (Orchestrator, Seq<Action>)
    decreases events.len(),
{
    if events.len() == 0 {
        (s, Seq::empty())
    } else {
        let first = transition(s, events[0]);
        let rest = drive(first.0, events.drop_first());
        (rest.0, seq![first.1] + rest.1)
    }
}

/// The payloads handed to the plugin by a run of actions, in order.
pub open spec fn notified(actions: Seq<Action>) -> Seq<NotificationPayload>
    decreases actions.len(),
{
    if actions.len() == 0 {
        Seq::empty()
    } else {
        let head = match actions[0] {
            Action::Notify { payload } => seq![payload],
            _ => Seq::empty(),
        };
        head + notified(actions.drop_first())
    }
}

/// The events of a pass up to the first record: configuration read, a plugin
/// that accepts account data, and an archive that opened.
pub open spec fn opening() -> Seq<Event> {
    seq![Event::ConfigRead, Event::PluginLoaded { accepts_account_data: true }, Event::ArchiveOpened]
}

/// The events of a pass whose configuration was read and whose plugin does
/// not accept account data.
pub open spec fn refused_plugin() -> Seq<Event> {
    seq![Event::ConfigRead, Event::PluginLoaded { accepts_account_data: false }]
}

/// Whether an action retrieves the archive, pulls a record or notifies the plugin.
pub open spec fn touches_archive(a: Action) -> bool {
    a is OpenArchive || a is PullNext || a is Notify
}

/// The events of streaming these records with every notification taken.
pub open spec fn clean_pass(rs: Seq<AccountRecord>) -> Seq<Event>
    decreases rs.len(),
{
    if rs.len() == 0 {
        Seq::empty()
    } else {
        seq![Event::Record { record: rs[0] }, Event::Notified] + clean_pass(rs.drop_first())
    }
}

/// The payloads of these records, in order.
pub open spec fn payloads(rs: Seq<AccountRecord>) -> Seq<NotificationPayload> {
    rs.map_values(|r: AccountRecord| payload_of(r))
}

pub open spec fn all_fit(rs: Seq<AccountRecord>) -> bool {
    forall|i: int| 0 <= i < rs.len() ==> record_fits(#[trigger] rs[i])
}

proof fn lemma_drive_cons(s: Orchestrator, e: Event, rest: Seq<Event>)
    ensures
        drive(s, seq![e] + rest).0 == drive(transition(s, e).0, rest).0,
        drive(s, seq![e] + rest).1 == seq![transition(s, e).1] + drive(transition(s, e).0, rest).1,
{
    let events = seq![e] + rest;
    assert(events[0] == e);
    assert(events.drop_first() =~= rest);
}

proof fn lemma_drive_single(s: Orchestrator, e: Event)
    ensures
        drive(s, seq![e]).0 == transition(s, e).0,
        drive(s, seq![e]).1 == seq![transition(s, e).1],
{
    lemma_drive_cons(s, e, Seq::empty());
    assert(seq![e] + Seq::<Event>::empty() =~= seq![e]);
    assert(seq![transition(s, e).1] + Seq::<Action>::empty() =~= seq![transition(s, e).1]);
}

proof fn lemma_drive_append(s: Orchestrator, e1: Seq<Event>, e2: Seq<Event>)
    ensures
        drive(s, e1 + e2).0 == drive(drive(s, e1).0, e2).0,
        drive(s, e1 + e2).1 == drive(s, e1).1 + drive(drive(s, e1).0, e2).1,
    decreases e1.len(),
{
    if e1.len() == 0 {
        assert(e1 + e2 =~= e2);
        assert(drive(s, e1).1 + drive(s, e2).1 =~= drive(s, e2).1);
    } else {
        let first = transition(s, e1[0]);
        assert((e1 + e2).drop_first() =~= e1.drop_first() + e2);
        lemma_drive_append(first.0, e1.drop_first(), e2);
        let mid = drive(first.0, e1.drop_first()).0;
        assert(seq![first.1] + (drive(first.0, e1.drop_first()).1 + drive(mid, e2).1) =~= (seq![
            first.1,
        ] + drive(first.0, e1.drop_first()).1) + drive(mid, e2).1);
    }
}

proof fn lemma_notified_append(a: Seq<Action>, b: Seq<Action>)
    ensures
        notified(a + b) == notified(a) + notified(b),
    decreases a.len(),
{
    if a.len() == 0 {
        assert(a + b =~= b);
        assert(notified(a) + notified(b) =~= notified(b));
    } else {
        assert((a + b).drop_first() =~= a.drop_first() + b);
        lemma_notified_append(a.drop_first(), b);
        let head = match a[0] {
            Action::Notify { payload } => seq![payload],
            _ => Seq::<NotificationPayload>::empty(),
        };
        assert(head + (notified(a.drop_first()) + notified(b)) =~= (head + notified(
            a.drop_first(),
        )) + notified(b));
    }
}

/// Actions that include no notification hand the plugin nothing.
proof fn lemma_notified_quiet(acts: Seq<Action>)
    requires
        forall|i: int| 0 <= i < acts.len() ==> !(#[trigger] acts[i] is Notify),
    ensures
        notified(acts) == Seq::<NotificationPayload>::empty(),
    decreases acts.len(),
{
    if acts.len() > 0 {
        let tail = acts.drop_first();
        assert forall|i: int| 0 <= i < tail.len() implies !(#[trigger] tail[i] is Notify) by {
            assert(tail[i] == acts[i + 1]);
        }
        lemma_notified_quiet(tail);
        assert(!(acts[0] is Notify));
        assert(notified(acts) =~= Seq::<NotificationPayload>::empty() + notified(tail));
    }
}

/// A failed pass stays failed and asks for nothing more, whatever comes.
proof fn lemma_failed_absorbs(s: Orchestrator, events: Seq<Event>)
    requires
        s.phase is Failed,
    ensures
        drive(s, events).0 == s,
        forall|i: int| 0 <= i < drive(s, events).1.len() ==> #[trigger] drive(s, events).1[i] is Ignore,
        notified(drive(s, events).1) == Seq::<NotificationPayload>::empty(),
    decreases events.len(),
{
    if events.len() > 0 {
        lemma_failed_absorbs(s, events.drop_first());
        let acts = drive(s, events).1;
        assert(acts == seq![Action::Ignore] + drive(s, events.drop_first()).1);
        assert forall|i: int| 0 <= i < acts.len() implies #[trigger] acts[i] is Ignore by {
            if i > 0 {
                assert(acts[i] == drive(s, events.drop_first()).1[i - 1]);
            }
        }
        assert(notified(acts) =~= Seq::<NotificationPayload>::empty() + notified(acts.drop_first()));
        assert(acts.drop_first() =~= drive(s, events.drop_first()).1);
    }
}

/// Streaming records whose notifications are all taken returns to pulling and
/// hands the plugin each record's payload once, in order.
proof fn lemma_clean_pass(rs: Seq<AccountRecord>)
    requires
        all_fit(rs),
    ensures
        drive(Orchestrator { phase: Phase::Pulling }, clean_pass(rs)).0 == (Orchestrator {
            phase: Phase::Pulling,
        }),
        notified(drive(Orchestrator { phase: Phase::Pulling }, clean_pass(rs)).1) == payloads(rs),
    decreases rs.len(),
{
    let p = Orchestrator { phase: Phase::Pulling };
    if rs.len() == 0 {
        assert(payloads(rs) =~= Seq::<NotificationPayload>::empty());
    } else {
        let r = rs[0];
        let two = seq![Event::Record { record: r }, Event::Notified];
        assert(record_fits(r));
        let s1 = transition(p, Event::Record { record: r });
        assert(s1.1 == Action::Notify { payload: payload_of(r) });
        lemma_drive_single(s1.0, Event::Notified);
        lemma_drive_cons(p, Event::Record { record: r }, seq![Event::Notified]);
        assert(seq![Event::Record { record: r }] + seq![Event::Notified] =~= two);
        let acts = drive(p, two).1;
        assert(drive(p, two).0 == p);
        assert(acts =~= seq![Action::Notify { payload: payload_of(r) }, Action::PullNext]);
        lemma_notified_quiet(acts.drop_first());
        assert(notified(acts) =~= seq![payload_of(r)] + notified(acts.drop_first()));
        let tail = rs.drop_first();
        assert(all_fit(tail)) by {
            assert forall|i: int| 0 <= i < tail.len() implies record_fits(#[trigger] tail[i]) by {
                assert(tail[i] == rs[i + 1]);
            }
        }
        lemma_clean_pass(tail);
        lemma_drive_append(p, two, clean_pass(tail));
        lemma_notified_append(acts, drive(p, clean_pass(tail)).1);
        assert(payloads(rs) =~= seq![payload_of(r)] + payloads(tail));
    }
}

/// A pass that reaches the first record: its state is pulling, and it has
/// handed the plugin nothing.
proof fn lemma_opening()
    ensures
        drive(initial(), opening()).0 == (Orchestrator { phase: Phase::Pulling }),
        notified(drive(initial(), opening()).1) == Seq::<NotificationPayload>::empty(),
{
    let s0 = initial();
    let s1 = transition(s0, Event::ConfigRead).0;
    let s2 = transition(s1, Event::PluginLoaded { accepts_account_data: true }).0;
    lemma_drive_single(s2, Event::ArchiveOpened);
    lemma_drive_cons(s1, Event::PluginLoaded { accepts_account_data: true }, seq![Event::ArchiveOpened]);
    let tail = seq![Event::PluginLoaded { accepts_account_data: true }] + seq![Event::ArchiveOpened];
    lemma_drive_cons(s0, Event::ConfigRead, tail);
    assert(seq![Event::ConfigRead] + tail =~= opening());
    let acts = drive(s0, opening()).1;
    assert(acts =~= seq![Action::LoadPlugin, Action::OpenArchive, Action::PullNext]);
    lemma_notified_quiet(acts);
}

/// The events of a pass that streamed these records cleanly: pulling, with
/// every payload handed over.
proof fn lemma_streamed(rs: Seq<AccountRecord>)
    requires
        all_fit(rs),
    ensures
        drive(initial(), opening() + clean_pass(rs)).0 == (Orchestrator { phase: Phase::Pulling }),
        notified(drive(initial(), opening() + clean_pass(rs)).1) == payloads(rs),
{
    lemma_opening();
    lemma_clean_pass(rs);
    lemma_drive_append(initial(), opening(), clean_pass(rs));
    let p = Orchestrator { phase: Phase::Pulling };
    lemma_notified_append(drive(initial(), opening()).1, drive(p, clean_pass(rs)).1);
    assert(Seq::<NotificationPayload>::empty() + payloads(rs) =~= payloads(rs));
}

/// A pass whose records are all representable and all taken by the plugin
/// hands the plugin each record's payload exactly once, in the order the
/// extractor yielded them, repeated addresses included, and ends done.
pub proof fn lemma_every_record_forwarded_in_order(rs: Seq<AccountRecord>)
    requires
        all_fit(rs),
    ensures
        drive(initial(), opening() + clean_pass(rs) + seq![Event::Exhausted]).0.phase is Done,
        notified(drive(initial(), opening() + clean_pass(rs) + seq![Event::Exhausted]).1) == payloads(rs),
        notified(drive(initial(), opening() + clean_pass(rs) + seq![Event::Exhausted]).1).len() == rs.len(),
{
    let pre = opening() + clean_pass(rs);
    lemma_streamed(rs);
    lemma_drive_append(initial(), pre, seq![Event::Exhausted]);
    let p = Orchestrator { phase: Phase::Pulling };
    lemma_drive_single(p, Event::Exhausted);
    lemma_notified_quiet(drive(p, seq![Event::Exhausted]).1);
    lemma_notified_append(drive(initial(), pre).1, drive(p, seq![Event::Exhausted]).1);
    assert(payloads(rs) + Seq::<NotificationPayload>::empty() =~= payloads(rs));
}

/// When the plugin fails on a record, the pass fails with a plugin
/// notification error naming that record, and no later record reaches the
/// plugin, whatever the driver reports afterwards.
pub proof fn lemma_notification_failure_ends_pass(
    rs: Seq<AccountRecord>,
    r: AccountRecord,
    msg: String,
    rest: Seq<Event>,
)
    requires
        all_fit(rs),
        record_fits(r),
    ensures
        drive(
            initial(),
            opening() + clean_pass(rs) + seq![Event::Record { record: r }, Event::NotifyFailed { msg }] + rest,
        ).0.phase == (Phase::Failed {
            error: SnappError::PluginNotificationError {
                address: r.address,
                slot: r.slot,
                write_version: r.write_version,
                msg,
            },
        }),
        notified(
            drive(
                initial(),
                opening() + clean_pass(rs) + seq![Event::Record { record: r }, Event::NotifyFailed { msg }] + rest,
            ).1,
        ) == payloads(rs).push(payload_of(r)),
{
    let pre = opening() + clean_pass(rs);
    let two = seq![Event::Record { record: r }, Event::NotifyFailed { msg }];
    let p = Orchestrator { phase: Phase::Pulling };
    lemma_streamed(rs);
    let s1 = transition(p, Event::Record { record: r });
    lemma_drive_single(s1.0, Event::NotifyFailed { msg });
    lemma_drive_cons(p, Event::Record { record: r }, seq![Event::NotifyFailed { msg }]);
    assert(seq![Event::Record { record: r }] + seq![Event::NotifyFailed { msg }] =~= two);
    let f = drive(p, two).0;
    let acts2 = drive(p, two).1;
    assert(acts2 =~= seq![Action::Notify { payload: payload_of(r) }, Action::Finish]);
    lemma_notified_quiet(acts2.drop_first());
    assert(notified(acts2) =~= seq![payload_of(r)] + notified(acts2.drop_first()));
    lemma_failed_absorbs(f, rest);
    lemma_drive_append(initial(), pre, two);
    lemma_drive_append(initial(), pre + two, rest);
    lemma_notified_append(drive(initial(), pre).1, acts2);
    lemma_notified_append(drive(initial(), pre + two).1, drive(f, rest).1);
    assert(payloads(rs) + seq![payload_of(r)] =~= payloads(rs).push(payload_of(r)));
    assert(notified(drive(initial(), pre + two).1) + Seq::<NotificationPayload>::empty() =~= notified(
        drive(initial(), pre + two).1,
    ));
}

/// When the extractor fails to decode, the pass fails with an extraction
/// error, and no later record reaches the plugin, whatever the driver reports
/// afterwards.
pub proof fn lemma_decode_failure_ends_pass(rs: Seq<AccountRecord>, msg: String, rest: Seq<Event>)
    requires
        all_fit(rs),
    ensures
        drive(initial(), opening() + clean_pass(rs) + seq![Event::DecodeFailed { msg }] + rest).0.phase
            == (Phase::Failed { error: SnappError::ExtractionError { msg } }),
        notified(drive(initial(), opening() + clean_pass(rs) + seq![Event::DecodeFailed { msg }] + rest).1)
            == payloads(rs),
{
    let pre = opening() + clean_pass(rs);
    let one = seq![Event::DecodeFailed { msg }];
    let p = Orchestrator { phase: Phase::Pulling };
    lemma_streamed(rs);
    lemma_drive_single(p, Event::DecodeFailed { msg });
    let f = drive(p, one).0;
    lemma_notified_quiet(drive(p, one).1);
    lemma_failed_absorbs(f, rest);
    lemma_drive_append(initial(), pre, one);
    lemma_drive_append(initial(), pre + one, rest);
    lemma_notified_append(drive(initial(), pre).1, drive(p, one).1);
    lemma_notified_append(drive(initial(), pre + one).1, drive(f, rest).1);
    assert(payloads(rs) + Seq::<NotificationPayload>::empty() =~= payloads(rs));
}

/// A plugin that does not accept account data fails the pass with a
/// capability error before any archive retrieval, pull or notification is
/// asked for, whatever the driver reports afterwards.
pub proof fn lemma_capability_checked_before_fetch(rest: Seq<Event>)
    ensures
        drive(initial(), refused_plugin() + rest).0.phase == (Phase::Failed {
            error: SnappError::PluginCapabilityError,
        }),
        forall|i: int|
            0 <= i < drive(initial(), refused_plugin() + rest).1.len() ==> !touches_archive(
                #[trigger] drive(initial(), refused_plugin() + rest).1[i],
            ),
{
    let s0 = initial();
    let s1 = transition(s0, Event::ConfigRead).0;
    let two = seq![Event::ConfigRead, Event::PluginLoaded { accepts_account_data: false }];
    lemma_drive_single(s1, Event::PluginLoaded { accepts_account_data: false });
    lemma_drive_cons(s0, Event::ConfigRead, seq![Event::PluginLoaded { accepts_account_data: false }]);
    assert(seq![Event::ConfigRead] + seq![Event::PluginLoaded { accepts_account_data: false }] =~= two);
    let f = drive(s0, two).0;
    assert(f.phase == (Phase::Failed { error: SnappError::PluginCapabilityError }));
    lemma_failed_absorbs(f, rest);
    lemma_drive_append(s0, two, rest);
    let acts = drive(s0, two + rest).1;
    assert(drive(s0, two).1 =~= seq![Action::LoadPlugin, Action::Finish]);
    assert(two =~= refused_plugin());
    assert forall|i: int| 0 <= i < acts.len() implies !touches_archive(#[trigger] acts[i]) by {
        if i >= 2 {
            assert(acts[i] == drive(f, rest).1[i - 2]);
        }
    }
}

/// Over any run of events, from any state, there is one action per event, and
/// the archive is only asked for in answer to a plugin that reported that it
/// accepts account data.
pub proof fn lemma_fetch_only_after_capability(s: Orchestrator, events: Seq<Event>)
    ensures
        drive(s, events).1.len() == events.len(),
        forall|i: int|
            0 <= i < events.len() && (#[trigger] drive(s, events).1[i] is OpenArchive) ==> events[i]
                == (Event::PluginLoaded { accepts_account_data: true }),
    decreases events.len(),
{
    if events.len() > 0 {
        let first = transition(s, events[0]);
        let tail = events.drop_first();
        lemma_fetch_only_after_capability(first.0, tail);
        let acts = drive(s, events).1;
        assert forall|i: int|
            0 <= i < events.len() && (#[trigger] acts[i] is OpenArchive) implies events[i]
                == (Event::PluginLoaded { accepts_account_data: true }) by {
            if i > 0 {
                assert(acts[i] == drive(first.0, tail).1[i - 1]);
                assert(events[i] == tail[i - 1]);
            }
        }
    }
}

} // verus!
