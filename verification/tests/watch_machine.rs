use mirror_watch::event::{ChangeEvent, ChangeKind};
use mirror_watch::record::{LogLevel, LogRecord};
use mirror_watch::watch::{WatchError, WatchEvent, WatchPhase, Watcher, CHANNEL_CAPACITY, RECURSIVE};

fn info(message: &str) -> Option<LogRecord> {
    Some(LogRecord { level: LogLevel::Info, message: String::from(message) })
}

fn error(message: &str) -> Option<LogRecord> {
    Some(LogRecord { level: LogLevel::Error, message: String::from(message) })
}

fn change(kind: ChangeKind, paths: &[&str]) -> ChangeEvent {
    ChangeEvent::new(kind, paths.iter().map(|p| String::from(*p)).collect())
}

/// A watcher that has been taken to the consumption loop.
fn receiving() -> Watcher {
    let mut w = Watcher::new(String::from("/mnt/nas/emu"));
    w.step(WatchEvent::Initialized { error: None });
    w.step(WatchEvent::Subscribed { error: None });
    assert_eq!(w.phase(), &WatchPhase::Receive);
    w
}

#[test]
fn the_channel_holds_one_item_and_the_watch_is_recursive() {
    assert_eq!(CHANNEL_CAPACITY, 1);
    assert!(RECURSIVE);
}

#[test]
fn a_new_watcher_waits_for_the_back_end() {
    let w = Watcher::new(String::from("/mnt/nas/emu"));
    assert_eq!(w.phase(), &WatchPhase::Init);
    assert_eq!(w.root(), "/mnt/nas/emu");
    assert_eq!(w.failure(), None);
}

#[test]
fn the_watch_is_announced_then_subscribed_then_consumed() {
    let mut w = Watcher::new(String::from("/mnt/nas/emu"));
    assert_eq!(
        w.step(WatchEvent::Initialized { error: None }),
        info("starting network emulation directory watcher...")
    );
    assert_eq!(w.phase(), &WatchPhase::Subscribe);
    assert_eq!(w.step(WatchEvent::Subscribed { error: None }), None);
    assert_eq!(w.phase(), &WatchPhase::Receive);
}

#[test]
fn a_back_end_that_cannot_be_set_up_ends_the_watch() {
    let mut w = Watcher::new(String::from("/mnt/nas/emu"));
    assert_eq!(w.step(WatchEvent::Initialized { error: Some(String::from("too many watches")) }), None);
    let failure = WatchError::InitFailed { cause: String::from("too many watches") };
    assert_eq!(w.phase(), &WatchPhase::Ended(failure.duplicate()));
    assert_eq!(w.failure(), Some(failure));
}

#[test]
fn a_root_that_cannot_be_subscribed_ends_the_watch() {
    let mut w = Watcher::new(String::from("/mnt/nas/emu"));
    w.step(WatchEvent::Initialized { error: None });
    assert_eq!(w.step(WatchEvent::Subscribed { error: Some(String::from("no such directory")) }), None);
    assert_eq!(
        w.failure(),
        Some(WatchError::SubscribeFailed { cause: String::from("no such directory") })
    );
}

#[test]
fn a_closed_channel_ends_the_watch() {
    let mut w = receiving();
    assert_eq!(w.step(WatchEvent::Closed), None);
    assert_eq!(w.phase(), &WatchPhase::Ended(WatchError::ChannelClosed));
    assert_eq!(w.failure(), Some(WatchError::ChannelClosed));
}

#[test]
fn watch_errors_describe_themselves() {
    assert_eq!(
        WatchError::InitFailed { cause: String::from("a") }.describe(),
        "watcher could not be started: a"
    );
    assert_eq!(
        WatchError::SubscribeFailed { cause: String::from("b") }.describe(),
        "directory could not be watched: b"
    );
    assert_eq!(WatchError::ChannelClosed.describe(), "watch channel closed");
}

#[test]
fn a_new_file_gives_exactly_one_line() {
    let mut w = receiving();
    let mut log: Vec<LogRecord> = Vec::new();
    log.extend(w.step(WatchEvent::Changed { event: change(ChangeKind::Create, &["/mnt/nas/emu/c.txt"]) }));
    assert_eq!(
        log,
        vec![LogRecord {
            level: LogLevel::Info,
            message: String::from("event: create [/mnt/nas/emu/c.txt]"),
        }]
    );
    let about_creation =
        log.iter().filter(|r| r.message.contains("create") && r.message.contains("c.txt")).count();
    assert_eq!(about_creation, 1);
    assert_eq!(w.phase(), &WatchPhase::Receive);
}

#[test]
fn changes_are_logged_in_the_order_of_delivery() {
    let mut w = receiving();
    let deliveries = vec![
        change(ChangeKind::Create, &["/r/a"]),
        change(ChangeKind::Modify, &["/r/a"]),
        change(ChangeKind::Modify, &["/r/b", "/r/c"]),
        change(ChangeKind::Remove, &["/r/a"]),
        change(ChangeKind::Other, &[]),
        change(ChangeKind::Create, &["/r/a"]),
    ];
    let mut log: Vec<String> = Vec::new();
    for event in deliveries {
        log.extend(w.step(WatchEvent::Changed { event }).map(|r| r.message));
    }
    assert_eq!(
        log,
        vec![
            "event: create [/r/a]",
            "event: modify [/r/a]",
            "event: modify [/r/b, /r/c]",
            "event: remove [/r/a]",
            "event: other []",
            "event: create [/r/a]",
        ]
    );
}

#[test]
fn a_failed_observation_is_logged_and_the_watch_goes_on() {
    let mut w = receiving();
    assert_eq!(
        w.step(WatchEvent::Failed { cause: String::from("queue overflow") }),
        error("watch error: queue overflow")
    );
    assert_eq!(w.phase(), &WatchPhase::Receive);
    assert_eq!(
        w.step(WatchEvent::Changed { event: change(ChangeKind::Remove, &["/r/x"]) }),
        info("event: remove [/r/x]")
    );
    assert_eq!(w.failure(), None);
}

#[test]
fn watch_reports_that_do_not_answer_the_phase_change_nothing() {
    let mut w = Watcher::new(String::from("/r"));
    assert_eq!(w.step(WatchEvent::Subscribed { error: None }), None);
    assert_eq!(w.step(WatchEvent::Changed { event: change(ChangeKind::Create, &["/r/a"]) }), None);
    assert_eq!(w.step(WatchEvent::Failed { cause: String::from("x") }), None);
    assert_eq!(w.step(WatchEvent::Closed), None);
    assert_eq!(w.phase(), &WatchPhase::Init);

    w.step(WatchEvent::Initialized { error: None });
    assert_eq!(w.step(WatchEvent::Initialized { error: None }), None);
    assert_eq!(w.step(WatchEvent::Changed { event: change(ChangeKind::Create, &["/r/a"]) }), None);
    assert_eq!(w.step(WatchEvent::Closed), None);
    assert_eq!(w.phase(), &WatchPhase::Subscribe);

    let mut w = receiving();
    assert_eq!(w.step(WatchEvent::Initialized { error: Some(String::from("x")) }), None);
    assert_eq!(w.step(WatchEvent::Subscribed { error: Some(String::from("x")) }), None);
    assert_eq!(w.phase(), &WatchPhase::Receive);
}

#[test]
fn an_ended_watch_is_never_taken_up_again() {
    let mut w = receiving();
    w.step(WatchEvent::Closed);
    for event in [
        WatchEvent::Initialized { error: None },
        WatchEvent::Subscribed { error: None },
        WatchEvent::Changed { event: change(ChangeKind::Create, &["/r/a"]) },
        WatchEvent::Failed { cause: String::from("x") },
        WatchEvent::Closed,
    ] {
        assert_eq!(w.step(event), None);
        assert_eq!(w.failure(), Some(WatchError::ChannelClosed));
    }
    assert_eq!(w.root(), "/mnt/nas/emu");
}
