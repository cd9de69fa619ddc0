use log_tail::registry::SessionRegistry;
use log_tail::session::{signals_append, Action, ChangeKind, Fault, Phase, Signal, WatchSession};

#[test]
fn only_data_changes_signal_appends() {
    assert!(signals_append(ChangeKind::ModifyContent));
    for k in [
        ChangeKind::ModifyAny,
        ChangeKind::ModifyData,
        ChangeKind::Access,
        ChangeKind::Create,
        ChangeKind::ModifyMetadata,
        ChangeKind::ModifyName,
        ChangeKind::ModifyOther,
        ChangeKind::Remove,
        ChangeKind::Any,
        ChangeKind::Other,
    ] {
        assert!(!signals_append(k));
    }
}

#[test]
fn running_session_reads_from_end_of_file() {
    let mut s = WatchSession::new();
    assert_eq!(s.phase(), Phase::Starting);
    s.opened(10);
    assert_eq!(s.phase(), Phase::Running);
    assert_eq!(s.position(), 10);
    assert_eq!(s.on_signal(Signal::Change(ChangeKind::ModifyMetadata)), Action::Wait);
    assert_eq!(s.on_signal(Signal::Change(ChangeKind::ModifyAny)), Action::Wait);
    assert_eq!(s.on_signal(Signal::Change(ChangeKind::ModifyData)), Action::Wait);
    assert_eq!(s.position(), 10);
    assert_eq!(s.on_signal(Signal::Change(ChangeKind::ModifyContent)), Action::Read { from: 10 });
    assert_eq!(
        s.on_read(Some(b"alpha\nbet".to_vec())),
        (vec!["alpha".to_string()], Action::Wait)
    );
    assert_eq!(s.position(), 16);
    assert_eq!(s.on_signal(Signal::Change(ChangeKind::ModifyContent)), Action::Read { from: 16 });
    assert_eq!(s.on_read(Some(b"beta\n".to_vec())), (vec!["beta".to_string()], Action::Wait));
    assert_eq!(s.position(), 21);
    assert_eq!(s.phase(), Phase::Running);
    assert_eq!(s.fault(), None);
}

#[test]
fn decode_error_is_recovered() {
    let mut s = WatchSession::new();
    s.opened(0);
    assert_eq!(s.on_read(Some(vec![0xff, b'\n'])), (Vec::<String>::new(), Action::Wait));
    assert_eq!(s.phase(), Phase::Running);
    assert_eq!(s.position(), 2);
    assert_eq!(s.on_read(Some(vec![b'b', b'a', b'd', 0xfe])), (Vec::<String>::new(), Action::Wait));
    assert_eq!(s.position(), 6);
    assert_eq!(s.on_read(Some(b"ok\n".to_vec())), (vec!["ok".to_string()], Action::Wait));
    assert_eq!(s.position(), 9);
    assert_eq!(s.fault(), None);
}

#[test]
fn cancelled_session_stops_reading() {
    let mut s = WatchSession::new();
    s.opened(3);
    assert_eq!(s.on_signal(Signal::Change(ChangeKind::ModifyContent)), Action::Read { from: 3 });
    assert_eq!(s.on_signal(Signal::Cancelled), Action::Release);
    assert_eq!(s.phase(), Phase::Stopping);
    assert_eq!(s.on_signal(Signal::Change(ChangeKind::ModifyContent)), Action::Wait);
    assert_eq!(s.on_read(Some(b"late\n".to_vec())), (Vec::<String>::new(), Action::Wait));
    assert_eq!(s.position(), 3);
    s.released();
    assert_eq!(s.phase(), Phase::Stopped);
    assert_eq!(s.fault(), None);
    assert_eq!(s.on_signal(Signal::Change(ChangeKind::ModifyContent)), Action::Wait);
}

#[test]
fn failed_read_is_fatal() {
    let mut s = WatchSession::new();
    s.opened(0);
    assert_eq!(s.on_read(None), (Vec::<String>::new(), Action::Release));
    assert_eq!(s.phase(), Phase::Stopping);
    assert_eq!(s.fault(), Some(Fault::Io));
}

#[test]
fn watcher_failure_is_fatal() {
    let mut s = WatchSession::new();
    s.opened(0);
    assert_eq!(s.on_signal(Signal::WatchFailed), Action::Release);
    assert_eq!(s.fault(), Some(Fault::Watch));
    let mut t = WatchSession::new();
    t.opened(0);
    assert_eq!(t.on_signal(Signal::Closed), Action::Release);
    assert_eq!(t.phase(), Phase::Stopping);
    assert_eq!(t.fault(), Some(Fault::Watch));
}

#[test]
fn startup_failure_stops_at_once() {
    let mut s = WatchSession::new();
    s.start_failed();
    assert_eq!(s.phase(), Phase::Stopped);
    assert_eq!(s.fault(), Some(Fault::Startup));
    s.opened(5);
    assert_eq!(s.phase(), Phase::Stopped);
}

#[test]
fn oversized_read_is_fatal() {
    let mut s = WatchSession::new();
    s.opened(u64::MAX - 1);
    assert_eq!(s.on_read(Some(b"ab\n".to_vec())), (Vec::<String>::new(), Action::Release));
    assert_eq!(s.fault(), Some(Fault::Io));
}

#[test]
fn second_start_retires_first() {
    let mut r: SessionRegistry<u32> = SessionRegistry::new();
    assert!(r.active_path().is_none());
    assert!(r.start("/logs/a.log".to_string(), 1).is_none());
    let retired = r.start("/logs/b.log".to_string(), 2).unwrap();
    assert_eq!(retired.path, "/logs/a.log");
    assert_eq!(retired.handle, 1);
    assert_eq!(r.active_path(), Some(&"/logs/b.log".to_string()));
    let last = r.stop().unwrap();
    assert_eq!(last.handle, 2);
    assert!(r.active_path().is_none());
}

#[test]
fn session_on_existing_file_replays_nothing() {
    let mut s = WatchSession::new();
    s.opened(17);
    assert_eq!(s.on_signal(Signal::Change(ChangeKind::ModifyContent)), Action::Read { from: 17 });
    assert_eq!(s.on_read(Some(Vec::new())), (Vec::<String>::new(), Action::Wait));
    assert_eq!(s.position(), 17);
    assert_eq!(s.on_read(Some(b"fresh\n".to_vec())), (vec!["fresh".to_string()], Action::Wait));
    assert_eq!(s.position(), 23);
}
