use phrasedj::stems::events::{forward_step, wait_step, ForwardStep, StatusEvent, StatusKind, WaitStep};
use phrasedj::types::TrackId;

#[test]
fn status_names_are_the_event_strings() {
    assert_eq!(StatusKind::Pending.as_str(), "pending");
    assert_eq!(StatusKind::Running.as_str(), "running");
    assert_eq!(StatusKind::Cached.as_str(), "cached");
    assert_eq!(StatusKind::Failed.as_str(), "failed");
}

#[test]
fn terminal_statuses_are_cached_and_failed() {
    assert!(!StatusKind::Pending.is_terminal());
    assert!(!StatusKind::Running.is_terminal());
    assert!(StatusKind::Cached.is_terminal());
    assert!(StatusKind::Failed.is_terminal());
}

#[test]
fn forwarding_emits_stops_and_skips() {
    let t = TrackId::from_u128(7);
    assert_eq!(forward_step(StatusEvent::Status(t, StatusKind::Running)), ForwardStep::Emit);
    assert_eq!(forward_step(StatusEvent::Closed), ForwardStep::Stop);
    assert_eq!(forward_step(StatusEvent::Overflowed), ForwardStep::Skip);
}

#[test]
fn waiting_ends_only_on_own_terminal_status() {
    let mine = TrackId::from_u128(1);
    let other = TrackId::from_u128(2);
    assert_eq!(wait_step(mine, StatusEvent::Status(mine, StatusKind::Cached)), WaitStep::Done);
    assert_eq!(wait_step(mine, StatusEvent::Status(mine, StatusKind::Failed)), WaitStep::Fail);
    assert_eq!(wait_step(mine, StatusEvent::Status(mine, StatusKind::Running)), WaitStep::KeepWaiting);
    assert_eq!(wait_step(mine, StatusEvent::Status(mine, StatusKind::Pending)), WaitStep::KeepWaiting);
    assert_eq!(wait_step(mine, StatusEvent::Status(other, StatusKind::Cached)), WaitStep::KeepWaiting);
    assert_eq!(wait_step(mine, StatusEvent::Status(other, StatusKind::Failed)), WaitStep::KeepWaiting);
    assert_eq!(wait_step(mine, StatusEvent::Closed), WaitStep::GiveUp);
    assert_eq!(wait_step(mine, StatusEvent::Overflowed), WaitStep::CheckCache);
}
