use zlm_node::tunnel::{
    admit_connection, auth_line, ConnectionSlots, retry_delay_secs, ConnectAction, ConnectEvent, ConnectFailure,
    ConnectPhase, CopyAction, CopyEnd, CopyEvent, CopyState, RemoteConnect,
};

#[test]
fn retry_delay_doubles_up_to_the_cap() {
    let delays: Vec<u64> = (1..=7).map(|a| retry_delay_secs(2, a, 30)).collect();
    assert_eq!(delays, vec![2, 4, 8, 16, 30, 30, 30]);
    let uncapped: Vec<u64> = (0..=8).map(|a| retry_delay_secs(1, a, 1000)).collect();
    assert_eq!(uncapped, vec![1, 1, 2, 4, 8, 16, 32, 32, 32]);
    assert_eq!(retry_delay_secs(0, u64::MAX, 30), 0);
    assert_eq!(retry_delay_secs(u64::MAX, u64::MAX, 30), 30);
    assert_eq!(retry_delay_secs(5, u64::MAX, u64::MAX), 160);
    assert_eq!(retry_delay_secs(u64::MAX / 2, 7, u64::MAX), u64::MAX);
    assert_eq!(retry_delay_secs(3, 1, 2), 2);
}

#[test]
fn connection_limit_zero_is_unlimited() {
    assert!(admit_connection(None, 1_000_000));
    assert!(admit_connection(Some(2), 1));
    assert!(!admit_connection(Some(2), 2));
}

#[test]
fn auth_line_ends_with_newline() {
    assert_eq!(auth_line("my-secret-token"), "my-secret-token\n");
}

#[test]
fn reconnect_keeps_client_bytes_and_backs_off() {
    let mut c = RemoteConnect::new(2, 30);
    assert_eq!(c.step(ConnectEvent::Start), ConnectAction::ReadClient);
    assert_eq!(c.step(ConnectEvent::ClientData(b"GET /".to_vec())), ConnectAction::ReadClient);
    assert_eq!(c.step(ConnectEvent::ClientDrained), ConnectAction::Connect);
    assert_eq!(c.step(ConnectEvent::Attempted(false)), ConnectAction::Wait(2));
    assert_eq!(c.step(ConnectEvent::ClientReadable), ConnectAction::ReadClient);
    assert_eq!(c.step(ConnectEvent::ClientData(b" HTTP".to_vec())), ConnectAction::ReadClient);
    assert_eq!(c.step(ConnectEvent::ClientDrained), ConnectAction::ReadClient);
    assert_eq!(c.attempt, 2);
    assert_eq!(c.step(ConnectEvent::ClientDrained), ConnectAction::Connect);
    assert_eq!(c.step(ConnectEvent::Attempted(false)), ConnectAction::Wait(4));
    assert_eq!(c.step(ConnectEvent::DelayElapsed), ConnectAction::ReadClient);
    assert_eq!(c.step(ConnectEvent::ClientDrained), ConnectAction::Connect);
    assert_eq!(c.step(ConnectEvent::Attempted(true)), ConnectAction::Forward);
    assert_eq!(c.phase, ConnectPhase::Established);
    assert_eq!(c.early_data, b"GET / HTTP".to_vec());
}

#[test]
fn reconnect_gives_up_on_close_or_shutdown() {
    let mut c = RemoteConnect::new(2, 30);
    c.step(ConnectEvent::Start);
    assert_eq!(
        c.step(ConnectEvent::ClientClosed),
        ConnectAction::Abort(ConnectFailure::ClientClosedBeforeConnect)
    );
    let mut d = RemoteConnect::new(2, 30);
    d.step(ConnectEvent::Start);
    d.step(ConnectEvent::ClientDrained);
    d.step(ConnectEvent::Attempted(false));
    assert_eq!(d.step(ConnectEvent::ShutdownRequested), ConnectAction::Abort(ConnectFailure::Shutdown));
    let mut e = RemoteConnect::new(2, 30);
    e.step(ConnectEvent::Start);
    e.step(ConnectEvent::ClientDrained);
    e.step(ConnectEvent::Attempted(false));
    e.step(ConnectEvent::ClientReadable);
    assert_eq!(e.step(ConnectEvent::ClientClosed), ConnectAction::Abort(ConnectFailure::ClientClosed));
    assert_eq!(e.step(ConnectEvent::Start), ConnectAction::Ignore);
}

#[test]
fn copy_counts_bytes_both_ways() {
    let mut s = CopyState::new();
    assert_eq!(s.step(CopyEvent::FromClient(100)), CopyAction::WriteRemote(100));
    assert_eq!(s.step(CopyEvent::FromRemote(250)), CopyAction::WriteClient(250));
    assert_eq!(s.total, 350);
    assert_eq!(s.step(CopyEvent::FromRemote(0)), CopyAction::ShutdownClient);
    assert_eq!(s.end, Some(CopyEnd::RemoteClosed));
    assert_eq!(s.step(CopyEvent::FromClient(5)), CopyAction::Ignore);
    assert_eq!(s.total, 350);

    let mut t = CopyState::new();
    t.step(CopyEvent::FromClient(1));
    assert_eq!(t.step(CopyEvent::Idle), CopyAction::TimedOut);
    assert_eq!(t.end, Some(CopyEnd::IdleTimeout));
    let mut u = CopyState::new();
    assert_eq!(u.step(CopyEvent::FromClient(0)), CopyAction::ShutdownRemote);
    assert_eq!(u.end, Some(CopyEnd::ClientClosed));
}

#[test]
fn slots_never_exceed_the_limit() {
    let mut s = ConnectionSlots::new(Some(2));
    assert!(s.try_admit());
    assert!(s.try_admit());
    assert!(!s.try_admit());
    assert_eq!(s.active, 2);
    s.release();
    assert_eq!(s.active, 1);
    assert!(s.try_admit());
    let mut u = ConnectionSlots::new(None);
    for _ in 0..1000 {
        assert!(u.try_admit());
    }
    assert_eq!(u.active, 0);
    u.release();
    assert_eq!(u.active, 0);
}
