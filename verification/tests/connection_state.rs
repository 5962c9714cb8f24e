use hbb_common::conn::{
    close_reason, sender_loop_step, settle_timed_receive, ConnError, Connection, SenderAction,
    SenderEvent, WriteOutcome, CLOSE_CODE,
};
use hbb_common::tls::{configure_server, server_name};
use hbb_common::transport::{
    client_transport_config, client_transport_settings, server_transport_config,
    server_transport_settings, TransportSettings,
};

type TestConnection = Connection<Vec<u8>, Vec<u8>, u32, u8>;

fn fresh(ms_timeout: u64) -> (TestConnection, tokio::sync::mpsc::Receiver<bytes::Bytes>) {
    let (tx, rx) = tokio::sync::mpsc::channel::<bytes::Bytes>(128);
    (Connection::new_conn_wrapper(vec![1], vec![2], tx, ms_timeout), rx)
}

#[test]
fn fresh_connection_hands_out_senders() {
    let (c, mut rx) = fresh(0);
    let s = c.get_conn_sender().unwrap();
    s.sender().try_send(bytes::Bytes::from_static(b"abc")).unwrap();
    assert_eq!(rx.try_recv().unwrap(), bytes::Bytes::from_static(b"abc"));
    assert!(c.quic_connection().is_none());
    assert!(c.endpoint().is_none());
    assert_eq!(c.inner_sender, vec![1]);
    assert_eq!(c.inner_stream, vec![2]);
    assert!(c.get_conn_sender().is_ok());
    let _ = ConnError::SenderNotFound;
}

#[test]
fn send_timeout_only_when_positive() {
    let (c, _rx) = fresh(0);
    assert_eq!(c.send_timeout(), None);
    assert_eq!(c.ms_timeout(), 0);
    let (c, _rx) = fresh(3000);
    assert_eq!(c.send_timeout(), Some(3000));
    assert_eq!(c.ms_timeout(), 3000);
}

#[test]
fn attach_client_keeps_handles() {
    let (mut c, _rx) = fresh(7);
    c.attach_client(99u32, 5u8);
    assert_eq!(c.quic_connection(), Some(&99u32));
    assert_eq!(c.endpoint(), Some(&5u8));
    assert_eq!(c.send_timeout(), Some(7));
    assert!(c.get_conn_sender().is_ok());
}

#[test]
fn shutdown_close_reason_is_done() {
    assert_eq!(close_reason(), b"done".to_vec());
    assert_eq!(CLOSE_CODE, 0);
}

#[test]
fn sender_loop_sends_items_with_timeout() {
    match sender_loop_step(250, SenderEvent::Item(Some(vec![1u8, 2]))) {
        SenderAction::Send { data, timeout_ms } => {
            assert_eq!(data, vec![1, 2]);
            assert_eq!(timeout_ms, Some(250));
        }
        _ => panic!("expected a send"),
    }
    match sender_loop_step(0, SenderEvent::Item(Some(3u32))) {
        SenderAction::Send { data, timeout_ms } => {
            assert_eq!(data, 3);
            assert_eq!(timeout_ms, None);
        }
        _ => panic!("expected a send"),
    }
}

#[test]
fn sender_loop_exits_on_close_or_failure() {
    assert!(matches!(sender_loop_step::<u8>(5, SenderEvent::Item(None)), SenderAction::Exit));
    assert!(matches!(sender_loop_step::<u8>(0, SenderEvent::Item(None)), SenderAction::Exit));
    let written = SenderEvent::Sent(WriteOutcome::Written);
    assert!(matches!(sender_loop_step::<u8>(5, written), SenderAction::Receive));
    let timed_out = SenderEvent::Sent(WriteOutcome::TimedOut);
    assert!(matches!(sender_loop_step::<u8>(5, timed_out), SenderAction::Exit));
    let failed_untimed = SenderEvent::Sent(WriteOutcome::Failed);
    assert!(matches!(sender_loop_step::<u8>(0, failed_untimed), SenderAction::Exit));
}

#[test]
fn timed_write_refused_in_time_is_passed_over() {
    let failed = SenderEvent::Sent(WriteOutcome::Failed);
    assert!(matches!(sender_loop_step::<u8>(5, failed), SenderAction::Receive));
    let written = SenderEvent::Sent(WriteOutcome::Written);
    assert!(matches!(sender_loop_step::<u8>(0, written), SenderAction::Receive));
}

#[test]
fn timed_receive_outcomes() {
    assert_eq!(settle_timed_receive::<u8>(None), None);
    assert_eq!(settle_timed_receive::<u8>(Some(None)), None);
    assert_eq!(settle_timed_receive(Some(Some(4u8))), Some(4));
}

#[test]
fn transport_settings_values() {
    assert_eq!(
        client_transport_settings(),
        TransportSettings {
            max_idle_timeout_ms: 60_000,
            keep_alive_interval_secs: 1,
            max_concurrent_uni_streams: None
        }
    );
    assert_eq!(
        server_transport_settings(),
        TransportSettings {
            max_idle_timeout_ms: 60_000,
            keep_alive_interval_secs: 1,
            max_concurrent_uni_streams: Some(0)
        }
    );
    let s = client_transport_settings();
    assert!(s.keep_alive_interval_secs * 1000 < s.max_idle_timeout_ms as u64);
}

#[test]
fn transport_configs_build() {
    let _c = client_transport_config().into_config();
    let _s = server_transport_config().into_config();
    let _d = hbb_common::transport::enable_mtud_if_supported().into_config();
}

#[test]
fn transport_settings_applied_to_a_default_config() {
    let mut t = hbb_common::transport::enable_mtud_if_supported();
    hbb_common::transport::apply_transport_settings(&mut t, &server_transport_settings());
    let _ = t.into_config();
}

#[test]
fn server_identity_for_localhost() {
    assert_eq!(server_name(), "localhost");
    let (setup, der) = configure_server().unwrap();
    let _config = setup.into_config();
    assert!(!der.is_empty());
    assert_eq!(der[0], 0x30);
}

#[test]
fn drain_writes_queued_frames_until_a_write_ends_the_loop() {
    // Channel yields 10, 20, 30, 40; writes: ok, refused (passed over with a
    // timeout), timed out (ends the loop).
    let items = vec![10u32, 20, 30, 40];
    let outcomes = vec![WriteOutcome::Written, WriteOutcome::Failed, WriteOutcome::TimedOut, WriteOutcome::Written];
    let mut written = Vec::new();
    let mut next_item = items.into_iter();
    let mut next_outcome = outcomes.into_iter();
    let mut event = SenderEvent::Item(next_item.next());
    loop {
        match sender_loop_step(100, event) {
            SenderAction::Send { data, timeout_ms } => {
                written.push((data, timeout_ms));
                event = SenderEvent::Sent(next_outcome.next().unwrap());
            }
            SenderAction::Receive => event = SenderEvent::Item(next_item.next()),
            SenderAction::Exit => break,
        }
    }
    assert_eq!(written, vec![(10, Some(100)), (20, Some(100)), (30, Some(100))]);
}

#[test]
fn drain_without_timeout_stops_at_first_refused_write() {
    let mut written = Vec::new();
    let mut next_item = vec![1u8, 2, 3].into_iter();
    let mut next_outcome = vec![WriteOutcome::Written, WriteOutcome::Failed].into_iter();
    let mut event = SenderEvent::Item(next_item.next());
    loop {
        match sender_loop_step(0, event) {
            SenderAction::Send { data, timeout_ms } => {
                written.push((data, timeout_ms));
                event = SenderEvent::Sent(next_outcome.next().unwrap());
            }
            SenderAction::Receive => event = SenderEvent::Item(next_item.next()),
            SenderAction::Exit => break,
        }
    }
    assert_eq!(written, vec![(1, None), (2, None)]);
}

#[test]
fn cloned_conn_sender_queues_on_the_same_channel() {
    let (c, mut rx) = fresh(0);
    let s = c.get_conn_sender().unwrap();
    let t = s.clone();
    t.sender().try_send(bytes::Bytes::from_static(b"x")).unwrap();
    s.sender().try_send(bytes::Bytes::from_static(b"y")).unwrap();
    assert_eq!(rx.try_recv().unwrap(), bytes::Bytes::from_static(b"x"));
    assert_eq!(rx.try_recv().unwrap(), bytes::Bytes::from_static(b"y"));
}
