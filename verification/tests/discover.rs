use tonic_quic::discover::{Change, ChangePoll, DiscoverPoll, DynamicServiceStream};
use tonic_quic::endpoint::Endpoint;

fn stream() -> DynamicServiceStream<u32> {
    let (_tx, rx) = tokio::sync::mpsc::channel::<Change<u32, Endpoint>>(4);
    DynamicServiceStream::new(rx)
}

#[test]
fn pending_and_closed_channels_leave_the_stream_pending() {
    let s = stream();
    assert!(matches!(s.poll_next(ChangePoll::Pending), DiscoverPoll::Pending));
    assert!(matches!(s.poll_next(ChangePoll::Closed), DiscoverPoll::Pending));
}

#[test]
fn removals_are_passed_on() {
    let s = stream();
    match s.poll_next(ChangePoll::Ready(Change::Remove(7))) {
        DiscoverPoll::Ready(Change::Remove(k)) => assert_eq!(k, 7),
        _ => panic!("expected a removal"),
    }
}

#[test]
fn insertions_become_lazy_connections() {
    let s = stream();
    let ep = Endpoint::from_static("https://example.com:8443");
    match s.poll_next(ChangePoll::Ready(Change::Insert(3, ep))) {
        DiscoverPoll::Ready(Change::Insert(k, conn)) => {
            assert_eq!(k, 3);
            assert!(!conn.connector.has_config());
            assert_eq!(conn.endpoint.uri().port_u16(), Some(8443));
        }
        _ => panic!("expected an insertion"),
    }
}

#[test]
fn the_change_channel_can_be_polled() {
    let (tx, rx) = tokio::sync::mpsc::channel::<Change<u32, Endpoint>>(4);
    let mut s = DynamicServiceStream::new(rx);
    tx.try_send(Change::Remove(1)).ok().unwrap();
    let got = s.changes_mut().try_recv().ok().unwrap();
    assert!(matches!(got, Change::Remove(1)));
}
