use tonic_quic::quic_http::{BodyChunk, FrameAction, FrameEvent, Http3Connector, RequestBlock, ResponseState};

#[test]
fn request_block_is_header_then_body() {
    let mut block = RequestBlock::new(vec![1, 2]);
    assert!(block.push_chunk(BodyChunk::Data(vec![3])));
    assert!(block.push_chunk(BodyChunk::Data(vec![4, 5])));
    assert!(!block.push_chunk(BodyChunk::End));
    assert!(!block.push_chunk(BodyChunk::Data(vec![9])));
    assert_eq!(block.into_bytes(), vec![1, 2, 3, 4, 5]);
}

#[test]
fn request_block_stops_at_a_failed_body() {
    let mut block = RequestBlock::new(vec![0xaa]);
    assert!(block.push_chunk(BodyChunk::Data(vec![1])));
    assert!(!block.push_chunk(BodyChunk::Failed));
    assert!(!block.push_chunk(BodyChunk::Data(vec![2])));
    assert_eq!(block.into_bytes(), vec![0xaa, 1]);
}

#[test]
fn request_block_without_body() {
    let mut block = RequestBlock::new(vec![7, 7, 7]);
    assert!(!block.push_chunk(BodyChunk::End));
    assert_eq!(block.into_bytes(), vec![7, 7, 7]);
}

#[test]
fn data_before_headers_is_dropped() {
    let mut st = ResponseState::new();
    assert!(!st.body_open());
    assert!(matches!(st.on_frame(FrameEvent::Data(vec![1])), FrameAction::Ignore));
    assert!(!st.body_open());
}

#[test]
fn headers_start_a_response_and_data_follows() {
    let mut st = ResponseState::new();
    match st.on_frame(FrameEvent::Headers(vec![9, 8])) {
        FrameAction::StartResponse(b) => assert_eq!(b, vec![9, 8]),
        _ => panic!("expected a response"),
    }
    assert!(st.body_open());
    match st.on_frame(FrameEvent::Data(vec![1, 2, 3])) {
        FrameAction::SendBody(b) => assert_eq!(b, vec![1, 2, 3]),
        _ => panic!("expected body data"),
    }
    assert!(matches!(st.on_frame(FrameEvent::CancelPush(4)), FrameAction::Ignore));
    assert!(matches!(st.on_frame(FrameEvent::Undecodable), FrameAction::Ignore));
    assert!(matches!(st.on_frame(FrameEvent::Other), FrameAction::Ignore));
    assert!(st.body_open());
}

#[test]
fn request_handles_share_one_receiver() {
    let connector: Http3Connector<(), ()> = Http3Connector::new(());
    let (mut handle, mut requests, responses) = connector.call::<u8, u16>();
    assert!(handle.has_receiver());
    let other = handle.clone_handle();
    assert!(!other.has_receiver());
    let (sender, mut receiver) = handle.call();
    assert!(!handle.has_receiver());
    sender.try_send(5).ok().unwrap();
    assert_eq!(requests.try_recv().ok(), Some(5));
    responses.try_send(77).ok().unwrap();
    assert_eq!(receiver.try_recv().ok(), Some(77));
}

#[test]
fn connector_keeps_its_inner_maker() {
    let mut c: Http3Connector<u32, ()> = Http3Connector::new(41);
    *c.inner_mut() += 1;
    assert_eq!(*c.inner_mut(), 42);
}

#[test]
fn only_data_after_the_first_headers_reaches_a_body() {
    let frames = vec![
        FrameEvent::Data(vec![1]),
        FrameEvent::Other,
        FrameEvent::Headers(vec![0]),
        FrameEvent::Data(vec![2]),
        FrameEvent::Undecodable,
        FrameEvent::Headers(vec![0]),
        FrameEvent::Data(vec![3]),
    ];
    let mut st = ResponseState::new();
    let mut sent = Vec::new();
    let mut started = 0;
    for f in frames {
        match st.on_frame(f) {
            FrameAction::SendBody(b) => sent.push(b),
            FrameAction::StartResponse(_) => started += 1,
            FrameAction::Ignore => {}
        }
    }
    assert_eq!(sent, vec![vec![2], vec![3]]);
    assert_eq!(started, 2);
}
