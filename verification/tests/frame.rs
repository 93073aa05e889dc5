use abstract_ws_tungstenite::frame::{incoming_payload, outgoing_frame, CloseInfo, Frame};
use abstract_ws_tungstenite::WsError;

#[test]
fn binary_frame_yields_its_data() {
    let item = incoming_payload(Some(Ok(Frame::Binary(vec![1, 2, 3]))));
    assert!(matches!(item, Some(Ok(ref d)) if d == &vec![1u8, 2, 3]));
}

#[test]
fn empty_binary_frame_yields_empty_data() {
    let item = incoming_payload(Some(Ok(Frame::Binary(vec![]))));
    assert!(matches!(item, Some(Ok(ref d)) if d.is_empty()));
}

#[test]
fn written_data_is_read_back() {
    let data = vec![0u8, 255, 17, 42];
    let frame = outgoing_frame(data.clone());
    assert!(matches!(frame, Frame::Binary(ref d) if d == &data));
    let item = incoming_payload(Some(Ok(frame)));
    assert!(matches!(item, Some(Ok(ref d)) if d == &data));
}

#[test]
fn text_frame_ends_the_stream() {
    assert!(incoming_payload(Some(Ok(Frame::Text("hello".to_string())))).is_none());
}

#[test]
fn control_frames_end_the_stream() {
    assert!(incoming_payload(Some(Ok(Frame::Ping(vec![1])))).is_none());
    assert!(incoming_payload(Some(Ok(Frame::Pong(vec![2])))).is_none());
    assert!(incoming_payload(Some(Ok(Frame::Close(None)))).is_none());
    let info = CloseInfo { code: 1000, reason: "bye".to_string() };
    assert!(incoming_payload(Some(Ok(Frame::Close(Some(info))))).is_none());
    assert!(incoming_payload(Some(Ok(Frame::Raw(vec![9, 9])))).is_none());
}

#[test]
fn error_is_passed_on() {
    let item = incoming_payload(Some(Err(WsError::ConnectionClosed)));
    assert!(matches!(item, Some(Err(WsError::ConnectionClosed))));
    let item = incoming_payload(Some(Err(WsError::AlreadyClosed)));
    assert!(matches!(item, Some(Err(WsError::AlreadyClosed))));
}

#[test]
fn end_of_stream_stays_the_end() {
    assert!(incoming_payload(None).is_none());
}
