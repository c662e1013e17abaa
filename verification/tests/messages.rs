use tokio_tungstenite::tungstenite::protocol::frame::Frame as RawFrame;
use tokio_tungstenite::tungstenite::Message;
use wss_rpc::message::{Frame, Outbound};

#[test]
fn lines_go_out_as_text() {
    let message = Outbound::Text("{\"id\":1}".to_string()).into_message();
    assert_eq!(message, Message::text("{\"id\":1}"));
}

#[test]
fn pings_go_out_without_payload() {
    let message = Outbound::Ping.into_message();
    assert!(message.is_ping());
    assert!(message.is_empty());
}

#[test]
fn messages_are_told_apart() {
    assert_eq!(
        Frame::from_message(Message::text("h\u{e9}llo")),
        Frame::Text("h\u{e9}llo".to_string())
    );
    assert_eq!(
        Frame::from_message(Message::binary(vec![1u8, 2])),
        Frame::Binary(vec![1, 2])
    );
    assert_eq!(
        Frame::from_message(Message::Ping(vec![3u8].into())),
        Frame::Ping(vec![3])
    );
    assert_eq!(
        Frame::from_message(Message::Pong(vec![4u8].into())),
        Frame::Pong(vec![4])
    );
    assert_eq!(Frame::from_message(Message::Close(None)), Frame::Close);
}

#[test]
fn raw_frames_are_told_apart() {
    assert_eq!(
        Frame::from_message(Message::Frame(RawFrame::ping(vec![1u8]))),
        Frame::Raw
    );
}

#[test]
fn what_is_written_is_what_is_read() {
    assert_eq!(
        Frame::from_message(Outbound::Text("line".to_string()).into_message()),
        Frame::Text("line".to_string())
    );
    assert_eq!(
        Frame::from_message(Outbound::Ping.into_message()),
        Frame::Ping(vec![])
    );
}
