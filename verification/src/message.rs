//! WebSocket messages as the transport sees them.

use tokio_tungstenite::tungstenite::Message;
use vstd::prelude::*;

verus! {

/// The message type of `tungstenite`.
#[verifier::external_type_specification]
#[verifier::external_body]
pub struct ExMessage(tokio_tungstenite::tungstenite::Message);

/// A WebSocket message received from the peer.
#[derive(Debug, PartialEq, Eq)]
pub enum Frame {
    Text(String),
    Binary(Vec<u8>),
    Ping(Vec<u8>),
    Pong(Vec<u8>),
    Close,
    /// A raw protocol frame.
    Raw,
}

/// The content of a WebSocket message.
pub enum FrameView {
    Text(Seq<char>),
    Binary(Seq<u8>),
    Ping(Seq<u8>),
    Pong(Seq<u8>),
    Close,
    Raw,
}

impl View for Frame {
    type V = FrameView;

    open spec fn view(&self) -> FrameView {
        match self {
            Frame::Text(text) => FrameView::Text(text@),
            Frame::Binary(data) => FrameView::Binary(data@),
            Frame::Ping(data) => FrameView::Ping(data@),
            Frame::Pong(data) => FrameView::Pong(data@),
            Frame::Close => FrameView::Close,
            Frame::Raw => FrameView::Raw,
        }
    }
}

/// A message that the writer sends.
#[derive(Debug, PartialEq, Eq)]
pub enum Outbound {
    /// One line of the JSON-RPC stream.
    Text(String),
    /// A liveness probe, without payload.
    Ping,
}

/// The content of a message that the writer sends.
pub enum OutboundView {
    Text(Seq<char>),
    Ping,
}

impl View for Outbound {
    type V = OutboundView;

    open spec fn view(&self) -> OutboundView {
        match self {
            Outbound::Text(line) => OutboundView::Text(line@),
            Outbound::Ping => OutboundView::Ping,
        }
    }
}

impl OutboundView {
    /// The message as the peer finds it on the wire.
    pub open spec fn frame(self) -> FrameView {
        match self {
            OutboundView::Text(line) => FrameView::Text(line),
            OutboundView::Ping => FrameView::Ping(Seq::empty()),
        }
    }
}

/// What a `tungstenite` message holds: its variant, and the text or payload in it. The reason of
/// a close message and the inside of a raw frame are left out.
pub uninterp spec fn message_frame(message: tokio_tungstenite::tungstenite::Message) -> FrameView;

/// Takes a `tungstenite::Message` apart.
///
/// Claimed: the variants are told apart, a text comes out by `Utf8Bytes::to_string` with the
/// characters it holds, and a payload by `Vec::from(Bytes)` with its bytes.
#[verifier::external_body]
fn message_into_frame(message: Message) -> (frame: Frame)
    ensures
        frame@ == message_frame(message),
{
    match message {
        Message::Text(text) => Frame::Text(text.to_string()),
        Message::Binary(data) => Frame::Binary(data.into()),
        Message::Ping(data) => Frame::Ping(data.into()),
        Message::Pong(data) => Frame::Pong(data.into()),
        Message::Close(_) => Frame::Close,
        Message::Frame(_) => Frame::Raw,
    }
}

/// `tungstenite::Message::Text`. Claimed: the message is a text with the characters of `line`.
#[verifier::external_body]
fn text_message(line: String) -> (message: Message)
    ensures
        message_frame(message) == FrameView::Text(line@),
{
    Message::Text(line.into())
}

/// `tungstenite::Message::Ping`. Claimed: the message is a ping with the bytes of `payload`.
/// `tungstenite` asks for a payload of less than 125 bytes.
#[verifier::external_body]
fn ping_message(payload: Vec<u8>) -> (message: Message)
    requires
        payload@.len() < 125,
    ensures
        message_frame(message) == FrameView::Ping(payload@),
{
    Message::Ping(payload.into())
}

impl Frame {
    /// The frame that a message off the socket amounts to.
    pub fn from_message(message: Message) -> (frame: Frame)
        ensures
            frame@ == message_frame(message),
            match message_frame(message) {
                FrameView::Text(text) => frame is Text && frame->Text_0@ == text,
                FrameView::Binary(data) => frame is Binary && frame->Binary_0@ == data,
                FrameView::Ping(data) => frame is Ping && frame->Ping_0@ == data,
                FrameView::Pong(data) => frame is Pong && frame->Pong_0@ == data,
                FrameView::Close => frame is Close,
                FrameView::Raw => frame is Raw,
            },
    {
        message_into_frame(message)
    }
}

impl Outbound {
    /// The message to hand to the socket.
    pub fn into_message(self) -> (message: Message)
        ensures
            message_frame(message) == self@.frame(),
            self matches Outbound::Text(line) ==> message_frame(message) == FrameView::Text(line@),
            self is Ping ==> message_frame(message) == FrameView::Ping(Seq::empty()),
    {
        match self {
            Outbound::Text(line) => text_message(line),
            Outbound::Ping => ping_message(Vec::new()),
        }
    }
}

/// A line goes out as one text with exactly its characters, whatever it holds.
pub proof fn line_goes_out_as_it_is(line: String)
    ensures
        Outbound::Text(line)@.frame() is Text,
        Outbound::Text(line)@.frame()->Text_0 == line@,
{
}

/// A liveness probe goes out as a ping without a byte in it.
pub proof fn probe_goes_out_empty()
    ensures
        Outbound::Ping@.frame() is Ping,
        Outbound::Ping@.frame()->Ping_0.len() == 0,
{
}

/// A received message is seen as what it is, with all that it holds.
pub proof fn frames_are_seen_as_they_are(text: String, data: Vec<u8>)
    ensures
        Frame::Text(text)@ == FrameView::Text(text@),
        Frame::Binary(data)@ == FrameView::Binary(data@),
        Frame::Ping(data)@ == FrameView::Ping(data@),
        Frame::Pong(data)@ == FrameView::Pong(data@),
        Frame::Close@ is Close,
        Frame::Raw@ is Raw,
{
}

/// No two different outbound messages look alike to the peer: what arrives determines what was
/// sent.
pub proof fn outbound_messages_are_distinguishable(a: OutboundView, b: OutboundView)
    ensures
        a.frame() == b.frame() <==> a == b,
{
}

} // verus!
