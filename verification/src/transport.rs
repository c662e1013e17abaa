//! The read side of a connection: its frames, and the heartbeat that finds a dead peer.
//!
//! `WssTransport` decides, the caller does the waiting: it waits `wait_secs` seconds for the next
//! message, reports how that went with `on_wait`, and does what it is told. A request for a Ping is
//! answered with `on_ping_queued`.

use crate::message::{Frame, FrameView};
use vstd::prelude::*;

verus! {

/// How many seconds the read side waits for any frame before it sends a liveness Ping.
pub const HEARTBEAT_IDLE_SECS: u64 = 20;

/// How many seconds to wait after a Ping for any frame, a Pong or anything else, before the peer
/// is declared dead.
pub const HEARTBEAT_TIMEOUT_SECS: u64 = 10;

/// How many lines may be queued for the writer.
pub const WRITER_QUEUE_LEN: usize = 64;

/// How many control requests may be queued for the writer.
pub const CONTROL_QUEUE_LEN: usize = 8;

/// The read side of one connection.
#[derive(Debug)]
pub struct WssTransport {
    peer_label: String,
    awaiting_pong: bool,
}

/// The state of the read side.
pub struct TransportView {
    /// How the peer is named in logs and to the dispatcher.
    pub peer_label: Seq<char>,
    /// A Ping is out and nothing has come in since. Tells a peer that went silent on a half-open
    /// TCP connection from an idle one.
    pub awaiting_pong: bool,
}

/// How a wait for the next message ended.
#[derive(Debug, PartialEq, Eq)]
pub enum WaitOutcome {
    /// Nothing came in time.
    Elapsed,
    /// A message arrived.
    Received(Frame),
    /// The stream is over.
    Ended,
    /// Reading failed.
    Failed,
}

/// How a wait for the next message ended.
pub enum WaitView {
    Elapsed,
    Received(FrameView),
    Ended,
    Failed,
}

impl View for WaitOutcome {
    type V = WaitView;

    open spec fn view(&self) -> WaitView {
        match self {
            WaitOutcome::Elapsed => WaitView::Elapsed,
            WaitOutcome::Received(frame) => WaitView::Received(frame@),
            WaitOutcome::Ended => WaitView::Ended,
            WaitOutcome::Failed => WaitView::Failed,
        }
    }
}

/// What the caller is to do next.
#[derive(Debug, PartialEq, Eq)]
pub enum ReadStep {
    /// Wait for the next message.
    Wait,
    /// Ask the writer for a Ping, and report with `on_ping_queued`.
    SendPing,
    /// Hand this text to the dispatcher.
    Deliver(String),
    /// Tear the connection down.
    End,
}

/// What the caller is to do next.
pub enum ReadStepView {
    Wait,
    SendPing,
    Deliver(Seq<char>),
    End,
}

impl View for ReadStep {
    type V = ReadStepView;

    open spec fn view(&self) -> ReadStepView {
        match self {
            ReadStep::Wait => ReadStepView::Wait,
            ReadStep::SendPing => ReadStepView::SendPing,
            ReadStep::Deliver(text) => ReadStepView::Deliver(text@),
            ReadStep::End => ReadStepView::End,
        }
    }
}

impl WaitView {
    /// Something was heard of the connection.
    pub open spec fn heard(self) -> bool {
        !(self is Elapsed)
    }
}

/// How long to wait for the next message.
pub open spec fn heartbeat_wait_secs(awaiting_pong: bool) -> u64 {
    if awaiting_pong {
        HEARTBEAT_TIMEOUT_SECS
    } else {
        HEARTBEAT_IDLE_SECS
    }
}

/// What follows from a wait that ended with `outcome`: texts are handed on, the other messages
/// only show that the peer lives, and silence calls for a Ping once and is fatal then.
pub open spec fn step_after_wait(awaiting_pong: bool, outcome: WaitView) -> ReadStepView {
    match outcome {
        WaitView::Elapsed => if awaiting_pong {
            ReadStepView::End
        } else {
            ReadStepView::SendPing
        },
        WaitView::Received(FrameView::Text(text)) => ReadStepView::Deliver(text),
        WaitView::Received(FrameView::Close) => ReadStepView::End,
        WaitView::Received(_) => ReadStepView::Wait,
        WaitView::Ended => ReadStepView::End,
        WaitView::Failed => ReadStepView::End,
    }
}

/// Whether a Ping is still unanswered after a wait that ended with `outcome`.
pub open spec fn awaiting_after_wait(awaiting_pong: bool, outcome: WaitView) -> bool {
    awaiting_pong && !outcome.heard()
}

/// What follows from the writer's reply to the request for a Ping.
pub open spec fn step_after_ping(queued: bool) -> ReadStepView {
    if queued {
        ReadStepView::Wait
    } else {
        ReadStepView::End
    }
}

/// Whether a Ping is unanswered after the writer's reply to the request for one.
pub open spec fn awaiting_after_ping(awaiting_pong: bool, queued: bool) -> bool {
    awaiting_pong || queued
}

/// The name of the peer at `remote_addr`.
pub open spec fn peer_label_of(remote_addr: Seq<char>) -> Seq<char> {
    "wss:"@ + remote_addr
}

impl WssTransport {
    pub closed spec fn view(&self) -> TransportView {
        TransportView { peer_label: self.peer_label@, awaiting_pong: self.awaiting_pong }
    }

    /// The read side of a fresh connection with the peer at `remote_addr`, an IP address and port
    /// in their usual notation.
    pub fn new(remote_addr: &str) -> (transport: WssTransport)
        ensures
            transport@.peer_label == peer_label_of(remote_addr@),
            transport@.peer_label == seq!['w', 's', 's', ':'] + remote_addr@,
            !transport@.awaiting_pong,
    {
        proof {
            reveal_strlit("wss:");
            assert("wss:"@ =~= seq!['w', 's', 's', ':']);
        }
        let mut peer_label = "wss:".to_string();
        peer_label.append(remote_addr);
        WssTransport { peer_label, awaiting_pong: false }
    }

    /// How the peer is named in logs and to the dispatcher.
    pub fn peer_label(&self) -> (label: String)
        ensures
            label@ == self@.peer_label,
    {
        self.peer_label.clone()
    }

    /// How many seconds to wait for the next message.
    pub fn wait_secs(&self) -> (secs: u64)
        ensures
            secs == heartbeat_wait_secs(self@.awaiting_pong),
            self@.awaiting_pong ==> secs == 10,
            !self@.awaiting_pong ==> secs == 20,
    {
        if self.awaiting_pong {
            HEARTBEAT_TIMEOUT_SECS
        } else {
            HEARTBEAT_IDLE_SECS
        }
    }

    /// Takes in how the wait for a message ended, and says what to do about it.
    pub fn on_wait(&mut self, outcome: WaitOutcome) -> (step: ReadStep)
        ensures
            match outcome {
                WaitOutcome::Elapsed => {
                    &&& step == (if old(self)@.awaiting_pong {
                        ReadStep::End
                    } else {
                        ReadStep::SendPing
                    })
                    &&& final(self)@.awaiting_pong == old(self)@.awaiting_pong
                },
                WaitOutcome::Received(Frame::Text(text)) => {
                    &&& step is Deliver
                    &&& step->Deliver_0@ == text@
                    &&& !final(self)@.awaiting_pong
                },
                WaitOutcome::Received(Frame::Close) | WaitOutcome::Ended | WaitOutcome::Failed => {
                    &&& step is End
                    &&& !final(self)@.awaiting_pong
                },
                WaitOutcome::Received(_) => {
                    &&& step is Wait
                    &&& !final(self)@.awaiting_pong
                },
            },
            step@ == step_after_wait(old(self)@.awaiting_pong, outcome@),
            final(self)@.awaiting_pong == awaiting_after_wait(
                old(self)@.awaiting_pong,
                outcome@,
            ),
            final(self)@.peer_label == old(self)@.peer_label,
    {
        match outcome {
            WaitOutcome::Elapsed => if self.awaiting_pong {
                ReadStep::End
            } else {
                ReadStep::SendPing
            },
            WaitOutcome::Received(frame) => {
                self.awaiting_pong = false;
                match frame {
                    Frame::Text(text) => ReadStep::Deliver(text),
                    Frame::Close => ReadStep::End,
                    Frame::Ping(_) | Frame::Pong(_) | Frame::Raw => ReadStep::Wait,
                    Frame::Binary(_) => ReadStep::Wait,
                }
            },
            WaitOutcome::Ended | WaitOutcome::Failed => {
                self.awaiting_pong = false;
                ReadStep::End
            },
        }
    }

    /// Takes in whether the writer accepted the request for a Ping, which it does as long as it
    /// runs, and says how to go on.
    pub fn on_ping_queued(&mut self, queued: bool) -> (step: ReadStep)
        ensures
            queued ==> step is Wait && final(self)@.awaiting_pong,
            !queued ==> step is End && final(self)@.awaiting_pong == old(self)@.awaiting_pong,
            step@ == step_after_ping(queued),
            final(self)@.awaiting_pong == awaiting_after_ping(old(self)@.awaiting_pong, queued),
            final(self)@.peer_label == old(self)@.peer_label,
    {
        if queued {
            self.awaiting_pong = true;
            ReadStep::Wait
        } else {
            ReadStep::End
        }
    }
}

/// The label of a peer is the four characters `wss:` and then its address, all of it and nothing
/// else.
pub proof fn label_is_the_scheme_and_the_address(remote_addr: Seq<char>)
    ensures
        peer_label_of(remote_addr).len() == remote_addr.len() + 4,
        peer_label_of(remote_addr)[0] == 'w',
        peer_label_of(remote_addr)[1] == 's',
        peer_label_of(remote_addr)[2] == 's',
        peer_label_of(remote_addr)[3] == ':',
        peer_label_of(remote_addr).skip(4) == remote_addr,
{
    reveal_strlit("wss:");
    assert(peer_label_of(remote_addr).skip(4) =~= remote_addr);
}

/// Peers at different addresses have different labels.
pub proof fn labels_tell_peers_apart(a: Seq<char>, b: Seq<char>)
    ensures
        peer_label_of(a) == peer_label_of(b) <==> a == b,
{
    label_is_the_scheme_and_the_address(a);
    label_is_the_scheme_and_the_address(b);
}

/// An idle peer is given 20 seconds, one that was pinged 10.
pub proof fn heartbeat_takes_its_time()
    ensures
        heartbeat_wait_secs(false) == 20,
        heartbeat_wait_secs(true) == 10,
        HEARTBEAT_IDLE_SECS == 20,
        HEARTBEAT_TIMEOUT_SECS == 10,
{
}

/// A text is delivered with exactly its characters, whether a Ping is out or not, and nothing is
/// ever delivered but a text that came in.
pub proof fn exactly_the_text_is_delivered(awaiting_pong: bool, outcome: WaitView, text: Seq<char>)
    ensures
        step_after_wait(awaiting_pong, outcome) == ReadStepView::Deliver(text) <==> outcome
            == WaitView::Received(FrameView::Text(text)),
{
}

/// A Ping is asked for when an idle wait runs out, and at no other time.
pub proof fn ping_is_asked_for_in_silence_only(awaiting_pong: bool, outcome: WaitView)
    ensures
        step_after_wait(awaiting_pong, outcome) is SendPing <==> outcome is Elapsed
            && !awaiting_pong,
{
}

/// A wait ends the connection where the peer closed it, where the stream is over or broken, and
/// where a pinged peer stayed silent, and nowhere else.
pub proof fn wait_ends_the_connection_for_a_reason(awaiting_pong: bool, outcome: WaitView)
    ensures
        step_after_wait(awaiting_pong, outcome) is End <==> {
            ||| outcome == WaitView::Received(FrameView::Close)
            ||| outcome is Ended
            ||| outcome is Failed
            ||| outcome is Elapsed && awaiting_pong
        },
{
}

/// Whatever comes in answers a Ping, silence does not, and only a Ping that the writer took is out.
pub proof fn ping_is_out_until_something_comes_in(awaiting_pong: bool, outcome: WaitView)
    ensures
        outcome is Elapsed ==> awaiting_after_wait(awaiting_pong, outcome) == awaiting_pong,
        !(outcome is Elapsed) ==> !awaiting_after_wait(awaiting_pong, outcome),
        awaiting_after_ping(awaiting_pong, true),
        awaiting_after_ping(awaiting_pong, false) == awaiting_pong,
        step_after_ping(true) is Wait,
        step_after_ping(false) is End,
{
}

/// Outcomes and steps are seen as what they are.
pub proof fn outcomes_and_steps_are_seen_as_they_are(frame: Frame, text: String)
    ensures
        WaitOutcome::Elapsed@ is Elapsed,
        WaitOutcome::Received(frame)@ == WaitView::Received(frame@),
        WaitOutcome::Ended@ is Ended,
        WaitOutcome::Failed@ is Failed,
        ReadStep::Wait@ is Wait,
        ReadStep::SendPing@ is SendPing,
        ReadStep::Deliver(text)@ == ReadStepView::Deliver(text@),
        ReadStep::End@ is End,
{
}

} // verus!
