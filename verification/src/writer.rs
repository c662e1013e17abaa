//! The write side of a connection.
//!
//! `Writer` decides what to look at next and what to send; the caller polls and reports. All that
//! it may wait for is polled in a fixed order, cancellation before everything else and queued lines
//! before control requests, and each wake-up starts over at the top.

use crate::message::{Outbound, OutboundView};
use vstd::prelude::*;

verus! {

/// How many milliseconds the Close frame gets to be flushed once the writer stops. A suspended or
/// black-holed peer must not hold the writer, its TLS state and its socket for longer.
pub const CLOSE_TIMEOUT_MS: u64 = 1_000;

/// What the read side asks the writer to send besides the JSON-RPC lines.
#[derive(Debug, Clone, Copy, PartialEq, Eq, Structural)]
pub enum Control {
    Ping,
}

/// What a queue had to offer when it was polled.
#[derive(Debug, PartialEq, Eq)]
pub enum QueuePoll<T> {
    /// Nothing yet.
    Pending,
    /// Nothing, and nothing will come: all senders are gone.
    Closed,
    /// The oldest item, which is off the queue now.
    Item(T),
}

/// How a send stood when it was polled.
#[derive(Debug, Clone, Copy, PartialEq, Eq, Structural)]
pub enum SendPoll {
    Pending,
    Sent,
    Failed,
}

/// What the caller is to do.
#[derive(Debug, PartialEq, Eq)]
pub enum WriterRequest {
    /// Poll for cancellation.
    PollCancelled,
    /// Poll the queue of lines.
    PollLine,
    /// Poll the queue of control requests.
    PollControl,
    /// Prepare to send this message, without polling the send, and poll for cancellation.
    Send(Outbound),
    /// Poll the send.
    PollSend,
    /// Nothing is ready: sleep until something polled before wakes the task.
    Park,
    /// Drop what is being sent and close the socket, for at most so many milliseconds.
    Close { timeout_ms: u64 },
    /// All done.
    Finish,
}

/// What the caller found.
#[derive(Debug, PartialEq, Eq)]
pub enum WriterReport {
    Cancelled(bool),
    Line(QueuePoll<String>),
    Control(QueuePoll<Control>),
    Send(SendPoll),
    Woken,
    /// The socket is closed, could not be closed, or did not close in time.
    Closed,
}

/// What is polled while the writer waits for something to send, in this order.
#[derive(Debug, Clone, Copy, PartialEq, Eq, Structural)]
pub enum WaitAt {
    Cancelled,
    Line,
    Control,
    Parked,
}

/// What is polled while a message is being sent, in this order.
#[derive(Debug, Clone, Copy, PartialEq, Eq, Structural)]
pub enum SendAt {
    Cancelled,
    Send,
    Parked,
}

/// Where the writer stands.
#[derive(Debug, Clone, Copy, PartialEq, Eq, Structural)]
pub enum Phase {
    /// Waiting for something to send.
    Waiting(WaitAt),
    /// Sending a message.
    Sending(SendAt),
    /// Closing the socket.
    Closing,
    Finished,
}

/// What the caller is to do.
pub enum RequestView {
    PollCancelled,
    PollLine,
    PollControl,
    Send(OutboundView),
    PollSend,
    Park,
    Close { timeout_ms: u64 },
    Finish,
}

impl View for WriterRequest {
    type V = RequestView;

    open spec fn view(&self) -> RequestView {
        match self {
            WriterRequest::PollCancelled => RequestView::PollCancelled,
            WriterRequest::PollLine => RequestView::PollLine,
            WriterRequest::PollControl => RequestView::PollControl,
            WriterRequest::Send(message) => RequestView::Send(message@),
            WriterRequest::PollSend => RequestView::PollSend,
            WriterRequest::Park => RequestView::Park,
            WriterRequest::Close { timeout_ms } => RequestView::Close { timeout_ms: *timeout_ms },
            WriterRequest::Finish => RequestView::Finish,
        }
    }
}

/// What the caller found.
pub enum ReportView {
    Cancelled(bool),
    Line(QueuePoll<Seq<char>>),
    Control(QueuePoll<Control>),
    Send(SendPoll),
    Woken,
    Closed,
}

impl View for WriterReport {
    type V = ReportView;

    open spec fn view(&self) -> ReportView {
        match self {
            WriterReport::Cancelled(cancelled) => ReportView::Cancelled(*cancelled),
            WriterReport::Line(QueuePoll::Pending) => ReportView::Line(QueuePoll::Pending),
            WriterReport::Line(QueuePoll::Closed) => ReportView::Line(QueuePoll::Closed),
            WriterReport::Line(QueuePoll::Item(line)) => ReportView::Line(QueuePoll::Item(line@)),
            WriterReport::Control(poll) => ReportView::Control(*poll),
            WriterReport::Send(poll) => ReportView::Send(*poll),
            WriterReport::Woken => ReportView::Woken,
            WriterReport::Closed => ReportView::Closed,
        }
    }
}

/// The phase that a report leads to. A report on something else than what was asked for changes
/// nothing.
pub open spec fn next_phase(phase: Phase, report: ReportView) -> Phase {
    match (phase, report) {
        // Cancellation comes first, both between messages and while one is being sent.
        (Phase::Waiting(WaitAt::Cancelled), ReportView::Cancelled(cancelled)) => if cancelled {
            Phase::Closing
        } else {
            Phase::Waiting(WaitAt::Line)
        },
        (Phase::Sending(SendAt::Cancelled), ReportView::Cancelled(cancelled)) => if cancelled {
            Phase::Closing
        } else {
            Phase::Sending(SendAt::Send)
        },
        // Then the queues, lines before control requests. Either of them closing is the end.
        (Phase::Waiting(WaitAt::Line), ReportView::Line(poll)) => match poll {
            QueuePoll::Pending => Phase::Waiting(WaitAt::Control),
            QueuePoll::Closed => Phase::Closing,
            QueuePoll::Item(_) => Phase::Sending(SendAt::Cancelled),
        },
        (Phase::Waiting(WaitAt::Control), ReportView::Control(poll)) => match poll {
            QueuePoll::Pending => Phase::Waiting(WaitAt::Parked),
            QueuePoll::Closed => Phase::Closing,
            QueuePoll::Item(_) => Phase::Sending(SendAt::Cancelled),
        },
        // A sent message makes room for the next, a failed one is the last.
        (Phase::Sending(SendAt::Send), ReportView::Send(poll)) => match poll {
            SendPoll::Pending => Phase::Sending(SendAt::Parked),
            SendPoll::Sent => Phase::Waiting(WaitAt::Cancelled),
            SendPoll::Failed => Phase::Closing,
        },
        // A wake-up starts over at the top.
        (Phase::Waiting(WaitAt::Parked), ReportView::Woken) => Phase::Waiting(WaitAt::Cancelled),
        (Phase::Sending(SendAt::Parked), ReportView::Woken) => Phase::Sending(SendAt::Cancelled),
        (Phase::Closing, ReportView::Closed) => Phase::Finished,
        _ => phase,
    }
}

/// The message that a report gives the writer to send, if any.
pub open spec fn taken_up(phase: Phase, report: ReportView) -> Option<OutboundView> {
    match (phase, report) {
        (Phase::Waiting(WaitAt::Line), ReportView::Line(QueuePoll::Item(line))) => Some(
            OutboundView::Text(line),
        ),
        (
            Phase::Waiting(WaitAt::Control),
            ReportView::Control(QueuePoll::Item(Control::Ping)),
        ) => Some(OutboundView::Ping),
        _ => None,
    }
}

/// What the writer asks for in a phase.
pub open spec fn request_in(phase: Phase, close_timeout_ms: u64) -> RequestView {
    match phase {
        Phase::Waiting(WaitAt::Cancelled) => RequestView::PollCancelled,
        Phase::Waiting(WaitAt::Line) => RequestView::PollLine,
        Phase::Waiting(WaitAt::Control) => RequestView::PollControl,
        Phase::Waiting(WaitAt::Parked) => RequestView::Park,
        Phase::Sending(SendAt::Cancelled) => RequestView::PollCancelled,
        Phase::Sending(SendAt::Send) => RequestView::PollSend,
        Phase::Sending(SendAt::Parked) => RequestView::Park,
        Phase::Closing => RequestView::Close { timeout_ms: close_timeout_ms },
        Phase::Finished => RequestView::Finish,
    }
}

/// The write side of one connection.
#[derive(Debug)]
pub struct Writer {
    phase: Phase,
    close_timeout_ms: u64,
}

impl Writer {
    /// Where the writer stands.
    pub closed spec fn phase(&self) -> Phase {
        self.phase
    }

    /// How many milliseconds the Close frame gets.
    pub closed spec fn close_timeout_ms(&self) -> u64 {
        self.close_timeout_ms
    }

    /// A writer that has not started yet.
    pub fn new(close_timeout_ms: u64) -> (writer: Writer)
        ensures
            writer.phase() == Phase::Waiting(WaitAt::Cancelled),
            writer.close_timeout_ms() == close_timeout_ms,
    {
        Writer { phase: Phase::Waiting(WaitAt::Cancelled), close_timeout_ms }
    }

    /// What to do first, or again.
    pub fn request(&self) -> (request: WriterRequest)
        ensures
            request@ == request_in(self.phase(), self.close_timeout_ms()),
            match self.phase() {
                Phase::Waiting(WaitAt::Cancelled) | Phase::Sending(SendAt::Cancelled) => {
                    request is PollCancelled
                },
                Phase::Waiting(WaitAt::Line) => request is PollLine,
                Phase::Waiting(WaitAt::Control) => request is PollControl,
                Phase::Sending(SendAt::Send) => request is PollSend,
                Phase::Waiting(WaitAt::Parked) | Phase::Sending(SendAt::Parked) => request is Park,
                Phase::Closing => request == (WriterRequest::Close {
                    timeout_ms: self.close_timeout_ms(),
                }),
                Phase::Finished => request is Finish,
            },
    {
        match self.phase {
            Phase::Waiting(WaitAt::Cancelled) => WriterRequest::PollCancelled,
            Phase::Waiting(WaitAt::Line) => WriterRequest::PollLine,
            Phase::Waiting(WaitAt::Control) => WriterRequest::PollControl,
            Phase::Waiting(WaitAt::Parked) => WriterRequest::Park,
            Phase::Sending(SendAt::Cancelled) => WriterRequest::PollCancelled,
            Phase::Sending(SendAt::Send) => WriterRequest::PollSend,
            Phase::Sending(SendAt::Parked) => WriterRequest::Park,
            Phase::Closing => WriterRequest::Close { timeout_ms: self.close_timeout_ms },
            Phase::Finished => WriterRequest::Finish,
        }
    }

    /// Takes in what the caller found, and says what to do next.
    pub fn report(&mut self, report: WriterReport) -> (request: WriterRequest)
        ensures
            final(self).phase() == next_phase(old(self).phase(), report@),
            final(self).close_timeout_ms() == old(self).close_timeout_ms(),
            request@ == match taken_up(old(self).phase(), report@) {
                Some(message) => RequestView::Send(message),
                None => request_in(final(self).phase(), old(self).close_timeout_ms()),
            },
            match (old(self).phase(), report) {
                (Phase::Waiting(WaitAt::Cancelled), WriterReport::Cancelled(cancelled)) => {
                    final(self).phase() == if cancelled {
                        Phase::Closing
                    } else {
                        Phase::Waiting(WaitAt::Line)
                    }
                },
                (Phase::Sending(SendAt::Cancelled), WriterReport::Cancelled(cancelled)) => {
                    final(self).phase() == if cancelled {
                        Phase::Closing
                    } else {
                        Phase::Sending(SendAt::Send)
                    }
                },
                (Phase::Waiting(WaitAt::Line), WriterReport::Line(QueuePoll::Item(line))) => {
                    &&& final(self).phase() == Phase::Sending(SendAt::Cancelled)
                    &&& request matches WriterRequest::Send(Outbound::Text(text))
                    &&& text@ == line@
                },
                (Phase::Waiting(WaitAt::Line), WriterReport::Line(QueuePoll::Pending)) => {
                    final(self).phase() == Phase::Waiting(WaitAt::Control)
                },
                (Phase::Waiting(WaitAt::Control), WriterReport::Control(QueuePoll::Item(_))) => {
                    &&& final(self).phase() == Phase::Sending(SendAt::Cancelled)
                    &&& request == WriterRequest::Send(Outbound::Ping)
                },
                (Phase::Waiting(WaitAt::Control), WriterReport::Control(QueuePoll::Pending)) => {
                    final(self).phase() == Phase::Waiting(WaitAt::Parked)
                },
                (Phase::Waiting(WaitAt::Line), WriterReport::Line(QueuePoll::Closed))
                | (Phase::Waiting(WaitAt::Control), WriterReport::Control(QueuePoll::Closed))
                | (Phase::Sending(SendAt::Send), WriterReport::Send(SendPoll::Failed)) => {
                    final(self).phase() is Closing
                },
                (Phase::Sending(SendAt::Send), WriterReport::Send(SendPoll::Pending)) => {
                    final(self).phase() == Phase::Sending(SendAt::Parked)
                },
                (Phase::Sending(SendAt::Send), WriterReport::Send(SendPoll::Sent))
                | (Phase::Waiting(WaitAt::Parked), WriterReport::Woken) => {
                    final(self).phase() == Phase::Waiting(WaitAt::Cancelled)
                },
                (Phase::Sending(SendAt::Parked), WriterReport::Woken) => {
                    final(self).phase() == Phase::Sending(SendAt::Cancelled)
                },
                (Phase::Closing, WriterReport::Closed) => final(self).phase() is Finished,
                (phase, _) => final(self).phase() == phase,
            },
            match final(self).phase() {
                Phase::Waiting(WaitAt::Cancelled) => request is PollCancelled,
                Phase::Waiting(WaitAt::Line) => request is PollLine,
                Phase::Waiting(WaitAt::Control) => request is PollControl,
                Phase::Sending(SendAt::Cancelled) => {
                    request is PollCancelled || request is Send && old(self).phase() is Waiting
                },
                Phase::Sending(SendAt::Send) => request is PollSend,
                Phase::Waiting(WaitAt::Parked) | Phase::Sending(SendAt::Parked) => request is Park,
                Phase::Closing => request == (WriterRequest::Close {
                    timeout_ms: old(self).close_timeout_ms(),
                }),
                Phase::Finished => request is Finish,
            },
    {
        match (self.phase, report) {
            (Phase::Waiting(WaitAt::Cancelled), WriterReport::Cancelled(cancelled)) => {
                self.phase = if cancelled {
                    Phase::Closing
                } else {
                    Phase::Waiting(WaitAt::Line)
                };
            },
            (Phase::Sending(SendAt::Cancelled), WriterReport::Cancelled(cancelled)) => {
                self.phase = if cancelled {
                    Phase::Closing
                } else {
                    Phase::Sending(SendAt::Send)
                };
            },
            (Phase::Waiting(WaitAt::Line), WriterReport::Line(poll)) => match poll {
                QueuePoll::Pending => {
                    self.phase = Phase::Waiting(WaitAt::Control);
                },
                QueuePoll::Closed => {
                    self.phase = Phase::Closing;
                },
                QueuePoll::Item(line) => {
                    self.phase = Phase::Sending(SendAt::Cancelled);
                    return WriterRequest::Send(Outbound::Text(line));
                },
            },
            (Phase::Waiting(WaitAt::Control), WriterReport::Control(poll)) => match poll {
                QueuePoll::Pending => {
                    self.phase = Phase::Waiting(WaitAt::Parked);
                },
                QueuePoll::Closed => {
                    self.phase = Phase::Closing;
                },
                QueuePoll::Item(Control::Ping) => {
                    self.phase = Phase::Sending(SendAt::Cancelled);
                    return WriterRequest::Send(Outbound::Ping);
                },
            },
            (Phase::Sending(SendAt::Send), WriterReport::Send(poll)) => {
                self.phase = match poll {
                    SendPoll::Pending => Phase::Sending(SendAt::Parked),
                    SendPoll::Sent => Phase::Waiting(WaitAt::Cancelled),
                    SendPoll::Failed => Phase::Closing,
                };
            },
            (Phase::Waiting(WaitAt::Parked), WriterReport::Woken) => {
                self.phase = Phase::Waiting(WaitAt::Cancelled);
            },
            (Phase::Sending(SendAt::Parked), WriterReport::Woken) => {
                self.phase = Phase::Sending(SendAt::Cancelled);
            },
            (Phase::Closing, WriterReport::Closed) => {
                self.phase = Phase::Finished;
            },
            _ => {},
        }
        self.request()
    }
}

} // verus!
