//! What holds of a writer's whole life, over any course of reports.

use crate::message::{Outbound, OutboundView};
use crate::writer::{
    next_phase, request_in, taken_up, Control, Phase, QueuePoll, ReportView, RequestView, SendAt,
    SendPoll, WaitAt, WriterReport, WriterRequest,
};
use vstd::prelude::*;

verus! {

/// Where a writer stands, and what it has done so far.
pub struct WriteRun {
    pub phase: Phase,
    /// The messages that the writer took up, oldest first.
    pub taken: Seq<OutboundView>,
    /// The messages that went out in full, oldest first.
    pub sent: Seq<OutboundView>,
    /// How often the writer set out to close the socket.
    pub closes: nat,
}

/// One more report to a writer.
pub open spec fn take_report(run: WriteRun, report: ReportView) -> WriteRun {
    let phase = next_phase(run.phase, report);
    WriteRun {
        phase,
        taken: match taken_up(run.phase, report) {
            Some(message) => run.taken.push(message),
            None => run.taken,
        },
        sent: if run.phase == Phase::Sending(SendAt::Send) && report == ReportView::Send(
            SendPoll::Sent,
        ) {
            run.sent.push(run.taken.last())
        } else {
            run.sent
        },
        closes: if phase is Closing && !(run.phase is Closing) {
            run.closes + 1
        } else {
            run.closes
        },
    }
}

/// A new writer that was given these reports.
pub open spec fn write(reports: Seq<ReportView>) -> WriteRun
    decreases reports.len(),
{
    if reports.len() == 0 {
        WriteRun {
            phase: Phase::Waiting(WaitAt::Cancelled),
            taken: Seq::empty(),
            sent: Seq::empty(),
            closes: 0,
        }
    } else {
        take_report(write(reports.drop_last()), reports.last())
    }
}

/// The report is on what the writer asked for.
pub open spec fn answers(phase: Phase, report: ReportView) -> bool {
    match request_in(phase, 0) {
        RequestView::PollCancelled => report is Cancelled,
        RequestView::PollLine => report is Line,
        RequestView::PollControl => report is Control,
        RequestView::PollSend => report is Send,
        RequestView::Park => report is Woken,
        RequestView::Close { .. } => report is Closed,
        _ => false,
    }
}

/// All the reports are on what the writer asked for.
pub open spec fn all_answer(reports: Seq<ReportView>) -> bool
    decreases reports.len(),
{
    reports.len() > 0 ==> {
        &&& all_answer(reports.drop_last())
        &&& answers(write(reports.drop_last()).phase, reports.last())
    }
}

/// What came off the queues according to the reports, oldest first.
pub open spec fn queued_items(reports: Seq<ReportView>) -> Seq<OutboundView>
    decreases reports.len(),
{
    if reports.len() == 0 {
        Seq::empty()
    } else {
        let before = queued_items(reports.drop_last());
        match reports.last() {
            ReportView::Line(QueuePoll::Item(line)) => before.push(OutboundView::Text(line)),
            ReportView::Control(QueuePoll::Item(Control::Ping)) => before.push(OutboundView::Ping),
            _ => before,
        }
    }
}

/// The writer is through: it closes the socket or has done so.
pub open spec fn stopped(phase: Phase) -> bool {
    phase is Closing || phase is Finished
}

/// Whatever comes off a queue is taken up for sending, in that order: nothing is lost, repeated or
/// overtaken between the queues and the socket.
pub proof fn queued_items_are_taken_up_in_order(reports: Seq<ReportView>)
    requires
        all_answer(reports),
    ensures
        write(reports).taken == queued_items(reports),
    decreases reports.len(),
{
    if reports.len() > 0 {
        queued_items_are_taken_up_in_order(reports.drop_last());
    }
}

/// Messages go out in the order in which they were taken up, one at a time: those sent are the
/// first of those taken, all of them where the writer waits for the next, and all but the last
/// while that is being sent.
pub proof fn messages_are_sent_in_order(reports: Seq<ReportView>)
    ensures
        ({
            let run = write(reports);
            &&& run.sent.len() <= run.taken.len() <= run.sent.len() + 1
            &&& run.sent == run.taken.take(run.sent.len() as int)
            &&& run.phase is Waiting ==> run.sent == run.taken
            &&& run.phase is Sending ==> run.sent == run.taken.drop_last() && run.taken.len() > 0
        }),
    decreases reports.len(),
{
    if reports.len() > 0 {
        let run = write(reports);
        messages_are_sent_in_order(reports.drop_last());
        assert(run.sent == run.taken.take(run.sent.len() as int));
        if run.phase is Waiting {
            assert(run.sent == run.taken);
        }
        if run.phase is Sending {
            assert(run.sent == run.taken.drop_last());
        }
    }
}

/// Cancellation has the first word, then lines, then control requests: a queue of lines is looked
/// at only when there was no cancellation in the same round, a control queue only when there was no
/// line either, and a send makes progress only when there was no cancellation in the same round.
pub proof fn polls_keep_their_order(phase: Phase, report: ReportView)
    requires
        next_phase(phase, report) != phase,
    ensures
        next_phase(phase, report) == Phase::Waiting(WaitAt::Line) ==> phase == Phase::Waiting(
            WaitAt::Cancelled,
        ) && report == ReportView::Cancelled(false),
        next_phase(phase, report) == Phase::Waiting(WaitAt::Control) ==> phase == Phase::Waiting(
            WaitAt::Line,
        ) && report == ReportView::Line(QueuePoll::Pending),
        next_phase(phase, report) == Phase::Waiting(WaitAt::Parked) ==> phase == Phase::Waiting(
            WaitAt::Control,
        ) && report == ReportView::Control(QueuePoll::Pending),
        next_phase(phase, report) == Phase::Sending(SendAt::Send) ==> phase == Phase::Sending(
            SendAt::Cancelled,
        ) && report == ReportView::Cancelled(false),
        next_phase(phase, report) == Phase::Sending(SendAt::Parked) ==> phase == Phase::Sending(
            SendAt::Send,
        ) && report == ReportView::Send(SendPoll::Pending),
{
}

/// Cancellation ends the writer from wherever it is, even in the middle of a send that a peer does
/// not let through: at the next poll for it the writer goes on to close the socket, and the message
/// under way counts as not sent.
pub proof fn cancellation_stops_the_writer(reports: Seq<ReportView>)
    requires
        answers(write(reports).phase, ReportView::Cancelled(true)),
    ensures
        ({
            let run = write(reports.push(ReportView::Cancelled(true)));
            &&& run.phase is Closing
            &&& run.taken == write(reports).taken
            &&& run.sent == write(reports).sent
        }),
{
    assert(reports.push(ReportView::Cancelled(true)).drop_last() == reports);
}

/// A writer that sleeps looks for cancellation first thing when it is woken.
pub proof fn sleeping_writer_wakes_to_cancellation(reports: Seq<ReportView>)
    requires
        answers(write(reports).phase, ReportView::Woken),
    ensures
        answers(write(reports.push(ReportView::Woken)).phase, ReportView::Cancelled(true)),
{
    assert(reports.push(ReportView::Woken).drop_last() == reports);
}

/// Once it is through, the writer takes up and sends nothing more, whatever it is told.
pub proof fn nothing_follows_the_close(reports: Seq<ReportView>, later: Seq<ReportView>)
    requires
        stopped(write(reports).phase),
    ensures
        stopped(write(reports + later).phase),
        write(reports + later).taken == write(reports).taken,
        write(reports + later).sent == write(reports).sent,
    decreases later.len(),
{
    if later.len() == 0 {
        assert(reports + later == reports);
    } else {
        nothing_follows_the_close(reports, later.drop_last());
        assert((reports + later).drop_last() == reports + later.drop_last());
    }
}

/// The socket is closed once and only once: no writer sets out to close it twice, and none is
/// finished without having done so.
pub proof fn socket_is_closed_once(reports: Seq<ReportView>)
    ensures
        write(reports).closes == (if stopped(write(reports).phase) {
            1nat
        } else {
            0nat
        }),
    decreases reports.len(),
{
    if reports.len() > 0 {
        socket_is_closed_once(reports.drop_last());
    }
}

/// A writer is through for one of four reasons only: it was cancelled, the queue of lines or that
/// of control requests closed, or a send failed.
pub proof fn writer_stops_for_a_reason(phase: Phase, report: ReportView)
    requires
        !stopped(phase),
    ensures
        stopped(next_phase(phase, report)) <==> answers(phase, report) && (report
            == ReportView::Cancelled(true) || report == ReportView::Line(QueuePoll::Closed)
            || report == ReportView::Control(QueuePoll::Closed) || report == ReportView::Send(
            SendPoll::Failed,
        )),
{
}

/// What is taken up for sending is exactly what came off a queue that was polled: a line with all
/// its characters, or a Ping for a control request, and nothing at any other time.
pub proof fn exactly_the_queued_item_is_taken_up(
    phase: Phase,
    report: ReportView,
    line: Seq<char>,
)
    ensures
        taken_up(phase, report) == Some(OutboundView::Text(line)) <==> phase == Phase::Waiting(
            WaitAt::Line,
        ) && report == ReportView::Line(QueuePoll::Item(line)),
        taken_up(phase, report) == Some(OutboundView::Ping) <==> phase == Phase::Waiting(
            WaitAt::Control,
        ) && report is Control && report->Control_0 is Item,
{
}

/// A round starts when the writer wakes up and when a message is out, and a send when something was
/// taken up or the writer wakes up in it. Within a round each poll that finds nothing leads on to
/// the next one.
pub proof fn every_poll_leads_on(phase: Phase, report: ReportView)
    requires
        next_phase(phase, report) != phase,
    ensures
        next_phase(phase, report) == Phase::Waiting(WaitAt::Cancelled) <==> {
            ||| phase == Phase::Waiting(WaitAt::Parked) && report is Woken
            ||| phase == Phase::Sending(SendAt::Send) && report == ReportView::Send(SendPoll::Sent)
        },
        next_phase(phase, report) == Phase::Sending(SendAt::Cancelled) <==> {
            ||| phase == Phase::Sending(SendAt::Parked) && report is Woken
            ||| taken_up(phase, report) is Some
        },
        next_phase(phase, report) == Phase::Waiting(WaitAt::Line) <==> phase == Phase::Waiting(
            WaitAt::Cancelled,
        ) && report == ReportView::Cancelled(false),
        next_phase(phase, report) == Phase::Waiting(WaitAt::Control) <==> phase == Phase::Waiting(
            WaitAt::Line,
        ) && report == ReportView::Line(QueuePoll::Pending),
        next_phase(phase, report) == Phase::Waiting(WaitAt::Parked) <==> phase == Phase::Waiting(
            WaitAt::Control,
        ) && report == ReportView::Control(QueuePoll::Pending),
        next_phase(phase, report) == Phase::Sending(SendAt::Send) <==> phase == Phase::Sending(
            SendAt::Cancelled,
        ) && report == ReportView::Cancelled(false),
        next_phase(phase, report) == Phase::Sending(SendAt::Parked) <==> phase == Phase::Sending(
            SendAt::Send,
        ) && report == ReportView::Send(SendPoll::Pending),
        next_phase(phase, report) is Finished <==> phase is Closing && report is Closed,
{
}

/// A report on what the writer waits for takes it on, and any other leaves it where it is.
pub proof fn only_awaited_reports_count(phase: Phase, report: ReportView)
    ensures
        next_phase(phase, report) != phase <==> match phase {
            Phase::Waiting(WaitAt::Cancelled) | Phase::Sending(SendAt::Cancelled) => {
                report is Cancelled
            },
            Phase::Waiting(WaitAt::Line) => report is Line,
            Phase::Waiting(WaitAt::Control) => report is Control,
            Phase::Sending(SendAt::Send) => report is Send,
            Phase::Waiting(WaitAt::Parked) | Phase::Sending(SendAt::Parked) => report is Woken,
            Phase::Closing => report is Closed,
            Phase::Finished => false,
        },
{
}

/// The writer sets out to close the socket when it was cancelled, between messages or in the middle
/// of one, when the queue that it polled is closed, or when its send failed.
pub proof fn writer_closes_for_a_reason(phase: Phase, report: ReportView)
    requires
        !(phase is Closing),
    ensures
        next_phase(phase, report) is Closing <==> {
            ||| phase == Phase::Waiting(WaitAt::Cancelled) && report == ReportView::Cancelled(true)
            ||| phase == Phase::Sending(SendAt::Cancelled) && report == ReportView::Cancelled(true)
            ||| phase == Phase::Waiting(WaitAt::Line) && report == ReportView::Line(
                QueuePoll::Closed,
            )
            ||| phase == Phase::Waiting(WaitAt::Control) && report == ReportView::Control(
                QueuePoll::Closed,
            )
            ||| phase == Phase::Sending(SendAt::Send) && report == ReportView::Send(
                SendPoll::Failed,
            )
        },
{
}

/// The writer asks for what its phase waits for. The socket gets exactly the time to close that the
/// writer was made with, however short or long.
pub proof fn writer_asks_for_what_it_waits_for(phase: Phase, close_timeout_ms: u64)
    ensures
        request_in(phase, close_timeout_ms) is PollCancelled <==> phase == Phase::Waiting(
            WaitAt::Cancelled,
        ) || phase == Phase::Sending(SendAt::Cancelled),
        request_in(phase, close_timeout_ms) is PollLine <==> phase == Phase::Waiting(WaitAt::Line),
        request_in(phase, close_timeout_ms) is PollControl <==> phase == Phase::Waiting(
            WaitAt::Control,
        ),
        request_in(phase, close_timeout_ms) is PollSend <==> phase == Phase::Sending(SendAt::Send),
        request_in(phase, close_timeout_ms) is Park <==> phase == Phase::Waiting(WaitAt::Parked)
            || phase == Phase::Sending(SendAt::Parked),
        request_in(phase, close_timeout_ms) == (RequestView::Close {
            timeout_ms: close_timeout_ms,
        }) <==> phase is Closing,
        request_in(phase, close_timeout_ms) is Finish <==> phase is Finished,
{
}

/// Requests and reports are seen as what they are, with the line that they carry.
pub proof fn requests_and_reports_are_seen_as_they_are(
    message: Outbound,
    line: String,
    cancelled: bool,
    timeout_ms: u64,
    control: QueuePoll<Control>,
    send: SendPoll,
)
    ensures
        WriterRequest::PollCancelled@ is PollCancelled,
        WriterRequest::PollLine@ is PollLine,
        WriterRequest::PollControl@ is PollControl,
        WriterRequest::Send(message)@ == RequestView::Send(message@),
        WriterRequest::PollSend@ is PollSend,
        WriterRequest::Park@ is Park,
        (WriterRequest::Close { timeout_ms })@ == (RequestView::Close { timeout_ms }),
        WriterRequest::Finish@ is Finish,
        WriterReport::Cancelled(cancelled)@ == ReportView::Cancelled(cancelled),
        WriterReport::Line(QueuePoll::Pending)@ == ReportView::Line(QueuePoll::Pending),
        WriterReport::Line(QueuePoll::Closed)@ == ReportView::Line(QueuePoll::Closed),
        WriterReport::Line(QueuePoll::Item(line))@ == ReportView::Line(QueuePoll::Item(line@)),
        WriterReport::Control(control)@ == ReportView::Control(control),
        WriterReport::Send(send)@ == ReportView::Send(send),
        WriterReport::Woken@ is Woken,
        WriterReport::Closed@ is Closed,
{
}

} // verus!
