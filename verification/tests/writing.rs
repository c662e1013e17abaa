use wss_rpc::message::Outbound;
use wss_rpc::writer::{
    Control, QueuePoll, SendPoll, Writer, WriterReport, WriterRequest, CLOSE_TIMEOUT_MS,
};

fn line(text: &str) -> WriterReport {
    WriterReport::Line(QueuePoll::Item(text.to_string()))
}

fn ping() -> WriterReport {
    WriterReport::Control(QueuePoll::Item(Control::Ping))
}

/// A writer that has looked for cancellation and found none.
fn at_lines() -> Writer {
    let mut writer = Writer::new(CLOSE_TIMEOUT_MS);
    assert_eq!(writer.request(), WriterRequest::PollCancelled);
    assert_eq!(
        writer.report(WriterReport::Cancelled(false)),
        WriterRequest::PollLine
    );
    writer
}

/// A writer that has found no line either.
fn at_controls() -> Writer {
    let mut writer = at_lines();
    assert_eq!(
        writer.report(WriterReport::Line(QueuePoll::Pending)),
        WriterRequest::PollControl
    );
    writer
}

/// A writer in the middle of a send.
fn at_send() -> Writer {
    let mut writer = at_lines();
    assert_eq!(
        writer.report(line("response")),
        WriterRequest::Send(Outbound::Text("response".to_string()))
    );
    assert_eq!(
        writer.report(WriterReport::Cancelled(false)),
        WriterRequest::PollSend
    );
    writer
}

const CLOSE: WriterRequest = WriterRequest::Close { timeout_ms: 1000 };

#[test]
fn lines_are_sent_in_turn() {
    let mut writer = at_lines();
    for text in ["first", "second", "third"] {
        assert_eq!(
            writer.report(line(text)),
            WriterRequest::Send(Outbound::Text(text.to_string()))
        );
        assert_eq!(
            writer.report(WriterReport::Cancelled(false)),
            WriterRequest::PollSend
        );
        assert_eq!(
            writer.report(WriterReport::Send(SendPoll::Sent)),
            WriterRequest::PollCancelled
        );
        assert_eq!(
            writer.report(WriterReport::Cancelled(false)),
            WriterRequest::PollLine
        );
    }
}

#[test]
fn pings_are_sent_when_no_line_is_queued() {
    let mut writer = at_controls();
    assert_eq!(writer.report(ping()), WriterRequest::Send(Outbound::Ping));
    assert_eq!(
        writer.report(WriterReport::Cancelled(false)),
        WriterRequest::PollSend
    );
}

#[test]
fn idle_writer_sleeps_and_starts_over() {
    let mut writer = at_controls();
    assert_eq!(
        writer.report(WriterReport::Control(QueuePoll::Pending)),
        WriterRequest::Park
    );
    assert_eq!(
        writer.report(WriterReport::Woken),
        WriterRequest::PollCancelled
    );
}

#[test]
fn cancellation_comes_before_queued_lines() {
    let mut writer = Writer::new(CLOSE_TIMEOUT_MS);
    assert_eq!(writer.report(WriterReport::Cancelled(true)), CLOSE);
    assert_eq!(writer.report(line("too late")), CLOSE);
    assert_eq!(writer.report(WriterReport::Closed), WriterRequest::Finish);
}

#[test]
fn cancellation_interrupts_a_blocked_send() {
    let mut writer = Writer::new(10);
    writer.report(WriterReport::Cancelled(false));
    writer.report(line("response"));
    writer.report(WriterReport::Cancelled(false));
    assert_eq!(
        writer.report(WriterReport::Send(SendPoll::Pending)),
        WriterRequest::Park
    );
    assert_eq!(
        writer.report(WriterReport::Woken),
        WriterRequest::PollCancelled
    );
    assert_eq!(
        writer.report(WriterReport::Cancelled(true)),
        WriterRequest::Close { timeout_ms: 10 }
    );
    assert_eq!(writer.report(WriterReport::Closed), WriterRequest::Finish);
}

#[test]
fn cancellation_before_the_first_send_poll_drops_the_message() {
    let mut writer = at_lines();
    writer.report(line("response"));
    assert_eq!(writer.report(WriterReport::Cancelled(true)), CLOSE);
}

#[test]
fn closed_queues_end_the_writer() {
    assert_eq!(
        at_lines().report(WriterReport::Line(QueuePoll::Closed)),
        CLOSE
    );
    assert_eq!(
        at_controls().report(WriterReport::Control(QueuePoll::Closed)),
        CLOSE
    );
}

#[test]
fn failed_send_ends_the_writer() {
    assert_eq!(
        at_send().report(WriterReport::Send(SendPoll::Failed)),
        CLOSE
    );
}

#[test]
fn blocked_send_goes_on_after_a_wake_up() {
    let mut writer = at_send();
    writer.report(WriterReport::Send(SendPoll::Pending));
    writer.report(WriterReport::Woken);
    assert_eq!(
        writer.report(WriterReport::Cancelled(false)),
        WriterRequest::PollSend
    );
    assert_eq!(
        writer.report(WriterReport::Send(SendPoll::Sent)),
        WriterRequest::PollCancelled
    );
}

#[test]
fn reports_on_something_else_change_nothing() {
    let mut writer = at_send();
    assert_eq!(writer.report(line("unasked")), WriterRequest::PollSend);
    assert_eq!(writer.report(WriterReport::Woken), WriterRequest::PollSend);
    assert_eq!(writer.report(WriterReport::Closed), WriterRequest::PollSend);
}

#[test]
fn finished_writer_stays_finished() {
    let mut writer = Writer::new(CLOSE_TIMEOUT_MS);
    writer.report(WriterReport::Cancelled(true));
    writer.report(WriterReport::Closed);
    assert_eq!(writer.report(WriterReport::Closed), WriterRequest::Finish);
    assert_eq!(
        writer.report(WriterReport::Cancelled(true)),
        WriterRequest::Finish
    );
}
