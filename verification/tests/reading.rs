use wss_rpc::message::Frame;
use wss_rpc::transport::{ReadStep, WaitOutcome, CONTROL_QUEUE_LEN, WRITER_QUEUE_LEN};
use wss_rpc::WssTransport;

fn transport() -> WssTransport {
    WssTransport::new("127.0.0.1:43110")
}

#[test]
fn peer_is_labelled_by_its_address() {
    assert_eq!(transport().peer_label(), "wss:127.0.0.1:43110");
    assert_eq!(WssTransport::new("[::1]:9").peer_label(), "wss:[::1]:9");
}

#[test]
fn queues_have_their_sizes() {
    assert_eq!(WRITER_QUEUE_LEN, 64);
    assert_eq!(CONTROL_QUEUE_LEN, 8);
}

#[test]
fn text_is_delivered() {
    let mut t = transport();
    assert_eq!(
        t.on_wait(WaitOutcome::Received(Frame::Text("hello".to_string()))),
        ReadStep::Deliver("hello".to_string())
    );
}

#[test]
fn silent_peer_is_dropped_after_one_ping() {
    let mut t = transport();
    assert_eq!(t.wait_secs(), 20);
    assert_eq!(t.on_wait(WaitOutcome::Elapsed), ReadStep::SendPing);
    assert_eq!(t.on_ping_queued(true), ReadStep::Wait);
    assert_eq!(t.wait_secs(), 10);
    assert_eq!(t.on_wait(WaitOutcome::Elapsed), ReadStep::End);
}

#[test]
fn any_frame_answers_a_ping() {
    let frames = vec![
        Frame::Pong(vec![]),
        Frame::Ping(vec![1]),
        Frame::Binary(vec![2]),
        Frame::Raw,
    ];
    for frame in frames {
        let mut t = transport();
        assert_eq!(t.on_wait(WaitOutcome::Elapsed), ReadStep::SendPing);
        assert_eq!(t.on_ping_queued(true), ReadStep::Wait);
        assert_eq!(t.on_wait(WaitOutcome::Received(frame)), ReadStep::Wait);
        assert_eq!(t.wait_secs(), 20);
        assert_eq!(t.on_wait(WaitOutcome::Elapsed), ReadStep::SendPing);
    }
}

#[test]
fn text_answers_a_ping() {
    let mut t = transport();
    t.on_wait(WaitOutcome::Elapsed);
    t.on_ping_queued(true);
    assert_eq!(
        t.on_wait(WaitOutcome::Received(Frame::Text("late".to_string()))),
        ReadStep::Deliver("late".to_string())
    );
    assert_eq!(t.wait_secs(), 20);
}

#[test]
fn reading_ends_with_the_connection() {
    assert_eq!(
        transport().on_wait(WaitOutcome::Received(Frame::Close)),
        ReadStep::End
    );
    assert_eq!(transport().on_wait(WaitOutcome::Ended), ReadStep::End);
    assert_eq!(transport().on_wait(WaitOutcome::Failed), ReadStep::End);
}

#[test]
fn reading_ends_with_the_writer() {
    let mut t = transport();
    assert_eq!(t.on_wait(WaitOutcome::Elapsed), ReadStep::SendPing);
    assert_eq!(t.on_ping_queued(false), ReadStep::End);
    assert_eq!(t.wait_secs(), 20);
}

#[test]
fn answering_peer_is_kept_for_long() {
    let mut t = transport();
    for _ in 0..1000 {
        assert_eq!(t.on_wait(WaitOutcome::Elapsed), ReadStep::SendPing);
        assert_eq!(t.on_ping_queued(true), ReadStep::Wait);
        assert_eq!(
            t.on_wait(WaitOutcome::Received(Frame::Pong(vec![]))),
            ReadStep::Wait
        );
    }
    assert_eq!(t.peer_label(), "wss:127.0.0.1:43110");
}

#[test]
fn texts_are_delivered_one_by_one_in_order() {
    let mut t = transport();
    let outcomes = vec![
        WaitOutcome::Received(Frame::Text("a".to_string())),
        WaitOutcome::Received(Frame::Binary(vec![0])),
        WaitOutcome::Elapsed,
        WaitOutcome::Received(Frame::Text("b".to_string())),
        WaitOutcome::Received(Frame::Text("a".to_string())),
        WaitOutcome::Ended,
    ];
    let mut delivered = Vec::new();
    let mut over = false;
    for outcome in outcomes {
        match t.on_wait(outcome) {
            ReadStep::Deliver(text) => delivered.push(text),
            ReadStep::SendPing => assert_eq!(t.on_ping_queued(true), ReadStep::Wait),
            ReadStep::Wait => {}
            ReadStep::End => over = true,
        }
    }
    assert_eq!(delivered, ["a", "b", "a"]);
    assert!(over);
}

#[test]
fn ping_stays_out_until_something_is_heard() {
    let mut t = transport();
    let outcomes = vec![
        WaitOutcome::Received(Frame::Text("a".to_string())),
        WaitOutcome::Received(Frame::Text("b".to_string())),
        WaitOutcome::Elapsed,
        WaitOutcome::Received(Frame::Text("c".to_string())),
        WaitOutcome::Elapsed,
        WaitOutcome::Elapsed,
    ];
    let mut unanswered = 0;
    for outcome in outcomes {
        let heard = outcome != WaitOutcome::Elapsed;
        let step = t.on_wait(outcome);
        if heard {
            unanswered = 0;
        }
        if step == ReadStep::SendPing {
            unanswered += 1;
            t.on_ping_queued(true);
        }
        assert!(unanswered <= 1);
        assert_eq!(t.wait_secs(), if unanswered == 1 { 10 } else { 20 });
    }
    assert_eq!(unanswered, 1);
}
