//! What holds of a whole read, over any course that its waits may take.
//!
//! A read is a series of turns, each a wait and, where the wait calls for a Ping, the writer's
//! reply to that. The functions here follow `WssTransport::on_wait` and
//! `WssTransport::on_ping_queued` through such a series.

use crate::message::FrameView;
use crate::transport::{
    awaiting_after_ping, awaiting_after_wait, heartbeat_wait_secs, step_after_ping,
    step_after_wait, ReadStepView, WaitView, HEARTBEAT_IDLE_SECS, HEARTBEAT_TIMEOUT_SECS,
};
use vstd::prelude::*;

verus! {

/// One wait, and whether the writer would accept a Ping then.
pub struct Turn {
    pub outcome: WaitView,
    pub ping_queued: bool,
}

impl Turn {
    /// The turn brings this text.
    pub open spec fn brings(self, text: Seq<char>) -> bool {
        self.outcome == WaitView::Received(FrameView::Text(text))
    }

    /// The turn brings a text.
    pub open spec fn brings_text(self) -> bool {
        self.outcome matches WaitView::Received(frame) && frame is Text
    }

    /// The connection is over: the peer closed it, or the stream ended or failed.
    pub open spec fn hangs_up(self) -> bool {
        ||| self.outcome == WaitView::Received(FrameView::Close)
        ||| self.outcome is Ended
        ||| self.outcome is Failed
    }
}

/// Where a read stands.
pub struct ReadRun {
    /// `Wait` as long as the read goes on, else `Deliver` or `End`.
    pub step: ReadStepView,
    pub awaiting_pong: bool,
    /// How many turns it took.
    pub turns: nat,
    /// How many Pings were requested.
    pub pings: nat,
    /// How many Pings were requested since something was last heard of the connection. A read that
    /// starts with a Ping out starts at one.
    pub unanswered: nat,
    /// For how many seconds nothing has been heard, counted in waits that ran out. A read that
    /// starts with a Ping out starts after one such wait.
    pub silent_secs: nat,
}

/// A read before its first turn.
pub open spec fn fresh_read(awaiting_pong: bool) -> ReadRun {
    ReadRun {
        step: ReadStepView::Wait,
        awaiting_pong,
        turns: 0,
        pings: 0,
        unanswered: if awaiting_pong {
            1
        } else {
            0
        },
        silent_secs: if awaiting_pong {
            HEARTBEAT_IDLE_SECS as nat
        } else {
            0
        },
    }
}

/// One more turn of a read that goes on.
pub open spec fn take_turn(run: ReadRun, turn: Turn) -> ReadRun {
    let step = step_after_wait(run.awaiting_pong, turn.outcome);
    let awaiting_pong = awaiting_after_wait(run.awaiting_pong, turn.outcome);
    let asks_ping = step is SendPing;
    ReadRun {
        step: if asks_ping {
            step_after_ping(turn.ping_queued)
        } else {
            step
        },
        awaiting_pong: if asks_ping {
            awaiting_after_ping(awaiting_pong, turn.ping_queued)
        } else {
            awaiting_pong
        },
        turns: run.turns + 1,
        pings: if asks_ping && turn.ping_queued {
            run.pings + 1
        } else {
            run.pings
        },
        unanswered: if turn.outcome.heard() {
            0
        } else if asks_ping && turn.ping_queued {
            run.unanswered + 1
        } else {
            run.unanswered
        },
        silent_secs: if turn.outcome.heard() {
            0
        } else {
            run.silent_secs + heartbeat_wait_secs(run.awaiting_pong) as nat
        },
    }
}

/// A read over the given turns. It takes none after the one that decides it.
pub open spec fn read(awaiting_pong: bool, turns: Seq<Turn>) -> ReadRun
    decreases turns.len(),
{
    if turns.len() == 0 {
        fresh_read(awaiting_pong)
    } else {
        let run = read(awaiting_pong, turns.drop_last());
        if run.step is Wait {
            take_turn(run, turns.last())
        } else {
            run
        }
    }
}

/// A read that is decided stays so, whatever comes in later.
pub proof fn decided_read_takes_no_more_turns(
    awaiting_pong: bool,
    turns: Seq<Turn>,
    later: Seq<Turn>,
)
    requires
        !(read(awaiting_pong, turns).step is Wait),
    ensures
        read(awaiting_pong, turns + later) == read(awaiting_pong, turns),
    decreases later.len(),
{
    if later.len() == 0 {
        assert(turns + later == turns);
    } else {
        decided_read_takes_no_more_turns(awaiting_pong, turns, later.drop_last());
        assert((turns + later).drop_last() == turns + later.drop_last());
    }
}

/// No text is skipped, and no end of the connection is overlooked: a read goes on only while
/// neither has come in.
pub proof fn read_goes_on_only_without_text(awaiting_pong: bool, turns: Seq<Turn>, i: int)
    requires
        read(awaiting_pong, turns).step is Wait,
        0 <= i < turns.len(),
    ensures
        !turns[i].brings_text(),
        !turns[i].hangs_up(),
        read(awaiting_pong, turns).turns == turns.len(),
    decreases turns.len(),
{
    reveal_with_fuel(read, 2);
    if turns.len() > 1 {
        let j = if i < turns.len() - 1 {
            i
        } else {
            0
        };
        read_goes_on_only_without_text(awaiting_pong, turns.drop_last(), j);
        assert(turns.drop_last()[j] == turns[j]);
    }
}

/// A text that comes in while a read goes on is what the read delivers.
pub proof fn next_text_is_delivered(
    awaiting_pong: bool,
    before: Seq<Turn>,
    turn: Turn,
    later: Seq<Turn>,
    text: Seq<char>,
)
    requires
        read(awaiting_pong, before).step is Wait,
        turn.brings(text),
    ensures
        read(awaiting_pong, before.push(turn) + later).step == ReadStepView::Deliver(text),
        !read(awaiting_pong, before.push(turn) + later).awaiting_pong,
{
    assert(before.push(turn).drop_last() == before);
    decided_read_takes_no_more_turns(awaiting_pong, before.push(turn), later);
}

/// What a read delivers is the first text that came in, and it came in the last turn taken.
pub proof fn delivered_text_is_the_first(awaiting_pong: bool, turns: Seq<Turn>, text: Seq<char>)
    requires
        read(awaiting_pong, turns).step == ReadStepView::Deliver(text),
    ensures
        ({
            let taken = read(awaiting_pong, turns).turns;
            &&& 0 < taken <= turns.len()
            &&& turns[taken - 1].brings(text)
            &&& forall|i: int| 0 <= i < taken - 1 ==> !(#[trigger] turns[i]).brings_text()
        }),
    decreases turns.len(),
{
    let before = turns.drop_last();
    if read(awaiting_pong, before).step is Wait {
        assert forall|i: int| 0 <= i < before.len() implies !(
        #[trigger] turns[i]).brings_text() by {
            read_goes_on_only_without_text(awaiting_pong, before, i);
            assert(before[i] == turns[i]);
        }
        if before.len() > 0 {
            read_goes_on_only_without_text(awaiting_pong, before, 0);
        }
    } else {
        delivered_text_is_the_first(awaiting_pong, before, text);
        let taken = read(awaiting_pong, turns).turns;
        assert(before[taken - 1] == turns[taken - 1]);
        assert forall|i: int| 0 <= i < taken - 1 implies !(#[trigger] turns[i]).brings_text() by {
            assert(before[i] == turns[i]);
        }
    }
}

/// A read ends the connection for one of three reasons only: the peer hung up, the writer takes no
/// Ping any more, or the peer has been silent for the idle time and, after a Ping, for the whole
/// timeout.
pub proof fn connection_ends_for_a_reason(awaiting_pong: bool, turns: Seq<Turn>)
    requires
        read(awaiting_pong, turns).step is End,
    ensures
        ({
            let run = read(awaiting_pong, turns);
            &&& 0 < run.turns <= turns.len()
            &&& {
                let last = turns[run.turns - 1];
                ||| last.hangs_up()
                ||| last.outcome is Elapsed && !run.awaiting_pong && !last.ping_queued
                ||| last.outcome is Elapsed && run.awaiting_pong && run.silent_secs
                    == HEARTBEAT_IDLE_SECS + HEARTBEAT_TIMEOUT_SECS
            }
        }),
    decreases turns.len(),
{
    let before = turns.drop_last();
    if read(awaiting_pong, before).step is Wait {
        silence_is_bounded(awaiting_pong, before);
        if before.len() > 0 {
            read_goes_on_only_without_text(awaiting_pong, before, 0);
        }
    } else {
        connection_ends_for_a_reason(awaiting_pong, before);
        let taken = read(awaiting_pong, turns).turns;
        assert(before[taken - 1] == turns[taken - 1]);
    }
}

/// While a read goes on, the silence is that of the idle time where a Ping is out, and none has
/// been waited out where none is. No read sits out more silence than the idle time and the timeout
/// together.
pub proof fn silence_is_bounded(awaiting_pong: bool, turns: Seq<Turn>)
    ensures
        ({
            let run = read(awaiting_pong, turns);
            &&& run.step is Wait && run.awaiting_pong ==> run.silent_secs == HEARTBEAT_IDLE_SECS
            &&& run.step is Wait && !run.awaiting_pong ==> run.silent_secs == 0
            &&& run.silent_secs <= HEARTBEAT_IDLE_SECS + HEARTBEAT_TIMEOUT_SECS
        }),
    decreases turns.len(),
{
    if turns.len() > 0 {
        silence_is_bounded(awaiting_pong, turns.drop_last());
    }
}

/// A peer that stays silent is pinged once and then dropped: after two more waits that run out,
/// the connection ends, with one Ping sent in between.
pub proof fn silent_peer_is_dropped_after_one_ping(
    awaiting_pong: bool,
    before: Seq<Turn>,
    idle: Turn,
    timeout: Turn,
    later: Seq<Turn>,
)
    requires
        read(awaiting_pong, before).step is Wait,
        !read(awaiting_pong, before).awaiting_pong,
        idle.outcome is Elapsed && idle.ping_queued,
        timeout.outcome is Elapsed,
    ensures
        ({
            let run = read(awaiting_pong, before.push(idle).push(timeout) + later);
            &&& run.step is End
            &&& run.pings == read(awaiting_pong, before).pings + 1
            &&& run.silent_secs == HEARTBEAT_IDLE_SECS + HEARTBEAT_TIMEOUT_SECS
        }),
{
    assert(before.push(idle).drop_last() == before);
    assert(before.push(idle).push(timeout).drop_last() == before.push(idle));
    reveal_with_fuel(read, 3);
    silence_is_bounded(awaiting_pong, before);
    decided_read_takes_no_more_turns(awaiting_pong, before.push(idle).push(timeout), later);
}

/// A peer that answers every Ping in time, with a Pong or anything else, is never dropped for
/// silence: as long as no two waits in a row run out, nor the first where a Ping is out already,
/// nobody hangs up and the writer takes Pings, the read does not end the connection.
pub proof fn answering_peer_is_kept(awaiting_pong: bool, turns: Seq<Turn>)
    requires
        forall|i: int| 0 <= i < turns.len() ==> !(#[trigger] turns[i]).hangs_up(),
        forall|i: int| 0 <= i < turns.len() ==> (#[trigger] turns[i]).ping_queued,
        forall|i: int, j: int|
            0 <= i && j == i + 1 && j < turns.len() ==> (#[trigger] turns[i]).outcome.heard() || (
            #[trigger] turns[j]).outcome.heard(),
        awaiting_pong && turns.len() > 0 ==> turns[0].outcome.heard(),
    ensures
        !(read(awaiting_pong, turns).step is End),
    decreases turns.len(),
{
    if turns.len() > 0 {
        let before = turns.drop_last();
        assert forall|i: int| 0 <= i < before.len() implies !(#[trigger] before[i]).hangs_up()
            && before[i].ping_queued by {
            assert(before[i] == turns[i]);
        }
        assert forall|i: int, j: int| 0 <= i && j == i + 1 && j < before.len() implies (
        #[trigger] before[i]).outcome.heard() || (#[trigger] before[j]).outcome.heard() by {
            assert(before[i] == turns[i] && before[j] == turns[j]);
        }
        answering_peer_is_kept(awaiting_pong, before);
        lemma_ping_out_after_silence(awaiting_pong, before);
        if before.len() > 0 {
            assert(before.last() == turns[turns.len() - 2]);
            assert(turns[turns.len() - 2].outcome.heard() || turns[turns.len()
                - 1].outcome.heard());
        }
    }
}

/// A Ping is out only right after a wait that ran out, or from the start.
proof fn lemma_ping_out_after_silence(awaiting_pong: bool, turns: Seq<Turn>)
    ensures
        ({
            let run = read(awaiting_pong, turns);
            run.step is Wait && run.awaiting_pong ==> if turns.len() == 0 {
                awaiting_pong
            } else {
                !turns.last().outcome.heard()
            }
        }),
{
}

/// In a read, there is never more than one Ping that nothing was heard after, and there is one
/// exactly where the read side awaits an answer.
pub proof fn read_keeps_one_ping_out(awaiting_pong: bool, turns: Seq<Turn>)
    ensures
        read(awaiting_pong, turns).unanswered == (if read(awaiting_pong, turns).awaiting_pong {
            1nat
        } else {
            0nat
        }),
    decreases turns.len(),
{
    if turns.len() > 0 {
        read_keeps_one_ping_out(awaiting_pong, turns.drop_last());
    }
}

/// A connection on which one read follows the other.
pub struct Conversation {
    pub awaiting_pong: bool,
    /// What the reads delivered, oldest first.
    pub delivered: Seq<Seq<char>>,
    /// How many turns the reads took.
    pub turns: nat,
    /// How many Pings were requested since something was last heard of the connection.
    pub unanswered: nat,
    /// A read ended the connection.
    pub over: bool,
}

/// A fresh connection over the given turns. Each read goes on where the one before left off.
pub open spec fn converse(turns: Seq<Turn>) -> Conversation
    decreases turns.len(),
{
    if turns.len() == 0 {
        Conversation {
            awaiting_pong: false,
            delivered: Seq::empty(),
            turns: 0,
            unanswered: 0,
            over: false,
        }
    } else {
        let before = converse(turns.drop_last());
        if before.over {
            before
        } else {
            let run = take_turn(fresh_read(before.awaiting_pong), turns.last());
            Conversation {
                awaiting_pong: run.awaiting_pong,
                delivered: match run.step {
                    ReadStepView::Deliver(text) => before.delivered.push(text),
                    _ => before.delivered,
                },
                turns: before.turns + 1,
                unanswered: if turns.last().outcome.heard() {
                    0
                } else {
                    before.unanswered + run.pings
                },
                over: run.step is End,
            }
        }
    }
}

/// The texts that the turns bring, oldest first.
pub open spec fn texts_of(turns: Seq<Turn>) -> Seq<Seq<char>>
    decreases turns.len(),
{
    if turns.len() == 0 {
        Seq::empty()
    } else {
        let before = texts_of(turns.drop_last());
        match turns.last().outcome {
            WaitView::Received(FrameView::Text(text)) => before.push(text),
            _ => before,
        }
    }
}

/// Every text that comes in before the connection ends is delivered, once and in order, and nothing
/// else is.
pub proof fn texts_are_delivered_in_order(turns: Seq<Turn>)
    ensures
        ({
            let conversation = converse(turns);
            &&& conversation.turns <= turns.len()
            &&& !conversation.over ==> conversation.turns == turns.len()
            &&& conversation.delivered == texts_of(turns.take(conversation.turns as int))
        }),
    decreases turns.len(),
{
    if turns.len() == 0 {
        assert(turns.take(0) == turns);
    } else {
        let before = turns.drop_last();
        let taken = converse(before).turns as int;
        texts_are_delivered_in_order(before);
        assert(turns.take(taken) == before.take(taken));
        if !converse(before).over {
            assert(before.take(taken) == before);
            assert(turns.take(turns.len() as int) == turns);
        }
    }
}

/// No Ping is repeated in silence: on a whole connection, over all its reads, the number of Pings
/// since something was last heard is never more than one, and it is one exactly where the read side
/// awaits an answer.
pub proof fn pings_are_not_repeated_in_silence(turns: Seq<Turn>)
    ensures
        converse(turns).unanswered <= 1,
        converse(turns).unanswered == 1 <==> converse(turns).awaiting_pong,
    decreases turns.len(),
{
    if turns.len() > 0 {
        pings_are_not_repeated_in_silence(turns.drop_last());
    }
}

/// A read takes no more turns than there are, and those that it takes make it what it is.
proof fn lemma_read_of_turns_taken(awaiting_pong: bool, turns: Seq<Turn>)
    ensures
        read(awaiting_pong, turns).turns <= turns.len(),
        read(awaiting_pong, turns).step is Wait ==> read(awaiting_pong, turns).turns
            == turns.len(),
        read(awaiting_pong, turns.take(read(awaiting_pong, turns).turns as int)) == read(
            awaiting_pong,
            turns,
        ),
    decreases turns.len(),
{
    let taken = read(awaiting_pong, turns).turns as int;
    if turns.len() == 0 {
        assert(turns.take(0) == turns);
    } else {
        let before = turns.drop_last();
        lemma_read_of_turns_taken(awaiting_pong, before);
        if read(awaiting_pong, before).step is Wait {
            assert(turns.take(taken) == turns);
        } else {
            assert(turns.take(taken) == before.take(taken));
        }
    }
}

/// A connection is a series of reads: from any connection that is not over, the read that starts
/// there, with the turns that it takes, brings the connection to where the read leaves it. What the
/// read delivers is delivered, what it ends is over, the question whether a Ping is out stands as
/// the read left it, and so does the number of Pings without an answer.
pub proof fn connection_is_a_series_of_reads(before: Seq<Turn>, turns: Seq<Turn>)
    requires
        !converse(before).over,
    ensures
        ({
            let start = converse(before);
            let run = read(start.awaiting_pong, turns);
            let end = converse(before + turns.take(run.turns as int));
            &&& end.over <==> run.step is End
            &&& end.awaiting_pong == run.awaiting_pong
            &&& end.unanswered == run.unanswered
            &&& end.turns == start.turns + run.turns
            &&& end.delivered == match run.step {
                ReadStepView::Deliver(text) => start.delivered.push(text),
                _ => start.delivered,
            }
        }),
    decreases turns.len(),
{
    let start = converse(before);
    let run = read(start.awaiting_pong, turns);
    let taken = turns.take(run.turns as int);
    lemma_read_of_turns_taken(start.awaiting_pong, turns);
    pings_are_not_repeated_in_silence(before);
    if taken.len() == 0 {
        assert(before + taken == before);
        lemma_read_of_no_turns(start.awaiting_pong, turns);
    } else {
        let earlier = taken.drop_last();
        lemma_undecided_before_last(start.awaiting_pong, turns);
        lemma_read_of_turns_taken(start.awaiting_pong, earlier);
        assert(earlier.take(earlier.len() as int) == earlier);
        connection_is_a_series_of_reads(before, earlier);
        assert((before + taken).drop_last() == before + earlier);
        assert((before + taken).last() == taken.last());
    }
}

/// A read without a turn taken is a fresh one.
proof fn lemma_read_of_no_turns(awaiting_pong: bool, turns: Seq<Turn>)
    requires
        read(awaiting_pong, turns).turns == 0,
    ensures
        read(awaiting_pong, turns) == fresh_read(awaiting_pong),
    decreases turns.len(),
{
    if turns.len() > 0 {
        lemma_read_of_no_turns(awaiting_pong, turns.drop_last());
    }
}

/// Up to the last turn that it takes, a read is undecided.
proof fn lemma_undecided_before_last(awaiting_pong: bool, turns: Seq<Turn>)
    requires
        read(awaiting_pong, turns).turns > 0,
    ensures
        read(
            awaiting_pong,
            turns.take(read(awaiting_pong, turns).turns - 1),
        ).step is Wait,
        turns.take(read(awaiting_pong, turns).turns as int).drop_last() == turns.take(
            read(awaiting_pong, turns).turns - 1,
        ),
    decreases turns.len(),
{
    let taken = read(awaiting_pong, turns).turns;
    let before = turns.drop_last();
    lemma_read_of_turns_taken(awaiting_pong, turns);
    assert(turns.take(taken as int).drop_last() == turns.take(taken - 1));
    if read(awaiting_pong, before).step is Wait {
        lemma_read_of_turns_taken(awaiting_pong, before);
        assert(turns.take(taken - 1) == before);
    } else {
        lemma_undecided_before_last(awaiting_pong, before);
        assert(turns.take(taken - 1) == before.take(taken - 1));
    }
}

} // verus!
