//! What holds of the serve loop and its connections over any course of events.

use crate::accept::{AcceptFault, EMFILE, ENFILE};
use crate::listener::{
    action_in, connection_action, listener_action, listener_next, next_stage, wrap,
    ConnectionAction, ConnectionActionView, ConnectionEvent, ConnectionEventView, CountChange, ListenerAction, ListenerEvent, ListenerState, Stage,
    ACCEPT_ERROR_BACKOFF_MS,
};
use vstd::arithmetic::div_mod::{lemma_add_mod_noop_right, lemma_small_mod};
use vstd::prelude::*;

verus! {

/// A serve loop that met these events.
pub open spec fn listen(events: Seq<ListenerEvent>) -> ListenerState
    decreases events.len(),
{
    if events.len() == 0 {
        ListenerState::Serving
    } else {
        listener_next(listen(events.drop_last()), events.last())
    }
}

/// The event is none that a serve loop has to stop for.
pub open spec fn harmless(event: ListenerEvent) -> bool {
    match event {
        ListenerEvent::Accepted => true,
        ListenerEvent::AcceptFailed(fault) => fault.transient(),
        ListenerEvent::Cancelled => false,
    }
}

/// A serve loop goes on for as long as it meets nothing but connections and transient failures,
/// and no longer.
pub proof fn loop_outlives_transient_failures(events: Seq<ListenerEvent>)
    ensures
        listen(events) == ListenerState::Serving <==> forall|i: int|
            0 <= i < events.len() ==> harmless(#[trigger] events[i]),
    decreases events.len(),
{
    if events.len() > 0 {
        let before = events.drop_last();
        loop_outlives_transient_failures(before);
        if forall|i: int| 0 <= i < events.len() ==> harmless(#[trigger] events[i]) {
            assert forall|i: int| 0 <= i < before.len() implies harmless(#[trigger] before[i]) by {
                assert(before[i] == events[i]);
            }
        }
        if listen(events) == ListenerState::Serving {
            assert forall|i: int| 0 <= i < events.len() implies harmless(#[trigger] events[i]) by {
                if i < before.len() {
                    assert(before[i] == events[i]);
                }
            }
        }
    }
}

/// What stops a serve loop is the first event that is not harmless, and what comes later changes
/// nothing: a cancellation ends it in peace, a failure with an error.
pub proof fn first_harmful_event_decides(
    before: Seq<ListenerEvent>,
    event: ListenerEvent,
    later: Seq<ListenerEvent>,
)
    requires
        forall|i: int| 0 <= i < before.len() ==> harmless(#[trigger] before[i]),
        !harmless(event),
    ensures
        listen(before.push(event) + later) == (if event is Cancelled {
            ListenerState::Cancelled
        } else {
            ListenerState::Failed
        }),
    decreases later.len(),
{
    loop_outlives_transient_failures(before);
    assert(before.push(event).drop_last() == before);
    if later.len() == 0 {
        assert(before.push(event) + later == before.push(event));
    } else {
        first_harmful_event_decides(before, event, later.drop_last());
        assert((before.push(event) + later).drop_last() == before.push(event)
            + later.drop_last());
    }
}

/// A lack of file descriptors, in the process or in the system, does not end the daemon: the loop
/// backs off and goes on, whatever kind the error is given.
pub proof fn fd_exhaustion_is_survived(fault: AcceptFault)
    requires
        fault.errno == Some(EMFILE) || fault.errno == Some(ENFILE),
    ensures
        listener_action(ListenerState::Serving, ListenerEvent::AcceptFailed(fault))
            == (ListenerAction::Backoff { ms: ACCEPT_ERROR_BACKOFF_MS }),
        listener_next(ListenerState::Serving, ListenerEvent::AcceptFailed(fault))
            == ListenerState::Serving,
{
}

/// A loop asks for a connection to be served, and has it counted, for a client that it accepted
/// while it was serving, and for nothing else. No event at the listener takes a client off the
/// count.
pub proof fn only_accepted_clients_are_served(state: ListenerState, event: ListenerEvent)
    ensures
        listener_action(state, event) is Serve <==> state is Serving && event is Accepted,
        listener_action(state, event).spec_count_change().delta() == (if state is Serving
            && event is Accepted {
            1int
        } else {
            0int
        }),
{
}

/// A serving loop answers every transient failure with the same backoff of 50 milliseconds and goes
/// on: a client that gave up, a signal or a lack of readiness whatever the errno value, and a lack
/// of file descriptors whatever the kind.
pub proof fn transient_failures_are_backed_off_from(fault: AcceptFault)
    requires
        fault.kind is ConnectionAborted || fault.kind is Interrupted || fault.kind is WouldBlock
            || fault.errno == Some(24i32) || fault.errno == Some(23i32),
    ensures
        listener_action(ListenerState::Serving, ListenerEvent::AcceptFailed(fault))
            == (ListenerAction::Backoff { ms: 50 }),
        listener_next(
            ListenerState::Serving,
            ListenerEvent::AcceptFailed(fault),
        ) is Serving,
{
}

/// A serving loop passes every other failure on as an error, with or without an errno value, and
/// never takes it for a shutdown.
pub proof fn fatal_failures_are_passed_on(fault: AcceptFault)
    requires
        fault.kind is Other,
        fault.errno != Some(24i32),
        fault.errno != Some(23i32),
    ensures
        listener_action(ListenerState::Serving, ListenerEvent::AcceptFailed(fault)) is Fail,
        listener_next(
            ListenerState::Serving,
            ListenerEvent::AcceptFailed(fault),
        ) is Failed,
{
}

/// A serving loop shuts down when the daemon does, and for nothing else. It asks for a backoff or
/// fails only after a failure of `accept`.
pub proof fn only_cancellation_shuts_down(event: ListenerEvent)
    ensures
        listener_action(ListenerState::Serving, event) is Shutdown <==> event is Cancelled,
        listener_next(ListenerState::Serving, event) is Cancelled <==> event is Cancelled,
        listener_action(ListenerState::Serving, event) is Backoff ==> event is AcceptFailed,
        listener_action(ListenerState::Serving, event) is Fail ==> event is AcceptFailed,
{
}

/// A loop that has stopped stays as it is and says so again, whatever happens: one that was
/// cancelled that it shut down, one that failed that it failed.
pub proof fn stopped_loop_repeats_itself(event: ListenerEvent)
    ensures
        listener_action(ListenerState::Cancelled, event) is Shutdown,
        listener_next(ListenerState::Cancelled, event) is Cancelled,
        listener_action(ListenerState::Failed, event) is Fail,
        listener_next(ListenerState::Failed, event) is Failed,
{
}

/// A connection is released, and so taken off the count, when its handshake or its upgrade failed,
/// when it was served and had no terminal, and when its terminal is off the registry: at no other
/// time. Nothing that happens to a connection puts a client on the count.
pub proof fn connections_are_released_when_they_end(stage: Stage, event: ConnectionEventView)
    ensures
        connection_action(stage, event) is Release <==> {
            ||| stage is Handshake && event == (ConnectionEventView::Handshaken { ok: false })
            ||| stage is Upgrade && event == (ConnectionEventView::Upgraded { ok: false })
            ||| stage is Serving && event == (ConnectionEventView::Served { tui_id: None })
            ||| stage is Unregistering && event is Unregistered
        },
        connection_action(stage, event) is Release <==> !(stage is Finished) && next_stage(
            stage,
            event,
        ) is Finished,
        connection_action(stage, event).count_change().delta() == (if connection_action(
            stage,
            event,
        ) is Release {
            -1int
        } else {
            0int
        }),
{
}

/// The removal of a terminal is asked for when the dispatcher is through with a connection that had
/// one, and it is exactly that terminal.
pub proof fn exactly_the_named_terminal_is_removed(
    stage: Stage,
    event: ConnectionEventView,
    tui_id: Seq<char>,
)
    ensures
        connection_action(stage, event) == (ConnectionActionView::Unregister { tui_id })
            <==> stage is Serving && event == (ConnectionEventView::Served {
            tui_id: Some(tui_id),
        }),
{
}

/// A connection gets to its next stage by the success of the one before, and stays in a stage until
/// that is over.
pub proof fn stages_follow_success(stage: Stage, event: ConnectionEventView)
    ensures
        next_stage(stage, event) is Handshake <==> stage is Handshake && !(event is Handshaken),
        next_stage(stage, event) is Upgrade <==> {
            ||| stage is Handshake && event == (ConnectionEventView::Handshaken { ok: true })
            ||| stage is Upgrade && !(event is Upgraded)
        },
        next_stage(stage, event) is Serving <==> {
            ||| stage is Upgrade && event == (ConnectionEventView::Upgraded { ok: true })
            ||| stage is Serving && !(event is Served)
        },
        next_stage(stage, event) is Unregistering <==> {
            ||| stage is Serving && event is Served && event->tui_id is Some
            ||| stage is Unregistering && !(event is Unregistered)
        },
{
}

/// Apart from the removal of the terminal and the release, a connection is told to do what the
/// stage that it is in now is for.
pub proof fn stages_are_worked_on(stage: Stage, event: ConnectionEventView)
    ensures
        connection_action(stage, event) is Handshake <==> next_stage(stage, event) is Handshake,
        connection_action(stage, event) is Upgrade <==> next_stage(stage, event) is Upgrade,
        connection_action(stage, event) is Serve <==> next_stage(stage, event) is Serving,
        connection_action(stage, event) is AwaitUnregistered <==> stage is Unregistering
            && next_stage(stage, event) is Unregistering,
        connection_action(stage, event) is Finish <==> stage is Finished,
        action_in(stage) is Handshake <==> stage is Handshake,
        action_in(stage) is Upgrade <==> stage is Upgrade,
        action_in(stage) is Serve <==> stage is Serving,
        action_in(stage) is AwaitUnregistered <==> stage is Unregistering,
        action_in(stage) is Finish <==> stage is Finished,
{
}

/// Events and actions are seen as what they are, with the terminal that they name.
pub proof fn connection_events_are_seen_as_they_are(ok: bool, tui_id: String)
    ensures
        (ConnectionEvent::Handshaken { ok })@ == (ConnectionEventView::Handshaken { ok }),
        (ConnectionEvent::Upgraded { ok })@ == (ConnectionEventView::Upgraded { ok }),
        (ConnectionEvent::Served { tui_id: Some(tui_id) })@ == (ConnectionEventView::Served {
            tui_id: Some(tui_id@),
        }),
        (ConnectionEvent::Served { tui_id: None })@ == (ConnectionEventView::Served {
            tui_id: None,
        }),
        ConnectionEvent::Unregistered@ is Unregistered,
        ConnectionAction::Handshake@ is Handshake,
        ConnectionAction::Upgrade@ is Upgrade,
        ConnectionAction::Serve@ is Serve,
        (ConnectionAction::Unregister { tui_id })@ == (ConnectionActionView::Unregister {
            tui_id: tui_id@,
        }),
        ConnectionAction::AwaitUnregistered@ is AwaitUnregistered,
        ConnectionAction::Release@ is Release,
        ConnectionAction::Finish@ is Finish,
{
}

/// A connection, and what was done for it so far.
pub struct ConnectionRun {
    pub stage: Stage,
    /// The dispatcher was run on the connection and is through with it.
    pub served: bool,
    /// The terminal that the dispatcher named then, if any.
    pub tui_id: Option<Seq<char>>,
    /// The terminals whose removal from the registry was asked for, oldest first.
    pub unregistered: Seq<Seq<char>>,
    /// The last removal that was asked for is done.
    pub removed: bool,
    /// How often the connection was taken off the count of clients.
    pub releases: nat,
}

/// An accepted connection that met these events.
pub open spec fn connect(events: Seq<ConnectionEventView>) -> ConnectionRun
    decreases events.len(),
{
    if events.len() == 0 {
        ConnectionRun {
            stage: Stage::Handshake,
            served: false,
            tui_id: None,
            unregistered: Seq::empty(),
            removed: false,
            releases: 0,
        }
    } else {
        let run = connect(events.drop_last());
        let action = connection_action(run.stage, events.last());
        let served = run.stage is Serving && events.last() is Served;
        ConnectionRun {
            stage: next_stage(run.stage, events.last()),
            served: run.served || served,
            tui_id: if served {
                events.last()->tui_id
            } else {
                run.tui_id
            },
            unregistered: match action {
                ConnectionActionView::Unregister { tui_id } => run.unregistered.push(tui_id),
                _ => run.unregistered,
            },
            removed: run.removed || run.stage is Unregistering && events.last() is Unregistered,
            releases: if action.count_change() == CountChange::Disconnect {
                run.releases + 1
            } else {
                run.releases
            },
        }
    }
}

/// Every connection is taken off the count exactly once, when it is finished, whether it came to
/// be served or failed in the handshake or in the upgrade.
pub proof fn connection_is_released_once(events: Seq<ConnectionEventView>)
    ensures
        connect(events).releases == (if connect(events).stage is Finished {
            1nat
        } else {
            0nat
        }),
    decreases events.len(),
{
    if events.len() > 0 {
        connection_is_released_once(events.drop_last());
    }
}

/// The terminal that the dispatcher named, and no other, is removed from the registry, exactly
/// once, and that is done before the client is taken off the count. Where the dispatcher named
/// none, or never ran, nothing is removed.
pub proof fn terminal_is_removed_before_the_release(events: Seq<ConnectionEventView>)
    ensures
        ({
            let run = connect(events);
            &&& run.unregistered == match run.tui_id {
                Some(tui_id) => seq![tui_id],
                None => Seq::empty(),
            }
            &&& run.tui_id is Some && run.releases > 0 ==> run.removed
            &&& run.tui_id is Some ==> run.served
        }),
    decreases events.len(),
{
    if events.len() > 0 {
        let run = connect(events);
        terminal_is_removed_before_the_release(events.drop_last());
        lemma_served_in_the_end(events.drop_last());
        connection_is_released_once(events.drop_last());
        assert(run.unregistered == match run.tui_id {
            Some(tui_id) => seq![tui_id],
            None => Seq::empty(),
        });
    }
}

/// A connection has been served only in its last two stages, and a terminal is being removed only
/// where one was named and the removal is not done.
proof fn lemma_served_in_the_end(events: Seq<ConnectionEventView>)
    ensures
        ({
            let run = connect(events);
            &&& run.served ==> run.stage is Unregistering || run.stage is Finished
            &&& run.stage is Unregistering ==> run.served && run.tui_id is Some
            &&& run.stage is Finished && run.tui_id is Some ==> run.removed
            &&& !run.served ==> run.tui_id is None
        }),
    decreases events.len(),
{
    if events.len() > 0 {
        lemma_served_in_the_end(events.drop_last());
    }
}

/// The dispatcher gets to see a connection only if its TLS handshake succeeded and, after that, its
/// WebSocket upgrade: no request is served over anything but an encrypted WebSocket.
pub proof fn only_secured_connections_are_served(events: Seq<ConnectionEventView>)
    requires
        connect(events).stage is Serving || connect(events).served,
    ensures
        exists|i: int, j: int|
            0 <= i < j < events.len() && #[trigger] events[i] == (ConnectionEventView::Handshaken {
                ok: true,
            }) && #[trigger] events[j] == (ConnectionEventView::Upgraded { ok: true }),
    decreases events.len(),
{
    let before = events.drop_last();
    if connect(before).stage is Serving || connect(before).served {
        only_secured_connections_are_served(before);
        let (i, j) = choose|i: int, j: int|
            0 <= i < j < before.len() && #[trigger] before[i] == (ConnectionEventView::Handshaken {
                ok: true,
            }) && #[trigger] before[j] == (ConnectionEventView::Upgraded { ok: true });
        assert(events[i] == before[i] && events[j] == before[j]);
    } else {
        let i = lemma_handshake_precedes_upgrade(before);
        assert(events[i] == before[i]);
        assert(events[events.len() - 1] == (ConnectionEventView::Upgraded { ok: true }));
    }
}

/// A connection is in the upgrade only after a successful handshake, which the result points to.
proof fn lemma_handshake_precedes_upgrade(events: Seq<ConnectionEventView>) -> (i: int)
    requires
        connect(events).stage is Upgrade,
    ensures
        0 <= i < events.len(),
        events[i] == (ConnectionEventView::Handshaken { ok: true }),
    decreases events.len(),
{
    let before = events.drop_last();
    if connect(before).stage is Upgrade {
        lemma_handshake_precedes_upgrade(before)
    } else {
        events.len() - 1
    }
}

/// Something that happens while the daemon serves.
pub enum ServiceEvent {
    /// Something happened to the listener.
    Listener(ListenerEvent),
    /// Something happened to the connection that was accepted as the given one, counted from 0.
    Connection(int, ConnectionEventView),
    /// Another listener, which shares the count, changed it.
    Elsewhere(CountChange),
}

/// The serve loop with all connections that it ever accepted, and the count.
pub struct Service {
    pub listener: ListenerState,
    pub connections: Seq<Stage>,
    pub count: int,
}

/// One more event.
pub open spec fn service_next(service: Service, event: ServiceEvent) -> Service {
    match event {
        ServiceEvent::Listener(event) => {
            let action = listener_action(service.listener, event);
            Service {
                listener: listener_next(service.listener, event),
                connections: if action is Serve {
                    service.connections.push(Stage::Handshake)
                } else {
                    service.connections
                },
                count: wrap(service.count + action.spec_count_change().delta()),
            }
        },
        ServiceEvent::Connection(i, event) => if 0 <= i < service.connections.len() {
            let stage = service.connections[i];
            let action = connection_action(stage, event);
            Service {
                connections: service.connections.update(i, next_stage(stage, event)),
                count: wrap(service.count + action.count_change().delta()),
                ..service
            }
        } else {
            service
        },
        ServiceEvent::Elsewhere(change) => Service {
            count: wrap(service.count + change.delta()),
            ..service
        },
    }
}

/// A serve loop, started when the count stood at `count`, that met these events.
pub open spec fn serve(count: usize, events: Seq<ServiceEvent>) -> Service
    decreases events.len(),
{
    if events.len() == 0 {
        Service {
            listener: ListenerState::Serving,
            connections: Seq::empty(),
            count: count as int,
        }
    } else {
        service_next(serve(count, events.drop_last()), events.last())
    }
}

/// How many of the connections are not finished.
pub open spec fn live(connections: Seq<Stage>) -> nat
    decreases connections.len(),
{
    if connections.len() == 0 {
        0
    } else {
        live(connections.drop_last()) + (if connections.last() is Finished {
            0nat
        } else {
            1nat
        })
    }
}

/// By how much others moved the count.
pub open spec fn elsewhere(events: Seq<ServiceEvent>) -> int
    decreases events.len(),
{
    if events.len() == 0 {
        0
    } else {
        elsewhere(events.drop_last()) + match events.last() {
            ServiceEvent::Elsewhere(change) => change.delta(),
            _ => 0,
        }
    }
}

/// Moving one connection to another stage changes the number of live ones accordingly.
proof fn lemma_live_update(connections: Seq<Stage>, i: int, stage: Stage)
    requires
        0 <= i < connections.len(),
    ensures
        live(connections.update(i, stage)) == live(connections) + (if stage is Finished {
            0int
        } else {
            1int
        }) - (if connections[i] is Finished {
            0int
        } else {
            1int
        }),
    decreases connections.len(),
{
    let updated = connections.update(i, stage);
    if i == connections.len() - 1 {
        assert(updated.drop_last() == connections.drop_last());
    } else {
        lemma_live_update(connections.drop_last(), i, stage);
        assert(updated.drop_last() == connections.drop_last().update(i, stage));
    }
}

/// Adding to a wrapped number and wrapping again is adding to the number itself.
proof fn lemma_wrap_add(n: int, delta: int)
    ensures
        wrap(wrap(n) + delta) == wrap(n + delta),
{
    lemma_add_mod_noop_right(delta, n, usize::MAX + 1);
}

/// The count of clients is what it was at the start, plus what others added, plus the connections
/// of this listener that are not finished: each counts from the moment it is accepted until it
/// ends, however it ends. As an atomic counter, it wraps around.
pub proof fn count_is_that_of_live_connections(count: usize, events: Seq<ServiceEvent>)
    ensures
        serve(count, events).count == wrap(
            count + elsewhere(events) + live(serve(count, events).connections),
        ),
    decreases events.len(),
{
    if events.len() == 0 {
        lemma_small_mod(count as nat, (usize::MAX + 1) as nat);
    } else {
        let before = serve(count, events.drop_last());
        count_is_that_of_live_connections(count, events.drop_last());
        let n = count + elsewhere(events.drop_last()) + live(before.connections);
        match events.last() {
            ServiceEvent::Listener(event) => {
                let action = listener_action(before.listener, event);
                lemma_wrap_add(n, action.spec_count_change().delta());
                if action is Serve {
                    assert(before.connections.push(Stage::Handshake).drop_last()
                        == before.connections);
                }
            },
            ServiceEvent::Connection(i, event) => {
                if 0 <= i < before.connections.len() {
                    let stage = before.connections[i];
                    lemma_wrap_add(n, connection_action(stage, event).count_change().delta());
                    lemma_live_update(before.connections, i, next_stage(stage, event));
                }
            },
            ServiceEvent::Elsewhere(change) => {
                lemma_wrap_add(n, change.delta());
            },
        }
    }
}

/// Once all its connections are finished, a listener has left the count as it would be without it.
pub proof fn finished_connections_leave_no_trace(count: usize, events: Seq<ServiceEvent>)
    requires
        forall|i: int|
            0 <= i < serve(count, events).connections.len() ==> (#[trigger] serve(
                count,
                events,
            ).connections[i]) is Finished,
    ensures
        serve(count, events).count == wrap(count + elsewhere(events)),
{
    count_is_that_of_live_connections(count, events);
    lemma_none_live(serve(count, events).connections);
}

/// There is nothing alive among finished connections.
proof fn lemma_none_live(connections: Seq<Stage>)
    requires
        forall|i: int| 0 <= i < connections.len() ==> (#[trigger] connections[i]) is Finished,
    ensures
        live(connections) == 0,
    decreases connections.len(),
{
    if connections.len() > 0 {
        let before = connections.drop_last();
        assert forall|i: int| 0 <= i < before.len() implies (#[trigger] before[i]) is Finished by {
            assert(before[i] == connections[i]);
        }
        lemma_none_live(before);
    }
}

/// Nothing among these events stops a serve loop: all that its listener met were clients, transient
/// kinds of failure, and a lack of file descriptors.
pub open spec fn undisturbed(events: Seq<ServiceEvent>) -> bool {
    forall|i: int|
        0 <= i < events.len() ==> match #[trigger] events[i] {
            ServiceEvent::Listener(ListenerEvent::Cancelled) => false,
            ServiceEvent::Listener(ListenerEvent::AcceptFailed(fault)) => !(fault.kind is Other)
                || fault.errno == Some(24i32) || fault.errno == Some(23i32),
            _ => true,
        }
}

/// How many clients came while the loop was undisturbed.
pub open spec fn clients(events: Seq<ServiceEvent>) -> nat
    decreases events.len(),
{
    if events.len() == 0 {
        0
    } else {
        clients(events.drop_last()) + (if undisturbed(events.drop_last()) && events.last()
            == ServiceEvent::Listener(ListenerEvent::Accepted) {
            1nat
        } else {
            0nat
        })
    }
}

/// A loop serves for as long as it is undisturbed.
proof fn lemma_undisturbed_loop_serves(count: usize, events: Seq<ServiceEvent>)
    ensures
        serve(count, events).listener is Serving <==> undisturbed(events),
    decreases events.len(),
{
    if events.len() > 0 {
        let before = events.drop_last();
        lemma_undisturbed_loop_serves(count, before);
        assert(events == before.push(events.last()));
        if undisturbed(events) {
            assert forall|i: int| 0 <= i < before.len() implies match #[trigger] before[i] {
                ServiceEvent::Listener(ListenerEvent::Cancelled) => false,
                ServiceEvent::Listener(ListenerEvent::AcceptFailed(fault)) => !(fault.kind is Other)
                    || fault.errno == Some(24i32) || fault.errno == Some(23i32),
                _ => true,
            } by {
                assert(before[i] == events[i]);
            }
            assert(events[events.len() - 1] == events.last());
        } else if undisturbed(before) {
            let i = choose|i: int|
                0 <= i < events.len() && !(match #[trigger] events[i] {
                    ServiceEvent::Listener(ListenerEvent::Cancelled) => false,
                    ServiceEvent::Listener(ListenerEvent::AcceptFailed(fault)) => !(
                    fault.kind is Other) || fault.errno == Some(24i32) || fault.errno == Some(
                        23i32,
                    ),
                    _ => true,
                });
            if i < before.len() {
                assert(before[i] == events[i]);
            }
        }
    }
}

/// The connections of a loop are the clients that came while it was undisturbed, one for each: no
/// failure of `accept` makes a connection, nor does a client that comes after the end.
pub proof fn every_client_has_one_connection(count: usize, events: Seq<ServiceEvent>)
    ensures
        serve(count, events).connections.len() == clients(events),
    decreases events.len(),
{
    if events.len() > 0 {
        every_client_has_one_connection(count, events.drop_last());
        lemma_undisturbed_loop_serves(count, events.drop_last());
    }
}

/// A client that comes and goes leaves the count as it was, wherever that stood.
pub proof fn client_that_leaves_is_forgotten(count: usize)
    ensures
        wrap(wrap(count + CountChange::Connect.delta()) + CountChange::Disconnect.delta()) == count,
        wrap(wrap(count + CountChange::Disconnect.delta()) + CountChange::Connect.delta()) == count,
        wrap(count + CountChange::Keep.delta()) == count,
{
    lemma_wrap_add(count + CountChange::Connect.delta(), CountChange::Disconnect.delta());
    lemma_wrap_add(count + CountChange::Disconnect.delta(), CountChange::Connect.delta());
    lemma_small_mod(count as nat, (usize::MAX + 1) as nat);
}

/// A client more is one more and a client less one less, as far as a machine word reaches.
pub proof fn clients_are_counted_one_by_one(count: usize)
    ensures
        count < usize::MAX ==> wrap(count + CountChange::Connect.delta()) == count + 1,
        count > 0 ==> wrap(count + CountChange::Disconnect.delta()) == count - 1,
{
    if count < usize::MAX {
        lemma_small_mod((count + 1) as nat, (usize::MAX + 1) as nat);
    }
    if count > 0 {
        lemma_small_mod((count - 1) as nat, (usize::MAX + 1) as nat);
    }
}

} // verus!
