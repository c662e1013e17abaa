//! The serve loop: accepted connections, failures of `accept`, and the count of clients.
//!
//! `Listener` and `Connection` decide, the caller does the I/O and reports how it went.

use crate::accept::AcceptFault;
use vstd::arithmetic::div_mod::lemma_fundamental_div_mod_converse;
use vstd::prelude::*;

verus! {

/// How many milliseconds to back off after a transient failure of `accept`, so that the loop does
/// not spin while the condition, such as a lack of file descriptors, clears.
pub const ACCEPT_ERROR_BACKOFF_MS: u64 = 50;

/// What becomes of the shared count of connected clients.
#[derive(Debug, Clone, Copy, PartialEq, Eq, Structural)]
pub enum CountChange {
    Keep,
    /// A client connected.
    Connect,
    /// A client is gone.
    Disconnect,
}

/// The count that a machine word holds for `n` clients.
pub open spec fn wrap(n: int) -> int {
    n % (usize::MAX + 1)
}

impl CountChange {
    /// By how much the count goes up.
    pub open spec fn delta(self) -> int {
        match self {
            CountChange::Keep => 0,
            CountChange::Connect => 1,
            CountChange::Disconnect => -1,
        }
    }

    /// The count after the change. It wraps around, as an atomic counter does.
    pub fn apply(self, count: usize) -> (changed: usize)
        ensures
            changed == wrap(count + self.delta()),
            self is Keep ==> changed == count,
            self is Connect ==> changed == (if count == usize::MAX {
                0
            } else {
                count + 1
            }),
            self is Disconnect ==> changed == (if count == 0 {
                usize::MAX as int
            } else {
                count - 1
            }),
    {
        proof {
            let words = usize::MAX + 1;
            let n = count + self.delta();
            if n < 0 {
                lemma_fundamental_div_mod_converse(n, words, -1, usize::MAX as int);
            } else if n < words {
                lemma_fundamental_div_mod_converse(n, words, 0, n);
            } else {
                lemma_fundamental_div_mod_converse(n, words, 1, 0);
            }
        }
        match self {
            CountChange::Keep => count,
            CountChange::Connect => count.wrapping_add(1),
            CountChange::Disconnect => count.wrapping_sub(1),
        }
    }
}

/// What happened to the listener.
#[derive(Debug, Clone, Copy, PartialEq, Eq, Structural)]
pub enum ListenerEvent {
    /// The daemon shuts down.
    Cancelled,
    /// A client connected.
    Accepted,
    /// `accept` failed.
    AcceptFailed(AcceptFault),
}

/// What the caller is to do.
#[derive(Debug, Clone, Copy, PartialEq, Eq, Structural)]
pub enum ListenerAction {
    /// Count the client, serve its connection in a task of its own, and accept the next.
    Serve,
    /// Sleep for so many milliseconds, then accept the next.
    Backoff { ms: u64 },
    /// Stop serving, for good.
    Shutdown,
    /// Stop serving, and pass the `accept` error on.
    Fail,
}

/// Where the serve loop stands.
#[derive(Debug, Clone, Copy, PartialEq, Eq, Structural)]
pub enum ListenerState {
    Serving,
    /// Stopped at the daemon's request.
    Cancelled,
    /// Stopped by a failure that will not go away.
    Failed,
}

/// Where an event takes the serve loop. One that has stopped stays so.
pub open spec fn listener_next(state: ListenerState, event: ListenerEvent) -> ListenerState {
    match (state, event) {
        (ListenerState::Serving, ListenerEvent::Cancelled) => ListenerState::Cancelled,
        (ListenerState::Serving, ListenerEvent::AcceptFailed(fault)) if !fault.transient() =>
            ListenerState::Failed,
        _ => state,
    }
}

/// What an event calls for.
pub open spec fn listener_action(state: ListenerState, event: ListenerEvent) -> ListenerAction {
    match listener_next(state, event) {
        ListenerState::Cancelled => ListenerAction::Shutdown,
        ListenerState::Failed => ListenerAction::Fail,
        ListenerState::Serving => if event is Accepted {
            ListenerAction::Serve
        } else {
            ListenerAction::Backoff { ms: ACCEPT_ERROR_BACKOFF_MS }
        },
    }
}

impl ListenerAction {
    /// What the action does to the count of clients.
    pub open spec fn spec_count_change(self) -> CountChange {
        if self is Serve {
            CountChange::Connect
        } else {
            CountChange::Keep
        }
    }

    /// What the action does to the count of clients.
    pub fn count_change(&self) -> (change: CountChange)
        ensures
            change == self.spec_count_change(),
            self is Serve ==> change is Connect,
            !(self is Serve) ==> change is Keep,
    {
        match self {
            ListenerAction::Serve => CountChange::Connect,
            _ => CountChange::Keep,
        }
    }
}

/// The serve loop.
#[derive(Debug)]
pub struct Listener {
    state: ListenerState,
}

impl Listener {
    /// Where the loop stands.
    pub closed spec fn state(&self) -> ListenerState {
        self.state
    }

    /// A loop that has just been started.
    pub fn new() -> (listener: Listener)
        ensures
            listener.state() == ListenerState::Serving,
    {
        Listener { state: ListenerState::Serving }
    }

    /// Takes in what happened, and says what to do about it.
    pub fn on_event(&mut self, event: ListenerEvent) -> (action: ListenerAction)
        ensures
            final(self).state() == listener_next(old(self).state(), event),
            action == listener_action(old(self).state(), event),
            match (old(self).state(), event) {
                (ListenerState::Serving, ListenerEvent::Accepted) => {
                    &&& action is Serve
                    &&& final(self).state() is Serving
                },
                (ListenerState::Serving, ListenerEvent::AcceptFailed(fault)) => if !(
                fault.kind is Other) || fault.errno == Some(24i32) || fault.errno == Some(23i32) {
                    &&& action == (ListenerAction::Backoff { ms: 50 })
                    &&& final(self).state() is Serving
                } else {
                    &&& action is Fail
                    &&& final(self).state() is Failed
                },
                (ListenerState::Serving, ListenerEvent::Cancelled)
                | (ListenerState::Cancelled, _) => {
                    &&& action is Shutdown
                    &&& final(self).state() is Cancelled
                },
                (ListenerState::Failed, _) => {
                    &&& action is Fail
                    &&& final(self).state() is Failed
                },
            },
    {
        if let ListenerState::Serving = self.state {
            match event {
                ListenerEvent::Cancelled => {
                    self.state = ListenerState::Cancelled;
                },
                ListenerEvent::Accepted => {
                    return ListenerAction::Serve;
                },
                ListenerEvent::AcceptFailed(fault) => {
                    if fault.is_recoverable() {
                        return ListenerAction::Backoff { ms: ACCEPT_ERROR_BACKOFF_MS };
                    }
                    self.state = ListenerState::Failed;
                },
            }
        }
        match self.state {
            ListenerState::Failed => ListenerAction::Fail,
            _ => ListenerAction::Shutdown,
        }
    }
}

/// How far an accepted connection has come.
#[derive(Debug, Clone, Copy, PartialEq, Eq, Structural)]
pub enum Stage {
    /// In the TLS handshake.
    Handshake,
    /// In the WebSocket upgrade.
    Upgrade,
    /// In the dispatcher's hands.
    Serving,
    /// Over, with its terminal being removed from the registry.
    Unregistering,
    Finished,
}

/// What happened to a connection.
#[derive(Debug, PartialEq, Eq)]
pub enum ConnectionEvent {
    /// The TLS handshake is over.
    Handshaken { ok: bool },
    /// The WebSocket upgrade is over.
    Upgraded { ok: bool },
    /// The dispatcher is through with the connection, which was that of this terminal, if any.
    Served { tui_id: Option<String> },
    /// The terminal is off the registry.
    Unregistered,
}

/// What happened to a connection.
pub enum ConnectionEventView {
    Handshaken { ok: bool },
    Upgraded { ok: bool },
    Served { tui_id: Option<Seq<char>> },
    Unregistered,
}

/// What the caller is to do.
#[derive(Debug, PartialEq, Eq)]
pub enum ConnectionAction {
    /// Do the TLS handshake.
    Handshake,
    /// Do the WebSocket upgrade.
    Upgrade,
    /// Run the dispatcher on the connection.
    Serve,
    /// Remove this terminal from the registry.
    Unregister { tui_id: String },
    /// Go on with the removal of the terminal.
    AwaitUnregistered,
    /// Take the client off the count.
    Release,
    /// All done.
    Finish,
}

/// What the caller is to do.
pub enum ConnectionActionView {
    Handshake,
    Upgrade,
    Serve,
    Unregister { tui_id: Seq<char> },
    AwaitUnregistered,
    Release,
    Finish,
}

/// The characters of an optional string.
pub open spec fn chars_of(s: Option<String>) -> Option<Seq<char>> {
    match s {
        Some(s) => Some(s@),
        None => None,
    }
}

impl View for ConnectionEvent {
    type V = ConnectionEventView;

    open spec fn view(&self) -> ConnectionEventView {
        match *self {
            ConnectionEvent::Handshaken { ok } => ConnectionEventView::Handshaken { ok },
            ConnectionEvent::Upgraded { ok } => ConnectionEventView::Upgraded { ok },
            ConnectionEvent::Served { tui_id } => ConnectionEventView::Served {
                tui_id: chars_of(tui_id),
            },
            ConnectionEvent::Unregistered => ConnectionEventView::Unregistered,
        }
    }
}

impl View for ConnectionAction {
    type V = ConnectionActionView;

    open spec fn view(&self) -> ConnectionActionView {
        match self {
            ConnectionAction::Handshake => ConnectionActionView::Handshake,
            ConnectionAction::Upgrade => ConnectionActionView::Upgrade,
            ConnectionAction::Serve => ConnectionActionView::Serve,
            ConnectionAction::Unregister { tui_id } => ConnectionActionView::Unregister {
                tui_id: tui_id@,
            },
            ConnectionAction::AwaitUnregistered => ConnectionActionView::AwaitUnregistered,
            ConnectionAction::Release => ConnectionActionView::Release,
            ConnectionAction::Finish => ConnectionActionView::Finish,
        }
    }
}

/// The stage that an event takes a connection to: on to the next where all went well, else to the
/// end. A served connection gets there by way of the removal of its terminal, if it had one. An
/// event of another stage changes nothing.
pub open spec fn next_stage(stage: Stage, event: ConnectionEventView) -> Stage {
    match (stage, event) {
        (Stage::Handshake, ConnectionEventView::Handshaken { ok }) => if ok {
            Stage::Upgrade
        } else {
            Stage::Finished
        },
        (Stage::Upgrade, ConnectionEventView::Upgraded { ok }) => if ok {
            Stage::Serving
        } else {
            Stage::Finished
        },
        (Stage::Serving, ConnectionEventView::Served { tui_id }) => if tui_id is Some {
            Stage::Unregistering
        } else {
            Stage::Finished
        },
        (Stage::Unregistering, ConnectionEventView::Unregistered) => Stage::Finished,
        _ => stage,
    }
}

/// What there is to do in a stage.
pub open spec fn action_in(stage: Stage) -> ConnectionActionView {
    match stage {
        Stage::Handshake => ConnectionActionView::Handshake,
        Stage::Upgrade => ConnectionActionView::Upgrade,
        Stage::Serving => ConnectionActionView::Serve,
        Stage::Unregistering => ConnectionActionView::AwaitUnregistered,
        Stage::Finished => ConnectionActionView::Finish,
    }
}

/// What an event calls for: the removal of the terminal where a served connection had one, the
/// release of the connection when it is finished, and else what there is to do in its stage.
pub open spec fn connection_action(
    stage: Stage,
    event: ConnectionEventView,
) -> ConnectionActionView {
    match (stage, event) {
        (Stage::Serving, ConnectionEventView::Served { tui_id: Some(tui_id) }) =>
            ConnectionActionView::Unregister { tui_id },
        _ => if stage != Stage::Finished && next_stage(stage, event) == Stage::Finished {
            ConnectionActionView::Release
        } else {
            action_in(next_stage(stage, event))
        },
    }
}

impl ConnectionActionView {
    /// What the action does to the count of clients.
    pub open spec fn count_change(self) -> CountChange {
        if self is Release {
            CountChange::Disconnect
        } else {
            CountChange::Keep
        }
    }
}

impl ConnectionAction {
    /// What the action does to the count of clients.
    pub fn count_change(&self) -> (change: CountChange)
        ensures
            change == self@.count_change(),
            self is Release ==> change is Disconnect,
            !(self is Release) ==> change is Keep,
    {
        match self {
            ConnectionAction::Release => CountChange::Disconnect,
            _ => CountChange::Keep,
        }
    }
}

/// An accepted connection.
#[derive(Debug)]
pub struct Connection {
    stage: Stage,
}

impl Connection {
    /// How far the connection has come.
    pub closed spec fn stage(&self) -> Stage {
        self.stage
    }

    /// A connection that was just accepted.
    pub fn new() -> (connection: Connection)
        ensures
            connection.stage() == Stage::Handshake,
    {
        Connection { stage: Stage::Handshake }
    }

    /// What to do first, or to go on with.
    pub fn action(&self) -> (action: ConnectionAction)
        ensures
            action@ == action_in(self.stage()),
            match self.stage() {
                Stage::Handshake => action is Handshake,
                Stage::Upgrade => action is Upgrade,
                Stage::Serving => action is Serve,
                Stage::Unregistering => action is AwaitUnregistered,
                Stage::Finished => action is Finish,
            },
    {
        match self.stage {
            Stage::Handshake => ConnectionAction::Handshake,
            Stage::Upgrade => ConnectionAction::Upgrade,
            Stage::Serving => ConnectionAction::Serve,
            Stage::Unregistering => ConnectionAction::AwaitUnregistered,
            Stage::Finished => ConnectionAction::Finish,
        }
    }

    /// Takes in what happened, and says what to do next.
    pub fn on_event(&mut self, event: ConnectionEvent) -> (action: ConnectionAction)
        ensures
            final(self).stage() == next_stage(old(self).stage(), event@),
            action@ == connection_action(old(self).stage(), event@),
            match (old(self).stage(), event) {
                (Stage::Handshake, ConnectionEvent::Handshaken { ok }) => if ok {
                    action is Upgrade && final(self).stage() is Upgrade
                } else {
                    action is Release && final(self).stage() is Finished
                },
                (Stage::Upgrade, ConnectionEvent::Upgraded { ok }) => if ok {
                    action is Serve && final(self).stage() is Serving
                } else {
                    action is Release && final(self).stage() is Finished
                },
                (Stage::Serving, ConnectionEvent::Served { tui_id: Some(tui_id) }) => {
                    &&& action is Unregister
                    &&& action->tui_id@ == tui_id@
                    &&& final(self).stage() is Unregistering
                },
                (Stage::Serving, ConnectionEvent::Served { tui_id: None }) => {
                    action is Release && final(self).stage() is Finished
                },
                (Stage::Unregistering, ConnectionEvent::Unregistered) => {
                    action is Release && final(self).stage() is Finished
                },
                (stage, _) => {
                    &&& final(self).stage() == stage
                    &&& match stage {
                        Stage::Handshake => action is Handshake,
                        Stage::Upgrade => action is Upgrade,
                        Stage::Serving => action is Serve,
                        Stage::Unregistering => action is AwaitUnregistered,
                        Stage::Finished => action is Finish,
                    }
                },
            },
    {
        match (self.stage, event) {
            (Stage::Handshake, ConnectionEvent::Handshaken { ok: true }) => {
                self.stage = Stage::Upgrade;
                ConnectionAction::Upgrade
            },
            (Stage::Upgrade, ConnectionEvent::Upgraded { ok: true }) => {
                self.stage = Stage::Serving;
                ConnectionAction::Serve
            },
            (Stage::Serving, ConnectionEvent::Served { tui_id: Some(tui_id) }) => {
                self.stage = Stage::Unregistering;
                ConnectionAction::Unregister { tui_id }
            },
            (Stage::Handshake, ConnectionEvent::Handshaken { ok: false })
            | (Stage::Upgrade, ConnectionEvent::Upgraded { ok: false })
            | (Stage::Serving, ConnectionEvent::Served { tui_id: None })
            | (Stage::Unregistering, ConnectionEvent::Unregistered) => {
                self.stage = Stage::Finished;
                ConnectionAction::Release
            },
            _ => self.action(),
        }
    }
}

} // verus!
