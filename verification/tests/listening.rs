use std::io::{Error, ErrorKind};
use wss_rpc::accept::AcceptFault;
use wss_rpc::listener::{
    Connection, ConnectionAction, ConnectionEvent, CountChange, Listener, ListenerAction,
    ListenerEvent,
};

fn failed(e: Error) -> ListenerEvent {
    ListenerEvent::AcceptFailed(AcceptFault::of(&e, true))
}

#[test]
fn loop_survives_transient_failures() {
    let mut listener = Listener::new();
    let transient = vec![
        Error::from_raw_os_error(24),
        Error::from_raw_os_error(23),
        Error::from(ErrorKind::ConnectionAborted),
        Error::from(ErrorKind::Interrupted),
        Error::from(ErrorKind::WouldBlock),
    ];
    for e in transient {
        let action = listener.on_event(failed(e));
        assert_eq!(action, ListenerAction::Backoff { ms: 50 });
        assert_eq!(action.count_change(), CountChange::Keep);
    }
    assert_eq!(
        listener.on_event(ListenerEvent::Accepted),
        ListenerAction::Serve
    );
}

#[test]
fn fatal_failure_ends_the_loop() {
    let mut listener = Listener::new();
    assert_eq!(
        listener.on_event(failed(Error::from(ErrorKind::InvalidInput))),
        ListenerAction::Fail
    );
    assert_eq!(
        listener.on_event(ListenerEvent::Accepted),
        ListenerAction::Fail
    );
    assert_eq!(
        listener.on_event(ListenerEvent::Cancelled),
        ListenerAction::Fail
    );
}

#[test]
fn cancellation_ends_the_loop() {
    let mut listener = Listener::new();
    assert_eq!(
        listener.on_event(ListenerEvent::Cancelled),
        ListenerAction::Shutdown
    );
    assert_eq!(
        listener.on_event(failed(Error::from(ErrorKind::InvalidInput))),
        ListenerAction::Shutdown
    );
}

#[test]
fn served_connection_runs_through_its_stages() {
    let mut connection = Connection::new();
    assert_eq!(connection.action(), ConnectionAction::Handshake);
    assert_eq!(
        connection.on_event(ConnectionEvent::Handshaken { ok: true }),
        ConnectionAction::Upgrade
    );
    assert_eq!(
        connection.on_event(ConnectionEvent::Upgraded { ok: true }),
        ConnectionAction::Serve
    );
    assert_eq!(
        connection.on_event(ConnectionEvent::Served {
            tui_id: Some("tui-1".to_string())
        }),
        ConnectionAction::Unregister {
            tui_id: "tui-1".to_string()
        }
    );
    assert_eq!(
        connection.on_event(ConnectionEvent::Unregistered),
        ConnectionAction::Release
    );
    assert_eq!(connection.action(), ConnectionAction::Finish);
}

#[test]
fn terminal_is_removed_before_the_count_goes_down() {
    let mut connection = Connection::new();
    connection.on_event(ConnectionEvent::Handshaken { ok: true });
    connection.on_event(ConnectionEvent::Upgraded { ok: true });
    let remove = connection.on_event(ConnectionEvent::Served {
        tui_id: Some("tui-1".to_string()),
    });
    assert_eq!(remove.count_change(), CountChange::Keep);
    // Asked for once, and the release waits for it.
    let again = connection.on_event(ConnectionEvent::Served { tui_id: None });
    assert_eq!(again, ConnectionAction::AwaitUnregistered);
    assert_eq!(again.count_change(), CountChange::Keep);
    assert_eq!(connection.action(), ConnectionAction::AwaitUnregistered);
    let release = connection.on_event(ConnectionEvent::Unregistered);
    assert_eq!(release.count_change(), CountChange::Disconnect);
    assert_eq!(
        connection.on_event(ConnectionEvent::Unregistered),
        ConnectionAction::Finish
    );
}

#[test]
fn upgrade_is_no_way_around_the_handshake() {
    let mut connection = Connection::new();
    assert_eq!(
        connection.on_event(ConnectionEvent::Upgraded { ok: true }),
        ConnectionAction::Handshake
    );
    assert_eq!(
        connection.on_event(ConnectionEvent::Handshaken { ok: true }),
        ConnectionAction::Upgrade
    );
    assert_eq!(
        connection.on_event(ConnectionEvent::Served { tui_id: None }),
        ConnectionAction::Upgrade
    );
}

#[test]
fn connection_without_terminal_unregisters_nothing() {
    let mut connection = Connection::new();
    connection.on_event(ConnectionEvent::Handshaken { ok: true });
    connection.on_event(ConnectionEvent::Upgraded { ok: true });
    assert_eq!(
        connection.on_event(ConnectionEvent::Served { tui_id: None }),
        ConnectionAction::Release
    );
}

#[test]
fn failed_handshake_and_upgrade_release_the_connection() {
    let mut connection = Connection::new();
    assert_eq!(
        connection.on_event(ConnectionEvent::Handshaken { ok: false }),
        ConnectionAction::Release
    );
    let mut connection = Connection::new();
    connection.on_event(ConnectionEvent::Handshaken { ok: true });
    assert_eq!(
        connection.on_event(ConnectionEvent::Upgraded { ok: false }),
        ConnectionAction::Release
    );
}

#[test]
fn connection_is_released_only_once() {
    let mut connection = Connection::new();
    connection.on_event(ConnectionEvent::Handshaken { ok: false });
    let again = connection.on_event(ConnectionEvent::Handshaken { ok: false });
    assert_eq!(again, ConnectionAction::Finish);
    assert_eq!(again.count_change(), CountChange::Keep);
    assert_eq!(
        connection.on_event(ConnectionEvent::Served { tui_id: None }),
        ConnectionAction::Finish
    );
}

#[test]
fn events_of_another_stage_change_nothing() {
    let mut connection = Connection::new();
    assert_eq!(
        connection.on_event(ConnectionEvent::Served { tui_id: None }),
        ConnectionAction::Handshake
    );
    assert_eq!(
        connection.on_event(ConnectionEvent::Upgraded { ok: false }),
        ConnectionAction::Handshake
    );
}

#[test]
fn count_follows_the_live_connections() {
    let mut count: usize = 5;
    let mut listener = Listener::new();
    let mut connections = Vec::new();
    for _ in 0..3 {
        count = listener
            .on_event(ListenerEvent::Accepted)
            .count_change()
            .apply(count);
        connections.push(Connection::new());
    }
    assert_eq!(count, 8);
    let endings = vec![
        vec![ConnectionEvent::Handshaken { ok: false }],
        vec![
            ConnectionEvent::Handshaken { ok: true },
            ConnectionEvent::Upgraded { ok: false },
        ],
        vec![
            ConnectionEvent::Handshaken { ok: true },
            ConnectionEvent::Upgraded { ok: true },
            ConnectionEvent::Served {
                tui_id: Some("tui-2".to_string()),
            },
            ConnectionEvent::Unregistered,
        ],
    ];
    for (connection, events) in connections.iter_mut().zip(endings) {
        for event in events {
            count = connection.on_event(event).count_change().apply(count);
        }
    }
    assert_eq!(count, 5);
}

#[test]
fn count_wraps_around() {
    assert_eq!(CountChange::Connect.apply(usize::MAX), 0);
    assert_eq!(CountChange::Disconnect.apply(0), usize::MAX);
    assert_eq!(CountChange::Keep.apply(7), 7);
    assert_eq!(CountChange::Connect.apply(7), 8);
    assert_eq!(CountChange::Disconnect.apply(7), 6);
}
