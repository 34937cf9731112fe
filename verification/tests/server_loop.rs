use std::io;

use async_serve::{Action, Event, Phase, ServerLoop, Wait};

type Loop = ServerLoop<&'static str, String>;
type Ev = Event<u32, String>;
type Act = Action<u32, &'static str>;

fn failed(message: &str) -> Ev {
    Event::Finished(Err(message.to_string()))
}

fn succeeded() -> Ev {
    Event::Finished(Ok(()))
}

fn accepting_with(clients: u32) -> Loop {
    let mut server = Loop::new("shared");
    for client in 0..clients {
        assert_eq!(server.step(Ev::Connection(client)), Act::Spawn(client, "shared"));
    }
    server
}

fn draining_with(clients: u32) -> Loop {
    let mut server = accepting_with(clients);
    assert_eq!(server.step(Ev::Shutdown), Act::CloseListeners);
    server
}

fn stopped() -> Loop {
    let mut server = draining_with(0);
    assert_eq!(server.next_wait(), Wait::Nothing);
    server
}

#[test]
fn a_new_loop_accepts_with_nothing_admitted() {
    let mut server = Loop::new("shared");
    assert_eq!(server.phase(), Phase::Accepting);
    assert_eq!(server.accepted(), 0);
    assert_eq!(server.completed(), 0);
    assert_eq!(server.in_flight(), 0);
    assert!(server.pool().is_empty());
    assert_eq!(server.failure(), None);
    assert_eq!(*server.state(), "shared");
    assert!(server.has_room());
    assert_eq!(server.next_wait(), Wait::AnySource);
    assert_eq!(server.phase(), Phase::Accepting);
    assert_eq!(server.outcome(), None);
}

#[test]
fn shutdown_with_no_client_returns_ok() {
    let mut server = Loop::new("shared");
    assert_eq!(server.next_wait(), Wait::AnySource);
    assert_eq!(server.step(Ev::Shutdown), Act::CloseListeners);
    assert_eq!(server.phase(), Phase::Draining);
    assert_eq!(server.next_wait(), Wait::Nothing);
    assert_eq!(server.phase(), Phase::Stopped);
    assert_eq!(server.accepted(), 0);
    assert_eq!(server.outcome(), Some(Ok(())));
}

#[test]
fn a_failing_handler_is_the_outcome_of_the_run() {
    let mut server = Loop::new("shared");
    assert_eq!(server.step(Ev::Connection(1)), Act::Spawn(1, "shared"));
    assert_eq!(server.in_flight(), 1);
    assert_eq!(server.next_wait(), Wait::AnySource);
    assert_eq!(server.step(failed("broken pipe")), Act::CloseListeners);
    assert_eq!(server.phase(), Phase::Draining);
    assert_eq!(server.failure(), Some(&"broken pipe".to_string()));
    assert_eq!(server.next_wait(), Wait::Nothing);
    assert_eq!(server.in_flight(), 0);
    assert!(server.pool().is_empty());
    assert_eq!(server.outcome(), Some(Err("broken pipe".to_string())));
}

#[test]
fn shutdown_waits_for_the_handlers_in_flight() {
    let mut server = accepting_with(3);
    assert_eq!(server.in_flight(), 3);
    assert_eq!(server.step(succeeded()), Act::Continue);
    assert_eq!(server.in_flight(), 2);
    assert_eq!(server.next_wait(), Wait::AnySource);

    assert_eq!(server.step(Ev::Shutdown), Act::CloseListeners);
    assert_eq!(server.phase(), Phase::Draining);
    assert_eq!(server.next_wait(), Wait::Completion);
    assert_eq!(server.step(succeeded()), Act::Continue);
    assert_eq!(server.next_wait(), Wait::Completion);
    assert_eq!(server.phase(), Phase::Draining);
    assert_eq!(server.step(succeeded()), Act::Continue);
    assert_eq!(server.next_wait(), Wait::Nothing);

    assert_eq!(server.phase(), Phase::Stopped);
    assert_eq!(server.accepted(), 3);
    assert_eq!(server.completed(), 3);
    assert_eq!(server.in_flight(), 0);
    assert_eq!(server.outcome(), Some(Ok(())));
}

#[test]
fn the_pool_holds_what_was_accepted_and_has_not_completed() {
    let mut server = Loop::new("shared");
    let script = [true, true, false, true, true, false, false, true, false, false];
    let mut arrived = 0;
    let mut finished = 0;
    for connects in script {
        if connects {
            assert_eq!(server.step(Ev::Connection(arrived)), Act::Spawn(arrived, "shared"));
            arrived += 1;
        } else {
            assert_eq!(server.step(succeeded()), Act::Continue);
            finished += 1;
        }
        assert_eq!(server.accepted(), u64::from(arrived));
        assert_eq!(server.completed(), finished);
        assert_eq!(server.in_flight(), server.accepted() - server.completed());
        assert_eq!(server.pool().size(), server.in_flight());
        assert_eq!(server.next_wait(), Wait::AnySource);
    }
    assert_eq!(server.accepted(), 5);
    assert_eq!(server.completed(), 5);
    assert_eq!(server.in_flight(), 0);
}

#[test]
fn five_clients_at_once_fill_the_pool_to_five() {
    let mut server = accepting_with(5);
    assert_eq!(server.in_flight(), 5);
    assert_eq!(server.completed(), 0);
    for done in 1..=5 {
        assert_eq!(server.step(succeeded()), Act::Continue);
        assert_eq!(server.in_flight(), 5 - done);
        assert_eq!(server.completed(), done);
    }
    assert_eq!(server.phase(), Phase::Accepting);
    assert!(server.pool().is_empty());
}

#[test]
fn a_draining_loop_admits_no_connection() {
    let mut server = draining_with(2);
    assert_eq!(server.next_wait(), Wait::Completion);
    assert_eq!(server.step(Ev::Connection(9)), Act::Refuse(9));
    assert_eq!(server.accepted(), 2);
    assert_eq!(server.in_flight(), 2);
    assert_eq!(server.phase(), Phase::Draining);
    assert_eq!(server.step(succeeded()), Act::Continue);
    assert_eq!(server.step(Ev::Connection(10)), Act::Refuse(10));
    assert_eq!(server.next_wait(), Wait::Completion);
    assert_eq!(server.step(succeeded()), Act::Continue);
    assert_eq!(server.next_wait(), Wait::Nothing);
    assert_eq!(server.accepted(), 2);
    assert_eq!(server.completed(), 2);
    assert_eq!(server.outcome(), Some(Ok(())));
}

#[test]
fn a_draining_loop_does_not_stop_at_the_first_failure() {
    let mut server = draining_with(3);
    assert_eq!(server.step(failed("first")), Act::Continue);
    assert_eq!(server.next_wait(), Wait::Completion);
    assert_eq!(server.phase(), Phase::Draining);
    assert_eq!(server.step(succeeded()), Act::Continue);
    assert_eq!(server.next_wait(), Wait::Completion);
    assert_eq!(server.step(failed("second")), Act::Continue);
    assert_eq!(server.next_wait(), Wait::Nothing);
    assert_eq!(server.completed(), 3);
    assert_eq!(server.outcome(), Some(Err("first".to_string())));
}

#[test]
fn a_signal_that_never_resolves_leaves_the_loop_accepting() {
    let mut server = Loop::new("shared");
    for round in 0..100 {
        assert_eq!(server.next_wait(), Wait::AnySource);
        assert_eq!(server.step(Ev::Connection(round)), Act::Spawn(round, "shared"));
        assert_eq!(server.next_wait(), Wait::AnySource);
        assert_eq!(server.step(succeeded()), Act::Continue);
        assert_eq!(server.phase(), Phase::Accepting);
    }
    assert_eq!(server.accepted(), 100);
    assert_eq!(server.completed(), 100);
    assert_eq!(server.outcome(), None);
}

#[test]
fn an_accept_error_ends_accepting_and_is_returned_after_the_drain() {
    let mut server = accepting_with(1);
    assert_eq!(
        server.step(Ev::AcceptFailed("too many open files".to_string())),
        Act::CloseListeners
    );
    assert_eq!(server.phase(), Phase::Draining);
    assert_eq!(server.failure(), Some(&"too many open files".to_string()));
    assert_eq!(server.next_wait(), Wait::Completion);
    assert_eq!(server.step(succeeded()), Act::Continue);
    assert_eq!(server.next_wait(), Wait::Nothing);
    assert_eq!(server.outcome(), Some(Err("too many open files".to_string())));
}

#[test]
fn the_end_of_the_connection_stream_starts_the_drain() {
    let mut server = accepting_with(1);
    assert_eq!(server.step(Ev::ListenersClosed), Act::CloseListeners);
    assert_eq!(server.phase(), Phase::Draining);
    assert_eq!(server.failure(), None);
    assert_eq!(server.next_wait(), Wait::Completion);
    assert_eq!(server.step(succeeded()), Act::Continue);
    assert_eq!(server.next_wait(), Wait::Nothing);
    assert_eq!(server.outcome(), Some(Ok(())));
}

#[test]
fn a_failure_while_accepting_drains_the_other_handlers() {
    let mut server = accepting_with(3);
    assert_eq!(server.step(failed("reset")), Act::CloseListeners);
    assert_eq!(server.phase(), Phase::Draining);
    assert_eq!(server.in_flight(), 2);
    assert_eq!(server.completed(), 1);
    assert_eq!(server.next_wait(), Wait::Completion);
    assert_eq!(server.step(Ev::Connection(7)), Act::Refuse(7));
    assert_eq!(server.step(succeeded()), Act::Continue);
    assert_eq!(server.step(succeeded()), Act::Continue);
    assert_eq!(server.next_wait(), Wait::Nothing);
    assert_eq!(server.in_flight(), 0);
    assert_eq!(server.outcome(), Some(Err("reset".to_string())));
}

#[test]
fn the_first_fatal_error_is_the_one_returned() {
    let mut server = accepting_with(2);
    assert_eq!(server.step(Ev::AcceptFailed("accept".to_string())), Act::CloseListeners);
    assert_eq!(server.step(failed("handler")), Act::Continue);
    assert_eq!(server.failure(), Some(&"accept".to_string()));
    assert_eq!(server.step(failed("another")), Act::Continue);
    assert_eq!(server.next_wait(), Wait::Nothing);
    assert_eq!(server.outcome(), Some(Err("accept".to_string())));
}

#[test]
fn a_completion_of_an_empty_pool_changes_nothing() {
    let mut server = Loop::new("shared");
    assert_eq!(server.step(succeeded()), Act::Continue);
    assert_eq!(server.step(failed("nobody")), Act::Continue);
    assert_eq!(server.phase(), Phase::Accepting);
    assert_eq!(server.completed(), 0);
    assert_eq!(server.in_flight(), 0);
    assert_eq!(server.failure(), None);

    let mut server = draining_with(0);
    assert_eq!(server.step(failed("nobody")), Act::Continue);
    assert_eq!(server.completed(), 0);
    assert_eq!(server.failure(), None);
    assert_eq!(server.next_wait(), Wait::Nothing);
    assert_eq!(server.outcome(), Some(Ok(())));
}

#[test]
fn a_draining_loop_listens_to_completions_only() {
    let mut server = draining_with(1);
    assert_eq!(server.step(Ev::Shutdown), Act::Continue);
    assert_eq!(server.step(Ev::ListenersClosed), Act::Continue);
    assert_eq!(server.step(Ev::AcceptFailed("late".to_string())), Act::Continue);
    assert_eq!(server.phase(), Phase::Draining);
    assert_eq!(server.accepted(), 1);
    assert_eq!(server.in_flight(), 1);
    assert_eq!(server.failure(), None);
    assert_eq!(server.next_wait(), Wait::Completion);
}

#[test]
fn a_stopped_loop_takes_no_event() {
    let events = [
        Ev::Shutdown,
        Ev::ListenersClosed,
        Ev::AcceptFailed("late".to_string()),
        succeeded(),
        failed("late"),
    ];
    for event in events {
        let mut server = stopped();
        assert_eq!(server.step(event), Act::Continue);
        assert_eq!(server.phase(), Phase::Stopped);
        assert_eq!(server.accepted(), 0);
        assert_eq!(server.completed(), 0);
        assert_eq!(server.next_wait(), Wait::Nothing);
        assert_eq!(server.outcome(), Some(Ok(())));
    }
    let mut server = stopped();
    assert_eq!(server.step(Ev::Connection(4)), Act::Refuse(4));
    assert_eq!(server.accepted(), 0);
    assert_eq!(server.phase(), Phase::Stopped);
}

#[test]
fn the_outcome_is_unknown_until_the_loop_has_stopped() {
    assert_eq!(accepting_with(0).outcome(), None);
    assert_eq!(accepting_with(2).outcome(), None);
    assert_eq!(draining_with(0).outcome(), None);
    assert_eq!(draining_with(2).outcome(), None);
    let mut failing = accepting_with(1);
    assert_eq!(failing.step(failed("early")), Act::CloseListeners);
    assert_eq!(failing.outcome(), None);
    assert_eq!(stopped().outcome(), Some(Ok(())));
}

#[test]
fn the_phase_never_moves_backwards() {
    let mut server = accepting_with(1);
    let events = [
        Ev::Connection(1),
        succeeded(),
        Ev::Connection(2),
        Ev::Shutdown,
        Ev::Connection(3),
        Ev::Shutdown,
        succeeded(),
        succeeded(),
        Ev::Connection(4),
        succeeded(),
    ];
    let rank = |phase: Phase| match phase {
        Phase::Accepting => 0,
        Phase::Draining => 1,
        Phase::Stopped => 2,
    };
    let mut last = rank(server.phase());
    for event in events {
        server.next_wait();
        assert!(rank(server.phase()) >= last);
        last = rank(server.phase());
        server.step(event);
        assert!(rank(server.phase()) >= last);
        last = rank(server.phase());
    }
    server.next_wait();
    assert!(server.phase().is_stopped());
    assert_eq!(server.accepted(), 3);
}

#[test]
fn every_handler_gets_its_own_copy_of_the_shared_state() {
    let mut server: ServerLoop<Vec<u8>, String> = ServerLoop::new(vec![1, 2, 3]);
    let first = server.step(Event::<u32, String>::Connection(1));
    let second = server.step(Event::<u32, String>::Connection(2));
    assert_eq!(first, Action::Spawn(1, vec![1, 2, 3]));
    assert_eq!(second, Action::Spawn(2, vec![1, 2, 3]));
    if let Action::Spawn(_, mut copy) = first {
        copy.push(4);
    }
    assert_eq!(*server.state(), vec![1, 2, 3]);
    assert_eq!(
        server.step(Event::<u32, String>::Connection(3)),
        Action::Spawn(3, vec![1, 2, 3])
    );
}

#[test]
fn connections_of_either_listener_are_dispatched() {
    let mut server: ServerLoop<(), String> = ServerLoop::new(());
    let arrivals = [
        (0usize, "10.0.0.1:4000"),
        (1, "10.0.0.2:4000"),
        (1, "10.0.0.3:4000"),
        (0, "10.0.0.4:4000"),
    ];
    for arrival in arrivals {
        let event: Event<(usize, &str), String> = Event::Connection(arrival);
        assert_eq!(server.step(event), Action::Spawn(arrival, ()));
    }
    assert_eq!(server.accepted(), 4);
    assert_eq!(server.in_flight(), 4);
}

#[test]
fn an_io_error_of_a_handler_comes_back_as_it_was() {
    let mut server: ServerLoop<(), io::Error> = ServerLoop::new(());
    let connection: Event<u8, io::Error> = Event::Connection(1);
    assert!(matches!(server.step(connection), Action::Spawn(1, ())));
    let failure: Event<u8, io::Error> =
        Event::Finished(Err(io::Error::new(io::ErrorKind::UnexpectedEof, "cut short")));
    assert!(matches!(server.step(failure), Action::CloseListeners));
    assert_eq!(server.next_wait(), Wait::Nothing);
    let error = server.outcome().expect("the loop has stopped").expect_err("a handler failed");
    assert_eq!(error.kind(), io::ErrorKind::UnexpectedEof);
    assert_eq!(error.to_string(), "cut short");
}
