use rusty_motors::supervisor::{
    accept_start, accept_step, Channel, LoopAction, LoopEvent, LoopState,
};

#[test]
fn channels_have_their_ports_and_names() {
    assert_eq!(Channel::Login.default_port(), 8226);
    assert_eq!(Channel::Persona.default_port(), 8228);
    assert_eq!(Channel::Lobby.default_port(), 7003);
    assert_eq!(Channel::Login.name(), "login");
    assert_eq!(Channel::Persona.name(), "persona");
    assert_eq!(Channel::Lobby.name(), "lobby");
}

#[test]
fn loop_starts_by_reading_the_signal() {
    assert_eq!(accept_start(), (LoopState::Polling, LoopAction::ReadSignal));
}

#[test]
fn running_loop_accepts_and_spawns() {
    let (s, a) = accept_step(LoopState::Polling, LoopEvent::Signal { running: true });
    assert_eq!((s, a), (LoopState::Accepting, LoopAction::Accept));
    let (s, a) = accept_step(s, LoopEvent::Accepted);
    assert_eq!((s, a), (LoopState::Polling, LoopAction::SpawnHandler));
}

#[test]
fn accept_error_keeps_the_loop_alive() {
    let (s, a) = accept_step(LoopState::Accepting, LoopEvent::AcceptFailed);
    assert_eq!((s, a), (LoopState::Polling, LoopAction::LogAcceptError));
    let (s, a) = accept_step(s, LoopEvent::Signal { running: true });
    assert_eq!((s, a), (LoopState::Accepting, LoopAction::Accept));
}

#[test]
fn shutdown_is_seen_at_the_next_poll() {
    let (s, a) = accept_step(LoopState::Polling, LoopEvent::Signal { running: false });
    assert_eq!((s, a), (LoopState::Stopped, LoopAction::Exit));
    for returned in [LoopEvent::Accepted, LoopEvent::AcceptFailed] {
        let (s, _) = accept_step(LoopState::Accepting, returned);
        let (s, a) = accept_step(s, LoopEvent::Signal { running: false });
        assert_eq!((s, a), (LoopState::Stopped, LoopAction::Exit));
    }
}

#[test]
fn stopped_loop_stays_stopped() {
    for e in [
        LoopEvent::Signal { running: true },
        LoopEvent::Signal { running: false },
        LoopEvent::Accepted,
        LoopEvent::AcceptFailed,
    ] {
        assert_eq!(accept_step(LoopState::Stopped, e), (LoopState::Stopped, LoopAction::Exit));
    }
}

#[test]
fn events_out_of_turn_repeat_the_request() {
    assert_eq!(
        accept_step(LoopState::Polling, LoopEvent::Accepted),
        (LoopState::Polling, LoopAction::ReadSignal)
    );
    assert_eq!(
        accept_step(LoopState::Accepting, LoopEvent::Signal { running: false }),
        (LoopState::Accepting, LoopAction::Accept)
    );
}
