use midi_remap::errors::{PortLostError, PortOpenError};
use midi_remap::ports::{check_ports, find_port, resolve_ports, Endpoints};
use midi_remap::supervisor::{Action, Event, State, COOLDOWN_SECS, POLL_INTERVAL_SECS};

fn names(list: &[&str]) -> Vec<String> {
    list.iter().map(|s| s.to_string()).collect()
}

#[test]
fn open_error_names_the_port() {
    let e = PortOpenError::from_port("Keystation");
    assert_eq!(e.port_name(), "Keystation");
    assert_eq!(e.message(), "Could not open port Keystation");
    assert_eq!(e.clone().message(), "Could not open port Keystation");
    assert_eq!(PortOpenError::from_port("").message(), "Could not open port ");
}

#[test]
fn lost_error_names_the_port() {
    let e = PortLostError::from_port("Synth 1");
    assert_eq!(e.port_name(), "Synth 1");
    assert_eq!(e.message(), "Lost port Synth 1");
    assert_eq!(e.clone().message(), "Lost port Synth 1");
}

#[test]
fn find_port_returns_the_first_exact_match() {
    let available = names(&["a", "Keys", "keys", "Keys", "Keys 2"]);
    assert_eq!(find_port(&available, &"Keys".to_string()), Some(1));
    assert_eq!(find_port(&available, &"keys".to_string()), Some(2));
    assert_eq!(find_port(&available, &"Keys 2".to_string()), Some(4));
    assert_eq!(find_port(&available, &"Key".to_string()), None);
    assert_eq!(find_port(&Vec::new(), &"Keys".to_string()), None);
}

#[test]
fn resolve_ports_finds_both() {
    let inputs = names(&["Through", "Keys"]);
    let outputs = names(&["Synth", "Through"]);
    let found = resolve_ports(&inputs, &outputs, &"Keys".to_string(), &"Synth".to_string());
    assert_eq!(found.unwrap(), Endpoints { input: 1, output: 0 });
}

#[test]
fn missing_input_fails_the_open_and_is_retried_after_cooldown() {
    let inputs = names(&["Through"]);
    let outputs = names(&["Synth"]);
    let outcome = resolve_ports(&inputs, &outputs, &"Keys".to_string(), &"Synth".to_string());
    assert_eq!(outcome.as_ref().unwrap_err().message(), "Could not open port Keys");

    let state = State::initial();
    assert_eq!(state, State::Starting);
    assert_eq!(state.action(), Action::Open);
    let event = Event::of_open(&outcome);
    assert_eq!(event, Event::OpenFailed);
    let state = state.next_state(event);
    assert_eq!(state, State::Cooldown);
    assert_eq!(state.action(), Action::Wait { secs: COOLDOWN_SECS });
    let state = state.next_state(Event::Waited);
    assert_eq!(state, State::Starting);
    assert_eq!(state.action(), Action::Open);
}

#[test]
fn missing_output_fails_the_open() {
    let inputs = names(&["Keys"]);
    let outputs = names(&["Keys"]);
    let outcome = resolve_ports(&inputs, &outputs, &"Keys".to_string(), &"Synth".to_string());
    assert_eq!(outcome.unwrap_err().port_name(), "Synth");
    let outcome = resolve_ports(&outputs, &inputs, &"Synth".to_string(), &"Nothing".to_string());
    assert_eq!(outcome.unwrap_err().port_name(), "Synth");
}

#[test]
fn lost_port_ends_the_session_and_restarts_after_delay() {
    let name_in = "Keys".to_string();
    let name_out = "Synth".to_string();
    let outputs = names(&["Synth"]);

    let opened = resolve_ports(&names(&["Keys"]), &outputs, &name_in, &name_out);
    let mut state = State::initial().next_state(Event::of_open(&opened));
    assert_eq!(state, State::SessionActive);
    assert_eq!(state.action(), Action::Poll { secs: POLL_INTERVAL_SECS });

    let tick = check_ports(&names(&["Keys"]), &outputs, &name_in, &name_out);
    assert!(tick.is_ok());
    state = state.next_state(Event::of_tick(&tick));
    assert_eq!(state, State::SessionActive);

    let tick = check_ports(&names(&[]), &outputs, &name_in, &name_out);
    assert_eq!(tick.as_ref().unwrap_err().message(), "Lost port Keys");
    state = state.next_state(Event::of_tick(&tick));
    assert_eq!(state, State::SessionLost);
    assert_eq!(state.action(), Action::Release);
    state = state.next_state(Event::Released);
    assert_eq!(state, State::Cooldown);
    assert_eq!(state.action(), Action::Wait { secs: 1 });
    state = state.next_state(Event::Waited);
    assert_eq!(state, State::Starting);
}

#[test]
fn watchdog_checks_each_name_in_its_own_direction() {
    let name_in = "Keys".to_string();
    let name_out = "Synth".to_string();
    let tick = check_ports(&names(&["Keys"]), &names(&["Keys"]), &name_in, &name_out);
    assert_eq!(tick.unwrap_err().port_name(), "Synth");
    let tick = check_ports(&names(&["Synth"]), &names(&["Synth"]), &name_in, &name_out);
    assert_eq!(tick.unwrap_err().port_name(), "Keys");
    let tick = check_ports(&names(&["Synth"]), &names(&["Keys"]), &name_in, &name_out);
    assert_eq!(tick.unwrap_err().port_name(), "Keys");
    let tick = check_ports(&names(&["x", "Keys"]), &names(&["Synth", "y"]), &name_in, &name_out);
    assert!(tick.is_ok());
}

#[test]
fn fault_in_a_session_releases_it() {
    let state = State::SessionActive.next_state(Event::Fault);
    assert_eq!(state, State::SessionFailed);
    assert_eq!(state.action(), Action::Release);
    assert_eq!(state.next_state(Event::Released), State::Cooldown);
}

#[test]
fn stray_events_open_nothing_and_skip_nothing() {
    let all = [
        Event::Opened,
        Event::OpenFailed,
        Event::PortsPresent,
        Event::PortLost,
        Event::Fault,
        Event::Released,
        Event::Waited,
    ];
    for event in all {
        if event != Event::Opened {
            assert_eq!(State::Starting.next_state(event), State::Cooldown);
        }
        if event != Event::Waited {
            assert_eq!(State::Cooldown.next_state(event), State::Cooldown);
        }
        if event != Event::Released {
            assert_eq!(State::SessionLost.next_state(event), State::SessionLost);
            assert_eq!(State::SessionFailed.next_state(event), State::SessionFailed);
        }
        if event != Event::PortsPresent && event != Event::PortLost {
            assert_eq!(State::SessionActive.next_state(event), State::SessionFailed);
        }
    }
}
