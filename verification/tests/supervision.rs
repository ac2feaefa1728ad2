use messycanvas::cfg::{Config, Error};
use messycanvas::daemon::DaemonState;
use messycanvas::srv::ServerSpawnError;

#[test]
fn hot_address_change_runs_two_cycles() {
    let mut cycles: u32 = 0;

    // First cycle: the file holds address A, the server reports a change.
    let first = Config::try_from_str("[general]\nlisten_addr = \"A\"\n");
    let state = DaemonState::next_after_load(first);
    let config = match state {
        DaemonState::Spawning(c) => c,
        other => panic!("expected a spawn, got {:?}", other),
    };
    assert_eq!(config.listen_addr, "A");
    cycles += 1;
    let state = DaemonState::next_after_spawn(Err(ServerSpawnError::AddressChanged));
    assert_eq!(state, DaemonState::Loading);

    // Second cycle: the file changed on disk, the server exits in order.
    let second = Config::try_from_str("[general]\nlisten_addr = \"B\"\n");
    let state = DaemonState::next_after_load(second);
    let config = match state {
        DaemonState::Spawning(c) => c,
        other => panic!("expected a spawn, got {:?}", other),
    };
    assert_eq!(config.listen_addr, "B");
    cycles += 1;
    let state = DaemonState::next_after_spawn(Ok(()));

    assert_eq!(state, DaemonState::ExitOk);
    assert_eq!(state.exit_status(), Some(0));
    assert_eq!(cycles, 2);
}

#[test]
fn unreadable_resource_is_fatal_before_any_spawn() {
    let loaded = Config::try_from_read(Err("no such file or directory".to_string()));
    let state = DaemonState::next_after_load(loaded);
    match &state {
        DaemonState::ExitFailure(Error::Io(m)) => assert_eq!(m, "no such file or directory"),
        other => panic!("expected a fatal I/O failure, got {:?}", other),
    }
    assert_eq!(state.exit_status(), Some(1));
}

#[test]
fn invalid_configuration_is_fatal() {
    let loaded = Config::try_from_str("general = 3\n");
    let state = DaemonState::next_after_load(loaded);
    assert!(matches!(state, DaemonState::ExitFailure(Error::Integrity(_))));
    assert_eq!(state.exit_status(), Some(1));
}

#[test]
fn orderly_exit_terminates_with_success() {
    let state = DaemonState::next_after_spawn(Ok(()));
    assert_eq!(state, DaemonState::ExitOk);
    assert_eq!(state.exit_status(), Some(0));
}

#[test]
fn spawn_io_failure_is_fatal() {
    let state = DaemonState::next_after_spawn(Err(ServerSpawnError::Io(
        "address in use".to_string(),
    )));
    assert_eq!(
        state,
        DaemonState::ExitFailure(Error::Io("address in use".to_string()))
    );
    assert_eq!(state.exit_status(), Some(1));
}

#[test]
fn only_an_address_change_restarts() {
    let state = DaemonState::next_after_spawn(Err(ServerSpawnError::AddressChanged));
    assert_eq!(state, DaemonState::Loading);
    assert_eq!(state.exit_status(), None);
}
