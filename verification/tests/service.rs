use resourced::error::DaemonError;
use resourced::modes::GameMode;
use resourced::service::{
    create_pressure_chrome_signal, get_available_memory_kb, get_foreground_available_memory_kb,
    get_game_mode, get_memory_margins_kb, send_pressure_chrome_signal, set_game_mode, ArgKind,
    Method, MethodErr, PressureSignal, Reply, INTERFACE_NAME, PATH_NAME, PRESSURE_SIGNAL_NAME,
    SERVICE_NAME,
};
use resourced::state::StateStore;

#[test]
fn bus_names() {
    assert_eq!(SERVICE_NAME, "org.chromium.ResourceManager");
    assert_eq!(PATH_NAME, "/org/chromium/ResourceManager");
    assert_eq!(INTERFACE_NAME, SERVICE_NAME);
    assert_eq!(PRESSURE_SIGNAL_NAME, "MemoryPressureChrome");
}

#[test]
fn method_names_in_registration_order() {
    let names: Vec<&str> = Method::all().iter().map(|m| m.name()).collect();
    assert_eq!(
        names,
        vec![
            "GetAvailableMemoryKB",
            "GetForegroundAvailableMemoryKB",
            "GetMemoryMarginsKB",
            "GetGameMode",
            "SetGameMode",
        ]
    );
}

#[test]
fn available_memory_is_passed_on() {
    assert_eq!(get_available_memory_kb(Some(123456)), Ok(Reply::Available(123456)));
    assert_eq!(
        get_available_memory_kb(None),
        Err(MethodErr {
            kind: DaemonError::CollaboratorError,
            message: "Couldn't get available memory",
        })
    );
}

#[test]
fn foreground_available_memory_is_passed_on() {
    assert_eq!(get_foreground_available_memory_kb(Some(0)), Ok(Reply::Available(0)));
    assert_eq!(
        get_foreground_available_memory_kb(None),
        Err(MethodErr {
            kind: DaemonError::CollaboratorError,
            message: "Couldn't get foreground available memory",
        })
    );
}

#[test]
fn memory_margins_twice_give_the_same_answer() {
    let first = get_memory_margins_kb((1024, 4096));
    let second = get_memory_margins_kb((1024, 4096));
    assert_eq!(first, Reply::Margins(1024, 4096));
    assert_eq!(first, second);
}

#[test]
fn set_game_mode_then_get_game_mode_by_number() {
    let mut store = StateStore::new();
    assert_eq!(get_game_mode(&store.game_mode), Ok(Reply::GameMode(0)));
    for raw in [1u8, 0, 1, 1] {
        assert_eq!(set_game_mode(&mut store.game_mode, raw), Ok(Reply::Empty));
        assert_eq!(get_game_mode(&store.game_mode), Ok(Reply::GameMode(raw)));
    }
}

#[test]
fn set_game_mode_rejects_other_numbers_and_keeps_the_mode() {
    let mut store = StateStore::new();
    assert_eq!(set_game_mode(&mut store.game_mode, 1), Ok(Reply::Empty));
    for raw in 2u8..=255 {
        assert_eq!(
            set_game_mode(&mut store.game_mode, raw),
            Err(MethodErr {
                kind: DaemonError::InvalidArgument,
                message: "Unsupported game mode value",
            })
        );
        assert_eq!(get_game_mode(&store.game_mode), Ok(Reply::GameMode(1)));
    }
    assert_eq!(resourced::state::get_game_mode(&store.game_mode), Ok(GameMode::Borealis));
}

#[test]
fn game_mode_requests_on_a_poisoned_cell() {
    let mut store = StateStore::new();
    store.game_mode.poison();
    assert_eq!(
        get_game_mode(&store.game_mode),
        Err(MethodErr { kind: DaemonError::StateUnavailable, message: "Failed to get game mode" })
    );
    assert_eq!(
        set_game_mode(&mut store.game_mode, 1),
        Err(MethodErr { kind: DaemonError::StateUnavailable, message: "Failed to set game mode" })
    );
    assert_eq!(
        set_game_mode(&mut store.game_mode, 9),
        Err(MethodErr {
            kind: DaemonError::InvalidArgument,
            message: "Unsupported game mode value",
        })
    );
}

#[test]
fn pressure_signal_shape() {
    let signal = create_pressure_chrome_signal();
    assert_eq!(signal.name, "MemoryPressureChrome");
    assert_eq!(signal.args, [("pressure_level", ArgKind::Byte), ("memory_delta", ArgKind::UInt64)]);
}

#[test]
fn pressure_signal_carries_level_and_delta() {
    assert_eq!(
        send_pressure_chrome_signal(2, 7777),
        PressureSignal { pressure_level: 2, memory_delta: 7777 }
    );
}
