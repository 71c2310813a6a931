//! The service facade: the operations that the daemon offers on the message
//! bus, and the event that it broadcasts.
//!
//! The functions here decide what a request is answered with. Numbers that
//! come from the memory-pressure subsystem are handed in by the caller.

use crate::error::{DaemonError, ErrorView};
use crate::modes::GameMode;
use crate::state::{CellView, StateCell};
use vstd::prelude::*;

verus! {

/// The name under which the daemon is known on the bus.
pub const SERVICE_NAME: &'static str = "org.chromium.ResourceManager";

/// The path of the object that the daemon exports.
pub const PATH_NAME: &'static str = "/org/chromium/ResourceManager";

/// The interface of that object; it is named like the service.
pub const INTERFACE_NAME: &'static str = "org.chromium.ResourceManager";

/// The name of the event that is broadcast on every tick of the timer.
pub const PRESSURE_SIGNAL_NAME: &'static str = "MemoryPressureChrome";

/// What a request is answered with when it succeeds.
#[derive(Clone, Copy, PartialEq, Eq, Structural, Debug)]
pub enum Reply {
    /// An amount of available memory, in kilobytes.
    Available(u64),
    /// The two memory margin thresholds, in kilobytes.
    Margins(u64, u64),
    /// The encoding of the game mode.
    GameMode(u8),
    /// Nothing: the request has no output.
    Empty,
}

/// What a request is answered with when it fails: the kind of failure and
/// the text that goes to the caller.
#[derive(Debug, PartialEq, Eq)]
pub struct MethodErr {
    pub kind: DaemonError,
    pub message: &'static str,
}

/// A [`MethodErr`] over views.
pub struct MethodErrView {
    pub kind: ErrorView,
    pub message: Seq<char>,
}

impl View for MethodErr {
    type V = MethodErrView;

    open spec fn view(&self) -> MethodErrView {
        MethodErrView { kind: self.kind@, message: self.message@ }
    }
}

/// An answer with its failure given by its view.
pub open spec fn answer_view(answer: Result<Reply, MethodErr>) -> Result<Reply, MethodErrView> {
    match answer {
        Ok(reply) => Ok(reply),
        Err(e) => Err(e@),
    }
}

/// The answer to `GetAvailableMemoryKB` when the memory subsystem reported
/// `available`, or failed if that is `None`.
pub open spec fn available_memory_answer(available: Option<u64>) -> Result<Reply, MethodErrView> {
    match available {
        Some(kb) => Ok(Reply::Available(kb)),
        None => Err(
            MethodErrView {
                kind: ErrorView::CollaboratorError,
                message: "Couldn't get available memory"@,
            },
        ),
    }
}

/// The answer to `GetForegroundAvailableMemoryKB` when the memory subsystem
/// reported `available`, or failed if that is `None`.
pub open spec fn foreground_available_memory_answer(available: Option<u64>) -> Result<
    Reply,
    MethodErrView,
> {
    match available {
        Some(kb) => Ok(Reply::Available(kb)),
        None => Err(
            MethodErrView {
                kind: ErrorView::CollaboratorError,
                message: "Couldn't get foreground available memory"@,
            },
        ),
    }
}

/// The answer to `GetGameMode` on the given cell.
pub open spec fn game_mode_answer(game_mode: CellView<GameMode>) -> Result<Reply, MethodErrView> {
    match game_mode.read() {
        Ok(mode) => Ok(Reply::GameMode(mode.encoding())),
        Err(kind) => Err(MethodErrView { kind, message: "Failed to get game mode"@ }),
    }
}

/// The answer to `SetGameMode` with the number `raw` on the given cell.
pub open spec fn set_game_mode_answer(game_mode: CellView<GameMode>, raw: u8) -> Result<
    Reply,
    MethodErrView,
> {
    match GameMode::decode(raw) {
        None => Err(
            MethodErrView {
                kind: ErrorView::InvalidArgument,
                message: "Unsupported game mode value"@,
            },
        ),
        Some(_) => match game_mode.write_result() {
            Ok(()) => Ok(Reply::Empty),
            Err(kind) => Err(MethodErrView { kind, message: "Failed to set game mode"@ }),
        },
    }
}

/// The cell after `SetGameMode` with the number `raw`.
pub open spec fn game_mode_after_set(game_mode: CellView<GameMode>, raw: u8) -> CellView<
    GameMode,
> {
    match GameMode::decode(raw) {
        None => game_mode,
        Some(mode) => game_mode.written(mode),
    }
}

/// `GetAvailableMemoryKB`: passes on what the memory subsystem reported.
pub fn get_available_memory_kb(available: Option<u64>) -> (answer: Result<Reply, MethodErr>)
    ensures
        answer_view(answer) == available_memory_answer(available),
{
    match available {
        Some(kb) => Ok(Reply::Available(kb)),
        None => Err(
            MethodErr {
                kind: DaemonError::CollaboratorError,
                message: "Couldn't get available memory",
            },
        ),
    }
}

/// `GetForegroundAvailableMemoryKB`: passes on what the memory subsystem
/// reported for the foreground.
pub fn get_foreground_available_memory_kb(available: Option<u64>) -> (answer: Result<
    Reply,
    MethodErr,
>)
    ensures
        answer_view(answer) == foreground_available_memory_answer(available),
{
    match available {
        Some(kb) => Ok(Reply::Available(kb)),
        None => Err(
            MethodErr {
                kind: DaemonError::CollaboratorError,
                message: "Couldn't get foreground available memory",
            },
        ),
    }
}

/// The answer to `GetMemoryMarginsKB` when the memory subsystem reported
/// the thresholds `margins`.
pub open spec fn memory_margins_answer(margins: (u64, u64)) -> Reply {
    Reply::Margins(margins.0, margins.1)
}

/// `GetMemoryMarginsKB`: passes on the two thresholds. It cannot fail, and
/// it neither reads nor changes the store.
pub fn get_memory_margins_kb(margins: (u64, u64)) -> (reply: Reply)
    ensures
        reply == memory_margins_answer(margins),
{
    Reply::Margins(margins.0, margins.1)
}

/// `GetGameMode`: the encoding of the game mode that was recorded last.
pub fn get_game_mode(game_mode: &StateCell<GameMode>) -> (answer: Result<Reply, MethodErr>)
    ensures
        answer_view(answer) == game_mode_answer(game_mode@),
{
    match crate::state::get_game_mode(game_mode) {
        Ok(game_mode) => Ok(Reply::GameMode(game_mode.to_u8())),
        Err(kind) => Err(MethodErr { kind, message: "Failed to get game mode" }),
    }
}

/// `SetGameMode`: records the mode that `raw` stands for. A number that
/// stands for no mode is refused, and the cell stays as it is.
pub fn set_game_mode(game_mode: &mut StateCell<GameMode>, raw: u8) -> (answer: Result<
    Reply,
    MethodErr,
>)
    ensures
        answer_view(answer) == set_game_mode_answer(old(game_mode)@, raw),
        final(game_mode)@ == game_mode_after_set(old(game_mode)@, raw),
{
    let mode = match raw {
        0 => GameMode::Off,
        1 => GameMode::Borealis,
        _ => {
            return Err(
                MethodErr {
                    kind: DaemonError::InvalidArgument,
                    message: "Unsupported game mode value",
                },
            );
        },
    };
    match crate::state::set_game_mode(game_mode, mode) {
        Ok(()) => Ok(Reply::Empty),
        Err(kind) => Err(MethodErr { kind, message: "Failed to set game mode" }),
    }
}

/// The kind of value that an argument of the broadcast event carries.
#[derive(Clone, Copy, PartialEq, Eq, Structural, Debug)]
pub enum ArgKind {
    Byte,
    UInt64,
}

/// The shape of the broadcast event: its name and its two arguments.
#[derive(Clone, Copy, Debug, PartialEq, Eq)]
pub struct SignalSpec {
    pub name: &'static str,
    pub args: [(&'static str, ArgKind); 2],
}

/// One broadcast of the memory-pressure event.
#[derive(Clone, Copy, PartialEq, Eq, Structural, Debug)]
pub struct PressureSignal {
    pub pressure_level: u8,
    pub memory_delta: u64,
}

/// The shape of the event `MemoryPressureChrome`: a pressure level of one
/// byte, then a memory delta of 64 bits.
pub fn create_pressure_chrome_signal() -> (signal: SignalSpec)
    ensures
        signal.name@ == PRESSURE_SIGNAL_NAME@,
        signal.args[0].0@ == "pressure_level"@ && signal.args[0].1 == ArgKind::Byte,
        signal.args[1].0@ == "memory_delta"@ && signal.args[1].1 == ArgKind::UInt64,
{
    SignalSpec {
        name: PRESSURE_SIGNAL_NAME,
        args: [("pressure_level", ArgKind::Byte), ("memory_delta", ArgKind::UInt64)],
    }
}

/// The event to broadcast for the pressure status that the memory subsystem
/// computed.
pub fn send_pressure_chrome_signal(level: u8, delta: u64) -> (signal: PressureSignal)
    ensures
        signal == (PressureSignal { pressure_level: level, memory_delta: delta }),
{
    PressureSignal { pressure_level: level, memory_delta: delta }
}

/// The operations that the daemon offers on the bus.
#[derive(Clone, Copy, PartialEq, Eq, Structural, Debug)]
pub enum Method {
    GetAvailableMemoryKB,
    GetForegroundAvailableMemoryKB,
    GetMemoryMarginsKB,
    GetGameMode,
    SetGameMode,
}

impl Method {
    /// The name of the operation on the bus.
    pub open spec fn name_text(self) -> Seq<char> {
        match self {
            Method::GetAvailableMemoryKB => "GetAvailableMemoryKB"@,
            Method::GetForegroundAvailableMemoryKB => "GetForegroundAvailableMemoryKB"@,
            Method::GetMemoryMarginsKB => "GetMemoryMarginsKB"@,
            Method::GetGameMode => "GetGameMode"@,
            Method::SetGameMode => "SetGameMode"@,
        }
    }

    /// The name of the operation on the bus.
    pub fn name(self) -> (name: &'static str)
        ensures
            name@ == self.name_text(),
    {
        match self {
            Method::GetAvailableMemoryKB => "GetAvailableMemoryKB",
            Method::GetForegroundAvailableMemoryKB => "GetForegroundAvailableMemoryKB",
            Method::GetMemoryMarginsKB => "GetMemoryMarginsKB",
            Method::GetGameMode => "GetGameMode",
            Method::SetGameMode => "SetGameMode",
        }
    }

    /// The operations in the order in which the daemon registers them.
    pub fn all() -> (methods: [Method; 5])
        ensures
            methods@ == seq![
                Method::GetAvailableMemoryKB,
                Method::GetForegroundAvailableMemoryKB,
                Method::GetMemoryMarginsKB,
                Method::GetGameMode,
                Method::SetGameMode,
            ],
    {
        let methods = [
            Method::GetAvailableMemoryKB,
            Method::GetForegroundAvailableMemoryKB,
            Method::GetMemoryMarginsKB,
            Method::GetGameMode,
            Method::SetGameMode,
        ];
        assert(methods@ =~= seq![
            Method::GetAvailableMemoryKB,
            Method::GetForegroundAvailableMemoryKB,
            Method::GetMemoryMarginsKB,
            Method::GetGameMode,
            Method::SetGameMode,
        ]);
        methods
    }
}

/// Recording a game mode by its number and asking for it gives the number
/// back; a number that stands for no mode is refused and changes nothing.
pub proof fn lemma_set_then_get_game_mode(game_mode: CellView<GameMode>, raw: u8)
    ensures
        game_mode.available && (raw == 0 || raw == 1) ==> set_game_mode_answer(game_mode, raw)
            == Ok::<Reply, MethodErrView>(Reply::Empty) && game_mode_answer(
            game_mode_after_set(game_mode, raw),
        ) == Ok::<Reply, MethodErrView>(Reply::GameMode(raw)),
        !(raw == 0 || raw == 1) ==> set_game_mode_answer(game_mode, raw) is Err
            && game_mode_after_set(game_mode, raw) == game_mode && game_mode_answer(
            game_mode_after_set(game_mode, raw),
        ) == game_mode_answer(game_mode),
        set_game_mode_answer(game_mode, raw) is Err ==> game_mode_after_set(game_mode, raw)
            == game_mode,
{
}

/// Asking for the memory margins twice gives the same answer twice, as long
/// as the memory subsystem reports the same thresholds: the answer depends
/// on nothing else, and asking changes nothing.
pub proof fn lemma_memory_margins_answer_is_stable(first: (u64, u64), second: (u64, u64))
    requires
        first == second,
    ensures
        memory_margins_answer(first) == memory_margins_answer(second),
        memory_margins_answer(first) == Reply::Margins(first.0, first.1),
{
}

} // verus!
