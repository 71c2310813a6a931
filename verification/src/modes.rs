//! The workload modes that drive power policy.

use crate::error::DaemonError;
use vstd::prelude::*;
use vstd::std_specs::convert::TryFromSpecImpl;

verus! {

/// Whether an interactive foreground subsystem is active.
#[derive(Clone, Copy, PartialEq, Eq, Structural, Debug)]
pub enum GameMode {
    /// Game mode is off.
    Off,
    /// Game mode is on, borealis is the foreground subsystem.
    Borealis,
}

/// Whether real-time audio communication is in progress.
#[derive(Clone, Copy, PartialEq, Eq, Structural, Debug)]
pub enum RTCAudioActive {
    /// RTC is not active.
    Inactive,
    /// RTC is active, RTC audio is playing and recording.
    Active,
}

/// Whether fullscreen video playback is in progress.
#[derive(Clone, Copy, PartialEq, Eq, Structural, Debug)]
pub enum FullscreenVideo {
    /// Full screen video is not active.
    Inactive,
    /// Full screen video is active.
    Active,
}

impl GameMode {
    /// The number that stands for this mode on the bus.
    pub open spec fn encoding(self) -> u8 {
        match self {
            GameMode::Off => 0,
            GameMode::Borealis => 1,
        }
    }

    /// The mode that `raw` stands for, if any.
    pub open spec fn decode(raw: u8) -> Option<GameMode> {
        if raw == 0 {
            Some(GameMode::Off)
        } else if raw == 1 {
            Some(GameMode::Borealis)
        } else {
            None
        }
    }

    /// The number that stands for this mode on the bus.
    pub fn to_u8(self) -> (raw: u8)
        ensures
            raw == self.encoding(),
    {
        match self {
            GameMode::Off => 0,
            GameMode::Borealis => 1,
        }
    }
}

impl TryFrom<u8> for GameMode {
    type Error = DaemonError;

    fn try_from(mode_raw: u8) -> (r: Result<GameMode, DaemonError>)
    {
        match mode_raw {
            0 => Ok(GameMode::Off),
            1 => Ok(GameMode::Borealis),
            _ => Err(DaemonError::InvalidArgument),
        }
    }
}

impl TryFromSpecImpl<u8> for GameMode {
    open spec fn obeys_try_from_spec() -> bool {
        true
    }

    open spec fn try_from_spec(mode_raw: u8) -> Result<GameMode, DaemonError> {
        match GameMode::decode(mode_raw) {
            Some(mode) => Ok(mode),
            None => Err(DaemonError::InvalidArgument),
        }
    }
}

impl RTCAudioActive {
    /// The mode that `raw` stands for, if any.
    pub open spec fn decode(raw: u8) -> Option<RTCAudioActive> {
        if raw == 0 {
            Some(RTCAudioActive::Inactive)
        } else if raw == 1 {
            Some(RTCAudioActive::Active)
        } else {
            None
        }
    }
}

impl TryFrom<u8> for RTCAudioActive {
    type Error = DaemonError;

    fn try_from(active_raw: u8) -> (r: Result<RTCAudioActive, DaemonError>)
    {
        match active_raw {
            0 => Ok(RTCAudioActive::Inactive),
            1 => Ok(RTCAudioActive::Active),
            _ => Err(DaemonError::InvalidArgument),
        }
    }
}

impl TryFromSpecImpl<u8> for RTCAudioActive {
    open spec fn obeys_try_from_spec() -> bool {
        true
    }

    open spec fn try_from_spec(active_raw: u8) -> Result<RTCAudioActive, DaemonError> {
        match RTCAudioActive::decode(active_raw) {
            Some(mode) => Ok(mode),
            None => Err(DaemonError::InvalidArgument),
        }
    }
}

impl FullscreenVideo {
    /// The mode that `raw` stands for, if any.
    pub open spec fn decode(raw: u8) -> Option<FullscreenVideo> {
        if raw == 0 {
            Some(FullscreenVideo::Inactive)
        } else if raw == 1 {
            Some(FullscreenVideo::Active)
        } else {
            None
        }
    }
}

impl TryFrom<u8> for FullscreenVideo {
    type Error = DaemonError;

    fn try_from(mode_raw: u8) -> (r: Result<FullscreenVideo, DaemonError>)
    {
        match mode_raw {
            0 => Ok(FullscreenVideo::Inactive),
            1 => Ok(FullscreenVideo::Active),
            _ => Err(DaemonError::InvalidArgument),
        }
    }
}

impl TryFromSpecImpl<u8> for FullscreenVideo {
    open spec fn obeys_try_from_spec() -> bool {
        true
    }

    open spec fn try_from_spec(mode_raw: u8) -> Result<FullscreenVideo, DaemonError> {
        match FullscreenVideo::decode(mode_raw) {
            Some(mode) => Ok(mode),
            None => Err(DaemonError::InvalidArgument),
        }
    }
}

/// Encoding a game mode and decoding the number gives the mode back, and
/// only the encodings of the two modes decode at all.
pub proof fn lemma_game_mode_encoding_round_trip(mode: GameMode, raw: u8)
    ensures
        GameMode::decode(mode.encoding()) == Some(mode),
        GameMode::decode(raw) matches Some(m) ==> m.encoding() == raw,
        GameMode::decode(raw) is Some <==> raw == 0 || raw == 1,
{
}

} // verus!
