use resourced::error::DaemonError;
use resourced::modes::{FullscreenVideo, GameMode, RTCAudioActive};
use std::convert::TryFrom;

#[test]
fn game_mode_from_u8() {
    assert_eq!(GameMode::try_from(0u8), Ok(GameMode::Off));
    assert_eq!(GameMode::try_from(1u8), Ok(GameMode::Borealis));
    assert_eq!(GameMode::try_from(2u8), Err(DaemonError::InvalidArgument));
    assert_eq!(GameMode::try_from(255u8), Err(DaemonError::InvalidArgument));
}

#[test]
fn game_mode_encoding_round_trip() {
    assert_eq!(GameMode::Off.to_u8(), 0);
    assert_eq!(GameMode::Borealis.to_u8(), 1);
    for raw in 0u8..=255 {
        match GameMode::try_from(raw) {
            Ok(mode) => assert_eq!(mode.to_u8(), raw),
            Err(e) => {
                assert!(raw > 1);
                assert_eq!(e, DaemonError::InvalidArgument);
            }
        }
    }
}

#[test]
fn rtc_audio_active_from_u8() {
    assert_eq!(RTCAudioActive::try_from(0u8), Ok(RTCAudioActive::Inactive));
    assert_eq!(RTCAudioActive::try_from(1u8), Ok(RTCAudioActive::Active));
    assert_eq!(RTCAudioActive::try_from(2u8), Err(DaemonError::InvalidArgument));
}

#[test]
fn fullscreen_video_from_u8() {
    assert_eq!(FullscreenVideo::try_from(0u8), Ok(FullscreenVideo::Inactive));
    assert_eq!(FullscreenVideo::try_from(1u8), Ok(FullscreenVideo::Active));
    assert_eq!(FullscreenVideo::try_from(200u8), Err(DaemonError::InvalidArgument));
}
