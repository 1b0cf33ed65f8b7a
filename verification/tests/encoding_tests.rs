use broadcast_client::car_number::encode_car_number;
use broadcast_client::command::encode;
use broadcast_client::command::CAMERA_STATE_FLAGS_MASK;
use broadcast_client::command::CAMERA_STATE_UI_HIDDEN;
use broadcast_client::modes::ChatCommandMode;
use broadcast_client::modes::PitCommandMode;
use broadcast_client::modes::ReplayPositionMode;
use broadcast_client::modes::ReplaySearchMode;
use broadcast_client::modes::TelemetryCommandMode;
use broadcast_client::modes::VideoCaptureMode;
use broadcast_client::wire::pack;
use broadcast_client::wire::unpack;
use broadcast_client::wire::EncodedMessage;
use broadcast_client::BroadcastError;
use broadcast_client::Command;

fn msg(msg_type: u16, var1: u16, var2: u16, var3: u16) -> EncodedMessage {
    EncodedMessage { msg_type, var1, var2, var3 }
}

#[test]
fn encoding_is_deterministic_for_every_family() {
    let commands = vec![
        Command::CameraSwitchPosition(1, 2, 3),
        Command::CameraSwitchNumber(String::from("01"), 2, 3),
        Command::CameraSetState(0x155),
        Command::ReplaySetPlaySpeed(4, true),
        Command::ReplaySetPlayPosition(ReplayPositionMode::Current, 9000),
        Command::ReplaySearch(ReplaySearchMode::NextLap),
        Command::ReplaySetState,
        Command::ReloadAllTextures,
        Command::ReloadTextures(7),
        Command::ChatCommand(ChatCommandMode::Reply),
        Command::ChatCommandMacro(11),
        Command::PitCommand(PitCommandMode::Fuel, 42),
        Command::TelemetryCommand(TelemetryCommandMode::Restart),
        Command::FFBCommand(300),
        Command::ReplaySearchSessionTime(2, 1500),
        Command::VideoCapture(VideoCaptureMode::ToggleCapture),
    ];
    for command in &commands {
        assert_eq!(encode(command), encode(command));
        assert_eq!(pack(&encode(command)), pack(&encode(command)));
    }
}

#[test]
fn camera_switch_position_encoding() {
    let m = encode(&Command::CameraSwitchPosition(1, 2, 3));
    assert_eq!(m, msg(0, 1, 2, 3));
}

#[test]
fn camera_switch_number_encoding() {
    let m = encode(&Command::CameraSwitchNumber(String::from("001"), 2, 3));
    assert_eq!(m, msg(1, 3001, 2, 3));
}

#[test]
fn camera_state_in_range_passes_through() {
    let m = encode(&Command::CameraSetState(CAMERA_STATE_UI_HIDDEN));
    assert_eq!(m, msg(2, 0x08, 0, 0));
}

#[test]
fn camera_state_out_of_range_bits_truncate() {
    let m = encode(&Command::CameraSetState(0xFFFF_FFFF));
    assert_eq!(m, msg(2, CAMERA_STATE_FLAGS_MASK as u16, 0, 0));
    let high_only = encode(&Command::CameraSetState(0xFFFF_FE00));
    assert_eq!(high_only, msg(2, 0, 0, 0));
}

#[test]
fn replay_play_speed_encoding() {
    assert_eq!(encode(&Command::ReplaySetPlaySpeed(4, true)), msg(3, 4, 1, 0));
    assert_eq!(encode(&Command::ReplaySetPlaySpeed(16, false)), msg(3, 16, 0, 0));
}

#[test]
fn replay_play_position_encoding() {
    let m = encode(&Command::ReplaySetPlayPosition(ReplayPositionMode::End, 600));
    assert_eq!(m, msg(4, 2, 600, 0));
}

#[test]
fn replay_search_next_lap_round_trip() {
    let m = encode(&Command::ReplaySearch(ReplaySearchMode::NextLap));
    assert_eq!(m, msg(5, ReplaySearchMode::NextLap.value(), 0, 0));
    assert_eq!(m.var1, 5);
    let recovered = ReplaySearchMode::from_value(m.var1);
    assert_eq!(recovered, Some(ReplaySearchMode::NextLap));
}

#[test]
fn replay_state_and_texture_encodings() {
    assert_eq!(encode(&Command::ReplaySetState), msg(6, 0, 0, 0));
    assert_eq!(encode(&Command::ReloadAllTextures), msg(7, 0, 0, 0));
    assert_eq!(encode(&Command::ReloadTextures(9)), msg(7, 9, 0, 0));
}

#[test]
fn chat_encodings() {
    assert_eq!(encode(&Command::ChatCommand(ChatCommandMode::Begin)), msg(8, 1, 0, 0));
    assert_eq!(encode(&Command::ChatCommandMacro(11)), msg(8, 0, 11, 0));
}

#[test]
fn telemetry_ffb_session_time_capture_encodings() {
    assert_eq!(encode(&Command::TelemetryCommand(TelemetryCommandMode::Start)), msg(10, 1, 0, 0));
    assert_eq!(encode(&Command::FFBCommand(300)), msg(11, 0, 300, 0));
    assert_eq!(encode(&Command::ReplaySearchSessionTime(2, 1500)), msg(12, 2, 1500, 0));
    assert_eq!(encode(&Command::VideoCapture(VideoCaptureMode::ScreenShot)), msg(13, 0, 0, 0));
}

#[test]
fn pit_modes_requiring_value_fail_without_one() {
    let value_modes = [
        PitCommandMode::Fuel,
        PitCommandMode::Lf,
        PitCommandMode::Rf,
        PitCommandMode::Lr,
        PitCommandMode::Rr,
    ];
    for mode in value_modes {
        assert_eq!(Command::pit(mode, None).unwrap_err(), BroadcastError::InvalidArgument);
    }
}

#[test]
fn pit_modes_requiring_value_carry_it() {
    let m = encode(&Command::pit(PitCommandMode::Fuel, Some(42)).unwrap());
    assert_eq!(m, msg(9, 2, 42, 0));
    let lf = encode(&Command::pit(PitCommandMode::Lf, Some(180)).unwrap());
    assert_eq!(lf, msg(9, 3, 180, 0));
    let rf = encode(&Command::pit(PitCommandMode::Rf, Some(181)).unwrap());
    assert_eq!(rf, msg(9, 4, 181, 0));
    let lr = encode(&Command::pit(PitCommandMode::Lr, Some(182)).unwrap());
    assert_eq!(lr, msg(9, 5, 182, 0));
    let rr = encode(&Command::pit(PitCommandMode::Rr, Some(183)).unwrap());
    assert_eq!(rr, msg(9, 6, 183, 0));
}

#[test]
fn pit_modes_without_value_accept_and_ignore_one() {
    let plain_modes = [
        (PitCommandMode::Clear, 0u16),
        (PitCommandMode::Tearoff, 1),
        (PitCommandMode::ClearTires, 7),
        (PitCommandMode::FastRepair, 8),
        (PitCommandMode::ClearTearoff, 9),
        (PitCommandMode::ClearFastRepair, 10),
        (PitCommandMode::ClearFuel, 11),
    ];
    for (mode, wire_mode) in plain_modes {
        let with_value = Command::pit(mode, Some(99)).unwrap();
        assert_eq!(encode(&with_value), msg(9, wire_mode, 0, 0));
        let without = Command::pit(mode, None).unwrap();
        assert_eq!(encode(&without), msg(9, wire_mode, 0, 0));
    }
}

#[test]
fn mode_discriminants_round_trip() {
    let searches = [
        ReplaySearchMode::ToStart,
        ReplaySearchMode::ToEnd,
        ReplaySearchMode::PreviousSession,
        ReplaySearchMode::NextSession,
        ReplaySearchMode::PreviousLap,
        ReplaySearchMode::NextLap,
        ReplaySearchMode::PreviousFrame,
        ReplaySearchMode::NextFrame,
        ReplaySearchMode::PreviousIncident,
        ReplaySearchMode::NextIncident,
    ];
    for (i, mode) in searches.into_iter().enumerate() {
        assert_eq!(mode.value(), i as u16);
        assert_eq!(ReplaySearchMode::from_value(i as u16), Some(mode));
    }
    assert_eq!(ReplaySearchMode::from_value(10), None);
    let positions = [ReplayPositionMode::Begin, ReplayPositionMode::Current, ReplayPositionMode::End];
    for (i, mode) in positions.into_iter().enumerate() {
        assert_eq!(mode.value(), i as u16);
        assert_eq!(ReplayPositionMode::from_value(i as u16), Some(mode));
    }
    assert_eq!(ReplayPositionMode::from_value(3), None);
    let chats = [
        ChatCommandMode::Macro,
        ChatCommandMode::Begin,
        ChatCommandMode::Reply,
        ChatCommandMode::Cancel,
    ];
    for (i, mode) in chats.into_iter().enumerate() {
        assert_eq!(mode.value(), i as u16);
        assert_eq!(ChatCommandMode::from_value(i as u16), Some(mode));
    }
    assert_eq!(ChatCommandMode::from_value(4), None);
    let telemetry = [
        TelemetryCommandMode::Stop,
        TelemetryCommandMode::Start,
        TelemetryCommandMode::Restart,
    ];
    for (i, mode) in telemetry.into_iter().enumerate() {
        assert_eq!(mode.value(), i as u16);
        assert_eq!(TelemetryCommandMode::from_value(i as u16), Some(mode));
    }
    assert_eq!(TelemetryCommandMode::from_value(3), None);
    let captures = [
        VideoCaptureMode::ScreenShot,
        VideoCaptureMode::StartCapture,
        VideoCaptureMode::EndCapture,
        VideoCaptureMode::ToggleCapture,
        VideoCaptureMode::ShowTimer,
        VideoCaptureMode::HideTimer,
    ];
    for (i, mode) in captures.into_iter().enumerate() {
        assert_eq!(mode.value(), i as u16);
        assert_eq!(VideoCaptureMode::from_value(i as u16), Some(mode));
    }
    assert_eq!(VideoCaptureMode::from_value(6), None);
    let pits = [
        PitCommandMode::Clear,
        PitCommandMode::Tearoff,
        PitCommandMode::Fuel,
        PitCommandMode::Lf,
        PitCommandMode::Rf,
        PitCommandMode::Lr,
        PitCommandMode::Rr,
        PitCommandMode::ClearTires,
        PitCommandMode::FastRepair,
        PitCommandMode::ClearTearoff,
        PitCommandMode::ClearFastRepair,
        PitCommandMode::ClearFuel,
    ];
    for (i, mode) in pits.into_iter().enumerate() {
        assert_eq!(mode.value(), i as u16);
    }
}

#[test]
fn pack_and_unpack_are_inverse() {
    let m = msg(9, 2, 42, 0);
    let (w1, w2) = pack(&m);
    assert_eq!(w1, 9 | (2 << 16));
    assert_eq!(w2, 42);
    assert_eq!(unpack(w1, w2), m);
    let full = msg(0xABCD, 0x1234, 0x5678, 0x9EF0);
    let (f1, f2) = pack(&full);
    assert_eq!(unpack(f1, f2), full);
}

#[test]
fn car_numbers_keep_leading_zeros_distinct() {
    assert_eq!(encode_car_number("1"), 1);
    assert_eq!(encode_car_number("01"), 2001);
    assert_eq!(encode_car_number("001"), 3001);
    assert_eq!(encode_car_number("12"), 12);
    assert_eq!(encode_car_number("012"), 3012);
    assert_eq!(encode_car_number("123"), 123);
    assert_eq!(encode_car_number("0123"), 4123);
}

#[test]
fn car_number_zero_strings() {
    assert_eq!(encode_car_number("0"), 0);
    assert_eq!(encode_car_number("00"), 2000);
    assert_eq!(encode_car_number("000"), 3000);
}

#[test]
fn car_number_malformed_falls_back_to_zero() {
    assert_eq!(encode_car_number(""), 0);
    assert_eq!(encode_car_number("car"), 0);
    assert_eq!(encode_car_number("1x"), 0);
    assert_eq!(encode_car_number("99999"), 0);
}

#[test]
fn car_number_pathological_zero_run_wraps_into_slot() {
    let long = "0".repeat(70);
    // 69 padding zeros: (0 + 1000 * (1 + 69)) mod 2^16
    assert_eq!(encode_car_number(&long), (70000u32 % 65536) as u16);
}
