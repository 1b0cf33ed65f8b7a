use crate::car_number::car_number_value;
use crate::car_number::encode_car_number;
use crate::errors::BroadcastError;
use crate::modes::ChatCommandMode;
use crate::modes::PitCommandMode;
use crate::modes::ReplayPositionMode;
use crate::modes::ReplaySearchMode;
use crate::modes::TelemetryCommandMode;
use crate::modes::VideoCaptureMode;
use crate::wire::EncodedMessage;
use crate::wire::MSG_CAMERA_SET_STATE;
use crate::wire::MSG_CAMERA_SWITCH_NUMBER;
use crate::wire::MSG_CAMERA_SWITCH_POSITION;
use crate::wire::MSG_CHAT_COMMAND;
use crate::wire::MSG_FFB_COMMAND;
use crate::wire::MSG_PIT_COMMAND;
use crate::wire::MSG_RELOAD_TEXTURES;
use crate::wire::MSG_REPLAY_SEARCH;
use crate::wire::MSG_REPLAY_SEARCH_SESSION_TIME;
use crate::wire::MSG_REPLAY_SET_PLAY_POSITION;
use crate::wire::MSG_REPLAY_SET_PLAY_SPEED;
use crate::wire::MSG_REPLAY_SET_STATE;
use crate::wire::MSG_TELEMETRY_COMMAND;
use crate::wire::MSG_VIDEO_CAPTURE;
use vstd::prelude::*;

verus! {

/// The camera is on the session screen.
pub const CAMERA_STATE_IS_SESSION_SCREEN: u32 = 0x01;

/// The scenic camera is active (no driver present).
pub const CAMERA_STATE_IS_SCENIC_ACTIVE: u32 = 0x02;

/// The camera tool is active.
pub const CAMERA_STATE_CAM_TOOL_ACTIVE: u32 = 0x04;

/// The user interface is hidden.
pub const CAMERA_STATE_UI_HIDDEN: u32 = 0x08;

/// Automatic shot selection is in use.
pub const CAMERA_STATE_USE_AUTO_SHOT_SELECTION: u32 = 0x10;

/// Temporary camera edits are in use.
pub const CAMERA_STATE_USE_TEMPORARY_EDITS: u32 = 0x20;

/// Keyboard acceleration is in use.
pub const CAMERA_STATE_USE_KEY_ACCELERATION: u32 = 0x40;

/// Ten-times keyboard acceleration is in use.
pub const CAMERA_STATE_USE_KEY_10X_ACCELERATION: u32 = 0x80;

/// Mouse-aim mode is in use.
pub const CAMERA_STATE_USE_MOUSE_AIM_MODE: u32 = 0x100;

/// Every defined camera-state flag: the protocol's flag width. Bits
/// outside this mask are dropped when a camera-state command is encoded.
pub const CAMERA_STATE_FLAGS_MASK: u32 = 0x1FF;

/// One command for the simulator, carrying its family's typed payload.
/// A value is immutable once constructed; each send encodes and delivers
/// it in a single step.
#[derive(Clone, Debug)]
pub enum Command {
    /// Switch camera: position index, camera group, camera index.
    CameraSwitchPosition(u8, u8, u8),
    /// Switch camera: car-number string, camera group, camera index.
    CameraSwitchNumber(String, u8, u8),
    /// Replace the camera-state flag bitmask.
    CameraSetState(u32),
    /// Set replay playback speed, with a slow-motion flag.
    ReplaySetPlaySpeed(u8, bool),
    /// Jump to a replay position: mode and target frame number.
    ReplaySetPlayPosition(ReplayPositionMode, u16),
    /// Search the replay timeline.
    ReplaySearch(ReplaySearchMode),
    /// Toggle the replay state.
    ReplaySetState,
    /// Reload the textures of every car.
    ReloadAllTextures,
    /// Reload the textures of one car, by car index.
    ReloadTextures(u8),
    /// Control chat entry.
    ChatCommand(ChatCommandMode),
    /// Send a numbered chat macro.
    ChatCommandMacro(u8),
    /// Request pit service: mode and its numeric value (meaningful only
    /// for the modes that require one; see [`Command::pit`]).
    PitCommand(PitCommandMode, u8),
    /// Control telemetry recording.
    TelemetryCommand(TelemetryCommandMode),
    /// Send a force-feedback magnitude.
    FFBCommand(u16),
    /// Search the replay to a session-relative time: session index and
    /// time offset in milliseconds.
    ReplaySearchSessionTime(u8, u16),
    /// Control video capture.
    VideoCapture(VideoCaptureMode),
}

/// The wire message a command encodes to.
pub open spec fn encode_spec(c: Command) -> EncodedMessage {
    match c {
        Command::CameraSwitchPosition(position, group, camera) => EncodedMessage {
            msg_type: MSG_CAMERA_SWITCH_POSITION,
            var1: position as u16,
            var2: group as u16,
            var3: camera as u16,
        },
        Command::CameraSwitchNumber(car_number, group, camera) => EncodedMessage {
            msg_type: MSG_CAMERA_SWITCH_NUMBER,
            var1: car_number_value(car_number@),
            var2: group as u16,
            var3: camera as u16,
        },
        Command::CameraSetState(bits) => EncodedMessage {
            msg_type: MSG_CAMERA_SET_STATE,
            var1: (bits & CAMERA_STATE_FLAGS_MASK) as u16,
            var2: 0,
            var3: 0,
        },
        Command::ReplaySetPlaySpeed(speed, slow_motion) => EncodedMessage {
            msg_type: MSG_REPLAY_SET_PLAY_SPEED,
            var1: speed as u16,
            var2: if slow_motion {
                1
            } else {
                0
            },
            var3: 0,
        },
        Command::ReplaySetPlayPosition(mode, frame_number) => EncodedMessage {
            msg_type: MSG_REPLAY_SET_PLAY_POSITION,
            var1: mode.value_spec(),
            var2: frame_number,
            var3: 0,
        },
        Command::ReplaySearch(mode) => EncodedMessage {
            msg_type: MSG_REPLAY_SEARCH,
            var1: mode.value_spec(),
            var2: 0,
            var3: 0,
        },
        Command::ReplaySetState => EncodedMessage {
            msg_type: MSG_REPLAY_SET_STATE,
            var1: 0,
            var2: 0,
            var3: 0,
        },
        Command::ReloadAllTextures => EncodedMessage {
            msg_type: MSG_RELOAD_TEXTURES,
            var1: 0,
            var2: 0,
            var3: 0,
        },
        Command::ReloadTextures(car_index) => EncodedMessage {
            msg_type: MSG_RELOAD_TEXTURES,
            var1: car_index as u16,
            var2: 0,
            var3: 0,
        },
        Command::ChatCommand(mode) => EncodedMessage {
            msg_type: MSG_CHAT_COMMAND,
            var1: mode.value_spec(),
            var2: 0,
            var3: 0,
        },
        Command::ChatCommandMacro(macro_number) => EncodedMessage {
            msg_type: MSG_CHAT_COMMAND,
            var1: ChatCommandMode::Macro.value_spec(),
            var2: macro_number as u16,
            var3: 0,
        },
        Command::PitCommand(mode, value) => EncodedMessage {
            msg_type: MSG_PIT_COMMAND,
            var1: mode.value_spec(),
            var2: if mode.requires_value_spec() {
                value as u16
            } else {
                0
            },
            var3: 0,
        },
        Command::TelemetryCommand(mode) => EncodedMessage {
            msg_type: MSG_TELEMETRY_COMMAND,
            var1: mode.value_spec(),
            var2: 0,
            var3: 0,
        },
        Command::FFBCommand(value) => EncodedMessage {
            msg_type: MSG_FFB_COMMAND,
            var1: 0,
            var2: value,
            var3: 0,
        },
        Command::ReplaySearchSessionTime(session_number, session_time_ms) => EncodedMessage {
            msg_type: MSG_REPLAY_SEARCH_SESSION_TIME,
            var1: session_number as u16,
            var2: session_time_ms,
            var3: 0,
        },
        Command::VideoCapture(mode) => EncodedMessage {
            msg_type: MSG_VIDEO_CAPTURE,
            var1: mode.value_spec(),
            var2: 0,
            var3: 0,
        },
    }
}

/// Encode a command into its wire message. Total: every well-typed
/// command has exactly one encoding, and encoding never fails.
pub fn encode(c: &Command) -> (m: EncodedMessage)
    ensures
        m == encode_spec(*c),
{
    match c {
        Command::CameraSwitchPosition(position, group, camera) => EncodedMessage {
            msg_type: MSG_CAMERA_SWITCH_POSITION,
            var1: *position as u16,
            var2: *group as u16,
            var3: *camera as u16,
        },
        Command::CameraSwitchNumber(car_number, group, camera) => EncodedMessage {
            msg_type: MSG_CAMERA_SWITCH_NUMBER,
            var1: encode_car_number(car_number.as_str()),
            var2: *group as u16,
            var3: *camera as u16,
        },
        Command::CameraSetState(bits) => EncodedMessage {
            msg_type: MSG_CAMERA_SET_STATE,
            var1: (*bits & CAMERA_STATE_FLAGS_MASK) as u16,
            var2: 0,
            var3: 0,
        },
        Command::ReplaySetPlaySpeed(speed, slow_motion) => EncodedMessage {
            msg_type: MSG_REPLAY_SET_PLAY_SPEED,
            var1: *speed as u16,
            var2: if *slow_motion {
                1
            } else {
                0
            },
            var3: 0,
        },
        Command::ReplaySetPlayPosition(mode, frame_number) => EncodedMessage {
            msg_type: MSG_REPLAY_SET_PLAY_POSITION,
            var1: mode.value(),
            var2: *frame_number,
            var3: 0,
        },
        Command::ReplaySearch(mode) => EncodedMessage {
            msg_type: MSG_REPLAY_SEARCH,
            var1: mode.value(),
            var2: 0,
            var3: 0,
        },
        Command::ReplaySetState => EncodedMessage {
            msg_type: MSG_REPLAY_SET_STATE,
            var1: 0,
            var2: 0,
            var3: 0,
        },
        Command::ReloadAllTextures => EncodedMessage {
            msg_type: MSG_RELOAD_TEXTURES,
            var1: 0,
            var2: 0,
            var3: 0,
        },
        Command::ReloadTextures(car_index) => EncodedMessage {
            msg_type: MSG_RELOAD_TEXTURES,
            var1: *car_index as u16,
            var2: 0,
            var3: 0,
        },
        Command::ChatCommand(mode) => EncodedMessage {
            msg_type: MSG_CHAT_COMMAND,
            var1: mode.value(),
            var2: 0,
            var3: 0,
        },
        Command::ChatCommandMacro(macro_number) => EncodedMessage {
            msg_type: MSG_CHAT_COMMAND,
            var1: ChatCommandMode::Macro.value(),
            var2: *macro_number as u16,
            var3: 0,
        },
        Command::PitCommand(mode, value) => EncodedMessage {
            msg_type: MSG_PIT_COMMAND,
            var1: mode.value(),
            var2: if mode.requires_value() {
                *value as u16
            } else {
                0
            },
            var3: 0,
        },
        Command::TelemetryCommand(mode) => EncodedMessage {
            msg_type: MSG_TELEMETRY_COMMAND,
            var1: mode.value(),
            var2: 0,
            var3: 0,
        },
        Command::FFBCommand(value) => EncodedMessage {
            msg_type: MSG_FFB_COMMAND,
            var1: 0,
            var2: *value,
            var3: 0,
        },
        Command::ReplaySearchSessionTime(session_number, session_time_ms) => EncodedMessage {
            msg_type: MSG_REPLAY_SEARCH_SESSION_TIME,
            var1: *session_number as u16,
            var2: *session_time_ms,
            var3: 0,
        },
        Command::VideoCapture(mode) => EncodedMessage {
            msg_type: MSG_VIDEO_CAPTURE,
            var1: mode.value(),
            var2: 0,
            var3: 0,
        },
    }
}

/// The pit payload a mode/value pairing stands for once validated: the
/// value for the modes that require one, zero for the rest.
pub open spec fn pit_payload_spec(mode: PitCommandMode, value: Option<u8>) -> u8 {
    match value {
        Some(v) => if mode.requires_value_spec() {
            v
        } else {
            0
        },
        None => 0,
    }
}

impl Command {
    /// Construct a pit command, enforcing the pairing invariant: a mode
    /// that requires a value (fuel and the four tire positions) without
    /// one is rejected as `InvalidArgument` before anything is encoded or
    /// delivered. A value supplied with a mode that takes none is
    /// accepted and ignored.
    pub fn pit(mode: PitCommandMode, value: Option<u8>) -> (r: Result<Command, BroadcastError>)
        ensures
            mode.requires_value_spec() && value is None ==> r == Err::<Command, BroadcastError>(
                BroadcastError::InvalidArgument,
            ),
            !(mode.requires_value_spec() && value is None) ==> r == Ok::<Command, BroadcastError>(
                Command::PitCommand(mode, pit_payload_spec(mode, value)),
            ),
    {
        if mode.requires_value() {
            match value {
                Some(v) => Ok(Command::PitCommand(mode, v)),
                None => Err(BroadcastError::InvalidArgument),
            }
        } else {
            Ok(Command::PitCommand(mode, 0))
        }
    }
}

/// Encoding is deterministic: two commands with the same logical content
/// encode to the byte-identical wire message.
pub proof fn lemma_encode_deterministic(c1: Command, c2: Command)
    requires
        c1 == c2,
    ensures
        encode_spec(c1) == encode_spec(c2),
{
}

/// Camera-state encoding truncates rather than fails: a bitmask with bits
/// outside the defined flag range encodes exactly as its truncation to
/// that range does, and the encoded slot holds only defined flag bits.
pub proof fn lemma_camera_state_truncates(bits: u32)
    ensures
        encode_spec(Command::CameraSetState(bits)) == encode_spec(
            Command::CameraSetState(bits & CAMERA_STATE_FLAGS_MASK),
        ),
        encode_spec(Command::CameraSetState(bits)).var1 as u32 == bits & CAMERA_STATE_FLAGS_MASK,
{
    assert((bits & 0x1FF) & 0x1FF == bits & 0x1FF) by (bit_vector);
    assert((((bits & 0x1FF) as u16) as u32) == bits & 0x1FF) by (bit_vector);
}

} // verus!
