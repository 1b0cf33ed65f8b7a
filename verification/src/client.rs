use crate::command::encode;
use crate::command::encode_spec;
use crate::command::pit_payload_spec;
use crate::command::Command;
use crate::errors::BroadcastError;
use crate::modes::ChatCommandMode;
use crate::modes::PitCommandMode;
use crate::modes::ReplayPositionMode;
use crate::modes::ReplaySearchMode;
use crate::modes::TelemetryCommandMode;
use crate::modes::VideoCaptureMode;
use crate::transport::bus_unchanged;
use crate::transport::MessageBus;
use crate::wire::EncodedMessage;
use vstd::prelude::*;

verus! {

/// What one send leaves behind. If the client's resolved registration is
/// still the current target, exactly `m` is appended to the deliveries
/// and the call succeeds; otherwise the facility is untouched and the
/// call reports `DeliveryFailed`. A failed send is never retried
/// internally: delivery is not idempotent in general (toggles), so retry
/// policy belongs to the caller.
pub open spec fn sent_one(
    b0: MessageBus,
    b1: MessageBus,
    endpoint: u64,
    m: EncodedMessage,
    r: Result<(), BroadcastError>,
) -> bool {
    if b0.target == Some(endpoint) {
        &&& r is Ok
        &&& b1.target == b0.target
        &&& b1.next_id == b0.next_id
        &&& b1.log@ == b0.log@.push(m)
    } else {
        &&& r == Err::<(), BroadcastError>(BroadcastError::DeliveryFailed)
        &&& bus_unchanged(b0, b1)
    }
}

/// A broadcast command client.
///
/// Construction resolves the simulator's message target once; the client
/// then holds that registration for its whole lifetime and each `send_*`
/// call encodes one command and delivers it in a single synchronous step.
/// The client keeps no other state, so it never becomes unbound again
/// short of being dropped.
#[derive(Clone, Copy, Debug, PartialEq, Eq, Structural)]
pub struct BroadcastClient {
    endpoint: u64,
}

impl BroadcastClient {
    /// The registration id this client resolved at construction.
    pub closed spec fn endpoint_id(&self) -> u64 {
        self.endpoint
    }

    /// Construct a client against the message facility, resolving the
    /// simulator's target once. Succeeds exactly when a target is
    /// registered; with no simulator running it fails with
    /// `EndpointNotFound`, and the caller must construct a new client
    /// later. There is no externally visible unbound client.
    pub fn new(bus: &MessageBus) -> (r: Result<BroadcastClient, BroadcastError>)
        ensures
            match bus.target {
                Some(id) => r matches Ok(c) && c.endpoint_id() == id,
                None => r == Err::<BroadcastClient, BroadcastError>(
                    BroadcastError::EndpointNotFound,
                ),
            },
    {
        match bus.target {
            Some(id) => Ok(BroadcastClient { endpoint: id }),
            None => Err(BroadcastError::EndpointNotFound),
        }
    }

    /// Encode one command and deliver it to the resolved target.
    pub fn send(&self, bus: &mut MessageBus, command: &Command) -> (r: Result<(), BroadcastError>)
        ensures
            sent_one(*old(bus), *final(bus), self.endpoint_id(), encode_spec(*command), r),
    {
        let m = encode(command);
        if bus.post(self.endpoint, &m) {
            Ok(())
        } else {
            Err(BroadcastError::DeliveryFailed)
        }
    }

    /// Switch the camera to a position index within a camera group.
    pub fn send_camera_switch_position(
        &self,
        bus: &mut MessageBus,
        position: u8,
        group: u8,
        camera: u8,
    ) -> (r: Result<(), BroadcastError>)
        ensures
            sent_one(
                *old(bus),
                *final(bus),
                self.endpoint_id(),
                encode_spec(Command::CameraSwitchPosition(position, group, camera)),
                r,
            ),
    {
        let command = Command::CameraSwitchPosition(position, group, camera);
        self.send(bus, &command)
    }

    /// Switch the camera to a car, named by its car-number string.
    pub fn send_camera_switch_number(
        &self,
        bus: &mut MessageBus,
        car_number: String,
        group: u8,
        camera: u8,
    ) -> (r: Result<(), BroadcastError>)
        ensures
            sent_one(
                *old(bus),
                *final(bus),
                self.endpoint_id(),
                encode_spec(Command::CameraSwitchNumber(car_number, group, camera)),
                r,
            ),
    {
        let command = Command::CameraSwitchNumber(car_number, group, camera);
        self.send(bus, &command)
    }

    /// Replace the camera-state bitmask; bits outside the defined flag
    /// range are dropped, not an error.
    pub fn set_camera_state(&self, bus: &mut MessageBus, camera_state: u32) -> (r: Result<
        (),
        BroadcastError,
    >)
        ensures
            sent_one(
                *old(bus),
                *final(bus),
                self.endpoint_id(),
                encode_spec(Command::CameraSetState(camera_state)),
                r,
            ),
    {
        let command = Command::CameraSetState(camera_state);
        self.send(bus, &command)
    }

    /// Set the replay playback speed, optionally in slow motion.
    pub fn set_replay_play_speed(&self, bus: &mut MessageBus, speed: u8, slow_motion: bool) -> (r:
        Result<(), BroadcastError>)
        ensures
            sent_one(
                *old(bus),
                *final(bus),
                self.endpoint_id(),
                encode_spec(Command::ReplaySetPlaySpeed(speed, slow_motion)),
                r,
            ),
    {
        let command = Command::ReplaySetPlaySpeed(speed, slow_motion);
        self.send(bus, &command)
    }

    /// Jump the replay to a frame, relative to the given positioning mode.
    pub fn set_replay_play_position(
        &self,
        bus: &mut MessageBus,
        mode: ReplayPositionMode,
        frame_number: u16,
    ) -> (r: Result<(), BroadcastError>)
        ensures
            sent_one(
                *old(bus),
                *final(bus),
                self.endpoint_id(),
                encode_spec(Command::ReplaySetPlayPosition(mode, frame_number)),
                r,
            ),
    {
        let command = Command::ReplaySetPlayPosition(mode, frame_number);
        self.send(bus, &command)
    }

    /// Search the replay timeline.
    pub fn search_replay(&self, bus: &mut MessageBus, mode: ReplaySearchMode) -> (r: Result<
        (),
        BroadcastError,
    >)
        ensures
            sent_one(
                *old(bus),
                *final(bus),
                self.endpoint_id(),
                encode_spec(Command::ReplaySearch(mode)),
                r,
            ),
    {
        let command = Command::ReplaySearch(mode);
        self.send(bus, &command)
    }

    /// Toggle the replay state.
    pub fn toggle_replay_state(&self, bus: &mut MessageBus) -> (r: Result<(), BroadcastError>)
        ensures
            sent_one(
                *old(bus),
                *final(bus),
                self.endpoint_id(),
                encode_spec(Command::ReplaySetState),
                r,
            ),
    {
        let command = Command::ReplaySetState;
        self.send(bus, &command)
    }

    /// Reload the textures of every car.
    pub fn reload_all_textures(&self, bus: &mut MessageBus) -> (r: Result<(), BroadcastError>)
        ensures
            sent_one(
                *old(bus),
                *final(bus),
                self.endpoint_id(),
                encode_spec(Command::ReloadAllTextures),
                r,
            ),
    {
        let command = Command::ReloadAllTextures;
        self.send(bus, &command)
    }

    /// Reload the textures of one car, by car index.
    pub fn reload_textures(&self, bus: &mut MessageBus, car_index: u8) -> (r: Result<
        (),
        BroadcastError,
    >)
        ensures
            sent_one(
                *old(bus),
                *final(bus),
                self.endpoint_id(),
                encode_spec(Command::ReloadTextures(car_index)),
                r,
            ),
    {
        let command = Command::ReloadTextures(car_index);
        self.send(bus, &command)
    }

    /// Control chat entry.
    pub fn send_chat_command(&self, bus: &mut MessageBus, mode: ChatCommandMode) -> (r: Result<
        (),
        BroadcastError,
    >)
        ensures
            sent_one(
                *old(bus),
                *final(bus),
                self.endpoint_id(),
                encode_spec(Command::ChatCommand(mode)),
                r,
            ),
    {
        let command = Command::ChatCommand(mode);
        self.send(bus, &command)
    }

    /// Send a numbered chat macro.
    pub fn send_chat_macro(&self, bus: &mut MessageBus, macro_number: u8) -> (r: Result<
        (),
        BroadcastError,
    >)
        ensures
            sent_one(
                *old(bus),
                *final(bus),
                self.endpoint_id(),
                encode_spec(Command::ChatCommandMacro(macro_number)),
                r,
            ),
    {
        let command = Command::ChatCommandMacro(macro_number);
        self.send(bus, &command)
    }

    /// Request pit service. A mode that requires a value (fuel and the
    /// four tire positions) without one is rejected as `InvalidArgument`
    /// before anything is delivered; a value supplied with a mode that
    /// takes none is accepted and ignored.
    pub fn send_pit_command(
        &self,
        bus: &mut MessageBus,
        mode: PitCommandMode,
        value: Option<u8>,
    ) -> (r: Result<(), BroadcastError>)
        ensures
            mode.requires_value_spec() && value is None ==> r == Err::<(), BroadcastError>(
                BroadcastError::InvalidArgument,
            ) && bus_unchanged(*old(bus), *final(bus)),
            !(mode.requires_value_spec() && value is None) ==> sent_one(
                *old(bus),
                *final(bus),
                self.endpoint_id(),
                encode_spec(Command::PitCommand(mode, pit_payload_spec(mode, value))),
                r,
            ),
    {
        match Command::pit(mode, value) {
            Ok(command) => self.send(bus, &command),
            Err(e) => Err(e),
        }
    }

    /// Control telemetry recording.
    pub fn send_telemetry_command(&self, bus: &mut MessageBus, mode: TelemetryCommandMode) -> (r:
        Result<(), BroadcastError>)
        ensures
            sent_one(
                *old(bus),
                *final(bus),
                self.endpoint_id(),
                encode_spec(Command::TelemetryCommand(mode)),
                r,
            ),
    {
        let command = Command::TelemetryCommand(mode);
        self.send(bus, &command)
    }

    /// Send a force-feedback magnitude.
    pub fn send_force_feedback_command(&self, bus: &mut MessageBus, value: u16) -> (r: Result<
        (),
        BroadcastError,
    >)
        ensures
            sent_one(
                *old(bus),
                *final(bus),
                self.endpoint_id(),
                encode_spec(Command::FFBCommand(value)),
                r,
            ),
    {
        let command = Command::FFBCommand(value);
        self.send(bus, &command)
    }

    /// Search the replay to a session-relative time in milliseconds.
    pub fn search_replay_session_time(
        &self,
        bus: &mut MessageBus,
        session_number: u8,
        session_time_ms: u16,
    ) -> (r: Result<(), BroadcastError>)
        ensures
            sent_one(
                *old(bus),
                *final(bus),
                self.endpoint_id(),
                encode_spec(Command::ReplaySearchSessionTime(session_number, session_time_ms)),
                r,
            ),
    {
        let command = Command::ReplaySearchSessionTime(session_number, session_time_ms);
        self.send(bus, &command)
    }

    /// Control video capture.
    pub fn control_video_capture(&self, bus: &mut MessageBus, mode: VideoCaptureMode) -> (r: Result<
        (),
        BroadcastError,
    >)
        ensures
            sent_one(
                *old(bus),
                *final(bus),
                self.endpoint_id(),
                encode_spec(Command::VideoCapture(mode)),
                r,
            ),
    {
        let command = Command::VideoCapture(mode);
        self.send(bus, &command)
    }
}

/// Distinct sends do not interfere: two successive sends against a live
/// target both succeed and leave both messages on record, in the order
/// they were issued, each encoded independently of the other.
pub proof fn lemma_sends_in_order(
    b0: MessageBus,
    b1: MessageBus,
    b2: MessageBus,
    endpoint: u64,
    m1: EncodedMessage,
    m2: EncodedMessage,
    r1: Result<(), BroadcastError>,
    r2: Result<(), BroadcastError>,
)
    requires
        b0.target == Some(endpoint),
        sent_one(b0, b1, endpoint, m1, r1),
        sent_one(b1, b2, endpoint, m2, r2),
    ensures
        r1 is Ok,
        r2 is Ok,
        b2.log@ == b0.log@.push(m1).push(m2),
{
}

} // verus!
