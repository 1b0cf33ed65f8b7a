use vstd::prelude::*;

verus! {

/// Positioning behaviour when jumping within a replay recording.
#[derive(Clone, Copy, Debug, PartialEq, Eq, Structural)]
pub enum ReplayPositionMode {
    /// Seek relative to the start of the session.
    Begin,
    /// Seek relative to the current frame.
    Current,
    /// Seek relative to the end of the session.
    End,
}

impl ReplayPositionMode {
    /// Wire discriminant of this mode in the replay-position message.
    pub open spec fn value_spec(self) -> u16 {
        match self {
            ReplayPositionMode::Begin => 0,
            ReplayPositionMode::Current => 1,
            ReplayPositionMode::End => 2,
        }
    }

    /// Wire discriminant of this mode in the replay-position message.
    pub fn value(self) -> (v: u16)
        ensures
            v == self.value_spec(),
    {
        match self {
            ReplayPositionMode::Begin => 0,
            ReplayPositionMode::Current => 1,
            ReplayPositionMode::End => 2,
        }
    }

    /// The mode a wire discriminant stands for, if any.
    pub open spec fn from_value_spec(v: u16) -> Option<ReplayPositionMode> {
        if v == 0 {
            Some(ReplayPositionMode::Begin)
        } else if v == 1 {
            Some(ReplayPositionMode::Current)
        } else if v == 2 {
            Some(ReplayPositionMode::End)
        } else {
            None
        }
    }

    /// Decode a wire discriminant back into a mode, for inspection of
    /// encoded messages.
    pub fn from_value(v: u16) -> (m: Option<ReplayPositionMode>)
        ensures
            m == Self::from_value_spec(v),
    {
        if v == 0 {
            Some(ReplayPositionMode::Begin)
        } else if v == 1 {
            Some(ReplayPositionMode::Current)
        } else if v == 2 {
            Some(ReplayPositionMode::End)
        } else {
            None
        }
    }
}

/// Directional and target-based search controls for walking a replay
/// timeline.
#[derive(Clone, Copy, Debug, PartialEq, Eq, Structural)]
pub enum ReplaySearchMode {
    /// Jump to the beginning of the session.
    ToStart,
    /// Jump to the end of the session.
    ToEnd,
    /// Jump to the start of the previous session block.
    PreviousSession,
    /// Jump to the start of the next session block.
    NextSession,
    /// Jump back one lap.
    PreviousLap,
    /// Jump forward one lap.
    NextLap,
    /// Step one frame backward.
    PreviousFrame,
    /// Step one frame forward.
    NextFrame,
    /// Jump to the previous recorded incident.
    PreviousIncident,
    /// Jump to the next recorded incident.
    NextIncident,
}

impl ReplaySearchMode {
    /// Wire discriminant of this mode in the replay-search message.
    pub open spec fn value_spec(self) -> u16 {
        match self {
            ReplaySearchMode::ToStart => 0,
            ReplaySearchMode::ToEnd => 1,
            ReplaySearchMode::PreviousSession => 2,
            ReplaySearchMode::NextSession => 3,
            ReplaySearchMode::PreviousLap => 4,
            ReplaySearchMode::NextLap => 5,
            ReplaySearchMode::PreviousFrame => 6,
            ReplaySearchMode::NextFrame => 7,
            ReplaySearchMode::PreviousIncident => 8,
            ReplaySearchMode::NextIncident => 9,
        }
    }

    /// Wire discriminant of this mode in the replay-search message.
    pub fn value(self) -> (v: u16)
        ensures
            v == self.value_spec(),
    {
        match self {
            ReplaySearchMode::ToStart => 0,
            ReplaySearchMode::ToEnd => 1,
            ReplaySearchMode::PreviousSession => 2,
            ReplaySearchMode::NextSession => 3,
            ReplaySearchMode::PreviousLap => 4,
            ReplaySearchMode::NextLap => 5,
            ReplaySearchMode::PreviousFrame => 6,
            ReplaySearchMode::NextFrame => 7,
            ReplaySearchMode::PreviousIncident => 8,
            ReplaySearchMode::NextIncident => 9,
        }
    }

    /// The mode a wire discriminant stands for, if any.
    pub open spec fn from_value_spec(v: u16) -> Option<ReplaySearchMode> {
        if v == 0 {
            Some(ReplaySearchMode::ToStart)
        } else if v == 1 {
            Some(ReplaySearchMode::ToEnd)
        } else if v == 2 {
            Some(ReplaySearchMode::PreviousSession)
        } else if v == 3 {
            Some(ReplaySearchMode::NextSession)
        } else if v == 4 {
            Some(ReplaySearchMode::PreviousLap)
        } else if v == 5 {
            Some(ReplaySearchMode::NextLap)
        } else if v == 6 {
            Some(ReplaySearchMode::PreviousFrame)
        } else if v == 7 {
            Some(ReplaySearchMode::NextFrame)
        } else if v == 8 {
            Some(ReplaySearchMode::PreviousIncident)
        } else if v == 9 {
            Some(ReplaySearchMode::NextIncident)
        } else {
            None
        }
    }

    /// Decode a wire discriminant back into a mode, for inspection of
    /// encoded messages.
    pub fn from_value(v: u16) -> (m: Option<ReplaySearchMode>)
        ensures
            m == Self::from_value_spec(v),
    {
        if v == 0 {
            Some(ReplaySearchMode::ToStart)
        } else if v == 1 {
            Some(ReplaySearchMode::ToEnd)
        } else if v == 2 {
            Some(ReplaySearchMode::PreviousSession)
        } else if v == 3 {
            Some(ReplaySearchMode::NextSession)
        } else if v == 4 {
            Some(ReplaySearchMode::PreviousLap)
        } else if v == 5 {
            Some(ReplaySearchMode::NextLap)
        } else if v == 6 {
            Some(ReplaySearchMode::PreviousFrame)
        } else if v == 7 {
            Some(ReplaySearchMode::NextFrame)
        } else if v == 8 {
            Some(ReplaySearchMode::PreviousIncident)
        } else if v == 9 {
            Some(ReplaySearchMode::NextIncident)
        } else {
            None
        }
    }
}

/// Every search mode's wire discriminant decodes back to that mode, so an
/// encoded search message identifies its mode unambiguously.
pub proof fn lemma_search_mode_round_trip(m: ReplaySearchMode)
    ensures
        ReplaySearchMode::from_value_spec(m.value_spec()) == Some(m),
{
}

/// Control commands for telemetry recording.
#[derive(Clone, Copy, Debug, PartialEq, Eq, Structural)]
pub enum TelemetryCommandMode {
    /// Stop capturing telemetry data.
    Stop,
    /// Begin capturing telemetry data.
    Start,
    /// Restart telemetry capture from scratch.
    Restart,
}

impl TelemetryCommandMode {
    /// Wire discriminant of this mode in the telemetry message.
    pub open spec fn value_spec(self) -> u16 {
        match self {
            TelemetryCommandMode::Stop => 0,
            TelemetryCommandMode::Start => 1,
            TelemetryCommandMode::Restart => 2,
        }
    }

    /// Wire discriminant of this mode in the telemetry message.
    pub fn value(self) -> (v: u16)
        ensures
            v == self.value_spec(),
    {
        match self {
            TelemetryCommandMode::Stop => 0,
            TelemetryCommandMode::Start => 1,
            TelemetryCommandMode::Restart => 2,
        }
    }

    /// The mode a wire discriminant stands for, if any.
    pub open spec fn from_value_spec(v: u16) -> Option<TelemetryCommandMode> {
        if v == 0 {
            Some(TelemetryCommandMode::Stop)
        } else if v == 1 {
            Some(TelemetryCommandMode::Start)
        } else if v == 2 {
            Some(TelemetryCommandMode::Restart)
        } else {
            None
        }
    }

    /// Decode a wire discriminant back into a mode, for inspection of
    /// encoded messages.
    pub fn from_value(v: u16) -> (m: Option<TelemetryCommandMode>)
        ensures
            m == Self::from_value_spec(v),
    {
        if v == 0 {
            Some(TelemetryCommandMode::Stop)
        } else if v == 1 {
            Some(TelemetryCommandMode::Start)
        } else if v == 2 {
            Some(TelemetryCommandMode::Restart)
        } else {
            None
        }
    }
}

/// Chat-entry controls of the broadcast protocol.
#[derive(Clone, Copy, Debug, PartialEq, Eq, Structural)]
pub enum ChatCommandMode {
    /// Send a numbered chat macro.
    Macro,
    /// Begin a chat session.
    Begin,
    /// Reply to an existing message.
    Reply,
    /// Cancel chat entry.
    Cancel,
}

impl ChatCommandMode {
    /// Wire discriminant of this mode in the chat message.
    pub open spec fn value_spec(self) -> u16 {
        match self {
            ChatCommandMode::Macro => 0,
            ChatCommandMode::Begin => 1,
            ChatCommandMode::Reply => 2,
            ChatCommandMode::Cancel => 3,
        }
    }

    /// Wire discriminant of this mode in the chat message.
    pub fn value(self) -> (v: u16)
        ensures
            v == self.value_spec(),
    {
        match self {
            ChatCommandMode::Macro => 0,
            ChatCommandMode::Begin => 1,
            ChatCommandMode::Reply => 2,
            ChatCommandMode::Cancel => 3,
        }
    }

    /// The mode a wire discriminant stands for, if any.
    pub open spec fn from_value_spec(v: u16) -> Option<ChatCommandMode> {
        if v == 0 {
            Some(ChatCommandMode::Macro)
        } else if v == 1 {
            Some(ChatCommandMode::Begin)
        } else if v == 2 {
            Some(ChatCommandMode::Reply)
        } else if v == 3 {
            Some(ChatCommandMode::Cancel)
        } else {
            None
        }
    }

    /// Decode a wire discriminant back into a mode, for inspection of
    /// encoded messages.
    pub fn from_value(v: u16) -> (m: Option<ChatCommandMode>)
        ensures
            m == Self::from_value_spec(v),
    {
        if v == 0 {
            Some(ChatCommandMode::Macro)
        } else if v == 1 {
            Some(ChatCommandMode::Begin)
        } else if v == 2 {
            Some(ChatCommandMode::Reply)
        } else if v == 3 {
            Some(ChatCommandMode::Cancel)
        } else {
            None
        }
    }
}

/// Screenshot and video-capture controls.
#[derive(Clone, Copy, Debug, PartialEq, Eq, Structural)]
pub enum VideoCaptureMode {
    /// Trigger a single screenshot.
    ScreenShot,
    /// Begin capturing video.
    StartCapture,
    /// End capturing video.
    EndCapture,
    /// Toggle the recording state.
    ToggleCapture,
    /// Show the capture timer.
    ShowTimer,
    /// Hide the capture timer.
    HideTimer,
}

impl VideoCaptureMode {
    /// Wire discriminant of this mode in the video-capture message.
    pub open spec fn value_spec(self) -> u16 {
        match self {
            VideoCaptureMode::ScreenShot => 0,
            VideoCaptureMode::StartCapture => 1,
            VideoCaptureMode::EndCapture => 2,
            VideoCaptureMode::ToggleCapture => 3,
            VideoCaptureMode::ShowTimer => 4,
            VideoCaptureMode::HideTimer => 5,
        }
    }

    /// Wire discriminant of this mode in the video-capture message.
    pub fn value(self) -> (v: u16)
        ensures
            v == self.value_spec(),
    {
        match self {
            VideoCaptureMode::ScreenShot => 0,
            VideoCaptureMode::StartCapture => 1,
            VideoCaptureMode::EndCapture => 2,
            VideoCaptureMode::ToggleCapture => 3,
            VideoCaptureMode::ShowTimer => 4,
            VideoCaptureMode::HideTimer => 5,
        }
    }

    /// The mode a wire discriminant stands for, if any.
    pub open spec fn from_value_spec(v: u16) -> Option<VideoCaptureMode> {
        if v == 0 {
            Some(VideoCaptureMode::ScreenShot)
        } else if v == 1 {
            Some(VideoCaptureMode::StartCapture)
        } else if v == 2 {
            Some(VideoCaptureMode::EndCapture)
        } else if v == 3 {
            Some(VideoCaptureMode::ToggleCapture)
        } else if v == 4 {
            Some(VideoCaptureMode::ShowTimer)
        } else if v == 5 {
            Some(VideoCaptureMode::HideTimer)
        } else {
            None
        }
    }

    /// Decode a wire discriminant back into a mode, for inspection of
    /// encoded messages.
    pub fn from_value(v: u16) -> (m: Option<VideoCaptureMode>)
        ensures
            m == Self::from_value_spec(v),
    {
        if v == 0 {
            Some(VideoCaptureMode::ScreenShot)
        } else if v == 1 {
            Some(VideoCaptureMode::StartCapture)
        } else if v == 2 {
            Some(VideoCaptureMode::EndCapture)
        } else if v == 3 {
            Some(VideoCaptureMode::ToggleCapture)
        } else if v == 4 {
            Some(VideoCaptureMode::ShowTimer)
        } else if v == 5 {
            Some(VideoCaptureMode::HideTimer)
        } else {
            None
        }
    }
}

/// Pit-service requests for the player's car.
///
/// Five of the modes (fuel and the four tire positions) carry a numeric
/// value; the rest take none. The pairing is enforced when a pit command is
/// constructed, not when it is encoded.
#[derive(Clone, Copy, Debug, PartialEq, Eq, Structural)]
pub enum PitCommandMode {
    /// Clear all pending pit service requests.
    Clear,
    /// Request a windshield tearoff.
    Tearoff,
    /// Request fuel; the value is the amount to add.
    Fuel,
    /// Request a left-front tire change; the value is the pressure.
    Lf,
    /// Request a right-front tire change; the value is the pressure.
    Rf,
    /// Request a left-rear tire change; the value is the pressure.
    Lr,
    /// Request a right-rear tire change; the value is the pressure.
    Rr,
    /// Clear all tire change requests.
    ClearTires,
    /// Request a fast repair.
    FastRepair,
    /// Cancel a tearoff request.
    ClearTearoff,
    /// Cancel a fast repair request.
    ClearFastRepair,
    /// Cancel a fuel request.
    ClearFuel,
}

impl PitCommandMode {
    /// Wire discriminant of this mode in the pit message.
    pub open spec fn value_spec(self) -> u16 {
        match self {
            PitCommandMode::Clear => 0,
            PitCommandMode::Tearoff => 1,
            PitCommandMode::Fuel => 2,
            PitCommandMode::Lf => 3,
            PitCommandMode::Rf => 4,
            PitCommandMode::Lr => 5,
            PitCommandMode::Rr => 6,
            PitCommandMode::ClearTires => 7,
            PitCommandMode::FastRepair => 8,
            PitCommandMode::ClearTearoff => 9,
            PitCommandMode::ClearFastRepair => 10,
            PitCommandMode::ClearFuel => 11,
        }
    }

    /// Wire discriminant of this mode in the pit message.
    pub fn value(self) -> (v: u16)
        ensures
            v == self.value_spec(),
    {
        match self {
            PitCommandMode::Clear => 0,
            PitCommandMode::Tearoff => 1,
            PitCommandMode::Fuel => 2,
            PitCommandMode::Lf => 3,
            PitCommandMode::Rf => 4,
            PitCommandMode::Lr => 5,
            PitCommandMode::Rr => 6,
            PitCommandMode::ClearTires => 7,
            PitCommandMode::FastRepair => 8,
            PitCommandMode::ClearTearoff => 9,
            PitCommandMode::ClearFastRepair => 10,
            PitCommandMode::ClearFuel => 11,
        }
    }

    /// Whether this mode must be accompanied by a numeric value.
    pub open spec fn requires_value_spec(self) -> bool {
        match self {
            PitCommandMode::Fuel => true,
            PitCommandMode::Lf => true,
            PitCommandMode::Rf => true,
            PitCommandMode::Lr => true,
            PitCommandMode::Rr => true,
            _ => false,
        }
    }

    /// Whether this mode must be accompanied by a numeric value.
    pub fn requires_value(self) -> (b: bool)
        ensures
            b == self.requires_value_spec(),
    {
        match self {
            PitCommandMode::Fuel => true,
            PitCommandMode::Lf => true,
            PitCommandMode::Rf => true,
            PitCommandMode::Lr => true,
            PitCommandMode::Rr => true,
            _ => false,
        }
    }
}

} // verus!
