use vstd::prelude::*;

verus! {

/// Opcode of the camera-switch-by-position message.
pub const MSG_CAMERA_SWITCH_POSITION: u16 = 0;

/// Opcode of the camera-switch-by-car-number message.
pub const MSG_CAMERA_SWITCH_NUMBER: u16 = 1;

/// Opcode of the camera-state message.
pub const MSG_CAMERA_SET_STATE: u16 = 2;

/// Opcode of the replay-play-speed message.
pub const MSG_REPLAY_SET_PLAY_SPEED: u16 = 3;

/// Opcode of the replay-play-position message.
pub const MSG_REPLAY_SET_PLAY_POSITION: u16 = 4;

/// Opcode of the replay-search message.
pub const MSG_REPLAY_SEARCH: u16 = 5;

/// Opcode of the replay-state-toggle message.
pub const MSG_REPLAY_SET_STATE: u16 = 6;

/// Opcode of the texture-reload message (all cars or one car).
pub const MSG_RELOAD_TEXTURES: u16 = 7;

/// Opcode of the chat message (commands and macros).
pub const MSG_CHAT_COMMAND: u16 = 8;

/// Opcode of the pit message.
pub const MSG_PIT_COMMAND: u16 = 9;

/// Opcode of the telemetry message.
pub const MSG_TELEMETRY_COMMAND: u16 = 10;

/// Opcode of the force-feedback message.
pub const MSG_FFB_COMMAND: u16 = 11;

/// Opcode of the replay-search-by-session-time message.
pub const MSG_REPLAY_SEARCH_SESSION_TIME: u16 = 12;

/// Opcode of the video-capture message.
pub const MSG_VIDEO_CAPTURE: u16 = 13;

/// One broadcast message in its wire form: an opcode naming the message
/// kind and three 16-bit parameter slots. The simulator receives it as two
/// machine words, the opcode and first parameter packed into the low and
/// high halves of the first word, the remaining parameters into the second.
#[derive(Clone, Copy, Debug, PartialEq, Eq, Structural)]
pub struct EncodedMessage {
    /// Which message kind this is.
    pub msg_type: u16,
    /// First parameter slot.
    pub var1: u16,
    /// Second parameter slot.
    pub var2: u16,
    /// Third parameter slot.
    pub var3: u16,
}

/// First machine word of `m`: the opcode in the low half, the first
/// parameter in the high half.
pub open spec fn first_word_spec(m: EncodedMessage) -> u32 {
    (m.msg_type as u32) | ((m.var1 as u32) << 16)
}

/// Second machine word of `m`: the second parameter in the low half, the
/// third in the high half.
pub open spec fn second_word_spec(m: EncodedMessage) -> u32 {
    (m.var2 as u32) | ((m.var3 as u32) << 16)
}

/// Pack a message into the two machine words the simulator expects.
pub fn pack(m: &EncodedMessage) -> (w: (u32, u32))
    ensures
        w.0 == first_word_spec(*m),
        w.1 == second_word_spec(*m),
{
    (
        (m.msg_type as u32) | ((m.var1 as u32) << 16),
        (m.var2 as u32) | ((m.var3 as u32) << 16),
    )
}

/// The message the two machine words `w1`, `w2` carry.
pub open spec fn unpack_spec(w1: u32, w2: u32) -> EncodedMessage {
    EncodedMessage {
        msg_type: (w1 & 0xFFFF) as u16,
        var1: ((w1 >> 16) & 0xFFFF) as u16,
        var2: (w2 & 0xFFFF) as u16,
        var3: ((w2 >> 16) & 0xFFFF) as u16,
    }
}

/// Split two machine words back into a message, for inspection of what a
/// packed message carries.
pub fn unpack(w1: u32, w2: u32) -> (m: EncodedMessage)
    ensures
        m == unpack_spec(w1, w2),
{
    EncodedMessage {
        msg_type: (w1 & 0xFFFF) as u16,
        var1: ((w1 >> 16) & 0xFFFF) as u16,
        var2: (w2 & 0xFFFF) as u16,
        var3: ((w2 >> 16) & 0xFFFF) as u16,
    }
}

/// Packing loses nothing: unpacking the two machine words of any message
/// gives back exactly that message.
pub proof fn lemma_wire_round_trip(m: EncodedMessage)
    ensures
        unpack_spec(first_word_spec(m), second_word_spec(m)) == m,
{
    let t = m.msg_type;
    let a = m.var1;
    let b = m.var2;
    let c = m.var3;
    assert((((t as u32) | ((a as u32) << 16)) & 0xFFFF) as u16 == t) by (bit_vector);
    assert(((((t as u32) | ((a as u32) << 16)) >> 16) & 0xFFFF) as u16 == a) by (bit_vector);
    assert((((b as u32) | ((c as u32) << 16)) & 0xFFFF) as u16 == b) by (bit_vector);
    assert(((((b as u32) | ((c as u32) << 16)) >> 16) & 0xFFFF) as u16 == c) by (bit_vector);
}

} // verus!
