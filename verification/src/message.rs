//! Typed MIDI messages and their bytes on the wire.
use crate::status_bytes::{
    is_status, is_status_byte, ACTIVE_SENSING_STATUS, CHANNEL_PRESSURE_STATUS, CONTINUE_STATUS,
    CONTROL_CHANGE_STATUS, NOTE_OFF_STATUS, NOTE_ON_STATUS, PITCH_BEND_CHANGE_STATUS,
    POLY_KEY_PRESSURE_STATUS, PROGRAM_CHANGE_STATUS, SONG_POSITION_POINTER_STATUS,
    SONG_SELECT_STATUS, START_STATUS, STOP_STATUS, SYSTEM_RESET_STATUS,
    TIME_CODE_QUARTER_FRAME_STATUS, TIMING_CLOCK_STATUS, TUNE_REQUEST_STATUS,
};
use crate::units::{group_units, U14, U3, U4, U7};
use vstd::prelude::*;

verus! {

/// A MIDI message, system exclusive messages apart.
///
/// Each variant holds the fields of its kind of message and nothing else. The
/// types of the fields bound their values, so every message that can be made
/// has a wire form of status and data bytes.
#[derive(Clone, Copy, Debug, PartialEq, Eq, Structural)]
#[allow(inconsistent_fields)]
pub enum MidiMessage {
    NoteOff { channel: U4, note: U7, velocity: U7 },
    NoteOn { channel: U4, note: U7, velocity: U7 },
    PolyKeyPressure { channel: U4, pressure: U7 },
    ControlChange { channel: U4, control_number: U7, control_value: U7 },
    ProgramChange { channel: U4, program_number: U7 },
    ChannelPressure { channel: U4, pressure: U7 },
    PitchBendChange { channel: U4, value: U14 },
    TimeCodeQuarterFrame { message_type: U3, value: U4 },
    SongPositionPointer { position: U14 },
    SongSelect { song: U7 },
    TuneRequest,
    TimingClock,
    Start,
    Continue,
    Stop,
    ActiveSensing,
    SystemReset,
}

/// Why a run of bytes is not a MIDI message.
#[derive(Clone, Copy, Debug, PartialEq, Eq, Structural)]
pub enum TryFromError {
    /// The number of bytes is none that the message can have: a short
    /// message has one to three bytes, and as many as its status byte asks
    /// for; a system exclusive message has at least two.
    Structure,
    /// A byte is not what its place asks for: a data byte stands where a
    /// status byte belongs, or a status byte where a data byte belongs, or a
    /// system exclusive message lacks its start or its end status.
    StatusByte,
    /// The status byte opens no message that is known here.
    UnknownStatus,
}

/// The status byte of a channel voice message: the status of its kind on
/// channel 0, plus the channel.
pub open spec fn channel_status(status: u8, channel: U4) -> u8 {
    (status + channel@) as u8
}

/// The lower seven bits of a 14 bit value, which go first on the wire.
pub open spec fn lsb(value: U14) -> u8 {
    (value@ % 128) as u8
}

/// The upper seven bits of a 14 bit value, which go second on the wire.
pub open spec fn msb(value: U14) -> u8 {
    (value@ / 128) as u8
}

/// The data byte of a time code quarter frame: the value in the lower four
/// bits, the kind of the frame in the three bits above them.
pub open spec fn quarter_frame(message_type: U3, value: U4) -> u8 {
    (value@ + message_type@ * 16) as u8
}

/// The status of channel 0 of the kind that a channel voice status has.
pub open spec fn voice_kind(status: u8) -> u8 {
    (status - status % 16) as u8
}

/// The number of bytes of the message that `status` opens, the status byte
/// counted; `None` if it opens none. The statuses that stand for themselves
/// are looked up first, then the kinds of channel voice messages.
pub open spec fn message_len(status: u8) -> Option<nat> {
    if status == TUNE_REQUEST_STATUS || status == TIMING_CLOCK_STATUS || status == START_STATUS
        || status == CONTINUE_STATUS || status == STOP_STATUS || status == ACTIVE_SENSING_STATUS
        || status == SYSTEM_RESET_STATUS {
        Some(1)
    } else if status == TIME_CODE_QUARTER_FRAME_STATUS || status == SONG_SELECT_STATUS {
        Some(2)
    } else if status == SONG_POSITION_POINTER_STATUS {
        Some(3)
    } else if voice_kind(status) == POLY_KEY_PRESSURE_STATUS || voice_kind(status)
        == PROGRAM_CHANGE_STATUS || voice_kind(status) == CHANNEL_PRESSURE_STATUS {
        Some(2)
    } else if voice_kind(status) == NOTE_OFF_STATUS || voice_kind(status) == NOTE_ON_STATUS
        || voice_kind(status) == CONTROL_CHANGE_STATUS || voice_kind(status)
        == PITCH_BEND_CHANGE_STATUS {
        Some(3)
    } else {
        None
    }
}

/// The 14 bit value that two data bytes hold, the lower seven bits first.
pub open spec fn join_u14(lsb: u8, msb: u8) -> U14 {
    U14::of((lsb + msb * 128) as u16)
}

/// The message that `bytes` are the wire form of, where they have a known
/// status byte, the length that belongs to it, and data bytes behind it.
pub open spec fn assemble(bytes: Seq<u8>) -> MidiMessage {
    let status = bytes[0];
    let channel = U4::of(status % 16);
    if status == TUNE_REQUEST_STATUS {
        MidiMessage::TuneRequest
    } else if status == TIMING_CLOCK_STATUS {
        MidiMessage::TimingClock
    } else if status == START_STATUS {
        MidiMessage::Start
    } else if status == CONTINUE_STATUS {
        MidiMessage::Continue
    } else if status == STOP_STATUS {
        MidiMessage::Stop
    } else if status == ACTIVE_SENSING_STATUS {
        MidiMessage::ActiveSensing
    } else if status == SYSTEM_RESET_STATUS {
        MidiMessage::SystemReset
    } else if status == TIME_CODE_QUARTER_FRAME_STATUS {
        MidiMessage::TimeCodeQuarterFrame {
            message_type: U3::of(bytes[1] / 16),
            value: U4::of(bytes[1] % 16),
        }
    } else if status == SONG_SELECT_STATUS {
        MidiMessage::SongSelect { song: U7::of(bytes[1]) }
    } else if status == SONG_POSITION_POINTER_STATUS {
        MidiMessage::SongPositionPointer { position: join_u14(bytes[1], bytes[2]) }
    } else if voice_kind(status) == NOTE_OFF_STATUS {
        MidiMessage::NoteOff { channel, note: U7::of(bytes[1]), velocity: U7::of(bytes[2]) }
    } else if voice_kind(status) == NOTE_ON_STATUS {
        MidiMessage::NoteOn { channel, note: U7::of(bytes[1]), velocity: U7::of(bytes[2]) }
    } else if voice_kind(status) == POLY_KEY_PRESSURE_STATUS {
        MidiMessage::PolyKeyPressure { channel, pressure: U7::of(bytes[1]) }
    } else if voice_kind(status) == CONTROL_CHANGE_STATUS {
        MidiMessage::ControlChange {
            channel,
            control_number: U7::of(bytes[1]),
            control_value: U7::of(bytes[2]),
        }
    } else if voice_kind(status) == PROGRAM_CHANGE_STATUS {
        MidiMessage::ProgramChange { channel, program_number: U7::of(bytes[1]) }
    } else if voice_kind(status) == CHANNEL_PRESSURE_STATUS {
        MidiMessage::ChannelPressure { channel, pressure: U7::of(bytes[1]) }
    } else {
        MidiMessage::PitchBendChange { channel, value: join_u14(bytes[1], bytes[2]) }
    }
}

/// Whether `bytes` have the shape of a short message: one to three bytes, a
/// status byte first, data bytes behind it.
pub open spec fn is_short_message(bytes: Seq<u8>) -> bool {
    &&& 1 <= bytes.len() <= 3
    &&& is_status(bytes[0])
    &&& forall|i: int| 1 <= i < bytes.len() ==> !is_status(#[trigger] bytes[i])
}

/// What is wrong with the shape of `bytes`, where they do not have the shape
/// of a short message: the length is looked at first.
pub open spec fn shape_error(bytes: Seq<u8>) -> TryFromError {
    if 1 <= bytes.len() <= 3 {
        TryFromError::StatusByte
    } else {
        TryFromError::Structure
    }
}

/// Looks `status` up in the table of the messages: the number of bytes of the
/// message that it opens.
pub fn message_length(status: u8) -> (len: Option<usize>)
    ensures
        len matches Some(n) ==> message_len(status) == Some(n as nat),
        len is None ==> message_len(status) is None,
{
    assert(status & 0xF0 == (status - status % 16) as u8) by (bit_vector);
    let kind: u8 = status & 0xF0;
    if status == TUNE_REQUEST_STATUS || status == TIMING_CLOCK_STATUS || status == START_STATUS
        || status == CONTINUE_STATUS || status == STOP_STATUS || status == ACTIVE_SENSING_STATUS
        || status == SYSTEM_RESET_STATUS {
        Some(1)
    } else if status == TIME_CODE_QUARTER_FRAME_STATUS || status == SONG_SELECT_STATUS {
        Some(2)
    } else if status == SONG_POSITION_POINTER_STATUS {
        Some(3)
    } else if kind == POLY_KEY_PRESSURE_STATUS || kind == PROGRAM_CHANGE_STATUS || kind
        == CHANNEL_PRESSURE_STATUS {
        Some(2)
    } else if kind == NOTE_OFF_STATUS || kind == NOTE_ON_STATUS || kind == CONTROL_CHANGE_STATUS
        || kind == PITCH_BEND_CHANGE_STATUS {
        Some(3)
    } else {
        None
    }
}

/// Reads a 14 bit value from two data bytes, the lower seven bits first.
pub fn read_u14_data(lsb: U7, msb: U7) -> (value: U14)
    ensures
        value == join_u14(lsb@, msb@),
        value@ == lsb@ + msb@ * 128,
{
    let low: u16 = lsb.get() as u16;
    let high: u16 = msb.get() as u16;
    assert((low | (high << 7)) == low + high * 128 && (low | (high << 7)) <= 0x3FFF)
        by (bit_vector)
        requires
            low < 128,
            high < 128,
    ;
    let value = U14::new(low | (high << 7)).unwrap();
    proof {
        U14::lemma_of_view((lsb@ + msb@ * 128) as u16);
    }
    value
}

impl MidiMessage {
    /// Whether every field fits the bit width of its type. Every message
    /// that executable code holds does.
    pub open spec fn wf(self) -> bool {
        match self {
            MidiMessage::NoteOff { channel, note, velocity } => channel.wf() && note.wf()
                && velocity.wf(),
            MidiMessage::NoteOn { channel, note, velocity } => channel.wf() && note.wf()
                && velocity.wf(),
            MidiMessage::PolyKeyPressure { channel, pressure } => channel.wf() && pressure.wf(),
            MidiMessage::ControlChange { channel, control_number, control_value } => channel.wf()
                && control_number.wf() && control_value.wf(),
            MidiMessage::ProgramChange { channel, program_number } => channel.wf()
                && program_number.wf(),
            MidiMessage::ChannelPressure { channel, pressure } => channel.wf() && pressure.wf(),
            MidiMessage::PitchBendChange { channel, value } => channel.wf() && value.wf(),
            MidiMessage::TimeCodeQuarterFrame { message_type, value } => message_type.wf()
                && value.wf(),
            MidiMessage::SongPositionPointer { position } => position.wf(),
            MidiMessage::SongSelect { song } => song.wf(),
            _ => true,
        }
    }

    /// The bytes of the message on the wire: its status byte, then its data
    /// bytes in the order of its fields, a 14 bit value as its lower and then
    /// its upper seven bits.
    pub open spec fn wire(self) -> Seq<u8> {
        match self {
            MidiMessage::NoteOff { channel, note, velocity } => seq![
                channel_status(NOTE_OFF_STATUS, channel),
                note@,
                velocity@,
            ],
            MidiMessage::NoteOn { channel, note, velocity } => seq![
                channel_status(NOTE_ON_STATUS, channel),
                note@,
                velocity@,
            ],
            MidiMessage::PolyKeyPressure { channel, pressure } => seq![
                channel_status(POLY_KEY_PRESSURE_STATUS, channel),
                pressure@,
            ],
            MidiMessage::ControlChange { channel, control_number, control_value } => seq![
                channel_status(CONTROL_CHANGE_STATUS, channel),
                control_number@,
                control_value@,
            ],
            MidiMessage::ProgramChange { channel, program_number } => seq![
                channel_status(PROGRAM_CHANGE_STATUS, channel),
                program_number@,
            ],
            MidiMessage::ChannelPressure { channel, pressure } => seq![
                channel_status(CHANNEL_PRESSURE_STATUS, channel),
                pressure@,
            ],
            MidiMessage::PitchBendChange { channel, value } => seq![
                channel_status(PITCH_BEND_CHANGE_STATUS, channel),
                lsb(value),
                msb(value),
            ],
            MidiMessage::TimeCodeQuarterFrame { message_type, value } => seq![
                TIME_CODE_QUARTER_FRAME_STATUS,
                quarter_frame(message_type, value),
            ],
            MidiMessage::SongPositionPointer { position } => seq![
                SONG_POSITION_POINTER_STATUS,
                lsb(position),
                msb(position),
            ],
            MidiMessage::SongSelect { song } => seq![SONG_SELECT_STATUS, song@],
            MidiMessage::TuneRequest => seq![TUNE_REQUEST_STATUS],
            MidiMessage::TimingClock => seq![TIMING_CLOCK_STATUS],
            MidiMessage::Start => seq![START_STATUS],
            MidiMessage::Continue => seq![CONTINUE_STATUS],
            MidiMessage::Stop => seq![STOP_STATUS],
            MidiMessage::ActiveSensing => seq![ACTIVE_SENSING_STATUS],
            MidiMessage::SystemReset => seq![SYSTEM_RESET_STATUS],
        }
    }

    /// The message that `bytes` are, or why they are none. The shape is
    /// looked at first: the number of bytes, then the top bit of each. Then
    /// the status byte is looked up, and the number of bytes is held against
    /// what the status byte asks for.
    pub open spec fn parse(bytes: Seq<u8>) -> Result<MidiMessage, TryFromError> {
        if !is_short_message(bytes) {
            Err(shape_error(bytes))
        } else {
            match message_len(bytes[0]) {
                None => Err(TryFromError::UnknownStatus),
                Some(n) => if bytes.len() == n {
                    Ok(assemble(bytes))
                } else {
                    Err(TryFromError::Structure)
                },
            }
        }
    }

    /// Rebuilds a message from its wire bytes, or says why `data` holds none.
    /// What comes back for wire bytes is the message that they were written
    /// from.
    pub fn try_from(data: &[u8]) -> (r: Result<MidiMessage, TryFromError>)
        ensures
            r == Self::parse(data@),
            r matches Ok(message) ==> message.wf() && message.wire() == data@,
    {
        let len = data.len();
        if len < 1 || len > 3 {
            return Err(TryFromError::Structure);
        }
        let status: u8 = data[0];
        if !is_status_byte(status) {
            return Err(TryFromError::StatusByte);
        }
        if len >= 2 && is_status_byte(data[1]) {
            return Err(TryFromError::StatusByte);
        }
        if len == 3 && is_status_byte(data[2]) {
            return Err(TryFromError::StatusByte);
        }
        let expected = match message_length(status) {
            Some(n) => n,
            None => {
                return Err(TryFromError::UnknownStatus);
            },
        };
        if len != expected {
            return Err(TryFromError::Structure);
        }
        assert(status & 0xF0 == (status - status % 16) as u8 && status & 0x0F == status % 16 && status
            & 0x0F <= 0x0F) by (bit_vector);
        let kind: u8 = status & 0xF0;
        let channel = U4::new(status & 0x0F).unwrap();
        let message = if status == TUNE_REQUEST_STATUS {
            MidiMessage::TuneRequest
        } else if status == TIMING_CLOCK_STATUS {
            MidiMessage::TimingClock
        } else if status == START_STATUS {
            MidiMessage::Start
        } else if status == CONTINUE_STATUS {
            MidiMessage::Continue
        } else if status == STOP_STATUS {
            MidiMessage::Stop
        } else if status == ACTIVE_SENSING_STATUS {
            MidiMessage::ActiveSensing
        } else if status == SYSTEM_RESET_STATUS {
            MidiMessage::SystemReset
        } else if status == TIME_CODE_QUARTER_FRAME_STATUS {
            let byte: u8 = data[1];
            assert(byte >> 4 == byte / 16 && byte & 0x0F == byte % 16 && byte >> 4 <= 0x07 && byte
                & 0x0F <= 0x0F) by (bit_vector)
                requires
                    byte < 0x80,
            ;
            MidiMessage::TimeCodeQuarterFrame {
                message_type: U3::new(byte >> 4).unwrap(),
                value: U4::new(byte & 0x0F).unwrap(),
            }
        } else if status == SONG_SELECT_STATUS {
            MidiMessage::SongSelect { song: U7::new(data[1]).unwrap() }
        } else if status == SONG_POSITION_POINTER_STATUS {
            MidiMessage::SongPositionPointer {
                position: read_u14_data(U7::new(data[1]).unwrap(), U7::new(data[2]).unwrap()),
            }
        } else if kind == NOTE_OFF_STATUS {
            MidiMessage::NoteOff {
                channel,
                note: U7::new(data[1]).unwrap(),
                velocity: U7::new(data[2]).unwrap(),
            }
        } else if kind == NOTE_ON_STATUS {
            MidiMessage::NoteOn {
                channel,
                note: U7::new(data[1]).unwrap(),
                velocity: U7::new(data[2]).unwrap(),
            }
        } else if kind == POLY_KEY_PRESSURE_STATUS {
            MidiMessage::PolyKeyPressure { channel, pressure: U7::new(data[1]).unwrap() }
        } else if kind == CONTROL_CHANGE_STATUS {
            MidiMessage::ControlChange {
                channel,
                control_number: U7::new(data[1]).unwrap(),
                control_value: U7::new(data[2]).unwrap(),
            }
        } else if kind == PROGRAM_CHANGE_STATUS {
            MidiMessage::ProgramChange { channel, program_number: U7::new(data[1]).unwrap() }
        } else if kind == CHANNEL_PRESSURE_STATUS {
            MidiMessage::ChannelPressure { channel, pressure: U7::new(data[1]).unwrap() }
        } else {
            MidiMessage::PitchBendChange {
                channel,
                value: read_u14_data(U7::new(data[1]).unwrap(), U7::new(data[2]).unwrap()),
            }
        };
        proof {
            broadcast use group_units;

            lemma_wire_parse(data@, message);
        }
        Ok(message)
    }
}

/// A message that is written and read again is the message it was: the wire
/// bytes of every message whose fields fit their widths parse, and parse to
/// that message.
pub proof fn lemma_parse_wire(message: MidiMessage)
    requires
        message.wf(),
    ensures
        MidiMessage::parse(message.wire()) == Ok::<MidiMessage, TryFromError>(message),
{
    broadcast use group_units;

    match message {
        MidiMessage::NoteOff { channel, note, velocity } => {
            lemma_channel_status(NOTE_OFF_STATUS, channel);
        },
        MidiMessage::NoteOn { channel, note, velocity } => {
            lemma_channel_status(NOTE_ON_STATUS, channel);
        },
        MidiMessage::PolyKeyPressure { channel, pressure } => {
            lemma_channel_status(POLY_KEY_PRESSURE_STATUS, channel);
        },
        MidiMessage::ControlChange { channel, control_number, control_value } => {
            lemma_channel_status(CONTROL_CHANGE_STATUS, channel);
        },
        MidiMessage::ProgramChange { channel, program_number } => {
            lemma_channel_status(PROGRAM_CHANGE_STATUS, channel);
        },
        MidiMessage::ChannelPressure { channel, pressure } => {
            lemma_channel_status(CHANNEL_PRESSURE_STATUS, channel);
        },
        MidiMessage::PitchBendChange { channel, value } => {
            lemma_channel_status(PITCH_BEND_CHANGE_STATUS, channel);
            lemma_join_split(value);
        },
        MidiMessage::SongPositionPointer { position } => {
            lemma_join_split(position);
        },
        _ => {},
    }
}

/// Bytes that parse are the wire bytes of what they parse to, and of no other
/// message: the fields of the message fit their widths, and writing it gives
/// the same bytes back.
pub proof fn lemma_wire_parse(bytes: Seq<u8>, message: MidiMessage)
    requires
        MidiMessage::parse(bytes) == Ok::<MidiMessage, TryFromError>(message),
    ensures
        message.wf(),
        message.wire() == bytes,
{
    broadcast use group_units;

    assert(message.wire() =~= bytes);
}

/// Reading is a function of the bytes: two results of reading the same bytes
/// are equal.
pub proof fn lemma_parse_deterministic(
    bytes: Seq<u8>,
    first: Result<MidiMessage, TryFromError>,
    second: Result<MidiMessage, TryFromError>,
)
    requires
        first == MidiMessage::parse(bytes),
        second == MidiMessage::parse(bytes),
    ensures
        first == second,
{
}

/// The status byte of a channel voice message holds its kind and its channel.
proof fn lemma_channel_status(status: u8, channel: U4)
    requires
        channel.wf(),
        status % 16 == 0,
        0x80 <= status <= 0xE0,
    ensures
        voice_kind(channel_status(status, channel)) == status,
        channel_status(status, channel) % 16 == channel@,
        is_status(channel_status(status, channel)),
        channel_status(status, channel) < 0xF0,
{
}

/// Two data bytes that a 14 bit value was split into join to that value.
proof fn lemma_join_split(value: U14)
    requires
        value.wf(),
    ensures
        join_u14(lsb(value), msb(value)) == value,
        !is_status(lsb(value)),
        !is_status(msb(value)),
{
    broadcast use group_units;

}

} // verus!
