//! The atom bodies that carry MIDI: short messages and system exclusive ones.
use crate::frame::{FrameFull, WritingFrame};
use crate::message::{
    channel_status, is_short_message, lemma_parse_wire, lsb, msb, shape_error, MidiMessage,
    TryFromError,
};
use crate::status_bytes::{
    is_status, is_status_byte, ACTIVE_SENSING_STATUS, CHANNEL_PRESSURE_STATUS, CONTINUE_STATUS,
    CONTROL_CHANGE_STATUS, END_OF_SYSTEM_EXCLUSIVE_STATUS, NOTE_OFF_STATUS, NOTE_ON_STATUS,
    PITCH_BEND_CHANGE_STATUS, POLY_KEY_PRESSURE_STATUS, PROGRAM_CHANGE_STATUS,
    SONG_POSITION_POINTER_STATUS, SONG_SELECT_STATUS, START_OF_SYSTEM_EXCLUSIVE_STATUS,
    START_STATUS, STOP_STATUS, SYSTEM_RESET_STATUS, TIME_CODE_QUARTER_FRAME_STATUS,
    TIMING_CLOCK_STATUS, TUNE_REQUEST_STATUS,
};
use crate::units::{U14, U4, U7};
use vstd::prelude::*;

verus! {

/// What a run of writes of one byte each does to a frame: of `bytes`, as many
/// as fit went to the end of the frame, in order, and the run succeeded if all
/// of them fit.
pub open spec fn wrote_each<W: WritingFrame>(
    before: W,
    after: W,
    bytes: Seq<u8>,
    ok: bool,
) -> bool {
    let fit = if bytes.len() <= before.room() {
        bytes.len()
    } else {
        before.room()
    };
    &&& ok <==> bytes.len() <= before.room()
    &&& after.written() =~= before.written() + bytes.take(fit as int)
    &&& after.room() == before.room() - fit
}

/// Writes the status byte of a channel voice message: `status`, the status of
/// its kind on channel 0, plus `channel`. No status of channel 0 is above
/// `0xF0`, and the sum of one that is would not fit in a byte.
pub fn write_channel_status<W: WritingFrame>(writer: &mut W, status: u8, channel: U4) -> (r:
    Result<(), FrameFull>)
    requires
        status <= 0xF0,
    ensures
        wrote_each(*old(writer), *final(writer), seq![channel_status(status, channel)], r is Ok),
{
    let channel: u8 = channel.get();
    let status: u8 = status + channel;
    writer.write_sized(status)
}

/// Writes one data byte.
pub fn write_data<W: WritingFrame>(writer: &mut W, data: U7) -> (r: Result<(), FrameFull>)
    ensures
        wrote_each(*old(writer), *final(writer), seq![data@], r is Ok),
{
    let data: u8 = data.get();
    writer.write_sized(data)
}

/// Writes a 14 bit value as two data bytes, the lower seven bits first.
pub fn write_u14_data<W: WritingFrame>(writer: &mut W, data: U14) -> (r: Result<(), FrameFull>)
    ensures
        wrote_each(*old(writer), *final(writer), seq![lsb(data), msb(data)], r is Ok),
{
    let data: u16 = data.get();
    assert((data & 0x3F80) >> 7 == data / 128 && data & 0x007F == data % 128 && data / 128 < 256)
        by (bit_vector)
        requires
            data <= 0x3FFF,
    ;
    let msb: u8 = ((data & 0x3F80) >> 7) as u8;
    let lsb: u8 = (data & 0x007F) as u8;
    writer.write_sized(lsb)?;
    writer.write_sized(msb)?;
    Ok(())
}

/// The URI of the type of both atoms.
pub const EVENT_URI: &'static str = "http://lv2plug.in/ns/ext/midi#MidiEvent";

/// A short MIDI message as it lies in an atom body: a status byte and up to
/// two data bytes. The bytes are borrowed, not copied.
#[derive(Clone, Copy, Debug)]
pub struct RawMidiMessage<'a> {
    bytes: &'a [u8],
}

impl<'a> View for RawMidiMessage<'a> {
    type V = Seq<u8>;

    closed spec fn view(&self) -> Seq<u8> {
        self.bytes@
    }
}

impl<'a> RawMidiMessage<'a> {
    /// The bytes have the shape of a short message. Every value that
    /// executable code holds does.
    #[verifier::type_invariant]
    pub open spec fn wf(self) -> bool {
        is_short_message(self@)
    }

    /// The URI of the atom type.
    pub fn get_uri() -> (uri: &'static str)
        ensures
            uri == EVENT_URI,
    {
        EVENT_URI
    }

    /// Takes `raw_data` as a short message if it has the shape of one: one to
    /// three bytes, a status byte first, data bytes behind it. Which message
    /// it is, if any, is left to `interpret`.
    pub fn create_ref(raw_data: &'a [u8]) -> (r: Result<RawMidiMessage<'a>, TryFromError>)
        ensures
            r is Ok <==> is_short_message(raw_data@),
            r matches Ok(raw) ==> raw@ == raw_data@,
            r matches Err(e) ==> e == shape_error(raw_data@),
    {
        if raw_data.len() > 3 || raw_data.len() == 0 {
            return Err(TryFromError::Structure);
        }
        if !is_status_byte(raw_data[0]) {
            return Err(TryFromError::StatusByte);
        }
        if raw_data.len() >= 2 && is_status_byte(raw_data[1]) {
            return Err(TryFromError::StatusByte);
        }
        if raw_data.len() == 3 && is_status_byte(raw_data[2]) {
            return Err(TryFromError::StatusByte);
        }
        Ok(RawMidiMessage { bytes: raw_data })
    }

    /// The bytes of the message.
    pub fn as_bytes(&self) -> (bytes: &'a [u8])
        ensures
            bytes@ == self@,
            is_short_message(self@),
    {
        proof {
            use_type_invariant(self);
        }
        self.bytes
    }

    /// Rebuilds the message from the bytes, or says why they are none: the
    /// status byte is unknown, or the number of bytes is not the one that it
    /// asks for.
    pub fn interpret(&self) -> (r: Result<MidiMessage, TryFromError>)
        ensures
            r == MidiMessage::parse(self@),
            r matches Ok(message) ==> message.wf() && message.wire() == self@,
            r matches Err(e) ==> e != TryFromError::StatusByte,
    {
        proof {
            use_type_invariant(self);
        }
        MidiMessage::try_from(self.bytes)
    }

    /// Writes the body of a MIDI event atom: the wire bytes of `message`, one
    /// write for each byte. The frame refuses the first byte that does not
    /// fit; the bytes before it stay written.
    pub fn initialize_body<W: WritingFrame>(writer: &mut W, message: &MidiMessage) -> (r: Result<
        (),
        FrameFull,
    >)
        ensures
            wrote_each(*old(writer), *final(writer), message.wire(), r is Ok),
            message.wf(),
            MidiMessage::parse(message.wire()) == Ok::<MidiMessage, TryFromError>(*message),
    {
        proof {
            match message {
                MidiMessage::NoteOff { channel, note, velocity } => {
                    use_type_invariant(channel);
                    use_type_invariant(note);
                    use_type_invariant(velocity);
                },
                MidiMessage::NoteOn { channel, note, velocity } => {
                    use_type_invariant(channel);
                    use_type_invariant(note);
                    use_type_invariant(velocity);
                },
                MidiMessage::PolyKeyPressure { channel, pressure } => {
                    use_type_invariant(channel);
                    use_type_invariant(pressure);
                },
                MidiMessage::ControlChange { channel, control_number, control_value } => {
                    use_type_invariant(channel);
                    use_type_invariant(control_number);
                    use_type_invariant(control_value);
                },
                MidiMessage::ProgramChange { channel, program_number } => {
                    use_type_invariant(channel);
                    use_type_invariant(program_number);
                },
                MidiMessage::ChannelPressure { channel, pressure } => {
                    use_type_invariant(channel);
                    use_type_invariant(pressure);
                },
                MidiMessage::PitchBendChange { channel, value } => {
                    use_type_invariant(channel);
                    use_type_invariant(value);
                },
                MidiMessage::TimeCodeQuarterFrame { message_type, value } => {
                    use_type_invariant(message_type);
                    use_type_invariant(value);
                },
                MidiMessage::SongPositionPointer { position } => {
                    use_type_invariant(position);
                },
                MidiMessage::SongSelect { song } => {
                    use_type_invariant(song);
                },
                _ => {},
            }
            lemma_parse_wire(*message);
        }
        match message {
            MidiMessage::NoteOff { channel, note, velocity } => {
                write_channel_status(writer, NOTE_OFF_STATUS, *channel)?;
                write_data(writer, *note)?;
                write_data(writer, *velocity)?;
            },
            MidiMessage::NoteOn { channel, note, velocity } => {
                write_channel_status(writer, NOTE_ON_STATUS, *channel)?;
                write_data(writer, *note)?;
                write_data(writer, *velocity)?;
            },
            MidiMessage::PolyKeyPressure { channel, pressure } => {
                write_channel_status(writer, POLY_KEY_PRESSURE_STATUS, *channel)?;
                write_data(writer, *pressure)?;
            },
            MidiMessage::ControlChange { channel, control_number, control_value } => {
                write_channel_status(writer, CONTROL_CHANGE_STATUS, *channel)?;
                write_data(writer, *control_number)?;
                write_data(writer, *control_value)?;
            },
            MidiMessage::ProgramChange { channel, program_number } => {
                write_channel_status(writer, PROGRAM_CHANGE_STATUS, *channel)?;
                write_data(writer, *program_number)?;
            },
            MidiMessage::ChannelPressure { channel, pressure } => {
                write_channel_status(writer, CHANNEL_PRESSURE_STATUS, *channel)?;
                write_data(writer, *pressure)?;
            },
            MidiMessage::PitchBendChange { channel, value } => {
                write_channel_status(writer, PITCH_BEND_CHANGE_STATUS, *channel)?;
                write_u14_data(writer, *value)?;
            },
            MidiMessage::TimeCodeQuarterFrame { message_type, value } => {
                writer.write_sized(TIME_CODE_QUARTER_FRAME_STATUS)?;
                let message_type: u8 = message_type.get();
                let value: u8 = value.get();
                assert(message_type << 4 == message_type * 16) by (bit_vector)
                    requires
                        message_type <= 0x07,
                ;
                let byte: u8 = value + (message_type << 4);
                writer.write_sized(byte)?;
            },
            MidiMessage::SongPositionPointer { position } => {
                writer.write_sized(SONG_POSITION_POINTER_STATUS)?;
                write_u14_data(writer, *position)?;
            },
            MidiMessage::SongSelect { song } => {
                writer.write_sized(SONG_SELECT_STATUS)?;
                write_data(writer, *song)?;
            },
            MidiMessage::TuneRequest => {
                writer.write_sized(TUNE_REQUEST_STATUS)?;
            },
            MidiMessage::TimingClock => {
                writer.write_sized(TIMING_CLOCK_STATUS)?;
            },
            MidiMessage::Start => {
                writer.write_sized(START_STATUS)?;
            },
            MidiMessage::Continue => {
                writer.write_sized(CONTINUE_STATUS)?;
            },
            MidiMessage::Stop => {
                writer.write_sized(STOP_STATUS)?;
            },
            MidiMessage::ActiveSensing => {
                writer.write_sized(ACTIVE_SENSING_STATUS)?;
            },
            MidiMessage::SystemReset => {
                writer.write_sized(SYSTEM_RESET_STATUS)?;
            },
        }
        Ok(())
    }
}

/// The wire bytes of a system exclusive message that carries `data`: the
/// start status, the data, the end status.
pub open spec fn system_exclusive_wire(data: Seq<u8>) -> Seq<u8> {
    seq![START_OF_SYSTEM_EXCLUSIVE_STATUS] + data + seq![END_OF_SYSTEM_EXCLUSIVE_STATUS]
}

/// Whether `bytes` are a system exclusive message: at least two bytes, the
/// start status first, the end status last, and no status byte between them.
pub open spec fn is_system_exclusive(bytes: Seq<u8>) -> bool {
    &&& bytes.len() >= 2
    &&& bytes[0] == START_OF_SYSTEM_EXCLUSIVE_STATUS
    &&& bytes[bytes.len() - 1] == END_OF_SYSTEM_EXCLUSIVE_STATUS
    &&& forall|i: int| 1 <= i < bytes.len() - 1 ==> !is_status(#[trigger] bytes[i])
}

/// What is wrong with `bytes`, where they are no system exclusive message:
/// the length is looked at first.
pub open spec fn system_exclusive_error(bytes: Seq<u8>) -> TryFromError {
    if bytes.len() < 2 {
        TryFromError::Structure
    } else {
        TryFromError::StatusByte
    }
}

/// How many bytes of a system exclusive message with `len` bytes of data
/// reach a frame with `room`: the start status, the data and the end status
/// are three writes, and each goes in whole or not at all.
pub open spec fn system_exclusive_fit(room: nat, len: nat) -> nat {
    if room < 1 {
        0
    } else if room - 1 < len {
        1
    } else if room - 1 - len < 1 {
        1 + len
    } else {
        2 + len
    }
}

/// A system exclusive message as it lies in an atom body. The bytes are
/// borrowed, not copied.
#[derive(Clone, Copy, Debug)]
pub struct SystemExclusiveMessage<'a> {
    bytes: &'a [u8],
}

impl<'a> View for SystemExclusiveMessage<'a> {
    type V = Seq<u8>;

    closed spec fn view(&self) -> Seq<u8> {
        self.bytes@
    }
}

impl<'a> SystemExclusiveMessage<'a> {
    /// The bytes are a system exclusive message. Every value that executable
    /// code holds is one.
    #[verifier::type_invariant]
    pub open spec fn wf(self) -> bool {
        is_system_exclusive(self@)
    }

    /// The data of the message: the bytes between the two status bytes.
    pub open spec fn data(self) -> Seq<u8> {
        self@.subrange(1, self@.len() - 1)
    }

    /// The URI of the atom type.
    pub fn get_uri() -> (uri: &'static str)
        ensures
            uri == EVENT_URI,
    {
        EVENT_URI
    }

    /// Return the data bytes between the start and end status byte.
    pub fn get_data(&self) -> (data: &'a [u8])
        ensures
            data@ == self.data(),
            system_exclusive_wire(data@) == self@,
            forall|i: int| 0 <= i < data@.len() ==> !is_status(#[trigger] data@[i]),
    {
        proof {
            use_type_invariant(self);
        }
        let data = self.bytes;
        let len = data.len();
        vstd::slice::slice_subrange(data, 1, len - 1)
    }

    /// Writes the body of a system exclusive atom in three writes: the start
    /// status, all of `data` as it is, the end status. `data` is not looked
    /// at: it is for the caller to hand over data bytes only. The frame
    /// refuses the first write that does not fit; what was written before it
    /// stays written.
    pub fn initialize_body<W: WritingFrame>(writer: &mut W, data: &[u8]) -> (r: Result<
        (),
        FrameFull,
    >)
        ensures
            r is Ok <==> data@.len() + 2 <= old(writer).room(),
            final(writer).written() == old(writer).written() + system_exclusive_wire(data@).take(
                system_exclusive_fit(old(writer).room(), data@.len()) as int,
            ),
            final(writer).room() == old(writer).room() - system_exclusive_fit(
                old(writer).room(),
                data@.len(),
            ),
    {
        writer.write_sized(START_OF_SYSTEM_EXCLUSIVE_STATUS)?;
        writer.write_raw(data)?;
        writer.write_sized(END_OF_SYSTEM_EXCLUSIVE_STATUS)?;
        Ok(())
    }

    /// Takes `raw_data` as a system exclusive message if it is one: at least
    /// two bytes, the start status first, the end status last, and data bytes
    /// only between them.
    pub fn create_ref(raw_data: &'a [u8]) -> (r: Result<SystemExclusiveMessage<'a>, TryFromError>)
        ensures
            r is Ok <==> is_system_exclusive(raw_data@),
            r matches Ok(raw) ==> raw@ == raw_data@,
            r matches Err(e) ==> e == system_exclusive_error(raw_data@),
    {
        let len = raw_data.len();
        if len < 2 {
            return Err(TryFromError::Structure);
        }
        let first_byte: u8 = raw_data[0];
        let last_byte: u8 = raw_data[len - 1];
        if first_byte != START_OF_SYSTEM_EXCLUSIVE_STATUS || last_byte
            != END_OF_SYSTEM_EXCLUSIVE_STATUS {
            return Err(TryFromError::StatusByte);
        }
        let mut i: usize = 1;
        while i < len - 1
            invariant
                len == raw_data@.len(),
                1 <= i <= len - 1,
                forall|j: int| 1 <= j < i ==> !is_status(#[trigger] raw_data@[j]),
            decreases len - i,
        {
            if is_status_byte(raw_data[i]) {
                return Err(TryFromError::StatusByte);
            }
            i = i + 1;
        }
        Ok(SystemExclusiveMessage { bytes: raw_data })
    }
}

/// A system exclusive message that is written and read again holds the data
/// it was written with: where `data` holds data bytes only, its wire bytes
/// are a system exclusive message, and the data of that message is `data`.
pub proof fn lemma_system_exclusive_round_trip(data: Seq<u8>)
    requires
        forall|i: int| 0 <= i < data.len() ==> !is_status(#[trigger] data[i]),
    ensures
        is_system_exclusive(system_exclusive_wire(data)),
        system_exclusive_wire(data).subrange(1, system_exclusive_wire(data).len() - 1) == data,
{
}

/// Data that holds a status byte cannot be read back: its wire bytes are no
/// system exclusive message.
pub proof fn lemma_system_exclusive_rejects(data: Seq<u8>, i: int)
    requires
        0 <= i < data.len(),
        is_status(data[i]),
    ensures
        !is_system_exclusive(system_exclusive_wire(data)),
{
    assert(system_exclusive_wire(data)[i + 1] == data[i]);
}

} // verus!
