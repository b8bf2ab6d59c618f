//! The status bytes of the MIDI messages.
//!
//! A status byte has its top bit set and opens a message. A channel voice
//! status holds the kind of the message in its upper four bits and the
//! channel in its lower four; the constants for these are the status of
//! channel 0. All other statuses stand for themselves.
use vstd::prelude::*;

verus! {

pub const NOTE_OFF_STATUS: u8 = 0x80;

pub const NOTE_ON_STATUS: u8 = 0x90;

pub const POLY_KEY_PRESSURE_STATUS: u8 = 0xA0;

pub const CONTROL_CHANGE_STATUS: u8 = 0xB0;

pub const PROGRAM_CHANGE_STATUS: u8 = 0xC0;

pub const CHANNEL_PRESSURE_STATUS: u8 = 0xD0;

pub const PITCH_BEND_CHANGE_STATUS: u8 = 0xE0;

pub const START_OF_SYSTEM_EXCLUSIVE_STATUS: u8 = 0xF0;

pub const TIME_CODE_QUARTER_FRAME_STATUS: u8 = 0xF1;

pub const SONG_POSITION_POINTER_STATUS: u8 = 0xF2;

pub const SONG_SELECT_STATUS: u8 = 0xF3;

pub const TUNE_REQUEST_STATUS: u8 = 0xF6;

pub const END_OF_SYSTEM_EXCLUSIVE_STATUS: u8 = 0xF7;

pub const TIMING_CLOCK_STATUS: u8 = 0xF8;

pub const START_STATUS: u8 = 0xFA;

pub const CONTINUE_STATUS: u8 = 0xFB;

pub const STOP_STATUS: u8 = 0xFC;

pub const ACTIVE_SENSING_STATUS: u8 = 0xFE;

pub const SYSTEM_RESET_STATUS: u8 = 0xFF;

/// Whether `byte` is a status byte: its top bit is set.
pub open spec fn is_status(byte: u8) -> bool {
    byte >= 0x80
}

/// Tests the top bit of `byte`.
pub fn is_status_byte(byte: u8) -> (b: bool)
    ensures
        b == is_status(byte),
{
    assert((byte & 0x80 != 0) == (byte >= 0x80)) by (bit_vector);
    byte & 0x80 != 0
}

} // verus!
