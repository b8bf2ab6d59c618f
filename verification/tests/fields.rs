use midi_atom::atom::{write_channel_status, write_data, write_u14_data};
use midi_atom::frame::{Buffer, FrameFull};
use midi_atom::scalar::{widen_ref, AtomHeader, ScalarAtomBody, WrongBody, URID};
use midi_atom::status_bytes::{is_status_byte, NOTE_ON_STATUS, PITCH_BEND_CHANGE_STATUS};
use midi_atom::units::{U14, U3, U4, U7};

#[test]
fn units_take_what_fits_their_width() {
    assert_eq!(U3::new(0).map(U3::get), Some(0));
    assert_eq!(U3::new(7).map(U3::get), Some(7));
    assert_eq!(U3::new(8), None);
    assert_eq!(U4::new(15).map(U4::get), Some(15));
    assert_eq!(U4::new(16), None);
    assert_eq!(U7::new(127).map(U7::get), Some(127));
    assert_eq!(U7::new(128), None);
    assert_eq!(U7::new(255), None);
    assert_eq!(U14::new(16383).map(U14::get), Some(16383));
    assert_eq!(U14::new(16384), None);
    assert_eq!(U14::new(u16::MAX), None);
    assert_eq!(U3::MAX, 7);
    assert_eq!(U4::MAX, 15);
    assert_eq!(U7::MAX, 127);
    assert_eq!(U14::MAX, 16383);
}

#[test]
fn units_compare_by_value() {
    assert_eq!(U7::new(5), U7::new(5));
    assert_ne!(U7::new(5), U7::new(6));
    assert_eq!(U14::new(300), U14::new(300));
}

#[test]
fn channel_status_adds_the_channel() {
    let mut buffer = Buffer::new(4);
    assert_eq!(write_channel_status(&mut buffer, NOTE_ON_STATUS, U4::new(3).unwrap()), Ok(()));
    assert_eq!(write_channel_status(&mut buffer, PITCH_BEND_CHANGE_STATUS, U4::new(15).unwrap()), Ok(()));
    assert_eq!(write_channel_status(&mut buffer, 0xF0, U4::new(15).unwrap()), Ok(()));
    assert_eq!(write_channel_status(&mut buffer, 0x80, U4::new(0).unwrap()), Ok(()));
    assert_eq!(buffer.as_slice(), &[0x93, 0xEF, 0xFF, 0x80]);
    assert_eq!(write_channel_status(&mut buffer, 0x80, U4::new(0).unwrap()), Err(FrameFull));
}

#[test]
fn data_byte_is_written_as_it_is() {
    let mut buffer = Buffer::new(2);
    assert_eq!(write_data(&mut buffer, U7::new(0).unwrap()), Ok(()));
    assert_eq!(write_data(&mut buffer, U7::new(127).unwrap()), Ok(()));
    assert_eq!(write_data(&mut buffer, U7::new(1).unwrap()), Err(FrameFull));
    assert_eq!(buffer.as_slice(), &[0, 127]);
}

#[test]
fn fourteen_bits_go_lsb_first() {
    let mut buffer = Buffer::new(7);
    assert_eq!(write_u14_data(&mut buffer, U14::new(0).unwrap()), Ok(()));
    assert_eq!(write_u14_data(&mut buffer, U14::new(8192).unwrap()), Ok(()));
    assert_eq!(write_u14_data(&mut buffer, U14::new(0x1234).unwrap()), Ok(()));
    assert_eq!(write_u14_data(&mut buffer, U14::new(16383).unwrap()), Err(FrameFull));
    assert_eq!(buffer.as_slice(), &[0x00, 0x00, 0x00, 0x40, 0x34, 0x24, 0x7F]);
}

#[test]
fn top_bit_tells_status_from_data() {
    assert!(is_status_byte(0x80));
    assert!(is_status_byte(0xFF));
    assert!(!is_status_byte(0x7F));
    assert!(!is_status_byte(0x00));
}

#[test]
fn scalar_uris() {
    assert_eq!(<i32 as ScalarAtomBody>::get_uri(), "http://lv2plug.in/ns/ext/atom#Int");
    assert_eq!(<i64 as ScalarAtomBody>::get_uri(), "http://lv2plug.in/ns/ext/atom#Long");
    assert_eq!(<URID as ScalarAtomBody>::get_uri(), "http://lv2plug.in/ns/ext/atom#URID");
    assert_eq!(<bool as ScalarAtomBody>::get_uri(), "http://lv2plug.in/ns/ext/atom#Bool");
}

#[test]
fn scalar_header_must_match_type_and_size() {
    let header = AtomHeader { size: 4, atom_type: 7 };
    assert_eq!(widen_ref::<i32>(&header, 7), Ok(()));
    assert_eq!(widen_ref::<URID>(&header, 7), Ok(()));
    assert_eq!(widen_ref::<i32>(&header, 8), Err(WrongBody));
    assert_eq!(widen_ref::<i64>(&header, 7), Err(WrongBody));
    assert_eq!(widen_ref::<bool>(&header, 7), Err(WrongBody));
    assert_eq!(widen_ref::<i64>(&AtomHeader { size: 8, atom_type: 1 }, 1), Ok(()));
    assert_eq!(widen_ref::<bool>(&AtomHeader { size: 1, atom_type: 2 }, 2), Ok(()));
    assert_eq!(widen_ref::<i32>(&AtomHeader { size: -4, atom_type: 7 }, 7), Err(WrongBody));
    assert_eq!(widen_ref::<i32>(&AtomHeader { size: 0, atom_type: 7 }, 7), Err(WrongBody));
}
