use midi_atom::atom::SystemExclusiveMessage;
use midi_atom::frame::{Buffer, FrameFull, WritingFrame};
use midi_atom::message::TryFromError;

fn encode(data: &[u8]) -> Vec<u8> {
    let mut buffer = Buffer::new(data.len() + 2);
    SystemExclusiveMessage::initialize_body(&mut buffer, data).unwrap();
    buffer.as_slice().to_vec()
}

#[test]
fn system_exclusive_round_trip() {
    let bytes = encode(&[0x01, 0x02, 0x03]);
    assert_eq!(bytes, vec![0xF0, 0x01, 0x02, 0x03, 0xF7]);
    let message = SystemExclusiveMessage::create_ref(&bytes).unwrap();
    assert_eq!(message.get_data(), &[0x01, 0x02, 0x03]);
}

#[test]
fn system_exclusive_without_data() {
    let bytes = encode(&[]);
    assert_eq!(bytes, vec![0xF0, 0xF7]);
    let message = SystemExclusiveMessage::create_ref(&bytes).unwrap();
    assert_eq!(message.get_data(), &[0u8; 0]);
}

#[test]
fn system_exclusive_round_trips_every_data_byte() {
    let data: Vec<u8> = (0u8..0x80).collect();
    let bytes = encode(&data);
    assert_eq!(bytes.len(), 130);
    let message = SystemExclusiveMessage::create_ref(&bytes).unwrap();
    assert_eq!(message.get_data(), &data[..]);
}

#[test]
fn system_exclusive_writes_data_as_it_is() {
    let bytes = encode(&[0x01, 0x80, 0xFF]);
    assert_eq!(bytes, vec![0xF0, 0x01, 0x80, 0xFF, 0xF7]);
    assert_eq!(
        SystemExclusiveMessage::create_ref(&bytes).err(),
        Some(TryFromError::StatusByte)
    );
}

#[test]
fn interior_status_byte_is_rejected() {
    assert_eq!(
        SystemExclusiveMessage::create_ref(&[0xF0, 0x80, 0xF7]).err(),
        Some(TryFromError::StatusByte)
    );
    assert_eq!(
        SystemExclusiveMessage::create_ref(&[0xF0, 0x01, 0x02, 0xF8, 0xF7]).err(),
        Some(TryFromError::StatusByte)
    );
}

#[test]
fn short_system_exclusive_is_rejected() {
    assert_eq!(SystemExclusiveMessage::create_ref(&[0xF0]).err(), Some(TryFromError::Structure));
    assert_eq!(SystemExclusiveMessage::create_ref(&[]).err(), Some(TryFromError::Structure));
    assert_eq!(SystemExclusiveMessage::create_ref(&[0xF7]).err(), Some(TryFromError::Structure));
}

#[test]
fn wrong_start_or_end_status_is_rejected() {
    assert_eq!(
        SystemExclusiveMessage::create_ref(&[0xF1, 0xF7]).err(),
        Some(TryFromError::StatusByte)
    );
    assert_eq!(
        SystemExclusiveMessage::create_ref(&[0xF0, 0x01, 0xF6]).err(),
        Some(TryFromError::StatusByte)
    );
    assert_eq!(
        SystemExclusiveMessage::create_ref(&[0xF0, 0x01, 0x02]).err(),
        Some(TryFromError::StatusByte)
    );
    assert_eq!(
        SystemExclusiveMessage::create_ref(&[0x01, 0x02, 0xF7]).err(),
        Some(TryFromError::StatusByte)
    );
}

#[test]
fn full_frame_keeps_the_writes_that_fit() {
    let data = [0x01u8, 0x02, 0x03];
    let expected: [&[u8]; 5] =
        [&[], &[0xF0], &[0xF0], &[0xF0], &[0xF0, 0x01, 0x02, 0x03]];
    for room in 0usize..5 {
        let mut buffer = Buffer::new(room);
        assert_eq!(SystemExclusiveMessage::initialize_body(&mut buffer, &data), Err(FrameFull));
        assert_eq!(buffer.as_slice(), expected[room]);
        assert_eq!(buffer.remaining(), room - expected[room].len());
    }
    let mut buffer = Buffer::new(5);
    assert_eq!(SystemExclusiveMessage::initialize_body(&mut buffer, &data), Ok(()));
    assert_eq!(buffer.as_slice(), &[0xF0, 0x01, 0x02, 0x03, 0xF7]);
    assert_eq!(buffer.remaining(), 0);
}

#[test]
fn decoding_twice_gives_equal_data() {
    let bytes = vec![0xF0u8, 0x11, 0x22, 0xF7];
    let before = bytes.clone();
    let first = SystemExclusiveMessage::create_ref(&bytes).unwrap();
    let second = SystemExclusiveMessage::create_ref(&bytes).unwrap();
    assert_eq!(first.get_data(), second.get_data());
    assert_eq!(bytes, before);
}

#[test]
fn system_exclusive_uri_names_the_midi_event() {
    assert_eq!(SystemExclusiveMessage::get_uri(), "http://lv2plug.in/ns/ext/midi#MidiEvent");
}

#[test]
fn buffer_refuses_what_does_not_fit() {
    let mut buffer = Buffer::new(4);
    assert_eq!(buffer.len(), 0);
    assert_eq!(buffer.remaining(), 4);
    assert_eq!(buffer.write_raw(&[1, 2, 3]), Ok(()));
    assert_eq!(buffer.write_raw(&[4, 5]), Err(FrameFull));
    assert_eq!(buffer.as_slice(), &[1, 2, 3]);
    assert_eq!(buffer.remaining(), 1);
    assert_eq!(buffer.write_sized(9), Ok(()));
    assert_eq!(buffer.write_sized(10), Err(FrameFull));
    assert_eq!(buffer.write_raw(&[]), Ok(()));
    assert_eq!(buffer.as_slice(), &[1, 2, 3, 9]);
    assert_eq!(buffer.len(), 4);
    assert_eq!(buffer.remaining(), 0);
}
