use byteorder::{BigEndian, ByteOrder};
use rc_car_control::wire::{encode_datagram, DATAGRAM_LEN};

#[test]
fn datagram_has_six_bytes() {
    assert_eq!(DATAGRAM_LEN, 6);
    assert_eq!(encode_datagram(1, 2, 3).len(), DATAGRAM_LEN);
}

#[test]
fn zero_command_is_all_zero() {
    assert_eq!(encode_datagram(0, 0, 0), [0x00, 0x00, 0x00, 0x00, 0x00, 0x00]);
}

#[test]
fn neutral_command_at_frame_one() {
    assert_eq!(encode_datagram(1, 90, 90), [0x00, 0x01, 0x00, 0x5A, 0x00, 0x5A]);
}

#[test]
fn high_byte_comes_first() {
    assert_eq!(encode_datagram(0x1234, 0xABCD, 0x00FF), [0x12, 0x34, 0xAB, 0xCD, 0x00, 0xFF]);
    assert_eq!(encode_datagram(0x0100, 0x0001, 0xFF00), [0x01, 0x00, 0x00, 0x01, 0xFF, 0x00]);
}

#[test]
fn largest_values() {
    assert_eq!(encode_datagram(65535, 180, 65535), [0xFF, 0xFF, 0x00, 0xB4, 0xFF, 0xFF]);
}

#[test]
fn fields_keep_their_order() {
    assert_eq!(encode_datagram(1, 2, 3), [0, 1, 0, 2, 0, 3]);
}

#[test]
fn decoding_gives_the_fields_back() {
    let samples: [(u16, u16, u16); 6] = [
        (0, 0, 0),
        (1, 90, 90),
        (255, 256, 257),
        (0x1234, 0, 180),
        (65535, 65535, 65535),
        (40000, 180, 90),
    ];
    for (frame, left, right) in samples.iter() {
        let datagram = encode_datagram(*frame, *left, *right);
        assert_eq!(BigEndian::read_u16(&datagram[0..2]), *frame);
        assert_eq!(BigEndian::read_u16(&datagram[2..4]), *left);
        assert_eq!(BigEndian::read_u16(&datagram[4..6]), *right);
    }
}

#[test]
fn same_setpoints_differ_in_the_sequence_field_only() {
    let first = encode_datagram(7, 90, 180);
    let second = encode_datagram(8, 90, 180);
    assert_ne!(first[0..2], second[0..2]);
    assert_eq!(first[2..6], second[2..6]);
}
