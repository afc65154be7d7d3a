use kinectosc::geometry::{Double, Point3, Quaternion, Vector3};
use kinectosc::osc::{encode_datagram, Message, OscPadWriter, PoseMessage};

fn d(x: f64) -> Double {
    Double::from_bits(x.to_bits())
}

fn sample_message() -> PoseMessage {
    PoseMessage {
        id: 3,
        is_valid: true,
        wfd_rotation: Quaternion::new(d(1.0), d(0.0), d(0.0), d(0.0)),
        wfd_translation: Vector3::new(d(1.0), d(2.0), d(3.0)),
        position: Point3::new(d(0.5), d(-0.25), d(1.75)),
        orientation: Quaternion::new(d(0.5), d(0.5), d(-0.5), d(0.5)),
    }
}

fn expected_wire(m: &PoseMessage, doubles: &[f64; 14]) -> Vec<u8> {
    let mut out: Vec<u8> = Vec::new();
    out.extend_from_slice(b"/Tracker/Pose\0\0\0");
    out.extend_from_slice(b",iidddddddddddddd\0\0\0");
    out.extend_from_slice(&m.id.to_be_bytes());
    out.extend_from_slice(&(if m.is_valid { 1i32 } else { 0i32 }).to_be_bytes());
    for x in doubles.iter() {
        out.extend_from_slice(&x.to_be_bytes());
    }
    out
}

#[test]
fn test_write_string() {
    let buf = Vec::new();
    let mut w = OscPadWriter::new(buf);
    w.write_string("abc").unwrap();
    assert_eq!(vec![0x61, 0x62, 0x63, 0x00], w.into_inner());
}

#[test]
fn write_string_returns_padded_length() {
    let mut w = OscPadWriter::new(Vec::new());
    assert_eq!(w.write_string("abc").unwrap(), 4);
    assert_eq!(w.write_string("a").unwrap(), 4);
    assert_eq!(w.write_string("ab").unwrap(), 4);
    assert_eq!(w.write_string("abcde").unwrap(), 8);
    assert_eq!(w.into_inner().len(), 20);
}

#[test]
fn write_string_pads_a_multiple_of_four_with_four_zeros() {
    let mut w = OscPadWriter::new(Vec::new());
    assert_eq!(w.write_string("abcd").unwrap(), 8);
    assert_eq!(w.into_inner(), vec![0x61, 0x62, 0x63, 0x64, 0, 0, 0, 0]);
}

#[test]
fn write_string_of_nothing_is_four_zeros() {
    let mut w = OscPadWriter::new(Vec::new());
    assert_eq!(w.write_string("").unwrap(), 4);
    assert_eq!(w.into_inner(), vec![0, 0, 0, 0]);
}

#[test]
fn write_string_takes_the_bytes_of_the_encoding() {
    let mut w = OscPadWriter::new(Vec::new());
    assert_eq!(w.write_string("é").unwrap(), 4);
    assert_eq!(w.into_inner(), vec![0xC3, 0xA9, 0, 0]);
}

#[test]
fn write_string_appends_to_what_is_there() {
    let mut w = OscPadWriter::new(vec![9, 9]);
    w.write_string("hi").unwrap();
    assert_eq!(w.into_inner(), vec![9, 9, b'h', b'i', 0, 0]);
}

#[test]
fn write_int_is_big_endian() {
    let mut w = OscPadWriter::new(Vec::new());
    assert_eq!(w.write_int(1).unwrap(), 4);
    assert_eq!(w.write_int(0x0102_0304).unwrap(), 4);
    assert_eq!(w.into_inner(), vec![0, 0, 0, 1, 1, 2, 3, 4]);
}

#[test]
fn write_int_is_twos_complement() {
    for x in [0i32, -1, -2, 255, 256, -256, i32::MAX, i32::MIN, 200, -123_456_789] {
        let mut w = OscPadWriter::new(Vec::new());
        assert_eq!(w.write_int(x).unwrap(), 4);
        assert_eq!(w.into_inner(), x.to_be_bytes().to_vec());
    }
}

#[test]
fn write_double_is_the_big_endian_bit_pattern() {
    for x in [0.0f64, -0.0, 1.0, -1.5, 0.03, 1000.0, f64::MAX, f64::MIN_POSITIVE, f64::INFINITY] {
        let mut w = OscPadWriter::new(Vec::new());
        assert_eq!(w.write_double(d(x)).unwrap(), 8);
        assert_eq!(w.into_inner(), x.to_be_bytes().to_vec());
    }
}

#[test]
fn write_double_of_one() {
    let mut w = OscPadWriter::new(Vec::new());
    w.write_double(Double::one()).unwrap();
    assert_eq!(w.into_inner(), vec![0x3F, 0xF0, 0, 0, 0, 0, 0, 0]);
}

#[test]
fn pose_message_layout() {
    let m = sample_message();
    let mut w = OscPadWriter::new(Vec::new());
    let n = m.encode(&mut w).unwrap();
    let bytes = w.into_inner();
    assert_eq!(n, 156);
    assert_eq!(bytes.len(), 156);
    let doubles = [
        1.0, 0.0, 0.0, 0.0, // calibration rotation w i j k
        1.0, 2.0, 3.0, // calibration translation
        0.5, -0.25, 1.75, // position
        0.5, 0.5, -0.5, 0.5, // orientation w i j k
    ];
    assert_eq!(bytes, expected_wire(&m, &doubles));
}

#[test]
fn pose_message_starts_with_address_and_type_tags() {
    let m = sample_message();
    let mut w = OscPadWriter::new(Vec::new());
    m.encode(&mut w).unwrap();
    let bytes = w.into_inner();
    assert_eq!(&bytes[..16], b"/Tracker/Pose\0\0\0");
    assert_eq!(&bytes[16..36], b",iidddddddddddddd\0\0\0");
    let tags = &bytes[16..33];
    assert_eq!(tags.iter().filter(|b| **b == b'i').count(), 2);
    assert_eq!(tags.iter().filter(|b| **b == b'd').count(), 14);
    assert_eq!(&bytes[36..40], &[0, 0, 0, 3]);
    assert_eq!(&bytes[40..44], &[0, 0, 0, 1]);
}

#[test]
fn pose_message_validity_flag_is_zero_or_one() {
    let mut m = sample_message();
    m.is_valid = false;
    let mut w = OscPadWriter::new(Vec::new());
    m.encode(&mut w).unwrap();
    assert_eq!(&w.into_inner()[40..44], &[0, 0, 0, 0]);
}

#[test]
fn pose_message_large_id_keeps_its_bits() {
    let mut m = sample_message();
    m.id = 0xFFFF_FFFE;
    let mut w = OscPadWriter::new(Vec::new());
    m.encode(&mut w).unwrap();
    assert_eq!(&w.into_inner()[36..40], &[0xFF, 0xFF, 0xFF, 0xFE]);
    m.id = 0x8000_0000;
    let mut w = OscPadWriter::new(Vec::new());
    m.encode(&mut w).unwrap();
    assert_eq!(&w.into_inner()[36..40], &[0x80, 0, 0, 0]);
}

#[test]
fn encode_appends_to_the_writer() {
    let m = sample_message();
    let mut w = OscPadWriter::new(vec![7u8; 5]);
    assert_eq!(m.encode(&mut w).unwrap(), 156);
    let bytes = w.into_inner();
    assert_eq!(bytes.len(), 161);
    assert_eq!(&bytes[..5], &[7u8; 5]);
    assert_eq!(&bytes[5..21], b"/Tracker/Pose\0\0\0");
}

#[test]
fn encode_datagram_empties_the_buffer_first() {
    let m = sample_message();
    let mut buf = vec![1u8, 2, 3];
    assert_eq!(encode_datagram(&m, &mut buf).unwrap(), 156);
    let first = buf.clone();
    assert_eq!(first.len(), 156);
    assert_eq!(encode_datagram(&m, &mut buf).unwrap(), 156);
    assert_eq!(buf, first);
    let mut w = OscPadWriter::new(Vec::new());
    m.encode(&mut w).unwrap();
    assert_eq!(buf, w.into_inner());
}
