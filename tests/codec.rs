use rosu::codec::{decode_le, encode_le, write_osu_string, write_uleb128, uleb_encode};
use rosu::constants::Packets;
use rosu::reader::Reader;
use rosu::writer::PacketWriter;

#[test]
fn uleb_boundaries_encode() {
    assert_eq!(write_uleb128(0), vec![0x00]);
    assert_eq!(write_uleb128(127), vec![0x7f]);
    assert_eq!(write_uleb128(128), vec![0x80, 0x01]);
    assert_eq!(write_uleb128(16383), vec![0xff, 0x7f]);
    assert_eq!(write_uleb128(16384), vec![0x80, 0x80, 0x01]);
    assert_eq!(write_uleb128(u32::MAX), vec![0xff, 0xff, 0xff, 0xff, 0x0f]);
}

#[test]
fn uleb_round_trip_values() {
    for v in [0u32, 1, 127, 128, 300, 16383, 16384, 2097151, 2097152, u32::MAX] {
        let mut bytes = write_uleb128(v);
        bytes.push(0xaa);
        let mut reader = Reader::new(bytes);
        assert_eq!(reader.read_uleb128(), Some(v));
        assert_eq!(reader.remaining(), 1);
    }
}

#[test]
fn uleb_too_long_or_cut_is_rejected() {
    let mut reader = Reader::new(vec![0x80, 0x80, 0x80, 0x80, 0x80, 0x01]);
    assert_eq!(reader.read_uleb128(), None);
    assert_eq!(reader.remaining(), 6);
    let mut cut = Reader::new(vec![0x80, 0x80]);
    assert_eq!(cut.read_uleb128(), None);
    assert_eq!(cut.remaining(), 2);
}

#[test]
fn uleb_encode_wide_value() {
    assert_eq!(uleb_encode(1u64 << 35), vec![0x80, 0x80, 0x80, 0x80, 0x80, 0x01]);
}

#[test]
fn le_helpers() {
    assert_eq!(encode_le(0x0102_0304, 4), vec![4, 3, 2, 1]);
    assert_eq!(encode_le(0x1_0000_00ff, 2), vec![0xff, 0]);
    assert_eq!(decode_le(&[4, 3, 2, 1]), 0x0102_0304);
    assert_eq!(decode_le(&[]), 0);
}

#[test]
fn primitives_round_trip() {
    let mut w = PacketWriter::new(Packets::CHO_PONG);
    w.write_int(0xabu8);
    w.write_int(-2i8);
    w.write_int(0xbeefu16);
    w.write_int(-300i16);
    w.write_int(0xdead_beefu32);
    w.write_int(i32::MIN);
    w.write_int(u64::MAX - 1);
    w.write_int(-1234567890123i64);
    let frame = w.serialise();
    let mut r = Reader::new(frame);
    assert_eq!(r.read_header(), Some((8, 1 + 1 + 2 + 2 + 4 + 4 + 8 + 8)));
    assert_eq!(r.read_int::<u8>(), Some(0xab));
    assert_eq!(r.read_int::<i8>(), Some(-2));
    assert_eq!(r.read_int::<u16>(), Some(0xbeef));
    assert_eq!(r.read_int::<i16>(), Some(-300));
    assert_eq!(r.read_int::<u32>(), Some(0xdead_beef));
    assert_eq!(r.read_int::<i32>(), Some(i32::MIN));
    assert_eq!(r.read_int::<u64>(), Some(u64::MAX - 1));
    assert_eq!(r.read_int::<i64>(), Some(-1234567890123));
    assert!(r.empty());
}

#[test]
fn signed_encoding_is_twos_complement() {
    let mut w = PacketWriter::new(Packets::CHO_PONG);
    w.write_int(-1i32);
    w.write_int(-2i16);
    let frame = w.serialise();
    assert_eq!(&frame[7..], &[0xff, 0xff, 0xff, 0xff, 0xfe, 0xff]);
}

#[test]
fn read_past_end_fails_and_keeps_cursor() {
    let mut r = Reader::new(vec![1, 2, 3]);
    assert_eq!(r.read_int::<i32>(), None);
    assert_eq!(r.remaining(), 3);
    assert_eq!(r.read_int::<u16>(), Some(0x0201));
    assert_eq!(r.remaining(), 1);
}

#[test]
fn osu_string_encoding() {
    assert_eq!(write_osu_string(String::new()), vec![0x00]);
    assert_eq!(write_osu_string("abc".to_string()), vec![0x0b, 3, b'a', b'b', b'c']);
    let long = "x".repeat(200);
    let enc = write_osu_string(long.clone());
    assert_eq!(&enc[..3], &[0x0b, 0xc8, 0x01]);
    assert_eq!(enc.len(), 203);
}

#[test]
fn osu_string_round_trip() {
    for s in ["", "a", "héllo wörld", "日本語", &"z".repeat(300)] {
        let mut bytes = write_osu_string(s.to_string());
        bytes.push(7);
        let mut r = Reader::new(bytes);
        assert_eq!(r.read_str(), Some(s.to_string()));
        assert_eq!(r.remaining(), 1);
    }
}

#[test]
fn osu_string_absent_marker_reads_empty() {
    let mut r = Reader::new(vec![0x05, 0x0b, 0x01, b'q']);
    assert_eq!(r.read_str(), Some(String::new()));
    assert_eq!(r.remaining(), 3);
    assert_eq!(r.read_str(), Some("q".to_string()));
}

#[test]
fn osu_string_invalid_utf8_reads_empty() {
    let mut r = Reader::new(vec![0x0b, 0x02, 0xff, 0xfe, 9]);
    assert_eq!(r.read_str(), Some(String::new()));
    assert_eq!(r.remaining(), 1);
}

#[test]
fn osu_string_cut_short() {
    let mut r = Reader::new(vec![0x0b, 0x05, b'a']);
    assert_eq!(r.read_str(), None);
    assert_eq!(r.remaining(), 3);
    let mut empty = Reader::new(vec![]);
    assert_eq!(empty.read_str(), None);
}

#[test]
fn i32_list_round_trip() {
    let list = vec![1, -1, i32::MAX, 0];
    let mut w = PacketWriter::new(Packets::CHO_FRIENDS_LIST);
    w.write_i32_list(&list);
    let frame = w.serialise();
    assert_eq!(frame.len(), 7 + 2 + 16);
    assert_eq!(&frame[7..9], &[4, 0]);
    let mut r = Reader::new(frame);
    r.incr_offset(7);
    assert_eq!(r.read_i32_list(), Some(list));
    assert!(r.empty());
}

#[test]
fn i32_list_empty_and_cut() {
    let mut r = Reader::new(vec![0, 0, 9]);
    assert_eq!(r.read_i32_list(), Some(vec![]));
    assert_eq!(r.remaining(), 1);
    let mut cut = Reader::new(vec![2, 0, 1, 0, 0, 0]);
    assert_eq!(cut.read_i32_list(), None);
    assert_eq!(cut.remaining(), 6);
}

#[test]
fn header_and_raw_reads() {
    let mut r = Reader::new(vec![0x04, 0x00, 0x00, 0x03, 0x00, 0x00, 0x00, 7, 8, 9]);
    assert_eq!(r.read_header(), Some((4, 3)));
    assert_eq!(r.read_raw(4), None);
    assert_eq!(r.read_raw(3), Some(vec![7, 8, 9]));
    assert!(r.empty());
    let mut short = Reader::new(vec![4, 0, 0, 0]);
    assert_eq!(short.read_header(), None);
    assert_eq!(short.remaining(), 4);
}

#[test]
fn writer_frames_and_concatenation() {
    let mut w = PacketWriter::new(Packets::CHO_USER_ID);
    w.write_int(7i32);
    let mut other = PacketWriter::new(Packets::CHO_PONG);
    other.write_bytes(&[1, 2]);
    w.add(other);
    let frame = w.serialise();
    assert_eq!(frame, vec![5, 0, 0, 6, 0, 0, 0, 7, 0, 0, 0, 1, 2]);
    assert_eq!(w.serialise(), vec![5, 0, 0, 0, 0, 0, 0]);
    let mut s = PacketWriter::new(Packets::CHO_NOTIFICATION);
    s.write_str("");
    assert_eq!(s.serialise(), vec![24, 0, 0, 1, 0, 0, 0, 0]);
}

#[test]
fn skip_moves_cursor() {
    let mut r = Reader::new(vec![0; 10]);
    r.incr_offset(4);
    assert_eq!(r.remaining(), 6);
    r.incr_offset(6);
    assert!(r.empty());
}
