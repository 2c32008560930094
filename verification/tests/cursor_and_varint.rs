use flp_format::cursor::ByteCursor;
use flp_format::error::DecodeError;
use flp_format::varint::{add_low7, decode_varint, encode_varint, has_continuation};

#[test]
fn new_cursor_starts_at_zero() {
    let data = [1u8, 2, 3];
    let cur = ByteCursor::new(&data);
    assert_eq!(cur.position(), 0);
    assert_eq!(cur.remaining(), 3);
}

#[test]
fn read_u8_advances_by_one() {
    let data = [7u8, 9];
    let mut cur = ByteCursor::new(&data);
    assert_eq!(cur.read_u8(), Ok(7));
    assert_eq!(cur.position(), 1);
    assert_eq!(cur.read_u8(), Ok(9));
    assert_eq!(cur.position(), 2);
    assert_eq!(cur.read_u8(), Err(DecodeError::TruncatedInput));
    assert_eq!(cur.position(), 2);
}

#[test]
fn read_fixed_returns_exactly_n_bytes() {
    let data = [1u8, 2, 3, 4, 5];
    let mut cur = ByteCursor::new(&data);
    assert_eq!(cur.read_fixed(2), Ok(vec![1, 2]));
    assert_eq!(cur.position(), 2);
    assert_eq!(cur.read_fixed(0), Ok(vec![]));
    assert_eq!(cur.position(), 2);
    assert_eq!(cur.read_fixed(3), Ok(vec![3, 4, 5]));
    assert_eq!(cur.position(), 5);
    assert_eq!(cur.remaining(), 0);
}

#[test]
fn read_fixed_past_the_end_is_truncated_and_does_not_move() {
    let data = [1u8, 2, 3];
    let mut cur = ByteCursor::new(&data);
    assert_eq!(cur.read_fixed(4), Err(DecodeError::TruncatedInput));
    assert_eq!(cur.position(), 0);
    assert_eq!(cur.read_fixed(u64::MAX), Err(DecodeError::TruncatedInput));
    assert_eq!(cur.read_fixed(3), Ok(vec![1, 2, 3]));
}

#[test]
fn read_le16_is_little_endian() {
    let data = [0x34u8, 0x12, 0xFF];
    let mut cur = ByteCursor::new(&data);
    assert_eq!(cur.read_le16(), Ok(0x1234));
    assert_eq!(cur.position(), 2);
}

#[test]
fn read_le32_is_little_endian() {
    let data = [0x78u8, 0x56, 0x34, 0x12];
    let mut cur = ByteCursor::new(&data);
    assert_eq!(cur.read_le32(), Ok(0x1234_5678));
    assert_eq!(cur.position(), 4);
}

#[test]
fn short_fixed_width_reads_are_truncated() {
    let data = [0x78u8, 0x56, 0x34];
    let mut cur = ByteCursor::new(&data);
    assert_eq!(cur.read_le32(), Err(DecodeError::TruncatedInput));
    assert_eq!(cur.position(), 0);
    let one = [0x01u8];
    let mut cur = ByteCursor::new(&one);
    assert_eq!(cur.read_le16(), Err(DecodeError::TruncatedInput));
    assert_eq!(cur.position(), 0);
}

#[test]
fn varint_single_byte() {
    let data = [0x05u8];
    let mut cur = ByteCursor::new(&data);
    assert_eq!(decode_varint(&mut cur), Ok(5));
    assert_eq!(cur.position(), 1);
}

#[test]
fn varint_adds_without_shifting() {
    let data = [0x81u8, 0x02];
    let mut cur = ByteCursor::new(&data);
    assert_eq!(decode_varint(&mut cur), Ok(3));
    assert_eq!(cur.position(), 2);
}

#[test]
fn varint_stops_at_the_first_byte_without_high_bit() {
    let data = [0xFFu8, 0xFF, 0x7F, 0x01];
    let mut cur = ByteCursor::new(&data);
    assert_eq!(decode_varint(&mut cur), Ok(381));
    assert_eq!(cur.position(), 3);
}

#[test]
fn varint_without_final_byte_is_truncated() {
    let data = [0x81u8, 0x82];
    let mut cur = ByteCursor::new(&data);
    assert_eq!(decode_varint(&mut cur), Err(DecodeError::TruncatedInput));
    let empty: [u8; 0] = [];
    let mut cur = ByteCursor::new(&empty);
    assert_eq!(decode_varint(&mut cur), Err(DecodeError::TruncatedInput));
}

#[test]
fn varint_encoding_of_small_values() {
    assert_eq!(encode_varint(0), vec![0u8]);
    assert_eq!(encode_varint(5), vec![5u8]);
    assert_eq!(encode_varint(127), vec![127u8]);
    assert_eq!(encode_varint(128), vec![255u8, 1]);
    assert_eq!(encode_varint(300), vec![255u8, 255, 46]);
}

#[test]
fn varint_round_trip() {
    let values: [u64; 9] = [0, 1, 126, 127, 128, 254, 255, 1000, 100_000];
    for v in values {
        let mut bytes = encode_varint(v);
        let used = bytes.len() as u64;
        bytes.push(0xAA);
        let mut cur = ByteCursor::new(&bytes);
        assert_eq!(decode_varint(&mut cur), Ok(v));
        assert_eq!(cur.position(), used);
    }
}

#[test]
fn accumulator_overflow_is_reported() {
    assert_eq!(add_low7(u64::MAX, 0x01), Err(DecodeError::VarintOverflow));
    assert_eq!(add_low7(u64::MAX - 126, 0xFF), Err(DecodeError::VarintOverflow));
    assert_eq!(add_low7(u64::MAX - 127, 0xFF), Ok(u64::MAX));
    assert_eq!(add_low7(u64::MAX, 0x80), Ok(u64::MAX));
    assert_eq!(add_low7(10, 0x85), Ok(15));
}

#[test]
fn continuation_bit() {
    assert!(!has_continuation(0x00));
    assert!(!has_continuation(0x7F));
    assert!(has_continuation(0x80));
    assert!(has_continuation(0xFF));
}

#[test]
fn error_messages_differ() {
    assert_eq!(DecodeError::TruncatedInput.message(), "truncated input");
    assert_eq!(DecodeError::InvalidUtf8Tag.message(), "chunk tag is not valid UTF-8");
    assert_eq!(DecodeError::VarintOverflow.message(), "length prefix overflows 64 bits");
    assert_eq!(DecodeError::UnrecognizedFormatCode.message(), "unrecognized format code");
}
