use flp_format::cursor::ByteCursor;
use flp_format::error::DecodeError;
use flp_format::event::{
    classify, classify_payload, decode_event, decode_text, strip_nulls, Event, EventData,
    EventType,
};
use flp_format::names::{FLP_Event, Header_Format};
use flp_format::stream::decode_events;

#[test]
fn byte_class_takes_one_payload_byte() {
    for id in 0u8..=63 {
        let data = [id, 0x11, 0x22, 0x33, 0x44, 0x55];
        let mut cur = ByteCursor::new(&data);
        let ev = decode_event(&mut cur).unwrap();
        assert!(matches!(ev.eventType, EventType::BYTE(_)));
        assert_eq!(ev.length, 1);
        assert_eq!(ev.data, EventData::DATA(vec![0x11]));
        assert_eq!(cur.position(), 2);
    }
}

#[test]
fn word_class_takes_two_payload_bytes() {
    for id in 64u8..=127 {
        let data = [id, 0x11, 0x22, 0x33, 0x44, 0x55];
        let mut cur = ByteCursor::new(&data);
        let ev = decode_event(&mut cur).unwrap();
        assert!(matches!(ev.eventType, EventType::WORD(_)));
        assert_eq!(ev.length, 2);
        assert_eq!(ev.data, EventData::DATA(vec![0x11, 0x22]));
        assert_eq!(cur.position(), 3);
    }
}

#[test]
fn dword_class_takes_four_payload_bytes() {
    for id in 128u8..=191 {
        let data = [id, 0x11, 0x22, 0x33, 0x44, 0x55];
        let mut cur = ByteCursor::new(&data);
        let ev = decode_event(&mut cur).unwrap();
        assert!(matches!(ev.eventType, EventType::DWORD(_)));
        assert_eq!(ev.length, 4);
        assert_eq!(ev.data, EventData::DATA(vec![0x11, 0x22, 0x33, 0x44]));
        assert_eq!(cur.position(), 5);
    }
}

#[test]
fn variable_class_takes_a_length_prefix() {
    for id in 192u8..=255 {
        let data = [id, 0x02, 0x61, 0x62, 0x63];
        let mut cur = ByteCursor::new(&data);
        let ev = decode_event(&mut cur).unwrap();
        assert!(matches!(ev.eventType, EventType::TEXT(_)));
        assert_eq!(ev.length, 2);
        assert_eq!(ev.data, EventData::TEXT(String::from("ab")));
        assert_eq!(cur.position(), 4);
    }
}

#[test]
fn event_records_identifier_name_and_offset() {
    let data = [0xEEu8, 66, 0x8C, 0x00];
    let mut cur = ByteCursor::new(&data);
    assert_eq!(cur.read_u8(), Ok(0xEE));
    let ev = decode_event(&mut cur).unwrap();
    assert_eq!(
        ev,
        Event {
            id: 66,
            length: 2,
            eventType: EventType::WORD(FLP_Event::FLP_Tempo),
            data: EventData::DATA(vec![0x8C, 0x00]),
            offset: 1,
        }
    );
}

#[test]
fn text_payload_loses_its_null_bytes() {
    assert_eq!(classify_payload(vec![0x41, 0x00, 0x42]), EventData::TEXT(String::from("AB")));
    let data = [192u8, 3, 0x41, 0x00, 0x42];
    let mut cur = ByteCursor::new(&data);
    let ev = decode_event(&mut cur).unwrap();
    assert_eq!(ev.length, 3);
    assert_eq!(ev.eventType, EventType::TEXT(FLP_Event::FLP_Text));
    assert_eq!(ev.data, EventData::TEXT(String::from("AB")));
    assert_eq!(cur.position(), 5);
}

#[test]
fn invalid_utf8_payload_stays_binary_with_its_null_bytes() {
    assert_eq!(
        classify_payload(vec![0xFF, 0x00, 0xFE]),
        EventData::TEXTBIN(vec![0xFF, 0x00, 0xFE])
    );
    let data = [213u8, 4, 0xC3, 0x00, 0x28, 0x00];
    let mut cur = ByteCursor::new(&data);
    let ev = decode_event(&mut cur).unwrap();
    assert_eq!(ev.length, 4);
    assert_eq!(ev.eventType, EventType::TEXT(FLP_Event::FLP_PluginParams));
    assert_eq!(ev.data, EventData::TEXTBIN(vec![0xC3, 0x00, 0x28, 0x00]));
}

#[test]
fn null_stripping_can_make_text_out_of_split_bytes() {
    // 0xC3 0xA9 is one two-byte scalar once the zero between them is gone.
    assert_eq!(classify_payload(vec![0xC3, 0x00, 0xA9]), EventData::TEXT(String::from("\u{e9}")));
}

#[test]
fn empty_variable_payload_is_empty_text() {
    let data = [192u8, 0];
    let mut cur = ByteCursor::new(&data);
    let ev = decode_event(&mut cur).unwrap();
    assert_eq!(ev.length, 0);
    assert_eq!(ev.data, EventData::TEXT(String::new()));
    assert_eq!(cur.position(), 2);
}

#[test]
fn strip_nulls_keeps_the_order_of_the_rest() {
    assert_eq!(strip_nulls(&[0, 1, 0, 0, 2, 3, 0]), vec![1u8, 2, 3]);
    assert_eq!(strip_nulls(&[0, 0]), Vec::<u8>::new());
    assert_eq!(strip_nulls(&[]), Vec::<u8>::new());
}

#[test]
fn decode_text_accepts_only_valid_utf8() {
    assert_eq!(decode_text(&[0x46, 0x4C, 0x68, 0x64]), Some(String::from("FLhd")));
    assert_eq!(decode_text(&[0xE2, 0x82, 0xAC]), Some(String::from("\u{20ac}")));
    assert_eq!(decode_text(&[0xE2, 0x82]), None);
    assert_eq!(decode_text(&[0x80]), None);
    assert_eq!(decode_text(&[]), Some(String::new()));
}

#[test]
fn truncated_events_fail() {
    let cases: [&[u8]; 7] =
        [&[], &[0], &[64, 1], &[128, 1, 2, 3], &[192], &[192, 0x81], &[192, 3, 1, 2]];
    for data in cases {
        let mut cur = ByteCursor::new(data);
        assert_eq!(decode_event(&mut cur), Err(DecodeError::TruncatedInput));
    }
}

#[test]
fn unknown_identifiers_never_fail() {
    assert_eq!(FLP_Event::resolve(8), FLP_Event::FLP_Unknown);
    assert_eq!(FLP_Event::resolve(32), FLP_Event::FLP_Unknown);
    assert_eq!(FLP_Event::resolve(134), FLP_Event::FLP_Unknown);
    assert_eq!(FLP_Event::resolve(240), FLP_Event::FLP_Unknown);
    assert_eq!(FLP_Event::resolve(255), FLP_Event::FLP_Unknown);
    let data = [8u8, 0x2A];
    let mut cur = ByteCursor::new(&data);
    let ev = decode_event(&mut cur).unwrap();
    assert_eq!(ev.eventType, EventType::BYTE(FLP_Event::FLP_Unknown));
    assert_eq!(ev.data, EventData::DATA(vec![0x2A]));
}

#[test]
fn known_identifiers_resolve_to_their_names() {
    assert_eq!(FLP_Event::resolve(0), FLP_Event::FLP_ChanEnabled);
    assert_eq!(FLP_Event::resolve(31), FLP_Event::FLP_EEAutoMode);
    assert_eq!(FLP_Event::resolve(64), FLP_Event::FLP_NewChan);
    assert_eq!(FLP_Event::resolve(97), FLP_Event::FLP_SwingMix);
    assert_eq!(FLP_Event::resolve(128), FLP_Event::FLP_PluginColor);
    assert_eq!(FLP_Event::resolve(135), FLP_Event::FLP_MiddleNote);
    assert_eq!(FLP_Event::resolve(156), FLP_Event::FLP_FineTempo);
    assert_eq!(FLP_Event::resolve(192), FLP_Event::FLP_Text);
    assert_eq!(FLP_Event::resolve(199), FLP_Event::FLP_Version);
    assert_eq!(FLP_Event::resolve(239), FLP_Event::FLP_Text_PLTrackName);
}

#[test]
fn resolve_inverts_code() {
    let mut named = 0;
    for id in 0u8..=255 {
        let name = FLP_Event::resolve(id);
        if name == FLP_Event::FLP_Unknown {
            continue;
        }
        assert_eq!(name.code(), id);
        named += 1;
    }
    assert_eq!(named, 141);
    assert_eq!(FLP_Event::FLP_Unknown.code(), 240);
}

#[test]
fn classify_goes_by_the_range_alone() {
    assert_eq!(classify(63), EventType::BYTE(FLP_Event::FLP_Unknown));
    assert_eq!(classify(64), EventType::WORD(FLP_Event::FLP_NewChan));
    assert_eq!(classify(127), EventType::WORD(FLP_Event::FLP_Unknown));
    assert_eq!(classify(128), EventType::DWORD(FLP_Event::FLP_PluginColor));
    assert_eq!(classify(191), EventType::DWORD(FLP_Event::FLP_Unknown));
    assert_eq!(classify(192), EventType::TEXT(FLP_Event::FLP_Text));
}

#[test]
fn format_codes() {
    assert_eq!(Header_Format::from_code(-1), Some(Header_Format::FLP_Format_None));
    assert_eq!(Header_Format::from_code(0), Some(Header_Format::FLP_Format_Song));
    assert_eq!(Header_Format::from_code(0x10), Some(Header_Format::FLP_Format_Score));
    assert_eq!(Header_Format::from_code(0x18), Some(Header_Format::FLP_Format_Auto));
    assert_eq!(Header_Format::from_code(0x20), Some(Header_Format::FLP_Format_ChanState));
    assert_eq!(Header_Format::from_code(0x30), Some(Header_Format::FLP_Format_PlugState));
    assert_eq!(Header_Format::from_code(0x31), Some(Header_Format::FLP_Format_PlugState_Gen));
    assert_eq!(Header_Format::from_code(0x32), Some(Header_Format::FLP_Format_PlugState_FX));
    assert_eq!(Header_Format::from_code(0x40), Some(Header_Format::FLP_Format_MixerState));
    assert_eq!(Header_Format::from_code(0x50), Some(Header_Format::FLP_Format_Patcher));
    assert_eq!(Header_Format::from_code(1), None);
    assert_eq!(Header_Format::from_code(0x33), None);
    assert_eq!(Header_Format::from_code(65535), None);
}

fn stream_at_22(events: &[u8]) -> Vec<u8> {
    let mut data = vec![0u8; 22];
    data.extend_from_slice(events);
    data
}

#[test]
fn exact_cover_yields_all_events() {
    // One byte event, then a variable event of ten payload bytes: 14 bytes.
    let data = stream_at_22(&[0, 1, 192, 10, 97, 98, 99, 100, 101, 102, 103, 104, 105, 106]);
    let mut cur = ByteCursor::new(&data);
    assert_eq!(cur.read_fixed(22).map(|v| v.len()), Ok(22));
    let events = decode_events(&mut cur, 14).unwrap();
    assert_eq!(events.len(), 2);
    assert_eq!(events[0].offset, 22);
    assert_eq!(events[0].data, EventData::DATA(vec![1]));
    assert_eq!(events[1].offset, 24);
    assert_eq!(events[1].length, 10);
    assert_eq!(events[1].data, EventData::TEXT(String::from("abcdefghij")));
    assert_eq!(cur.position(), 36);
    assert_eq!(cur.remaining(), 0);
}

#[test]
fn stream_ends_eight_bytes_before_the_declared_end() {
    // Three word events; the limit is 22 - 8 + 12 = 26, reached after two.
    let data = stream_at_22(&[64, 1, 0, 65, 2, 0, 66, 3, 0, 67, 4, 0]);
    let mut cur = ByteCursor::new(&data);
    assert_eq!(cur.read_fixed(22).map(|v| v.len()), Ok(22));
    let events = decode_events(&mut cur, 12).unwrap();
    assert_eq!(events.len(), 2);
    assert_eq!(events[1].eventType, EventType::WORD(FLP_Event::FLP_NewPat));
    assert_eq!(cur.position(), 28);
}

#[test]
fn stream_always_decodes_one_event() {
    let data = stream_at_22(&[0, 1, 0, 2]);
    let mut cur = ByteCursor::new(&data);
    assert_eq!(cur.read_fixed(22).map(|v| v.len()), Ok(22));
    let events = decode_events(&mut cur, 0).unwrap();
    assert_eq!(events.len(), 1);
    assert_eq!(cur.position(), 24);
}

#[test]
fn stream_fails_as_a_whole() {
    let data = stream_at_22(&[0, 1, 64, 2]);
    let mut cur = ByteCursor::new(&data);
    assert_eq!(cur.read_fixed(22).map(|v| v.len()), Ok(22));
    assert_eq!(decode_events(&mut cur, 100), Err(DecodeError::TruncatedInput));
}

#[test]
fn name_is_the_same_in_every_class() {
    assert_eq!(EventType::BYTE(FLP_Event::FLP_NoteOn).name(), FLP_Event::FLP_NoteOn);
    assert_eq!(EventType::WORD(FLP_Event::FLP_Tempo).name(), FLP_Event::FLP_Tempo);
    assert_eq!(EventType::DWORD(FLP_Event::FLP_Echo).name(), FLP_Event::FLP_Echo);
    assert_eq!(EventType::TEXT(FLP_Event::FLP_Text_URL).name(), FLP_Event::FLP_Text_URL);
}
