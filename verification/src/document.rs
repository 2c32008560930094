use vstd::prelude::*;
use vstd::utf8::{decode_utf8, valid_utf8};
use crate::cursor::{le16, le32, ByteCursor};
use crate::error::DecodeError;
use crate::event::{decode_text, Event, EventView};
use crate::names::Header_Format;
use crate::stream::{decode_events, events_from, stream_limit, views};

verus! {

/// The data chunk: its tag, its declared length and its events in stream
/// order.
#[derive(Debug, Clone, PartialEq, Eq)]
pub struct Data {
    pub chunkId: String,
    pub length: u32,
    pub events: Vec<Event>,
}

/// What a `Data` holds, as plain values.
pub struct DataView {
    pub chunkId: Seq<char>,
    pub length: u32,
    pub events: Seq<EventView>,
}

impl View for Data {
    type V = DataView;

    open spec fn view(&self) -> DataView {
        DataView { chunkId: self.chunkId@, length: self.length, events: views(self.events@) }
    }
}

/// A decoded file: the header fields and the data chunk.
#[derive(Debug, Clone, PartialEq, Eq)]
pub struct FLP {
    pub chunkID: String,
    pub length: u32,
    pub format: Header_Format,
    pub nChannels: u16,
    pub beatDiv: u16,
    pub data: Data,
}

/// What an `FLP` holds, as plain values.
pub struct FLPView {
    pub chunkID: Seq<char>,
    pub length: u32,
    pub format: Header_Format,
    pub nChannels: u16,
    pub beatDiv: u16,
    pub data: DataView,
}

impl View for FLP {
    type V = FLPView;

    open spec fn view(&self) -> FLPView {
        FLPView {
            chunkID: self.chunkID@,
            length: self.length,
            format: self.format,
            nChannels: self.nChannels,
            beatDiv: self.beatDiv,
            data: self.data@,
        }
    }
}

/// The number of bytes before the first event: two tags, two lengths and
/// three 16-bit header fields.
pub open spec fn events_start() -> int {
    22
}

/// The document that `data` encodes. The fields are read in file order and
/// the first failure decides the error; the format code is only judged once
/// the events have been decoded.
pub open spec fn document_of(data: Seq<u8>) -> Result<FLPView, DecodeError> {
    if data.len() < 4 {
        Err(DecodeError::TruncatedInput)
    } else if !valid_utf8(data.subrange(0, 4)) {
        Err(DecodeError::InvalidUtf8Tag)
    } else if data.len() < 18 {
        Err(DecodeError::TruncatedInput)
    } else if !valid_utf8(data.subrange(14, 18)) {
        Err(DecodeError::InvalidUtf8Tag)
    } else if data.len() < 22 {
        Err(DecodeError::TruncatedInput)
    } else {
        let declared = le32(data.subrange(18, 22));
        let code = le16(data.subrange(8, 10));
        match events_from(data, events_start(), stream_limit(events_start(), declared)) {
            Err(e) => Err(e),
            Ok((events, end)) => {
                if !Header_Format::known(code) {
                    Err(DecodeError::UnrecognizedFormatCode)
                } else {
                    Ok(
                        FLPView {
                            chunkID: decode_utf8(data.subrange(0, 4)),
                            length: le32(data.subrange(4, 8)) as u32,
                            format: Header_Format::spec_from_code(code),
                            nChannels: le16(data.subrange(10, 12)) as u16,
                            beatDiv: le16(data.subrange(12, 14)) as u16,
                            data: DataView {
                                chunkId: decode_utf8(data.subrange(14, 18)),
                                length: declared as u32,
                                events: events,
                            },
                        },
                    )
                }
            },
        }
    }
}

/// Reads a four byte chunk tag as text.
pub fn read_tag(cur: &mut ByteCursor) -> (r: Result<String, DecodeError>)
    ensures
        final(cur).bytes() == old(cur).bytes(),
        ({
            let data = old(cur).bytes();
            let pos = old(cur).offset();
            if pos + 4 > data.len() {
                r == Err::<String, DecodeError>(DecodeError::TruncatedInput)
            } else if !valid_utf8(data.subrange(pos, pos + 4)) {
                r == Err::<String, DecodeError>(DecodeError::InvalidUtf8Tag)
            } else {
                r is Ok && r->Ok_0@ == decode_utf8(data.subrange(pos, pos + 4))
                    && final(cur).offset() == pos + 4
            }
        }),
{
    let read = cur.read_fixed(4);
    match read {
        Err(e) => Err(e),
        Ok(raw) => match decode_text(raw.as_slice()) {
            Some(tag) => Ok(tag),
            None => Err(DecodeError::InvalidUtf8Tag),
        },
    }
}

impl FLP {
    /// Decodes a whole file from its bytes.
    pub fn read(bytes: &[u8]) -> (r: Result<FLP, DecodeError>)
        ensures
            match document_of(bytes@) {
                Ok(doc) => r is Ok && r->Ok_0@ == doc,
                Err(e) => r is Err && r->Err_0 == e,
            },
    {
        let mut buffer = ByteCursor::new(bytes);
        let tag = read_tag(&mut buffer);
        let flp_chunkID = match tag {
            Ok(t) => t,
            Err(e) => {
                return Err(e);
            },
        };
        let flp_length = match buffer.read_le32() {
            Ok(v) => v,
            Err(e) => {
                return Err(e);
            },
        };
        let flp_format = match buffer.read_le16() {
            Ok(v) => v,
            Err(e) => {
                return Err(e);
            },
        };
        let flp_nChannels = match buffer.read_le16() {
            Ok(v) => v,
            Err(e) => {
                return Err(e);
            },
        };
        let flp_beatDiv = match buffer.read_le16() {
            Ok(v) => v,
            Err(e) => {
                return Err(e);
            },
        };
        let tag = read_tag(&mut buffer);
        let data_chunkID = match tag {
            Ok(t) => t,
            Err(e) => {
                return Err(e);
            },
        };
        let data_length = match buffer.read_le32() {
            Ok(v) => v,
            Err(e) => {
                return Err(e);
            },
        };
        let decoded = decode_events(&mut buffer, data_length);
        let events = match decoded {
            Ok(v) => v,
            Err(e) => {
                return Err(e);
            },
        };
        let format = match Header_Format::from_code(flp_format as i32) {
            Some(f) => f,
            None => {
                return Err(DecodeError::UnrecognizedFormatCode);
            },
        };
        Ok(
            FLP {
                chunkID: flp_chunkID,
                length: flp_length,
                format,
                nChannels: flp_nChannels,
                beatDiv: flp_beatDiv,
                data: Data { chunkId: data_chunkID, length: data_length, events },
            },
        )
    }
}

} // verus!
