use vstd::prelude::*;
use vstd::utf8::{decode_utf8, valid_utf8};
use crate::cursor::ByteCursor;
use crate::error::DecodeError;
use crate::names::FLP_Event;
use crate::varint::{decode_varint, lemma_varint_bounds, lemma_varint_errors, varint_at};

verus! {

/// The width class of an event, with the event's symbolic name.
#[derive(Debug, Clone, Copy, PartialEq, Eq, Structural)]
pub enum EventType {
    /// One payload byte.
    BYTE(FLP_Event),
    /// Two payload bytes.
    WORD(FLP_Event),
    /// Four payload bytes.
    DWORD(FLP_Event),
    /// A length prefix, then that many payload bytes.
    TEXT(FLP_Event),
}

impl EventType {
    /// The symbolic name, whatever the width class.
    pub open spec fn spec_name(self) -> FLP_Event {
        match self {
            EventType::BYTE(n) => n,
            EventType::WORD(n) => n,
            EventType::DWORD(n) => n,
            EventType::TEXT(n) => n,
        }
    }

    /// The symbolic name, whatever the width class.
    pub fn name(&self) -> (r: FLP_Event)
        ensures
            r == self.spec_name(),
    {
        match self {
            EventType::BYTE(n) => *n,
            EventType::WORD(n) => *n,
            EventType::DWORD(n) => *n,
            EventType::TEXT(n) => *n,
        }
    }
}

/// The payload of an event.
#[derive(Debug, Clone, PartialEq, Eq)]
pub enum EventData {
    /// The raw bytes of a fixed-width event.
    DATA(Vec<u8>),
    /// The text of a variable-length event, its zero bytes removed.
    TEXT(String),
    /// The raw bytes of a variable-length event that holds no text.
    TEXTBIN(Vec<u8>),
}

/// What an `EventData` holds, as plain sequences.
pub enum EventDataView {
    DATA(Seq<u8>),
    TEXT(Seq<char>),
    TEXTBIN(Seq<u8>),
}

impl View for EventData {
    type V = EventDataView;

    open spec fn view(&self) -> EventDataView {
        match *self {
            EventData::DATA(b) => EventDataView::DATA(b@),
            EventData::TEXT(s) => EventDataView::TEXT(s@),
            EventData::TEXTBIN(b) => EventDataView::TEXTBIN(b@),
        }
    }
}

/// One decoded record of the event stream.
#[derive(Debug, Clone, PartialEq, Eq)]
pub struct Event {
    /// The identifier byte.
    pub id: u8,
    /// The number of payload bytes in the stream.
    pub length: u64,
    /// The width class and the symbolic name.
    pub eventType: EventType,
    /// The payload.
    pub data: EventData,
    /// The position of the identifier byte.
    pub offset: u64,
}

/// What an `Event` holds, as plain values.
pub struct EventView {
    pub id: u8,
    pub length: nat,
    pub eventType: EventType,
    pub data: EventDataView,
    pub offset: nat,
}

impl View for Event {
    type V = EventView;

    open spec fn view(&self) -> EventView {
        EventView {
            id: self.id,
            length: self.length as nat,
            eventType: self.eventType,
            data: self.data@,
            offset: self.offset as nat,
        }
    }
}

impl EventView {
    /// What holds of every decoded event: the identifier decides the width
    /// class and the name, fixed-width payloads are raw bytes of the class's
    /// width, and a binary payload has the decoded length.
    pub open spec fn well_formed(self) -> bool {
        &&& self.eventType == event_type_of(self.id)
        &&& match self.data {
            EventDataView::DATA(b) => self.id < 192 && b.len() == self.length && self.length
                == fixed_width(self.id),
            EventDataView::TEXT(t) => self.id >= 192,
            EventDataView::TEXTBIN(b) => self.id >= 192 && b.len() == self.length,
        }
    }
}

/// The width class that an identifier's top two bits select, paired with
/// the identifier's name. The name has no part in the choice of class.
pub open spec fn event_type_of(id: u8) -> EventType {
    if id < 64 {
        EventType::BYTE(FLP_Event::spec_resolve(id))
    } else if id < 128 {
        EventType::WORD(FLP_Event::spec_resolve(id))
    } else if id < 192 {
        EventType::DWORD(FLP_Event::spec_resolve(id))
    } else {
        EventType::TEXT(FLP_Event::spec_resolve(id))
    }
}

/// The payload width of a fixed-width identifier (one below 192).
pub open spec fn fixed_width(id: u8) -> nat {
    if id < 64 {
        1
    } else if id < 128 {
        2
    } else {
        4
    }
}

/// `raw` without its zero bytes, the others in their order.
pub open spec fn without_nulls(raw: Seq<u8>) -> Seq<u8> {
    raw.filter(|b: u8| b != 0)
}

/// The payload of a variable-length event whose raw bytes are `raw`: text
/// where the bytes without their zeros are valid UTF-8, else the raw bytes
/// themselves, zeros included.
pub open spec fn text_payload(raw: Seq<u8>) -> EventDataView {
    if valid_utf8(without_nulls(raw)) {
        EventDataView::TEXT(decode_utf8(without_nulls(raw)))
    } else {
        EventDataView::TEXTBIN(raw)
    }
}

/// The event that starts at `pos` in `data`, and the position just after it.
pub open spec fn event_at(data: Seq<u8>, pos: int) -> Result<(EventView, int), DecodeError> {
    if pos < 0 || pos >= data.len() {
        Err(DecodeError::TruncatedInput)
    } else if data[pos] < 192 {
        let width = fixed_width(data[pos]);
        if pos + 1 + width > data.len() {
            Err(DecodeError::TruncatedInput)
        } else {
            Ok(
                (
                    EventView {
                        id: data[pos],
                        length: width,
                        eventType: event_type_of(data[pos]),
                        data: EventDataView::DATA(data.subrange(pos + 1, pos + 1 + width)),
                        offset: pos as nat,
                    },
                    pos + 1 + width,
                ),
            )
        }
    } else {
        match varint_at(data, pos + 1, 0) {
            Err(e) => Err(e),
            Ok((size, start)) => {
                if start + size > data.len() {
                    Err(DecodeError::TruncatedInput)
                } else {
                    Ok(
                        (
                            EventView {
                                id: data[pos],
                                length: size,
                                eventType: event_type_of(data[pos]),
                                data: text_payload(data.subrange(start, start + size)),
                                offset: pos as nat,
                            },
                            start + size,
                        ),
                    )
                }
            },
        }
    }
}

/// An event takes at least two bytes and ends within the data.
pub proof fn lemma_event_bounds(data: Seq<u8>, pos: int)
    requires
        event_at(data, pos) is Ok,
    ensures
        0 <= pos,
        pos + 2 <= event_at(data, pos)->Ok_0.1 <= data.len(),
        event_at(data, pos)->Ok_0.0.offset == pos,
        event_at(data, pos)->Ok_0.0.id == data[pos],
        event_at(data, pos)->Ok_0.0.well_formed(),
{
    if data[pos] >= 192 {
        lemma_varint_bounds(data, pos + 1, 0);
    }
}

/// The identifier alone decides the width class and how far an event
/// reaches: identifiers below 64 take one payload byte, those below 128
/// two, those below 192 four, and the others a length prefix and as many
/// payload bytes as it says.
pub proof fn lemma_width_class(data: Seq<u8>, pos: int)
    requires
        event_at(data, pos) is Ok,
    ensures
        ({
            let (ev, end) = event_at(data, pos)->Ok_0;
            let id = data[pos];
            &&& id < 64 ==> ev.eventType is BYTE && ev.length == 1 && end == pos + 2
            &&& 64 <= id < 128 ==> ev.eventType is WORD && ev.length == 2 && end == pos + 3
            &&& 128 <= id < 192 ==> ev.eventType is DWORD && ev.length == 4 && end == pos + 5
            &&& id < 192 ==> ev.data == EventDataView::DATA(data.subrange(pos + 1, end))
            &&& id >= 192 ==> ev.eventType is TEXT && varint_at(data, pos + 1, 0) == Ok::<
                (nat, int),
                DecodeError,
            >((ev.length, end - ev.length)) && ev.data == text_payload(
                data.subrange(end - ev.length, end),
            )
        }),
{
}

/// No identifier makes an event fail. An event fails only where the data
/// ends too early or a length prefix overflows; a fixed-width event that has
/// its bytes decodes whether or not its identifier has a name, and the name
/// of an identifier without one is `FLP_Unknown`.
pub proof fn lemma_identifier_never_fails(data: Seq<u8>, pos: int)
    ensures
        event_at(data, pos) is Err ==> event_at(data, pos)->Err_0 == DecodeError::TruncatedInput
            || event_at(data, pos)->Err_0 == DecodeError::VarintOverflow,
        0 <= pos < data.len() && data[pos] < 192 && pos + 1 + fixed_width(data[pos])
            <= data.len() ==> event_at(data, pos) is Ok,
        event_at(data, pos) is Ok ==> event_at(data, pos)->Ok_0.0.eventType.spec_name()
            == FLP_Event::spec_resolve(data[pos]),
        event_at(data, pos) is Ok && (forall|e: FLP_Event| e.spec_code() != data[pos])
            ==> event_at(data, pos)->Ok_0.0.eventType.spec_name() == FLP_Event::FLP_Unknown,
{
    if 0 <= pos < data.len() && data[pos] >= 192 && varint_at(data, pos + 1, 0) is Err {
        lemma_varint_errors(data, pos + 1, 0);
    }
}

/// Calls `std::str::from_utf8`, which returns the bytes as a string slice
/// where they are valid UTF-8 and an error where they are not.
#[verifier::external_body]
fn utf8_text<'a>(bytes: &'a [u8]) -> (r: Option<&'a str>)
    ensures
        valid_utf8(bytes@) ==> r is Some && r->Some_0@ == decode_utf8(bytes@),
        !valid_utf8(bytes@) ==> r is None,
{
    std::str::from_utf8(bytes).ok()
}

/// Decodes bytes as UTF-8 text.
pub fn decode_text(bytes: &[u8]) -> (r: Option<String>)
    ensures
        valid_utf8(bytes@) ==> r is Some && r->Some_0@ == decode_utf8(bytes@),
        !valid_utf8(bytes@) ==> r is None,
{
    match utf8_text(bytes) {
        Some(s) => Some(s.to_owned()),
        None => None,
    }
}

/// Copies `raw` without its zero bytes.
pub fn strip_nulls(raw: &[u8]) -> (out: Vec<u8>)
    ensures
        out@ == without_nulls(raw@),
{
    let mut out: Vec<u8> = Vec::new();
    let mut i: usize = 0;
    let ghost keep = |b: u8| b != 0;
    while i < raw.len()
        invariant
            i <= raw@.len(),
            keep == (|b: u8| b != 0),
            out@ == raw@.take(i as int).filter(keep),
        decreases raw@.len() - i,
    {
        let b: u8 = raw[i];
        proof {
            assert(raw@.take(i + 1) =~= raw@.take(i as int).push(b));
            raw@.take(i as int).lemma_filter_push(b, keep);
        }
        if b != 0 {
            out.push(b);
        }
        i = i + 1;
    }
    proof {
        assert(raw@.take(i as int) =~= raw@);
    }
    out
}

/// Tells text from binary in the raw payload of a variable-length event.
pub fn classify_payload(raw: Vec<u8>) -> (r: EventData)
    ensures
        r@ == text_payload(raw@),
{
    let stripped = strip_nulls(raw.as_slice());
    match decode_text(stripped.as_slice()) {
        Some(s) => EventData::TEXT(s),
        None => EventData::TEXTBIN(raw),
    }
}

/// The width class and name of an identifier.
pub fn classify(id: u8) -> (r: EventType)
    ensures
        r == event_type_of(id),
{
    let name = FLP_Event::resolve(id);
    if id < 64 {
        EventType::BYTE(name)
    } else if id < 128 {
        EventType::WORD(name)
    } else if id < 192 {
        EventType::DWORD(name)
    } else {
        EventType::TEXT(name)
    }
}

/// Decodes the event at the cursor. On success the cursor stands just after
/// the event; any error is that of the first read that failed.
pub fn decode_event(cur: &mut ByteCursor) -> (r: Result<Event, DecodeError>)
    ensures
        final(cur).bytes() == old(cur).bytes(),
        match event_at(old(cur).bytes(), old(cur).offset()) {
            Ok((ev, end)) => r is Ok && r->Ok_0@ == ev && final(cur).offset() == end,
            Err(e) => r is Err && r->Err_0 == e,
        },
{
    let buf_pos: u64 = cur.position();
    let ghost data = cur.bytes();
    let ghost pos = cur.offset();
    let got = cur.read_u8();
    let event_id: u8 = match got {
        Ok(b) => b,
        Err(e) => {
            return Err(e);
        },
    };
    let event_type = classify(event_id);
    if event_id < 192 {
        let width: u64 = if event_id < 64 {
            1
        } else if event_id < 128 {
            2
        } else {
            4
        };
        let read = cur.read_fixed(width);
        match read {
            Ok(raw) => Ok(
                Event {
                    id: event_id,
                    length: width,
                    eventType: event_type,
                    data: EventData::DATA(raw),
                    offset: buf_pos,
                },
            ),
            Err(e) => Err(e),
        }
    } else {
        let prefix = decode_varint(cur);
        let size: u64 = match prefix {
            Ok(s) => s,
            Err(e) => {
                return Err(e);
            },
        };
        proof {
            lemma_varint_bounds(data, pos + 1, 0);
        }
        let read = cur.read_fixed(size);
        match read {
            Ok(raw) => Ok(
                Event {
                    id: event_id,
                    length: size,
                    eventType: event_type,
                    data: classify_payload(raw),
                    offset: buf_pos,
                },
            ),
            Err(e) => Err(e),
        }
    }
}

} // verus!
