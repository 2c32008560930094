use vstd::prelude::*;
use crate::cursor::ByteCursor;
use crate::error::DecodeError;
use crate::event::{decode_event, event_at, lemma_event_bounds, Event, EventView};

verus! {

/// The views of a sequence of events, in order.
pub open spec fn views(events: Seq<Event>) -> Seq<EventView> {
    events.map_values(|e: Event| e@)
}

/// `head` put in front of the events of `tail`, where `tail` succeeded.
pub open spec fn prepend(head: Seq<EventView>, tail: Result<(Seq<EventView>, int), DecodeError>)
    -> Result<(Seq<EventView>, int), DecodeError> {
    match tail {
        Ok((events, end)) => Ok((head + events, end)),
        Err(e) => Err(e),
    }
}

/// The events of a stream that starts at `pos`, and the position just after
/// the last of them. At least one event is decoded; the stream ends with the
/// first event that ends at or after `limit`. A single event that fails
/// makes the whole stream fail.
pub open spec fn events_from(data: Seq<u8>, pos: int, limit: int) -> Result<
    (Seq<EventView>, int),
    DecodeError,
>
    decreases data.len() - pos,
    via events_from_decreases
{
    match event_at(data, pos) {
        Err(e) => Err(e),
        Ok((ev, next)) => {
            if next >= limit {
                Ok((seq![ev], next))
            } else {
                prepend(seq![ev], events_from(data, next, limit))
            }
        },
    }
}

#[via_fn]
proof fn events_from_decreases(data: Seq<u8>, pos: int, limit: int) {
    if event_at(data, pos) is Ok {
        lemma_event_bounds(data, pos);
    }
}

/// What holds of every stream that decodes: it has at least one event, the
/// first starts at `pos`, every event is well formed, and the stream ends
/// within the data, at or after the limit.
pub proof fn lemma_stream_shape(data: Seq<u8>, pos: int, limit: int)
    requires
        events_from(data, pos, limit) is Ok,
    ensures
        events_from(data, pos, limit)->Ok_0.0.len() >= 1,
        events_from(data, pos, limit)->Ok_0.0[0].offset == pos,
        forall|i: int|
            0 <= i < events_from(data, pos, limit)->Ok_0.0.len() ==> (#[trigger] events_from(
                data,
                pos,
                limit,
            )->Ok_0.0[i]).well_formed(),
        pos + 2 <= events_from(data, pos, limit)->Ok_0.1 <= data.len(),
        limit <= events_from(data, pos, limit)->Ok_0.1,
    decreases data.len() - pos,
{
    lemma_event_bounds(data, pos);
    let next = event_at(data, pos)->Ok_0.1;
    if next < limit {
        lemma_stream_shape(data, next, limit);
    }
}

/// The position that ends a stream which starts at `start` and declares
/// `declared` bytes: the declared length counts from eight bytes before the
/// first event.
pub open spec fn stream_limit(start: int, declared: int) -> int {
    (start - 8) + declared
}

/// Exactly `n` events decoded back to back from `pos`, and the position
/// just after the last.
pub open spec fn run_of(data: Seq<u8>, pos: int, n: nat) -> Result<
    (Seq<EventView>, int),
    DecodeError,
>
    decreases n,
{
    if n == 0 {
        Ok((Seq::empty(), pos))
    } else {
        match event_at(data, pos) {
            Err(e) => Err(e),
            Ok((ev, next)) => prepend(seq![ev], run_of(data, next, (n - 1) as nat)),
        }
    }
}

/// A run of events holds as many events as were asked for and does not end
/// before its start.
pub proof fn lemma_run_shape(data: Seq<u8>, pos: int, n: nat)
    requires
        run_of(data, pos, n) is Ok,
    ensures
        run_of(data, pos, n)->Ok_0.0.len() == n,
        pos <= run_of(data, pos, n)->Ok_0.1,
        n > 0 ==> run_of(data, pos, n)->Ok_0.1 <= data.len(),
    decreases n,
{
    if n > 0 {
        lemma_event_bounds(data, pos);
        let next = event_at(data, pos)->Ok_0.1;
        lemma_run_shape(data, next, (n - 1) as nat);
    }
}

/// A stream whose first `n` events end at or after the limit, and whose
/// first `n - 1` events end before it, consists of exactly those `n` events.
pub proof fn lemma_stream_is_run(data: Seq<u8>, pos: int, limit: int, n: nat)
    requires
        n >= 1,
        run_of(data, pos, n) is Ok,
        run_of(data, pos, n)->Ok_0.1 >= limit,
        n >= 2 ==> run_of(data, pos, (n - 1) as nat)->Ok_0.1 < limit,
    ensures
        events_from(data, pos, limit) == run_of(data, pos, n),
    decreases n,
{
    let (ev, next) = event_at(data, pos)->Ok_0;
    lemma_event_bounds(data, pos);
    if n == 1 {
        assert(run_of(data, next, 0) == Ok::<(Seq<EventView>, int), DecodeError>(
            (Seq::empty(), next),
        ));
        assert(seq![ev] + Seq::<EventView>::empty() =~= seq![ev]);
    } else {
        let shorter = run_of(data, next, (n - 2) as nat);
        assert(run_of(data, pos, (n - 1) as nat) == prepend(seq![ev], shorter));
        if n == 2 {
            assert(shorter->Ok_0.1 == next);
        } else {
            assert(run_of(data, next, (n - 1) as nat) is Ok);
            lemma_run_prefix_ok(data, next, (n - 1) as nat);
            lemma_run_shape(data, next, (n - 2) as nat);
        }
        assert(next < limit);
        lemma_stream_is_run(data, next, limit, (n - 1) as nat);
    }
}

/// Where `n` events decode back to back, so do the first `n - 1`.
pub proof fn lemma_run_prefix_ok(data: Seq<u8>, pos: int, n: nat)
    requires
        n >= 1,
        run_of(data, pos, n) is Ok,
    ensures
        run_of(data, pos, (n - 1) as nat) is Ok,
    decreases n,
{
    if n >= 2 {
        let next = event_at(data, pos)->Ok_0.1;
        lemma_run_prefix_ok(data, next, (n - 1) as nat);
    }
}

/// A data chunk whose declared length covers exactly `n` complete events,
/// with no byte after them, decodes to exactly those `n` events and ends at
/// the end of the data, so that no further identifier byte is asked for.
/// Because the declared length counts from eight bytes before the first
/// event, this holds where the events before the last end more than eight
/// bytes before the end of the chunk.
pub proof fn lemma_exact_cover(data: Seq<u8>, start: int, declared: int, n: nat)
    requires
        n >= 1,
        run_of(data, start, n) is Ok,
        run_of(data, start, n)->Ok_0.1 == start + declared,
        start + declared == data.len(),
        n >= 2 ==> run_of(data, start, (n - 1) as nat)->Ok_0.1 < stream_limit(start, declared),
    ensures
        events_from(data, start, stream_limit(start, declared)) == run_of(data, start, n),
        events_from(data, start, stream_limit(start, declared))->Ok_0.0.len() == n,
        events_from(data, start, stream_limit(start, declared))->Ok_0.1 == data.len(),
{
    lemma_stream_is_run(data, start, stream_limit(start, declared), n);
    lemma_run_shape(data, start, n);
}

/// Decodes the events of a data chunk that declares `declared_length`
/// bytes, the cursor standing at its first event, which follows the chunk's
/// eight byte header. On success the cursor stands just after the last
/// event.
pub fn decode_events(cur: &mut ByteCursor, declared_length: u32) -> (r: Result<
    Vec<Event>,
    DecodeError,
>)
    requires
        old(cur).offset() >= 8,
    ensures
        final(cur).bytes() == old(cur).bytes(),
        match events_from(
            old(cur).bytes(),
            old(cur).offset(),
            stream_limit(old(cur).offset(), declared_length as int),
        ) {
            Ok((events, end)) => r is Ok && views(r->Ok_0@) == events && final(cur).offset()
                == end,
            Err(e) => r is Err && r->Err_0 == e,
        },
{
    let mut events: Vec<Event> = Vec::new();
    let event_start: u64 = cur.position();
    let base: u64 = event_start - 8;
    let ghost data = cur.bytes();
    let ghost limit = stream_limit(cur.offset(), declared_length as int);
    loop
        invariant
            cur.bytes() == data,
            data == old(cur).bytes(),
            event_start == old(cur).offset(),
            base == event_start - 8,
            limit == stream_limit(event_start as int, declared_length as int),
            event_start <= cur.offset(),
            events_from(data, event_start as int, limit) == prepend(
                views(events@),
                events_from(data, cur.offset(), limit),
            ),
        decreases data.len() - cur.offset(),
    {
        let ghost pos = cur.offset();
        let ghost before = views(events@);
        let decoded = decode_event(cur);
        let event = match decoded {
            Ok(e) => e,
            Err(e) => {
                return Err(e);
            },
        };
        proof {
            lemma_event_bounds(data, pos);
            assert(views(events@.push(event)) =~= before + seq![event@]);
        }
        events.push(event);
        let now: u64 = cur.position();
        if now - base >= declared_length as u64 {
            return Ok(events);
        }
        proof {
            let rest = events_from(data, cur.offset(), limit);
            if rest is Ok {
                assert(before + (seq![event@] + rest->Ok_0.0) =~= (before + seq![event@])
                    + rest->Ok_0.0);
            }
        }
    }
}

} // verus!
