use vstd::prelude::*;
use crate::cursor::ByteCursor;
use crate::error::DecodeError;

verus! {

/// The low seven bits of a byte: what it adds to a length prefix.
pub open spec fn low7(b: u8) -> nat {
    (b % 128) as nat
}

/// Whether a byte of a length prefix announces another one.
pub open spec fn continues(b: u8) -> bool {
    b >= 128
}

/// The length prefix that starts at `pos` in `data`, with `acc` already
/// accumulated: the value and the position just after its last byte. Each
/// byte adds its low seven bits to the value, without any shift; the first
/// byte whose high bit is clear ends the prefix.
pub open spec fn varint_at(data: Seq<u8>, pos: int, acc: nat) -> Result<(nat, int), DecodeError>
    decreases data.len() - pos,
{
    if pos < 0 || pos >= data.len() {
        Err(DecodeError::TruncatedInput)
    } else if acc + low7(data[pos]) > u64::MAX {
        Err(DecodeError::VarintOverflow)
    } else if continues(data[pos]) {
        varint_at(data, pos + 1, acc + low7(data[pos]))
    } else {
        Ok((acc + low7(data[pos]), pos + 1))
    }
}

/// A length prefix for `v`: bytes `0xFF` that add 127 each, then one final
/// byte below 128.
pub open spec fn varint_encoding(v: nat) -> Seq<u8>
    decreases v,
{
    if v <= 127 {
        seq![v as u8]
    } else {
        seq![255u8] + varint_encoding((v - 127) as nat)
    }
}

/// A decoded length prefix ends after its start, within the data, and is at
/// least what had been accumulated.
pub proof fn lemma_varint_bounds(data: Seq<u8>, pos: int, acc: nat)
    requires
        0 <= pos,
        varint_at(data, pos, acc) is Ok,
    ensures
        pos < varint_at(data, pos, acc)->Ok_0.1 <= data.len(),
        acc <= varint_at(data, pos, acc)->Ok_0.0 <= u64::MAX,
    decreases data.len() - pos,
{
    if continues(data[pos]) {
        lemma_varint_bounds(data, pos + 1, acc + low7(data[pos]));
    }
}

/// The sum of the low seven bits of the bytes of `data` from `from` up to,
/// but without, `to`.
pub open spec fn low7_sum(data: Seq<u8>, from: int, to: int) -> nat
    decreases to - from,
{
    if from >= to {
        0
    } else {
        low7(data[from]) + low7_sum(data, from + 1, to)
    }
}

/// A decoded length prefix is the plain sum of the low seven bits of its
/// bytes, added to what had been accumulated; every byte but the last has
/// its high bit set, and the last has it clear.
pub proof fn lemma_varint_is_sum(data: Seq<u8>, pos: int, acc: nat)
    requires
        0 <= pos,
        varint_at(data, pos, acc) is Ok,
    ensures
        ({
            let (value, end) = varint_at(data, pos, acc)->Ok_0;
            &&& pos < end <= data.len()
            &&& value == acc + low7_sum(data, pos, end)
            &&& !continues(data[end - 1])
            &&& forall|i: int| pos <= i < end - 1 ==> continues(#[trigger] data[i])
        }),
    decreases data.len() - pos,
{
    if continues(data[pos]) {
        lemma_varint_is_sum(data, pos + 1, acc + low7(data[pos]));
    } else {
        assert(low7_sum(data, pos + 1, pos + 1) == 0);
    }
}

/// A length prefix fails only where the data ends before its last byte or
/// its value overflows.
pub proof fn lemma_varint_errors(data: Seq<u8>, pos: int, acc: nat)
    requires
        0 <= pos,
        varint_at(data, pos, acc) is Err,
    ensures
        varint_at(data, pos, acc)->Err_0 == DecodeError::TruncatedInput || varint_at(
            data,
            pos,
            acc,
        )->Err_0 == DecodeError::VarintOverflow,
    decreases data.len() - pos,
{
    if pos < data.len() && acc + low7(data[pos]) <= u64::MAX && continues(data[pos]) {
        lemma_varint_errors(data, pos + 1, acc + low7(data[pos]));
    }
}

proof fn lemma_varint_decodes_encoding(data: Seq<u8>, pos: int, acc: nat, v: nat)
    requires
        0 <= pos,
        pos + varint_encoding(v).len() <= data.len(),
        data.subrange(pos, pos + varint_encoding(v).len()) == varint_encoding(v),
        acc + v <= u64::MAX,
    ensures
        varint_at(data, pos, acc) == Ok::<(nat, int), DecodeError>(
            (acc + v, pos + varint_encoding(v).len()),
        ),
    decreases v,
{
    let enc = varint_encoding(v);
    assert(data[pos] == data.subrange(pos, pos + enc.len())[0]);
    if v <= 127 {
        assert(enc[0] == v as u8);
    } else {
        let rest = varint_encoding((v - 127) as nat);
        assert(enc[0] == 255u8);
        assert(enc.len() == rest.len() + 1);
        assert(data.subrange(pos + 1, pos + 1 + rest.len()) =~= rest) by {
            assert forall|i: int| 0 <= i < rest.len() implies data[pos + 1 + i] == rest[i] by {
                assert(data[pos + 1 + i] == data.subrange(pos, pos + enc.len())[i + 1]);
            }
        }
        lemma_varint_decodes_encoding(data, pos + 1, acc + 127, (v - 127) as nat);
    }
}

/// Round trip: the encoding of any value that fits in 64 bits, whatever
/// follows it, decodes to that value and ends just after the encoding.
pub proof fn lemma_varint_round_trip(v: nat, rest: Seq<u8>)
    requires
        v <= u64::MAX,
    ensures
        varint_at(varint_encoding(v) + rest, 0, 0) == Ok::<(nat, int), DecodeError>(
            (v, varint_encoding(v).len() as int),
        ),
{
    let data = varint_encoding(v) + rest;
    assert(data.subrange(0, varint_encoding(v).len() as int) =~= varint_encoding(v));
    lemma_varint_decodes_encoding(data, 0, 0, v);
}

/// Writes the length prefix for `v`.
pub fn encode_varint(v: u64) -> (out: Vec<u8>)
    ensures
        out@ == varint_encoding(v as nat),
{
    let mut out: Vec<u8> = Vec::new();
    let mut left: u64 = v;
    while left > 127
        invariant
            out@ + varint_encoding(left as nat) == varint_encoding(v as nat),
        decreases left,
    {
        proof {
            assert(out@.push(255u8) + varint_encoding((left - 127) as nat) =~= out@
                + varint_encoding(left as nat));
        }
        out.push(255u8);
        left = left - 127;
    }
    proof {
        assert(out@.push(left as u8) =~= out@ + varint_encoding(left as nat));
    }
    out.push(left as u8);
    out
}

/// Whether the high bit of `byte` is set.
pub fn has_continuation(byte: u8) -> (r: bool)
    ensures
        r == continues(byte),
{
    let high: u8 = 0x80 & byte;
    assert((high != 0) == (byte >= 128)) by (bit_vector)
        requires
            high == 0x80 & byte,
    ;
    high != 0
}

/// Adds the low seven bits of `byte` to `acc`, and fails where the sum does
/// not fit in 64 bits.
pub fn add_low7(acc: u64, byte: u8) -> (r: Result<u64, DecodeError>)
    ensures
        acc + low7(byte) <= u64::MAX ==> r == Ok::<u64, DecodeError>((acc + low7(byte)) as u64),
        acc + low7(byte) > u64::MAX ==> r == Err::<u64, DecodeError>(DecodeError::VarintOverflow),
{
    let low: u8 = 0x7F & byte;
    assert(low == byte % 128) by (bit_vector)
        requires
            low == 0x7F & byte,
    ;
    match acc.checked_add(low as u64) {
        Some(sum) => Ok(sum),
        None => Err(DecodeError::VarintOverflow),
    }
}

/// Reads a length prefix at the cursor. On success the cursor stands just
/// after the prefix.
pub fn decode_varint(cur: &mut ByteCursor) -> (r: Result<u64, DecodeError>)
    ensures
        final(cur).bytes() == old(cur).bytes(),
        match varint_at(old(cur).bytes(), old(cur).offset(), 0) {
            Ok((value, end)) => value <= u64::MAX && r == Ok::<u64, DecodeError>(value as u64)
                && final(cur).offset() == end,
            Err(e) => r == Err::<u64, DecodeError>(e),
        },
{
    let mut size: u64 = 0;
    let first: u64 = cur.position();
    let ghost data = cur.bytes();
    let ghost start = cur.offset();
    loop
        invariant
            cur.bytes() == data,
            data == old(cur).bytes(),
            start == old(cur).offset(),
            0 <= cur.offset(),
            varint_at(data, start, 0) == varint_at(data, cur.offset(), size as nat),
        decreases data.len() - cur.offset(),
    {
        let got = cur.read_u8();
        let byte: u8 = match got {
            Ok(b) => b,
            Err(e) => {
                return Err(e);
            },
        };
        let more: bool = has_continuation(byte);
        size = match add_low7(size, byte) {
            Ok(s) => s,
            Err(e) => {
                return Err(e);
            },
        };
        if !more {
            return Ok(size);
        }
    }
}

} // verus!
