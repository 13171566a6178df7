//! General properties of the parser, the matcher and the write lookup,
//! stated over the spec functions that their contracts use.

use vstd::prelude::*;

use crate::dissect::{bytes_for_bits, request_spec, response_spec, unknown_spec};
use crate::flags::{AccessType, ErrorFlags};
use crate::message::{
    address_range_of, be16, pairs_with, value_at, DataView, MessageView, ReadView,
};
use crate::parser::{
    header_message, lemma_dissect_size, parse_spec, payload_size, Direction,
};

verus! {

/// A parsed message takes its whole frame: the six bytes before the
/// length and the `length` bytes it announces, so that what is left is the
/// input after the frame. Its payload lies within the frame, after the unit
/// id and the function byte.
pub proof fn lemma_consumed_bytes(input: Seq<u8>, direction: Direction)
    ensures
        parse_spec(input, direction) matches Ok((m, end)) ==> {
            &&& end == 6 + m.length
            &&& input.len() - end == input.len() - (7 + (m.length - 1))
            &&& 8 + payload_size(m.data) <= end <= input.len()
        },
{
    if input.len() >= 8 && be16(input, 4) >= 2 && 6 + be16(input, 4) <= input.len() {
        let frame = input.subrange(0, 6 + be16(input, 4));
        lemma_dissect_size(direction, header_message(input), frame, 8);
    }
}

/// In the response and unknown directions a message carries an exception
/// exactly when its function byte has the high bit set.
pub proof fn lemma_exception_iff_high_bit(input: Seq<u8>, direction: Direction)
    requires
        direction != Direction::ToServer,
    ensures
        parse_spec(input, direction) matches Ok((m, _)) ==> (m.data is Exception
            <==> m.function.raw >= 0x80),
{
    reveal(response_spec);
    reveal(unknown_spec);
}

/// Whether the matcher has a rule for a payload: every payload but raw
/// bytes, an empty one, and a read/write pair whose read half is a
/// response.
pub open spec fn has_pairing_rule(d: DataView) -> bool {
    match d {
        DataView::ByteVec(_) => false,
        DataView::Empty => false,
        DataView::ReadWrite { read: ReadView::Response(_), .. } => false,
        _ => true,
    }
}

/// Pairing is symmetric for two messages of the same category whose
/// payloads both have a pairing rule.
pub proof fn lemma_pairing_symmetric(a: MessageView, b: MessageView)
    requires
        a.category == b.category,
        has_pairing_rule(a.data),
        has_pairing_rule(b.data),
    ensures
        pairs_with(a, b) ==> pairs_with(b, a),
{
}

/// A message writes no value at an address outside the range it covers.
pub proof fn lemma_no_value_outside_range(m: MessageView, addr: u16)
    ensures
        address_range_of(m.data) matches Some((first, last)) && !(first <= addr <= last)
            ==> value_at(m, addr) is None,
{
}

proof fn lemma_multiple_write_bits(x: u8, none: u8, flag: u8)
    by (bit_vector)
    requires
        x == 0xa2 || x == 0x8a,
        none == 0,
        flag == 1,
    ensures
        x & 0x01 == 0,
        x & 0x02 != 0,
        x & 0x40 != 0x40,
        x & 0x80 == 0x80,
        (x & 0x0c != 0) == (x == 0x8a),
        (none | flag) & flag == flag,
        none & flag != flag,
{
}

/// In a request that writes several registers, once the quantity is in
/// range and the byte count agrees with the length, the data-value flag is
/// raised exactly when the byte count is not two bytes per register.
pub proof fn lemma_register_write_count(input: Seq<u8>)
    ensures
        parse_spec(input, Direction::ToServer) matches Ok((m, _)) ==> (input[7] == 0x10 && ({
            let quantity = be16(input, 10);
            let count = input[12];
            quantity != 0 && quantity <= 125 && m.length - 7 == count
        }) ==> (m.flags.contains(ErrorFlags::data_value()) <==> input[12] != 2 * be16(
            input,
            10,
        ))),
{
    reveal(request_spec);
    if input.len() > 7 && input[7] == 0x10 {
        lemma_multiple_write_bits(
            AccessType(0xa2).0,
            ErrorFlags::none().0,
            ErrorFlags::data_value().0,
        );
    }
}

/// In a request that writes several coils, once the quantity is in range
/// and the byte count agrees with the length, the data-value flag is raised
/// exactly when the quantity is not the byte count rounded up to whole
/// bytes of eight items. Where that relation and "the byte count is the
/// quantity in bits rounded up to bytes" agree, the flag is raised exactly
/// when the latter fails.
pub proof fn lemma_coil_write_count(input: Seq<u8>)
    ensures
        parse_spec(input, Direction::ToServer) matches Ok((m, _)) ==> (input[7] == 0x0f && ({
            let quantity = be16(input, 10);
            let count = input[12];
            quantity != 0 && quantity <= 2000 && m.length - 7 == count
        }) ==> {
            let quantity = be16(input, 10) as int;
            let count = input[12] as int;
            &&& m.flags.contains(ErrorFlags::data_value()) <==> quantity != bytes_for_bits(count)
            &&& (quantity == bytes_for_bits(count)) == (count == bytes_for_bits(quantity)) ==> (
            m.flags.contains(ErrorFlags::data_value()) <==> count != bytes_for_bits(quantity))
        }),
{
    reveal(request_spec);
    if input.len() > 7 && input[7] == 0x0f {
        lemma_multiple_write_bits(
            AccessType(0x8a).0,
            ErrorFlags::none().0,
            ErrorFlags::data_value().0,
        );
    }
}

} // verus!
