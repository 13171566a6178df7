//! Framing of one message from the head of a byte stream (the MBAP header),
//! and the parser entry point.

use vstd::prelude::*;
use vstd::slice::slice_subrange;

use crate::codes::{decoded_function, Function, FunctionCode};
use crate::dissect::{
    bytevec_spec, read_request_spec, write_request_spec,
    missing, read_u16, request_spec, response_spec, unknown_spec, Dissected,
};
use crate::flags::{access_of, AccessType, CodeCategory, ErrorFlags};
use crate::message::{
    be16, category_of, Data, DataView, Message, MessageView, ReadView, WriteView,
};

verus! {

/// Which way a message travels, when known.
#[derive(Clone, Copy, Debug, PartialEq, Eq, Structural)]
pub enum Direction {
    ToClient,
    ToServer,
    Unknown,
}

/// Why no message could be taken from the input.
#[derive(Clone, Copy, Debug, PartialEq, Eq, Structural)]
pub enum ParseError {
    /// The input ends early; this many more bytes are needed to go on.
    Incomplete(usize),
    /// The input breaks the framing or a function's minimum size.
    InvalidData,
}

/// The Modbus/TCP protocol parser.
#[derive(Debug)]
pub struct Modbus {}

/// The function data of a message, dissected as the direction calls for.
pub open spec fn dissect_spec(direction: Direction, m: MessageView, s: Seq<u8>, pos: int) -> Dissected {
    match direction {
        Direction::ToServer => request_spec(m, s, pos),
        Direction::ToClient => response_spec(m, s, pos),
        Direction::Unknown => unknown_spec(m, s, pos),
    }
}

/// The message as the header of `s` gives it, before its function data is
/// dissected.
pub open spec fn header_message(s: Seq<u8>) -> MessageView {
    MessageView {
        transaction_id: be16(s, 0),
        protocol_id: be16(s, 2),
        length: be16(s, 4),
        unit_id: s[6],
        function: Function { raw: s[7], code: decoded_function(s[7]) },
        access_type: access_of(decoded_function(s[7])),
        category: CodeCategory::none(),
        data: DataView::Empty,
        flags: ErrorFlags::none(),
    }
}

/// The message at the head of `s` and the number of bytes it takes, or why
/// there is none: the header is read field by field, the protocol id must
/// be zero, the length at least two and all of the frame present. Then the
/// function data is dissected within the frame (a frame too short for the
/// shape of its function is invalid), the category is assigned, and the
/// message takes the whole frame: the header and `length` bytes.
pub open spec fn parse_spec(s: Seq<u8>, direction: Direction) -> Dissected {
    if s.len() < 2 {
        Err(missing(s, 2))
    } else if s.len() < 4 {
        Err(missing(s, 4))
    } else if be16(s, 2) != 0 {
        Err(ParseError::InvalidData)
    } else if s.len() < 6 {
        Err(missing(s, 6))
    } else if be16(s, 4) < 2 {
        Err(ParseError::InvalidData)
    } else if 6 + be16(s, 4) > s.len() {
        Err(missing(s, 6 + be16(s, 4)))
    } else {
        let end = 6 + be16(s, 4);
        match dissect_spec(direction, header_message(s), s.subrange(0, end), 8) {
            Ok((m, _)) => Ok((MessageView { category: category_of(m), ..m }, end)),
            Err(e) => Err(frame_error(e)),
        }
    }
}

/// A dissection error, seen from a frame that is wholly present: bytes that
/// the function's shape needs beyond the frame's end mean the frame is too
/// short for its function, not that more input is needed.
pub open spec fn frame_error(e: ParseError) -> ParseError {
    match e {
        ParseError::Incomplete(_) => ParseError::InvalidData,
        _ => e,
    }
}

/// Whether two messages agree on every field read from the header.
pub open spec fn same_header(a: MessageView, b: MessageView) -> bool {
    &&& a.transaction_id == b.transaction_id
    &&& a.protocol_id == b.protocol_id
    &&& a.length == b.length
    &&& a.unit_id == b.unit_id
    &&& a.function == b.function
    &&& a.access_type == b.access_type
}

/// The number of bytes that a payload takes on the wire.
pub open spec fn payload_size(d: DataView) -> int {
    match d {
        DataView::Exception(_) => 1,
        DataView::Diagnostic { data, .. } => 2 + data.len() as int,
        DataView::MEI { data, .. } => 1 + data.len() as int,
        DataView::Read(read) => read_size(read),
        DataView::Write(write) => write_size(write),
        DataView::ReadWrite { read, write } => read_size(read) + write_size(write),
        DataView::ByteVec(data) => data.len() as int,
        DataView::Empty => 0,
    }
}

pub open spec fn read_size(read: ReadView) -> int {
    match read {
        ReadView::Request { .. } => 4,
        ReadView::Response(data) => 1 + data.len() as int,
    }
}

pub open spec fn write_size(write: WriteView) -> int {
    match write {
        WriteView::MultReq { data, .. } => 5 + data.len() as int,
        WriteView::Mask { .. } => 6,
        WriteView::Other { .. } => 4,
    }
}

/// Dissection starting on an empty payload consumes exactly the bytes of
/// the payload it yields, all of them within the input.
pub proof fn lemma_dissect_size(direction: Direction, m: MessageView, s: Seq<u8>, pos: int)
    requires
        0 <= pos <= s.len(),
        m.length >= 2,
        m.data == DataView::Empty,
        m.access_type == access_of(m.function.code),
    ensures
        dissect_spec(direction, m, s, pos) matches Ok((m1, end)) ==> end == pos + payload_size(
            m1.data,
        ) && end <= s.len() && same_header(m, m1),
{
    match direction {
        Direction::ToServer => lemma_request_size(m, s, pos),
        Direction::ToClient => lemma_response_size(m, s, pos),
        Direction::Unknown => lemma_unknown_size(m, s, pos),
    }
}

proof fn lemma_request_size(m: MessageView, s: Seq<u8>, pos: int)
    requires
        0 <= pos <= s.len(),
        m.length >= 2,
        m.data == DataView::Empty,
        m.access_type == access_of(m.function.code),
    ensures
        request_spec(m, s, pos) matches Ok((m1, end)) ==> end == pos + payload_size(m1.data)
            && end <= s.len() && same_header(m, m1),
{
    reveal(request_spec);
    lemma_write_request_size(m, s, pos);
    if let Ok((m1, after_read)) = read_request_spec(m, s, pos) {
        if m.access_type.intersects(AccessType::read()) && m.access_type.intersects(
            AccessType::write(),
        ) {
            lemma_read_write_access(m.function.code);
            lemma_write_request_size(m1, s, after_read);
        }
    }
}

/// The one function that both reads and writes writes several registers.
proof fn lemma_read_write_access(code: FunctionCode)
    requires
        access_of(code).intersects(AccessType::read()),
        access_of(code).intersects(AccessType::write()),
    ensures
        access_of(code).contains(AccessType::multiple()),
        !access_of(code).contains(AccessType::single()),
{
    lemma_read_write_bits(access_of(code).0);
}

proof fn lemma_read_write_bits(x: u8)
    by (bit_vector)
    requires
        x == 0x00 || x == 0x09 || x == 0x05 || x == 0x21 || x == 0x11 || x == 0x4a || x == 0x62
            || x == 0x8a || x == 0xa2 || x == 0x22 || x == 0xa3,
        x & 0x01 != 0,
        x & 0x02 != 0,
    ensures
        x & 0x80 == 0x80,
        x & 0x40 != 0x40,
{
}

proof fn lemma_write_request_size(m: MessageView, s: Seq<u8>, pos: int)
    requires
        0 <= pos <= s.len(),
        m.length >= 2,
    ensures
        write_request_spec(m, s, pos) matches Ok((m1, end)) ==> {
            &&& end <= s.len()
            &&& same_header(m, m1)
            &&& !(m.data is Read) ==> end == pos + payload_size(m1.data)
            &&& m.data is Read && m.access_type.contains(AccessType::multiple())
                && !m.access_type.contains(AccessType::single()) ==> end == pos + payload_size(
                m1.data,
            ) - read_size(m.data->Read_0)
        },
{
}

proof fn lemma_response_size(m: MessageView, s: Seq<u8>, pos: int)
    requires
        0 <= pos <= s.len(),
        m.length >= 2,
    ensures
        response_spec(m, s, pos) matches Ok((m1, end)) ==> end == pos + payload_size(m1.data)
            && end <= s.len() && same_header(m, m1),
{
    reveal(response_spec);
}

proof fn lemma_unknown_size(m: MessageView, s: Seq<u8>, pos: int)
    requires
        0 <= pos <= s.len(),
        m.length >= 2,
    ensures
        unknown_spec(m, s, pos) matches Ok((m1, end)) ==> end == pos + payload_size(m1.data)
            && end <= s.len() && same_header(m, m1),
{
    reveal(unknown_spec);
    if let Ok((m1, end)) = bytevec_spec(m, s, pos) {
        assert(end == pos + payload_size(m1.data));
    }
}

impl Modbus {
    /// The name of the protocol.
    pub fn name() -> (r: &'static str)
        ensures
            r@ == "modbus"@,
    {
        "modbus"
    }

    /// Takes one message from the head of `input`. On success returns the
    /// bytes after its frame and the message; `Incomplete` asks for more
    /// bytes.
    pub fn parse<'a>(&self, input: &'a [u8], direction: Direction) -> (r: Result<
        (&'a [u8], Option<Message>),
        ParseError,
    >)
        ensures
            match (r, parse_spec(input@, direction)) {
                (Ok((rest, Some(m))), Ok((mv, end))) => m@ == mv && rest@ == input@.subrange(
                    end,
                    input@.len() as int,
                ),
                (Err(e), Err(se)) => e == se,
                _ => false,
            },
            r matches Ok((rest, Some(m))) ==> rest@ == input@.subrange(
                6 + m.length,
                input@.len() as int,
            ),
            r matches Ok((_, Some(m))) ==> m.protocol_id == 0,
            r matches Ok((_, Some(m))) ==> m.access_type == access_of(m.function.code),
    {
        let transaction_id = read_u16(input, 0)?;
        let protocol_id = read_u16(input, 2)?;
        if protocol_id != 0 {
            return Err(ParseError::InvalidData);
        }
        let length = read_u16(input, 4)?;
        if length < 2 {
            return Err(ParseError::InvalidData);
        }
        let available = input.len() - 6;
        if length as usize > available {
            return Err(ParseError::Incomplete(length as usize - available));
        }
        let unit_id = input[6];
        let raw_func = input[7];
        let function = Function::new(raw_func);
        let access_type = AccessType::from(&function.code);
        let mut message = Message {
            transaction_id,
            protocol_id,
            length,
            unit_id,
            function,
            access_type,
            category: CodeCategory::none(),
            data: Data::Empty,
            flags: ErrorFlags::none(),
        };
        let frame_end = 6 + length as usize;
        let frame = slice_subrange(input, 0, frame_end);
        let dissected = match direction {
            Direction::ToServer => message.parse_request(frame, 8),
            Direction::ToClient => message.parse_response(frame, 8),
            Direction::Unknown => message.parse_unknown(frame, 8),
        };
        if let Err(e) = dissected {
            return Err(
                match e {
                    ParseError::Incomplete(_) => ParseError::InvalidData,
                    _ => e,
                },
            );
        }
        proof {
            lemma_dissect_size(direction, header_message(input@), frame@, 8);
        }
        message.category = CodeCategory::from(&message);
        Ok((slice_subrange(input, frame_end, input.len()), Some(message)))
    }
}

} // verus!
