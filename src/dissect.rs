//! Dissection of the function data of one message. Each dissector reads
//! from a position of the input, fills the payload of the message, adds
//! validation flags, and returns the position after what it consumed.
//!
//! The spec functions here state, for every input, what each dissector
//! yields; the methods on `Message` are proved to yield exactly that.

use vstd::prelude::*;
use vstd::slice::{slice_subrange, slice_to_vec};

use crate::codes::{
    exception_code_of, mei_type_of, subfunction_of, Diagnostic, DiagnosticSubfunction, Exception,
    ExceptionCode, FunctionCode, ERROR_MASK, MEI,
};
use crate::flags::{flag_if, AccessType, ErrorFlags};
use crate::message::{be16, Data, DataView, Message, MessageView, Read, ReadView, Write, WriteView};
use crate::parser::ParseError;

verus! {

/// Largest quantity of coils or discrete inputs in one request.
pub const MAX_QUANTITY_BIT_ACCESS: u16 = 2000;

/// Largest quantity of registers in one request.
pub const MAX_QUANTITY_WORD_ACCESS: u16 = 125;

/// Smallest byte count of a read response.
pub const MIN_RD_COUNT: u8 = 1;

/// Largest byte count of a read response.
pub const MAX_RD_COUNT: u8 = 250;

/// What a dissector yields: the message as filled in and the position
/// after the bytes consumed, or a hard error.
pub type Dissected = Result<(MessageView, int), ParseError>;

/// The error for input that ends before position `end`: the number of
/// bytes missing.
pub open spec fn missing(s: Seq<u8>, end: int) -> ParseError {
    ParseError::Incomplete((end - s.len()) as usize)
}

/// A dissector's executable result, read as a `Dissected` value.
pub open spec fn outcome(r: Result<usize, ParseError>, m: MessageView) -> Dissected {
    match r {
        Ok(p) => Ok((m, p as int)),
        Err(e) => Err(e),
    }
}

pub open spec fn with_data(m: MessageView, flags: ErrorFlags, data: DataView) -> MessageView {
    MessageView { flags, data, ..m }
}

/// Whether an exception code is implausible for the function it answers.
pub open spec fn implausible_exception(m: MessageView, code: ExceptionCode) -> bool {
    ||| code == ExceptionCode::IllegalDataValue && m.function.code == FunctionCode::Diagnostic
    ||| code == ExceptionCode::IllegalDataAddr && ((6 < m.function.raw < 15) || (16
        < m.function.raw < 22))
    ||| code == ExceptionCode::MemParityErr && m.function.code != FunctionCode::RdFileRec
        && m.function.code != FunctionCode::WrFileRec
}

/// One byte: the exception code.
pub open spec fn exception_spec(m: MessageView, s: Seq<u8>, pos: int) -> Dissected {
    if pos + 1 > s.len() {
        Err(missing(s, pos + 1))
    } else {
        let exc = Exception { raw: s[pos], code: exception_code_of(s[pos]) };
        Ok(
            (
                with_data(
                    m,
                    flag_if(m.flags, implausible_exception(m, exc.code), ErrorFlags::exc_code()),
                    DataView::Exception(exc),
                ),
                pos + 1,
            ),
        )
    }
}

/// Two bytes of subfunction, then the rest of the function data verbatim.
pub open spec fn diagnostic_spec(m: MessageView, s: Seq<u8>, pos: int) -> Dissected {
    let n = m.data_length() - 2;
    if m.data_length() < 2 {
        Err(ParseError::InvalidData)
    } else if pos + 2 > s.len() {
        Err(missing(s, pos + 2))
    } else if pos + 2 + n > s.len() {
        Err(missing(s, pos + 2 + n))
    } else {
        let sub = be16(s, pos);
        Ok(
            (
                with_data(
                    m,
                    m.flags,
                    DataView::Diagnostic {
                        func: Diagnostic { raw: sub, code: subfunction_of(sub) },
                        data: s.subrange(pos + 2, pos + 2 + n),
                    },
                ),
                pos + 2 + n,
            ),
        )
    }
}

/// One byte of MEI type, then the rest of the function data verbatim.
pub open spec fn mei_spec(m: MessageView, s: Seq<u8>, pos: int) -> Dissected {
    let n = m.data_length() - 1;
    if m.data_length() < 1 {
        Err(ParseError::InvalidData)
    } else if pos + 1 > s.len() {
        Err(missing(s, pos + 1))
    } else if pos + 1 + n > s.len() {
        Err(missing(s, pos + 1 + n))
    } else {
        Ok(
            (
                with_data(
                    m,
                    m.flags,
                    DataView::MEI {
                        mei_type: MEI { raw: s[pos], code: mei_type_of(s[pos]) },
                        data: s.subrange(pos + 1, pos + 1 + n),
                    },
                ),
                pos + 1 + n,
            ),
        )
    }
}

/// The function data kept as raw bytes.
pub open spec fn bytevec_spec(m: MessageView, s: Seq<u8>, pos: int) -> Dissected {
    let n = m.data_length();
    if pos + n > s.len() {
        Err(missing(s, pos + n))
    } else {
        Ok((with_data(m, m.flags, DataView::ByteVec(s.subrange(pos, pos + n))), pos + n))
    }
}

/// Whether a quantity exceeds what one request may ask for.
pub open spec fn quantity_too_large(access: AccessType, quantity: u16) -> bool {
    if access.intersects(AccessType::bit_access_mask()) {
        quantity > MAX_QUANTITY_BIT_ACCESS
    } else {
        quantity > MAX_QUANTITY_WORD_ACCESS
    }
}

/// Start address and quantity.
pub open spec fn read_request_spec(m: MessageView, s: Seq<u8>, pos: int) -> Dissected {
    if pos + 2 > s.len() {
        Err(missing(s, pos + 2))
    } else if pos + 4 > s.len() {
        Err(missing(s, pos + 4))
    } else {
        let address = be16(s, pos);
        let quantity = be16(s, pos + 2);
        let f1 = flag_if(m.flags, quantity == 0, ErrorFlags::data_value());
        let f2 = flag_if(
            f1,
            m.function.code != FunctionCode::RdWrMultRegs && m.data_length() > 4,
            ErrorFlags::data_length(),
        );
        let f3 = flag_if(
            f2,
            quantity_too_large(m.access_type, quantity),
            ErrorFlags::data_value(),
        );
        Ok(
            (
                with_data(m, f3, DataView::Read(ReadView::Request { address, quantity })),
                pos + 4,
            ),
        )
    }
}

/// A byte count, then the rest of the function data.
pub open spec fn read_response_spec(m: MessageView, s: Seq<u8>, pos: int) -> Dissected {
    let n = m.data_length() - 1;
    if m.data_length() < 1 {
        Err(ParseError::InvalidData)
    } else if pos + 1 > s.len() {
        Err(missing(s, pos + 1))
    } else {
        let count = s[pos];
        let f1 = flag_if(
            m.flags,
            count < MIN_RD_COUNT || count > MAX_RD_COUNT,
            ErrorFlags::data_value(),
        );
        let f2 = flag_if(f1, n != count, ErrorFlags::data_value());
        if pos + 1 + n > s.len() {
            Err(missing(s, pos + 1 + n))
        } else {
            Ok(
                (
                    with_data(
                        m,
                        f2,
                        DataView::Read(ReadView::Response(s.subrange(pos + 1, pos + 1 + n))),
                    ),
                    pos + 1 + n,
                ),
            )
        }
    }
}

/// Bytes of written data that a multiple-write request announces by its
/// length: the length without unit id, function byte, address, quantity and
/// byte count, and without the read half of a read/write request. A length
/// too short for those fields announces a negative amount: it never agrees
/// with the byte count, and no written bytes are taken.
pub open spec fn multiple_write_bytes(m: MessageView) -> int {
    m.length - if m.function.code == FunctionCode::RdWrMultRegs {
        11int
    } else {
        7int
    }
}

/// `n` rounded up to whole bytes of eight bits.
pub open spec fn bytes_for_bits(n: int) -> int {
    n / 8 + if n % 8 != 0 {
        1int
    } else {
        0int
    }
}

/// Whether the quantity and the byte count of a multiple-write request
/// disagree with each other or with the length of the message.
pub open spec fn multiple_write_invalid(m: MessageView, quantity: u16, count: u8) -> bool {
    ||| quantity == 0
    ||| multiple_write_bytes(m) != count
    ||| if m.access_type.intersects(AccessType::bit_access_mask()) {
        quantity > MAX_QUANTITY_BIT_ACCESS || quantity != bytes_for_bits(count as int)
    } else {
        quantity > MAX_QUANTITY_WORD_ACCESS || count != 2 * quantity
    }
}

/// The payload of a multiple-write request, joined to the read request
/// dissected before it, if any.
pub open spec fn multiple_write_data(prior: DataView, write: WriteView) -> DataView {
    match prior {
        DataView::Read(read) => DataView::ReadWrite { read, write },
        _ => DataView::Write(write),
    }
}

/// Start address, then by access type: one value; quantity, byte count and
/// values; or the and/or masks.
pub open spec fn write_request_spec(m: MessageView, s: Seq<u8>, pos: int) -> Dissected {
    if pos + 2 > s.len() {
        Err(missing(s, pos + 2))
    } else {
        let address = be16(s, pos);
        if m.access_type.contains(AccessType::single()) {
            if pos + 4 > s.len() {
                Err(missing(s, pos + 4))
            } else {
                let data = be16(s, pos + 2);
                let f1 = flag_if(m.flags, m.data_length() > 4, ErrorFlags::data_length());
                let f2 = flag_if(
                    f1,
                    m.access_type.contains(AccessType::coils()) && data != 0x0000 && data
                        != 0xff00,
                    ErrorFlags::data_value(),
                );
                Ok((with_data(m, f2, DataView::Write(WriteView::Other { address, data })), pos + 4))
            }
        } else if m.access_type.contains(AccessType::multiple()) {
            if pos + 4 > s.len() {
                Err(missing(s, pos + 4))
            } else if pos + 5 > s.len() {
                Err(missing(s, pos + 5))
            } else {
                let quantity = be16(s, pos + 2);
                let count = s[pos + 4];
                let n = if multiple_write_bytes(m) < 0 {
                    0
                } else {
                    multiple_write_bytes(m)
                };
                let f1 = flag_if(
                    m.flags,
                    multiple_write_invalid(m, quantity, count),
                    ErrorFlags::data_value(),
                );
                if pos + 5 + n > s.len() {
                    Err(missing(s, pos + 5 + n))
                } else {
                    let write = WriteView::MultReq {
                        address,
                        quantity,
                        data: s.subrange(pos + 5, pos + 5 + n),
                    };
                    Ok((with_data(m, f1, multiple_write_data(m.data, write)), pos + 5 + n))
                }
            }
        } else {
            if pos + 4 > s.len() {
                Err(missing(s, pos + 4))
            } else if pos + 6 > s.len() {
                Err(missing(s, pos + 6))
            } else {
                let f1 = flag_if(m.flags, m.data_length() > 6, ErrorFlags::data_length());
                Ok(
                    (
                        with_data(
                            m,
                            f1,
                            DataView::Write(
                                WriteView::Mask {
                                    address,
                                    and_mask: be16(s, pos + 2),
                                    or_mask: be16(s, pos + 4),
                                },
                            ),
                        ),
                        pos + 6,
                    ),
                )
            }
        }
    }
}

/// Whether a quantity echoed by a multiple-write response is out of range.
/// The limits are those of the request with bit and word access swapped.
pub open spec fn echoed_quantity_too_large(access: AccessType, quantity: u16) -> bool {
    if access.intersects(AccessType::bit_access_mask()) {
        quantity > MAX_QUANTITY_WORD_ACCESS
    } else {
        quantity > MAX_QUANTITY_BIT_ACCESS
    }
}

/// Start address, then by access type: the value written; the quantity
/// written; or the and/or masks.
pub open spec fn write_response_spec(m: MessageView, s: Seq<u8>, pos: int) -> Dissected {
    if pos + 2 > s.len() {
        Err(missing(s, pos + 2))
    } else if pos + 4 > s.len() {
        Err(missing(s, pos + 4))
    } else {
        let address = be16(s, pos);
        let second = be16(s, pos + 2);
        if m.access_type.contains(AccessType::single()) {
            let f1 = flag_if(m.flags, m.data_length() > 4, ErrorFlags::data_length());
            Ok(
                (
                    with_data(m, f1, DataView::Write(WriteView::Other { address, data: second })),
                    pos + 4,
                ),
            )
        } else if m.access_type.contains(AccessType::multiple()) {
            let f1 = flag_if(m.flags, m.data_length() > 4, ErrorFlags::data_length());
            let f2 = flag_if(f1, second == 0, ErrorFlags::data_value());
            let f3 = flag_if(
                f2,
                echoed_quantity_too_large(m.access_type, second),
                ErrorFlags::data_value(),
            );
            Ok(
                (
                    with_data(m, f3, DataView::Write(WriteView::Other { address, data: second })),
                    pos + 4,
                ),
            )
        } else if pos + 6 > s.len() {
            Err(missing(s, pos + 6))
        } else {
            let f1 = flag_if(m.flags, m.data_length() > 6, ErrorFlags::data_length());
            Ok(
                (
                    with_data(
                        m,
                        f1,
                        DataView::Write(
                            WriteView::Mask {
                                address,
                                and_mask: second,
                                or_mask: be16(s, pos + 4),
                            },
                        ),
                    ),
                    pos + 6,
                ),
            )
        }
    }
}

/// Whether the two data bytes of a diagnostic request are out of range for
/// its subfunction.
pub open spec fn diagnostic_value_invalid(code: DiagnosticSubfunction, d: Seq<u8>) -> bool {
    match code {
        DiagnosticSubfunction::RetQueryData => false,
        DiagnosticSubfunction::ForceListenOnlyMode => false,
        DiagnosticSubfunction::Reserved => false,
        DiagnosticSubfunction::RestartCommOpt => d[1] != 0x00 || (d[0] != 0x00 && d[0] != 0xff),
        DiagnosticSubfunction::ChangeInputDelimiter => d[1] != 0x00,
        _ => d[0] != 0x00 || d[1] != 0x00,
    }
}

/// The value check of a dissected diagnostic request.
pub open spec fn check_diagnostic_request(m: MessageView) -> MessageView {
    match m.data {
        DataView::Diagnostic { func, data } => MessageView {
            flags: flag_if(
                m.flags,
                data.len() == 2 && diagnostic_value_invalid(func.code, data),
                ErrorFlags::data_value(),
            ),
            ..m
        },
        _ => m,
    }
}

pub open spec fn with_flags(m: MessageView, flags: ErrorFlags) -> MessageView {
    MessageView { flags, ..m }
}

/// The function data of a request, dissected by function code and access
/// type.
#[verifier::opaque]
pub open spec fn request_spec(m: MessageView, s: Seq<u8>, pos: int) -> Dissected {
    let code = m.function.code;
    let dl = m.data_length();
    if code == FunctionCode::Diagnostic {
        let m1 = with_flags(m, flag_if(m.flags, dl != 4, ErrorFlags::data_length()));
        match diagnostic_spec(m1, s, pos) {
            Ok((m2, p)) => Ok((check_diagnostic_request(m2), p)),
            Err(e) => Err(e),
        }
    } else if code == FunctionCode::MEI {
        mei_spec(m, s, pos)
    } else if (code == FunctionCode::RdFileRec || code == FunctionCode::WrFileRec) && dl == 0 {
        bytevec_spec(with_flags(m, m.flags.union(ErrorFlags::data_length())), s, pos)
    } else if (code == FunctionCode::RdExcStatus || code == FunctionCode::GetCommEventCtr || code
        == FunctionCode::GetCommEventLog || code == FunctionCode::ReportServerID) && dl > 0 {
        bytevec_spec(with_flags(m, m.flags.union(ErrorFlags::data_length())), s, pos)
    } else if code == FunctionCode::RdFIFOQueue && dl != 2 {
        bytevec_spec(with_flags(m, m.flags.union(ErrorFlags::data_length())), s, pos)
    } else if m.access_type.intersects(AccessType::read()) {
        match read_request_spec(m, s, pos) {
            Ok((m1, after_read)) => if m.access_type.intersects(AccessType::write()) {
                write_request_spec(m1, s, after_read)
            } else {
                Ok((m1, after_read))
            },
            Err(e) => Err(e),
        }
    } else if m.access_type.intersects(AccessType::write()) {
        write_request_spec(m, s, pos)
    } else {
        bytevec_spec(m, s, pos)
    }
}

/// The function data of a response: an exception when the function byte
/// has its high bit set, otherwise dissected by function code and access
/// type.
#[verifier::opaque]
pub open spec fn response_spec(m: MessageView, s: Seq<u8>, pos: int) -> Dissected {
    let code = m.function.code;
    let dl = m.data_length();
    if m.function.raw >= 0x80 {
        exception_spec(m, s, pos)
    } else if code == FunctionCode::Diagnostic {
        diagnostic_spec(m, s, pos)
    } else if code == FunctionCode::MEI {
        mei_spec(m, s, pos)
    } else if code == FunctionCode::RdExcStatus && dl != 1 {
        bytevec_spec(with_flags(m, m.flags.union(ErrorFlags::data_length())), s, pos)
    } else if code == FunctionCode::GetCommEventCtr && dl != 4 {
        bytevec_spec(with_flags(m, m.flags.union(ErrorFlags::data_length())), s, pos)
    } else if m.access_type.intersects(AccessType::read()) {
        read_response_spec(m, s, pos)
    } else if m.access_type.intersects(AccessType::write()) {
        write_response_spec(m, s, pos)
    } else {
        bytevec_spec(m, s, pos)
    }
}

/// The function data of a message of unknown direction: only the shapes
/// that are the same both ways are told apart.
#[verifier::opaque]
pub open spec fn unknown_spec(m: MessageView, s: Seq<u8>, pos: int) -> Dissected {
    if m.function.raw >= 0x80 {
        exception_spec(m, s, pos)
    } else if m.function.code == FunctionCode::Diagnostic {
        diagnostic_spec(m, s, pos)
    } else if m.function.code == FunctionCode::MEI {
        mei_spec(m, s, pos)
    } else {
        bytevec_spec(m, s, pos)
    }
}

/// The byte at `pos`.
pub fn read_u8(input: &[u8], pos: usize) -> (r: Result<u8, ParseError>)
    requires
        pos <= input@.len(),
    ensures
        match r {
            Ok(v) => pos + 1 <= input@.len() <= usize::MAX && v == input@[pos as int],
            Err(e) => pos + 1 > input@.len() && e == missing(input@, pos + 1),
        },
{
    if pos >= input.len() {
        Err(ParseError::Incomplete(1))
    } else {
        Ok(input[pos])
    }
}

/// The big-endian 16-bit value at `pos`.
pub fn read_u16(input: &[u8], pos: usize) -> (r: Result<u16, ParseError>)
    requires
        pos <= input@.len(),
    ensures
        match r {
            Ok(v) => pos + 2 <= input@.len() <= usize::MAX && v == be16(input@, pos as int),
            Err(e) => pos + 2 > input@.len() && e == missing(input@, pos + 2),
        },
{
    if input.len() - pos < 2 {
        Err(ParseError::Incomplete(2 - (input.len() - pos)))
    } else {
        Ok(input[pos] as u16 * 256 + input[pos + 1] as u16)
    }
}

/// The `n` bytes at `pos`.
pub fn take_bytes(input: &[u8], pos: usize, n: usize) -> (r: Result<Vec<u8>, ParseError>)
    requires
        pos <= input@.len(),
    ensures
        match r {
            Ok(v) => pos + n <= input@.len() <= usize::MAX && v@ == input@.subrange(pos as int, pos + n),
            Err(e) => pos + n > input@.len() && e == missing(input@, pos + n),
        },
{
    if input.len() - pos < n {
        Err(ParseError::Incomplete(n - (input.len() - pos)))
    } else {
        Ok(slice_to_vec(slice_subrange(input, pos, pos + n)))
    }
}

/// A copy of a read payload.
fn copy_read(read: &Read) -> (r: Read)
    ensures
        r@ == read@,
{
    match read {
        Read::Request { address, quantity } => Read::Request {
            address: *address,
            quantity: *quantity,
        },
        Read::Response(data) => Read::Response(slice_to_vec(data.as_slice())),
    }
}

/// Whether the two data bytes of a diagnostic request are out of range for
/// its subfunction.
fn diagnostic_value_check(code: DiagnosticSubfunction, data: &Vec<u8>) -> (r: bool)
    requires
        data@.len() == 2,
    ensures
        r == diagnostic_value_invalid(code, data@),
{
    match code {
        DiagnosticSubfunction::RetQueryData
        | DiagnosticSubfunction::ForceListenOnlyMode
        | DiagnosticSubfunction::Reserved => false,
        DiagnosticSubfunction::RestartCommOpt => data[1] != 0x00 || (data[0] != 0x00 && data[0]
            != 0xff),
        DiagnosticSubfunction::ChangeInputDelimiter => data[1] != 0x00,
        _ => data[0] != 0x00 || data[1] != 0x00,
    }
}

impl Message {
    ///          Num Bytes  Byte Placement
    /// Code:    1          (0)
    fn parse_exception(&mut self, input: &[u8], pos: usize) -> (r: Result<usize, ParseError>)
        requires
            pos <= input@.len(),
        ensures
            exception_spec(old(self)@, input@, pos as int) == outcome(r, final(self)@),
    {
        let exc_code = read_u8(input, pos)?;
        let exc = Exception::new(exc_code);
        let implausible = match exc.code {
            ExceptionCode::IllegalDataValue => self.function.code == FunctionCode::Diagnostic,
            ExceptionCode::IllegalDataAddr => (self.function.raw > 6 && self.function.raw < 15)
                || (self.function.raw > 16 && self.function.raw < 22),
            ExceptionCode::MemParityErr => self.function.code != FunctionCode::RdFileRec
                && self.function.code != FunctionCode::WrFileRec,
            _ => false,
        };
        if implausible {
            self.flags = self.flags | ErrorFlags::exc_code();
        }
        self.data = Data::Exception(exc);
        Ok(pos + 1)
    }

    ///                             Num Bytes   Byte Placement
    /// Request:
    ///     Diagnostic Code:        2           (0,1)
    ///     Data:                   2           (2,3)
    /// Response:
    ///     Diagnostic Code:        2           (0,1)
    ///     Data:                   x           (2..)
    fn parse_diagnostic(&mut self, input: &[u8], pos: usize) -> (r: Result<usize, ParseError>)
        requires
            pos <= input@.len(),
            old(self).length >= 2,
        ensures
            diagnostic_spec(old(self)@, input@, pos as int) == outcome(r, final(self)@),
            r is Err ==> final(self)@ == old(self)@,
    {
        if self.data_length() < 2 {
            return Err(ParseError::InvalidData);
        }
        let diag_func = read_u16(input, pos)?;
        let n = (self.data_length() - 2) as usize;
        let rest = take_bytes(input, pos + 2, n)?;
        self.data = Data::Diagnostic { func: Diagnostic::new(diag_func), data: rest };
        Ok(pos + 2 + n)
    }

    ///                             Num Bytes   Byte Placement
    ///     MEI Code:               1           (0)
    ///     Data:                   x           (1..)
    fn parse_mei(&mut self, input: &[u8], pos: usize) -> (r: Result<usize, ParseError>)
        requires
            pos <= input@.len(),
            old(self).length >= 2,
        ensures
            mei_spec(old(self)@, input@, pos as int) == outcome(r, final(self)@),
            r is Err ==> final(self)@ == old(self)@,
    {
        if self.data_length() < 1 {
            return Err(ParseError::InvalidData);
        }
        let raw_mei = read_u8(input, pos)?;
        let mei_type = MEI::new(raw_mei);
        let n = (self.data_length() - 1) as usize;
        let rest = take_bytes(input, pos + 1, n)?;
        self.data = Data::MEI { mei_type, data: rest };
        Ok(pos + 1 + n)
    }

    fn parse_bytevec(&mut self, input: &[u8], pos: usize) -> (r: Result<usize, ParseError>)
        requires
            pos <= input@.len(),
            old(self).length >= 2,
        ensures
            bytevec_spec(old(self)@, input@, pos as int) == outcome(r, final(self)@),
    {
        let n = self.data_length() as usize;
        let data = take_bytes(input, pos, n)?;
        self.data = Data::ByteVec(data);
        Ok(pos + n)
    }

    ///                     Num Bytes   Byte Placement
    /// Starting Address:   2           (0,1)
    /// Quantity of Regs:   2           (2,3)
    fn parse_read_request(&mut self, input: &[u8], pos: usize) -> (r: Result<usize, ParseError>)
        requires
            pos <= input@.len(),
            old(self).length >= 2,
        ensures
            read_request_spec(old(self)@, input@, pos as int) == outcome(r, final(self)@),
    {
        let address = read_u16(input, pos)?;
        let quantity = read_u16(input, pos + 2)?;
        if quantity == 0 {
            self.flags = self.flags | ErrorFlags::data_value();
        }
        if self.function.code != FunctionCode::RdWrMultRegs && self.data_length() > 4 {
            self.flags = self.flags | ErrorFlags::data_length();
        }
        if self.access_type.intersects(AccessType::bit_access_mask()) {
            if quantity > MAX_QUANTITY_BIT_ACCESS {
                self.flags = self.flags | ErrorFlags::data_value();
            }
        } else if quantity > MAX_QUANTITY_WORD_ACCESS {
            self.flags = self.flags | ErrorFlags::data_value();
        }
        self.data = Data::Read(Read::Request { address, quantity });
        Ok(pos + 4)
    }

    ///          Num Bytes  Byte Placement
    /// Count:   1          (0)
    /// Data:    Count      (1..Count + 1)
    fn parse_read_response(&mut self, input: &[u8], pos: usize) -> (r: Result<usize, ParseError>)
        requires
            pos <= input@.len(),
            old(self).length >= 2,
        ensures
            read_response_spec(old(self)@, input@, pos as int) == outcome(r, final(self)@),
            r == Err::<usize, ParseError>(ParseError::InvalidData) ==> final(self)@ == old(self)@,
    {
        if self.data_length() < 1 {
            return Err(ParseError::InvalidData);
        }
        let count = read_u8(input, pos)?;
        if count < MIN_RD_COUNT || count > MAX_RD_COUNT {
            self.flags = self.flags | ErrorFlags::data_value();
        }
        if self.data_length() - 1 != count as u16 {
            self.flags = self.flags | ErrorFlags::data_value();
        }
        let n = (self.data_length() - 1) as usize;
        let data = take_bytes(input, pos + 1, n)?;
        self.data = Data::Read(Read::Response(data));
        Ok(pos + 1 + n)
    }

    ///                             Num Bytes       Byte Placement
    /// FunctionCode::RdWrMultRegs:
    ///     Read Address:           2               (0,1)
    ///     Read Quantity:          2               (2,3)
    ///     <Multiple writes>
    /// FunctionCode::MaskWrReg:
    ///     Starting Address:       2               (0,1)
    ///     And_mask:               2               (2,3)
    ///     Or_mask:                2               (4,5)
    /// Single write:
    ///     Starting Address:       2               (0,1)
    ///     Data:                   2               (2,3)
    /// Multiple writes:
    ///     Starting Address:       2               (0,1)
    ///     Quantity of Regs:       2               (2,3)
    ///     Byte Count:             1               (4)
    ///     Data:                   Count           (5 to (Count + 5))
    fn parse_write_request(&mut self, input: &[u8], pos: usize) -> (r: Result<usize, ParseError>)
        requires
            pos <= input@.len(),
            old(self).length >= 2,
        ensures
            write_request_spec(old(self)@, input@, pos as int) == outcome(r, final(self)@),
    {
        let address = read_u16(input, pos)?;
        if self.access_type.contains(AccessType::single()) {
            let data = read_u16(input, pos + 2)?;
            if self.data_length() > 4 {
                self.flags = self.flags | ErrorFlags::data_length();
            }
            if self.access_type.contains(AccessType::coils()) && data != 0x0000 && data != 0xff00 {
                self.flags = self.flags | ErrorFlags::data_value();
            }
            self.data = Data::Write(Write::Other { address, data });
            Ok(pos + 4)
        } else if self.access_type.contains(AccessType::multiple()) {
            let quantity = read_u16(input, pos + 2)?;
            let count = read_u8(input, pos + 4)?;
            let offset: u16 = if self.function.code == FunctionCode::RdWrMultRegs {
                // 4 more bytes for the read section of the request
                11
            } else {
                7
            };
            let n: u16 = if self.length >= offset {
                self.length - offset
            } else {
                0
            };
            let mut invalid = quantity == 0 || self.length < offset || n != count as u16;
            if self.access_type.intersects(AccessType::bit_access_mask()) {
                if quantity > MAX_QUANTITY_BIT_ACCESS || quantity != (count / 8) as u16 + ((count
                    % 8) != 0) as u16 {
                    invalid = true;
                }
            } else if quantity > MAX_QUANTITY_WORD_ACCESS || count as u32 != 2 * quantity as u32 {
                invalid = true;
            }
            if invalid {
                self.flags = self.flags | ErrorFlags::data_value();
            }
            let data = take_bytes(input, pos + 5, n as usize)?;
            let write = Write::MultReq { address, quantity, data };
            self.data = match &self.data {
                Data::Read(read) => Data::ReadWrite { read: copy_read(read), write },
                _ => Data::Write(write),
            };
            Ok(pos + 5 + n as usize)
        } else {
            let and_mask = read_u16(input, pos + 2)?;
            let or_mask = read_u16(input, pos + 4)?;
            if self.data_length() > 6 {
                self.flags = self.flags | ErrorFlags::data_length();
            }
            self.data = Data::Write(Write::Mask { address, and_mask, or_mask });
            Ok(pos + 6)
        }
    }

    ///                             Num Bytes   Byte Placement
    /// FunctionCode::MaskWrReg:
    ///     Starting Address:       2           (0,1)
    ///     And_mask:               2           (2,3)
    ///     Or_mask:                2           (4,5)
    /// Single write:
    ///     Starting Address:       2           (0,1)
    ///     Data:                   2           (2,3)
    /// Multiple writes:
    ///     Starting Address:       2           (0,1)
    ///     Quantity of Regs:       2           (2,3)
    fn parse_write_response(&mut self, input: &[u8], pos: usize) -> (r: Result<usize, ParseError>)
        requires
            pos <= input@.len(),
            old(self).length >= 2,
        ensures
            write_response_spec(old(self)@, input@, pos as int) == outcome(r, final(self)@),
    {
        let address = read_u16(input, pos)?;
        if self.access_type.contains(AccessType::single()) {
            let data = read_u16(input, pos + 2)?;
            if self.data_length() > 4 {
                self.flags = self.flags | ErrorFlags::data_length();
            }
            self.data = Data::Write(Write::Other { address, data });
            Ok(pos + 4)
        } else if self.access_type.contains(AccessType::multiple()) {
            let quantity = read_u16(input, pos + 2)?;
            if self.data_length() > 4 {
                self.flags = self.flags | ErrorFlags::data_length();
            }
            if quantity == 0 {
                self.flags = self.flags | ErrorFlags::data_value();
            }
            // The limits are swapped with respect to the request.
            if self.access_type.intersects(AccessType::bit_access_mask()) {
                if quantity > MAX_QUANTITY_WORD_ACCESS {
                    self.flags = self.flags | ErrorFlags::data_value();
                }
            } else if quantity > MAX_QUANTITY_BIT_ACCESS {
                self.flags = self.flags | ErrorFlags::data_value();
            }
            self.data = Data::Write(Write::Other { address, data: quantity });
            Ok(pos + 4)
        } else {
            let and_mask = read_u16(input, pos + 2)?;
            let or_mask = read_u16(input, pos + 4)?;
            if self.data_length() > 6 {
                self.flags = self.flags | ErrorFlags::data_length();
            }
            self.data = Data::Write(Write::Mask { address, and_mask, or_mask });
            Ok(pos + 6)
        }
    }

    pub(crate) fn parse_request(&mut self, input: &[u8], pos: usize) -> (r: Result<usize, ParseError>)
        requires
            pos <= input@.len(),
            old(self).length >= 2,
        ensures
            request_spec(old(self)@, input@, pos as int) == outcome(r, final(self)@),
    {
        reveal(request_spec);
        let code = self.function.code;
        if code == FunctionCode::Diagnostic {
            if self.data_length() != 4 {
                self.flags = self.flags | ErrorFlags::data_length();
            }
            let next = self.parse_diagnostic(input, pos)?;
            let invalid = if let Data::Diagnostic { func, data } = &self.data {
                data.len() == 2 && diagnostic_value_check(func.code, data)
            } else {
                false
            };
            if invalid {
                self.flags = self.flags | ErrorFlags::data_value();
            }
            return Ok(next);
        }
        if code == FunctionCode::MEI {
            return self.parse_mei(input, pos);
        }
        let dl = self.data_length();
        if ((code == FunctionCode::RdFileRec || code == FunctionCode::WrFileRec) && dl == 0) || ((
        code == FunctionCode::RdExcStatus || code == FunctionCode::GetCommEventCtr || code
            == FunctionCode::GetCommEventLog || code == FunctionCode::ReportServerID) && dl > 0)
            || (code == FunctionCode::RdFIFOQueue && dl != 2) {
            self.flags = self.flags | ErrorFlags::data_length();
        } else if self.access_type.intersects(AccessType::read()) {
            let next = self.parse_read_request(input, pos)?;
            if self.access_type.intersects(AccessType::write()) {
                return self.parse_write_request(input, next);
            }
            return Ok(next);
        } else if self.access_type.intersects(AccessType::write()) {
            return self.parse_write_request(input, pos);
        }
        self.parse_bytevec(input, pos)
    }

    pub(crate) fn parse_response(&mut self, input: &[u8], pos: usize) -> (r: Result<usize, ParseError>)
        requires
            pos <= input@.len(),
            old(self).length >= 2,
        ensures
            response_spec(old(self)@, input@, pos as int) == outcome(r, final(self)@),
    {
        reveal(response_spec);
        let code = self.function.code;
        if self.function.raw >= ERROR_MASK {
            return self.parse_exception(input, pos);
        }
        if code == FunctionCode::Diagnostic {
            return self.parse_diagnostic(input, pos);
        }
        if code == FunctionCode::MEI {
            return self.parse_mei(input, pos);
        }
        let dl = self.data_length();
        if (code == FunctionCode::RdExcStatus && dl != 1) || (code == FunctionCode::GetCommEventCtr
            && dl != 4) {
            self.flags = self.flags | ErrorFlags::data_length();
        } else if self.access_type.intersects(AccessType::read()) {
            return self.parse_read_response(input, pos);
        } else if self.access_type.intersects(AccessType::write()) {
            return self.parse_write_response(input, pos);
        }
        self.parse_bytevec(input, pos)
    }

    pub(crate) fn parse_unknown(&mut self, input: &[u8], pos: usize) -> (r: Result<usize, ParseError>)
        requires
            pos <= input@.len(),
            old(self).length >= 2,
        ensures
            unknown_spec(old(self)@, input@, pos as int) == outcome(r, final(self)@),
    {
        reveal(unknown_spec);
        if self.function.raw >= ERROR_MASK {
            self.parse_exception(input, pos)
        } else if self.function.code == FunctionCode::Diagnostic {
            self.parse_diagnostic(input, pos)
        } else if self.function.code == FunctionCode::MEI {
            self.parse_mei(input, pos)
        } else {
            self.parse_bytevec(input, pos)
        }
    }
}

} // verus!
