//! The parsed message, its payload variants, and what can be asked of a
//! message once it is parsed: its category, whether it pairs with another
//! message, which addresses it writes and the value it writes at one.

use vstd::prelude::*;

use crate::codes::{
    Diagnostic, DiagnosticSubfunction, Exception, Function, FunctionCode, MEIType, MEI,
};
use crate::flags::{category_of_raw, flag_if, AccessType, CodeCategory, ErrorFlags};

verus! {

/// Read information on parsed in function data
#[derive(Clone, Debug, PartialEq)]
pub enum Read {
    Request { address: u16, quantity: u16 },
    Response(Vec<u8>),
}

/// Write information on parsed in function data
#[derive(Debug, PartialEq)]
#[allow(inconsistent_fields)]
pub enum Write {
    /// Multiple-write requests; the responses to them are `Other`.
    MultReq { address: u16, quantity: u16, data: Vec<u8> },
    /// Mask-write requests and responses.
    Mask { address: u16, and_mask: u16, or_mask: u16 },
    /// Single-write requests and responses, and multiple-write responses.
    Other { address: u16, data: u16 },
}

/// Represents the various fields found in the PDU
#[derive(Debug, PartialEq)]
pub enum Data {
    Exception(Exception),
    Diagnostic { func: Diagnostic, data: Vec<u8> },
    MEI { mei_type: MEI, data: Vec<u8> },
    Read(Read),
    Write(Write),
    ReadWrite { read: Read, write: Write },
    /// Used for data that doesn't fit elsewhere
    ByteVec(Vec<u8>),
    Empty,
}

/// Breakdown of the parsed modbus bytes
#[derive(Debug, PartialEq)]
pub struct Message {
    pub transaction_id: u16,
    pub protocol_id: u16,
    /// Number of bytes that follow the length field: unit id, function
    /// byte and function data.
    pub length: u16,
    pub unit_id: u8,
    pub function: Function,
    pub access_type: AccessType,
    pub category: CodeCategory,
    pub data: Data,
    pub flags: ErrorFlags,
}

pub enum ReadView {
    Request { address: u16, quantity: u16 },
    Response(Seq<u8>),
}

#[allow(inconsistent_fields)]
pub enum WriteView {
    MultReq { address: u16, quantity: u16, data: Seq<u8> },
    Mask { address: u16, and_mask: u16, or_mask: u16 },
    Other { address: u16, data: u16 },
}

pub enum DataView {
    Exception(Exception),
    Diagnostic { func: Diagnostic, data: Seq<u8> },
    MEI { mei_type: MEI, data: Seq<u8> },
    Read(ReadView),
    Write(WriteView),
    ReadWrite { read: ReadView, write: WriteView },
    ByteVec(Seq<u8>),
    Empty,
}

pub struct MessageView {
    pub transaction_id: u16,
    pub protocol_id: u16,
    pub length: u16,
    pub unit_id: u8,
    pub function: Function,
    pub access_type: AccessType,
    pub category: CodeCategory,
    pub data: DataView,
    pub flags: ErrorFlags,
}

impl View for Read {
    type V = ReadView;

    open spec fn view(&self) -> ReadView {
        match self {
            Read::Request { address, quantity } => ReadView::Request {
                address: *address,
                quantity: *quantity,
            },
            Read::Response(v) => ReadView::Response(v@),
        }
    }
}

impl View for Write {
    type V = WriteView;

    open spec fn view(&self) -> WriteView {
        match self {
            Write::MultReq { address, quantity, data } => WriteView::MultReq {
                address: *address,
                quantity: *quantity,
                data: data@,
            },
            Write::Mask { address, and_mask, or_mask } => WriteView::Mask {
                address: *address,
                and_mask: *and_mask,
                or_mask: *or_mask,
            },
            Write::Other { address, data } => WriteView::Other { address: *address, data: *data },
        }
    }
}

impl View for Data {
    type V = DataView;

    open spec fn view(&self) -> DataView {
        match self {
            Data::Exception(e) => DataView::Exception(*e),
            Data::Diagnostic { func, data } => DataView::Diagnostic { func: *func, data: data@ },
            Data::MEI { mei_type, data } => DataView::MEI { mei_type: *mei_type, data: data@ },
            Data::Read(r) => DataView::Read(r@),
            Data::Write(w) => DataView::Write(w@),
            Data::ReadWrite { read, write } => DataView::ReadWrite { read: read@, write: write@ },
            Data::ByteVec(v) => DataView::ByteVec(v@),
            Data::Empty => DataView::Empty,
        }
    }
}

impl View for Message {
    type V = MessageView;

    open spec fn view(&self) -> MessageView {
        MessageView {
            transaction_id: self.transaction_id,
            protocol_id: self.protocol_id,
            length: self.length,
            unit_id: self.unit_id,
            function: self.function,
            access_type: self.access_type,
            category: self.category,
            data: self.data@,
            flags: self.flags,
        }
    }
}

impl MessageView {
    /// Bytes of function data: the length without the unit id and the
    /// function byte.
    pub open spec fn data_length(self) -> int {
        self.length - 2
    }
}

/// The category of a message, from its function code and, for the
/// diagnostic and encapsulated-interface functions, from its subcode.
pub open spec fn category_of(m: MessageView) -> CodeCategory {
    match m.function.code {
        FunctionCode::Diagnostic => match m.data {
            DataView::Diagnostic { func, .. } => if func.code == DiagnosticSubfunction::Reserved {
                CodeCategory::reserved()
            } else {
                CodeCategory::public_assigned()
            },
            _ => CodeCategory::none(),
        },
        FunctionCode::MEI => match m.data {
            DataView::MEI { mei_type, .. } => if mei_type.code == MEIType::Unknown {
                CodeCategory::reserved()
            } else {
                CodeCategory::public_assigned()
            },
            _ => CodeCategory::none(),
        },
        FunctionCode::Unknown => category_of_raw(m.function.raw),
        _ => CodeCategory::public_assigned(),
    }
}

impl<'a> From<&'a Message> for CodeCategory {
    fn from(msg: &'a Message) -> (r: CodeCategory) {
        match msg.function.code {
            FunctionCode::Diagnostic => match &msg.data {
                Data::Diagnostic { func, data: _ } => {
                    if func.code == DiagnosticSubfunction::Reserved {
                        CodeCategory::reserved()
                    } else {
                        CodeCategory::public_assigned()
                    }
                },
                _ => CodeCategory::none(),
            },
            FunctionCode::MEI => match &msg.data {
                Data::MEI { mei_type, data: _ } => {
                    if mei_type.code == MEIType::Unknown {
                        CodeCategory::reserved()
                    } else {
                        CodeCategory::public_assigned()
                    }
                },
                _ => CodeCategory::none(),
            },
            FunctionCode::Unknown => CodeCategory::from(msg.function.raw),
            _ => CodeCategory::public_assigned(),
        }
    }
}

impl<'a> vstd::std_specs::convert::FromSpecImpl<&'a Message> for CodeCategory {
    open spec fn obeys_from_spec() -> bool {
        true
    }

    open spec fn from_spec(msg: &'a Message) -> CodeCategory {
        category_of(msg@)
    }
}

/// The quantity that a read request (alone or as the read half of a
/// read/write request) asks for.
pub open spec fn requested_quantity(d: DataView) -> Option<u16> {
    match d {
        DataView::Read(ReadView::Request { quantity, .. }) => Some(quantity),
        DataView::ReadWrite { read: ReadView::Request { quantity, .. }, .. } => Some(quantity),
        _ => None,
    }
}

/// The number of data bytes of a read response.
pub open spec fn response_count(d: DataView) -> Option<nat> {
    match d {
        DataView::Read(ReadView::Response(bytes)) => Some(bytes.len()),
        _ => None,
    }
}

/// Whether `count` response bytes disagree with a request for `quantity`
/// items: two bytes per register for the read/write function, one bit per
/// item, rounded up to whole bytes, otherwise.
pub open spec fn count_mismatch(code: FunctionCode, count: int, quantity: int) -> bool {
    if code != FunctionCode::RdWrMultRegs {
        count != quantity / 8 + if quantity % 8 != 0 {
            1int
        } else {
            0int
        }
    } else {
        count != 2 * quantity
    }
}

/// Whether `a` and `b` can be a request and its response (in either order).
pub open spec fn pairs_with(a: MessageView, b: MessageView) -> bool {
    if a.transaction_id != b.transaction_id || a.unit_id != b.unit_id || a.function.code
        != b.function.code || a.access_type != b.access_type {
        false
    } else if a.category != CodeCategory::public_assigned() {
        true
    } else if b.data is Exception {
        true
    } else {
        match a.data {
            DataView::Exception(_) => true,
            DataView::ByteVec(_) => true,
            DataView::Read(ReadView::Response(_)) => requested_quantity(b.data) is Some,
            DataView::Read(ReadView::Request { .. }) => response_count(b.data) is Some,
            DataView::ReadWrite { read: ReadView::Request { .. }, .. } => response_count(
                b.data,
            ) is Some,
            DataView::Write(WriteView::Other { .. }) => match b.data {
                DataView::Write(WriteView::Other { .. }) => true,
                DataView::Write(WriteView::MultReq { .. }) => true,
                _ => false,
            },
            DataView::Write(WriteView::MultReq { .. }) => b.data is Write && b.data->Write_0 is Other,
            DataView::Write(WriteView::Mask { .. }) => b.data is Write && b.data->Write_0 is Mask,
            DataView::Diagnostic { func, .. } => match b.data {
                DataView::Diagnostic { func: other_func, .. } => func == other_func,
                _ => false,
            },
            DataView::MEI { mei_type, .. } => match b.data {
                DataView::MEI { mei_type: other_mei, .. } => mei_type == other_mei,
                _ => false,
            },
            _ => true,
        }
    }
}

/// Whether pairing `a` with `b` finds their payloads disagreeing: counts
/// that do not fit the quantity asked for, or written addresses and values
/// that differ. Only assigned functions without an exception are checked.
pub open spec fn payload_mismatch(a: MessageView, b: MessageView) -> bool {
    if !pairs_with(a, b) || a.category != CodeCategory::public_assigned() || b.data is Exception {
        false
    } else {
        match a.data {
            DataView::Read(ReadView::Response(bytes)) => count_mismatch(
                a.function.code,
                bytes.len() as int,
                requested_quantity(b.data)->0 as int,
            ),
            DataView::Read(ReadView::Request { quantity, .. }) => count_mismatch(
                a.function.code,
                response_count(b.data)->0 as int,
                quantity as int,
            ),
            DataView::ReadWrite { read: ReadView::Request { quantity, .. }, .. } => count_mismatch(
                a.function.code,
                response_count(b.data)->0 as int,
                quantity as int,
            ),
            DataView::Write(WriteView::Other { address, data }) => match b.data {
                DataView::Write(WriteView::Other { address: other_addr, data: other_data }) =>
                    address != other_addr || data != other_data,
                DataView::Write(WriteView::MultReq { address: other_addr, quantity, .. }) =>
                    address != other_addr || data != quantity,
                _ => false,
            },
            DataView::Write(WriteView::MultReq { address, quantity, .. }) => match b.data {
                DataView::Write(WriteView::Other { address: other_addr, data: other_data }) =>
                    address != other_addr || quantity != other_data,
                _ => false,
            },
            DataView::Write(WriteView::Mask { address, and_mask, or_mask }) => match b.data {
                DataView::Write(
                    WriteView::Mask { address: other_addr, and_mask: other_and, or_mask: other_or },
                ) => address != other_addr || and_mask != other_and || or_mask != other_or,
                _ => false,
            },
            _ => false,
        }
    }
}

/// The 1-based first and last address that a message reads or writes,
/// where both fit in 16 bits.
pub open spec fn address_range_of(d: DataView) -> Option<(u16, u16)> {
    match d {
        DataView::Write(WriteView::Other { address, .. }) => single_range(address),
        DataView::Write(WriteView::Mask { address, .. }) => single_range(address),
        DataView::Read(ReadView::Request { address, quantity }) => span_range(address, quantity),
        DataView::Write(WriteView::MultReq { address, quantity, .. }) => span_range(
            address,
            quantity,
        ),
        DataView::ReadWrite { write: WriteView::MultReq { address, quantity, .. }, .. } =>
            span_range(address, quantity),
        _ => None,
    }
}

pub open spec fn single_range(address: u16) -> Option<(u16, u16)> {
    if address < 0xffff {
        Some(((address + 1) as u16, (address + 1) as u16))
    } else {
        None
    }
}

pub open spec fn span_range(address: u16, quantity: u16) -> Option<(u16, u16)> {
    if quantity > 0 && address + quantity <= 0xffff {
        Some(((address + 1) as u16, (address + quantity) as u16))
    } else {
        None
    }
}

/// The start address and the bytes of a multiple-write payload.
pub open spec fn multiple_write_of(d: DataView) -> Option<(u16, Seq<u8>)> {
    match d {
        DataView::Write(WriteView::MultReq { address, data, .. }) => Some((address, data)),
        DataView::ReadWrite { write: WriteView::MultReq { address, data, .. }, .. } => Some(
            (address, data),
        ),
        _ => None,
    }
}

/// The big-endian 16-bit value of the two bytes of `s` at `i`.
pub open spec fn be16(s: Seq<u8>, i: int) -> u16 {
    (s[i] as int * 256 + s[i + 1] as int) as u16
}

/// Whether there is a range and `addr` lies outside it.
pub open spec fn outside_range(range: Option<(u16, u16)>, addr: u16) -> bool {
    match range {
        Some((first, last)) => !(first <= addr <= last),
        None => false,
    }
}

/// The value that message `m` writes at the 1-based address `addr`.
pub open spec fn value_at(m: MessageView, addr: u16) -> Option<u16> {
    let coils = m.access_type.contains(AccessType::coils());
    if outside_range(address_range_of(m.data), addr) {
        None
    } else if m.access_type.contains(AccessType::single()) {
        match m.data {
            DataView::Write(WriteView::Other { data, .. }) => if coils {
                Some(if data != 0 { 1u16 } else { 0u16 })
            } else {
                Some(data)
            },
            _ => None,
        }
    } else if m.access_type.contains(AccessType::multiple()) {
        match multiple_write_of(m.data) {
            Some((start, bytes)) => {
                if start == 0xffff || start >= addr {
                    None
                } else {
                    let k = addr - (start + 1);
                    let offset = if coils {
                        (k * 2) / 8
                    } else {
                        k * 2
                    };
                    if offset + 1 < bytes.len() {
                        let word = be16(bytes, offset);
                        if coils {
                            Some((word >> ((k % 8) as u16)) & 1u16)
                        } else {
                            Some(word)
                        }
                    } else {
                        None
                    }
                }
            },
            None => None,
        }
    } else {
        None
    }
}

impl Message {
    /// Subtracts 2 from the length (the unit id and function bytes)
    /// so that length checks do not need to account for the 2 bytes
    pub fn data_length(&self) -> (r: u16)
        requires
            self.length >= 2,
        ensures
            r == self@.data_length(),
    {
        self.length - 2
    }

    /// Matches this message with another. Used to validate requests with
    /// responses: returns whether the two can pair, and raises the
    /// data-value flag of this message where their payloads disagree.
    pub fn matches(&mut self, other: &Message) -> (r: bool)
        ensures
            r == pairs_with(old(self)@, other@),
            final(self)@ == (MessageView {
                flags: flag_if(
                    old(self).flags,
                    payload_mismatch(old(self)@, other@),
                    ErrorFlags::data_value(),
                ),
                ..old(self)@
            }),
    {
        if self.transaction_id != other.transaction_id || self.unit_id != other.unit_id
            || self.function.code != other.function.code || self.access_type
            != other.access_type {
            return false;
        }
        // This isn't a known function, no validation can be done
        if self.category != CodeCategory::public_assigned() {
            return true;
        }
        // If there was an exception, don't bother trying to validate.
        // Since we don't know which side is the response, both are checked
        // (self.data is checked in the match right below).
        if let Data::Exception(_) = &other.data {
            return true;
        }
        let mismatch = match &self.data {
            Data::Exception(_) => false,
            Data::ByteVec(_) => false,
            Data::Read(Read::Response(data)) => {
                let count = data.len();
                let other_count = match &other.data {
                    Data::Read(Read::Request { address: _, quantity }) => *quantity as usize,
                    Data::ReadWrite { read: Read::Request { address: _, quantity }, write: _ } =>
                        *quantity as usize,
                    _ => return false,
                };
                if self.function.code != FunctionCode::RdWrMultRegs {
                    count != (other_count / 8) + ((other_count % 8) != 0) as usize
                } else {
                    count != 2 * other_count
                }
            },
            Data::Read(Read::Request { address: _, quantity })
            | Data::ReadWrite { read: Read::Request { address: _, quantity }, write: _ } => {
                let count = *quantity as usize;
                let other_count = match &other.data {
                    Data::Read(Read::Response(data)) => data.len(),
                    _ => return false,
                };
                if self.function.code != FunctionCode::RdWrMultRegs {
                    other_count != (count / 8) + ((count % 8) != 0) as usize
                } else {
                    other_count != 2 * count
                }
            },
            Data::Write(Write::Other { address: addr, data }) => match &other.data {
                Data::Write(Write::Other { address: other_addr, data: other_data }) => {
                    *addr != *other_addr || *data != *other_data
                },
                Data::Write(Write::MultReq { address: other_addr, quantity: other_quantity, data: _ }) => {
                    *addr != *other_addr || *data != *other_quantity
                },
                _ => return false,
            },
            Data::Write(Write::MultReq { address: addr, quantity, data: _ }) => {
                if let Data::Write(Write::Other { address: other_addr, data: other_data }) =
                    &other.data {
                    *addr != *other_addr || *quantity != *other_data
                } else {
                    return false;
                }
            },
            Data::Write(Write::Mask { address: addr, and_mask: and, or_mask: or }) => {
                if let Data::Write(
                    Write::Mask { address: other_addr, and_mask: other_and, or_mask: other_or },
                ) = &other.data {
                    *addr != *other_addr || *and != *other_and || *or != *other_or
                } else {
                    return false;
                }
            },
            Data::Diagnostic { func, data: _ } => {
                if let Data::Diagnostic { func: other_func, data: _ } = &other.data {
                    return *func == *other_func;
                } else {
                    return false;
                }
            },
            Data::MEI { mei_type, data: _ } => {
                if let Data::MEI { mei_type: other_mei, data: _ } = &other.data {
                    return *mei_type == *other_mei;
                } else {
                    return false;
                }
            },
            _ => false,
        };
        if mismatch {
            self.flags = self.flags | ErrorFlags::data_value();
        }
        true
    }

    /// Gets the register/coil/input value at the given address, if it has been
    /// modified in the transaction. Returns the value as Some(u16) if it is found,
    /// otherwise returns None. The address passed in must be offset by 1 to reflect
    /// the actual coil/register and not the address found in the PDU.
    pub fn get_write_value_at_address(&self, address: &u16) -> (r: Option<u16>)
        ensures
            r == value_at(self@, *address),
    {
        // Compare the given address with the transaction's address to ensure it is covered
        if let Some(range) = self.get_address_range() {
            if !range.contains(address) {
                return None;
            }
        }
        if self.access_type.contains(AccessType::single()) {
            // The only functions with single access are write functions, limiting the
            // data variant to Write::Other
            let data = if let Data::Write(Write::Other { address: _, data }) = &self.data {
                *data
            } else {
                return None;
            };
            if self.access_type.contains(AccessType::coils()) {
                Some((data != 0) as u16)
            } else {
                Some(data)
            }
        } else if self.access_type.contains(AccessType::multiple()) {
            let (start, data) = match &self.data {
                Data::Write(Write::MultReq { address, quantity: _, data }) => (*address, data),
                Data::ReadWrite {
                    read: _,
                    write: Write::MultReq { address, quantity: _, data },
                } => (*address, data),
                _ => return None,
            };
            if start == u16::MAX || start >= *address {
                return None;
            }
            let k = *address - (start + 1);
            // Multiply by two because each register value is 2 bytes
            let mut offset = k as usize * 2;
            // In case of Coils, offset is in bit (convert to byte)
            if self.access_type.contains(AccessType::coils()) {
                offset = offset / 8;
            }
            if offset + 1 >= data.len() {
                return None;
            }
            let mut value = data[offset] as u16 * 256 + data[offset + 1] as u16;
            if self.access_type.contains(AccessType::coils()) {
                value = (value >> (k % 8)) & 1;
            }
            Some(value)
        } else {
            None
        }
    }

    /// Gets the address and quantity in the read/write data. If the data does not
    /// match and they can't be found, None is returned.
    /// The range returned is offset by 1 to reflect the coils/registers that
    /// start at 1 instead of the PDU numbers that start at 0; a range whose
    /// end does not fit in 16 bits is not returned.
    pub fn get_address_range(&self) -> (r: Option<core::ops::RangeInclusive<u16>>)
        ensures
            match address_range_of(self.data@) {
                Some((first, last)) => r is Some && r->0@.start == first && r->0@.end == last
                    && !r->0@.exhausted,
                None => r is None,
            },
    {
        match &self.data {
            Data::Write(Write::Other { address, data: _ })
            | Data::Write(Write::Mask { address, and_mask: _, or_mask: _ }) => {
                if *address < u16::MAX {
                    Some(core::ops::RangeInclusive::new(*address + 1, *address + 1))
                } else {
                    None
                }
            },
            Data::Read(Read::Request { address, quantity })
            | Data::Write(Write::MultReq { address, quantity, data: _ })
            | Data::ReadWrite {
                read: _,
                write: Write::MultReq { address, quantity, data: _ },
            } => {
                if *quantity > 0 && *address as u32 + *quantity as u32 <= u16::MAX as u32 {
                    Some(core::ops::RangeInclusive::new(*address + 1, *address + *quantity))
                } else {
                    None
                }
            },
            _ => None,
        }
    }
}

} // verus!
