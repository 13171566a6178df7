//! Small bit sets used to describe a message: how its function accesses
//! data, which category its function code falls in, and which soft
//! validation issues were found while dissecting it.

use vstd::prelude::*;
use vstd::string::{StrSliceExecFns, StringExecFns};

use crate::codes::FunctionCode;

verus! {

/// How a function code accesses the data model of a device.
#[derive(Clone, Copy, Debug, PartialEq, Eq, Structural, Hash)]
pub struct AccessType(pub u8);

impl AccessType {
    #[verifier::allow_in_spec]
    pub fn none() -> AccessType
        returns
            AccessType(0),
    {
        AccessType(0)
    }

    #[verifier::allow_in_spec]
    pub fn read() -> AccessType
        returns
            AccessType(0x01),
    {
        AccessType(0x01)
    }

    #[verifier::allow_in_spec]
    pub fn write() -> AccessType
        returns
            AccessType(0x02),
    {
        AccessType(0x02)
    }

    #[verifier::allow_in_spec]
    pub fn discretes() -> AccessType
        returns
            AccessType(0x04),
    {
        AccessType(0x04)
    }

    #[verifier::allow_in_spec]
    pub fn coils() -> AccessType
        returns
            AccessType(0x08),
    {
        AccessType(0x08)
    }

    #[verifier::allow_in_spec]
    pub fn input() -> AccessType
        returns
            AccessType(0x10),
    {
        AccessType(0x10)
    }

    #[verifier::allow_in_spec]
    pub fn holding() -> AccessType
        returns
            AccessType(0x20),
    {
        AccessType(0x20)
    }

    #[verifier::allow_in_spec]
    pub fn single() -> AccessType
        returns
            AccessType(0x40),
    {
        AccessType(0x40)
    }

    #[verifier::allow_in_spec]
    pub fn multiple() -> AccessType
        returns
            AccessType(0x80),
    {
        AccessType(0x80)
    }

    /// Coils and discrete inputs: the one-bit items.
    #[verifier::allow_in_spec]
    pub fn bit_access_mask() -> AccessType
        returns
            AccessType(0x0c),
    {
        AccessType(0x0c)
    }

    /// The four kinds of items of the data model.
    #[verifier::allow_in_spec]
    pub fn func_mask() -> AccessType
        returns
            AccessType(0x3c),
    {
        AccessType(0x3c)
    }

    #[verifier::allow_in_spec]
    pub fn write_single() -> AccessType
        returns
            AccessType(0x42),
    {
        AccessType(0x42)
    }

    #[verifier::allow_in_spec]
    pub fn write_multiple() -> AccessType
        returns
            AccessType(0x82),
    {
        AccessType(0x82)
    }

    #[verifier::allow_in_spec]
    pub fn bits(&self) -> u8
        returns
            self.0,
    {
        self.0
    }

    /// The set holding every flag of `self` and of `other`.
    #[verifier::allow_in_spec]
    pub fn union(self, other: AccessType) -> AccessType
        returns
            AccessType(self.0 | other.0),
    {
        AccessType(self.0 | other.0)
    }

    /// Whether every flag of `other` is in `self`.
    #[verifier::allow_in_spec]
    pub fn contains(&self, other: AccessType) -> bool
        returns
            self.0 & other.0 == other.0,
    {
        self.0 & other.0 == other.0
    }

    /// Whether `self` and `other` share a flag.
    #[verifier::allow_in_spec]
    pub fn intersects(&self, other: AccessType) -> bool
        returns
            self.0 & other.0 != 0,
    {
        self.0 & other.0 != 0
    }
}

impl core::ops::BitOr for AccessType {
    type Output = AccessType;

    fn bitor(self, other: AccessType) -> AccessType {
        self.union(other)
    }
}

impl vstd::std_specs::ops::BitOrSpecImpl for AccessType {
    open spec fn obeys_bitor_spec() -> bool {
        true
    }

    open spec fn bitor_req(self, other: AccessType) -> bool {
        true
    }

    open spec fn bitor_spec(self, other: AccessType) -> AccessType {
        self.union(other)
    }
}

/// Category of a function code, after the public, user-defined and
/// reserved ranges of the protocol.
#[derive(Clone, Copy, Debug, PartialEq, Eq, Structural, Hash)]
pub struct CodeCategory(pub u8);

impl CodeCategory {
    #[verifier::allow_in_spec]
    pub fn none() -> CodeCategory
        returns
            CodeCategory(0),
    {
        CodeCategory(0)
    }

    #[verifier::allow_in_spec]
    pub fn public_assigned() -> CodeCategory
        returns
            CodeCategory(0x01),
    {
        CodeCategory(0x01)
    }

    #[verifier::allow_in_spec]
    pub fn public_unassigned() -> CodeCategory
        returns
            CodeCategory(0x02),
    {
        CodeCategory(0x02)
    }

    #[verifier::allow_in_spec]
    pub fn user_defined() -> CodeCategory
        returns
            CodeCategory(0x04),
    {
        CodeCategory(0x04)
    }

    #[verifier::allow_in_spec]
    pub fn reserved() -> CodeCategory
        returns
            CodeCategory(0x08),
    {
        CodeCategory(0x08)
    }

    #[verifier::allow_in_spec]
    pub fn bits(&self) -> u8
        returns
            self.0,
    {
        self.0
    }

    #[verifier::allow_in_spec]
    pub fn union(self, other: CodeCategory) -> CodeCategory
        returns
            CodeCategory(self.0 | other.0),
    {
        CodeCategory(self.0 | other.0)
    }

    #[verifier::allow_in_spec]
    pub fn contains(&self, other: CodeCategory) -> bool
        returns
            self.0 & other.0 == other.0,
    {
        self.0 & other.0 == other.0
    }

    #[verifier::allow_in_spec]
    pub fn intersects(&self, other: CodeCategory) -> bool
        returns
            self.0 & other.0 != 0,
    {
        self.0 & other.0 != 0
    }
}

impl core::ops::BitOr for CodeCategory {
    type Output = CodeCategory;

    fn bitor(self, other: CodeCategory) -> CodeCategory {
        self.union(other)
    }
}

impl vstd::std_specs::ops::BitOrSpecImpl for CodeCategory {
    open spec fn obeys_bitor_spec() -> bool {
        true
    }

    open spec fn bitor_req(self, other: CodeCategory) -> bool {
        true
    }

    open spec fn bitor_spec(self, other: CodeCategory) -> CodeCategory {
        self.union(other)
    }
}

/// Soft validation issues of a message that parsed: the message is kept
/// and these bits tell what was wrong with it.
#[derive(Clone, Copy, Debug, PartialEq, Eq, Structural, Hash)]
pub struct ErrorFlags(pub u8);

impl ErrorFlags {
    #[verifier::allow_in_spec]
    pub fn none() -> ErrorFlags
        returns
            ErrorFlags(0),
    {
        ErrorFlags(0)
    }

    /// A field holds a value out of its range, or two fields disagree.
    #[verifier::allow_in_spec]
    pub fn data_value() -> ErrorFlags
        returns
            ErrorFlags(0x01),
    {
        ErrorFlags(0x01)
    }

    /// The length of the message does not fit its function.
    #[verifier::allow_in_spec]
    pub fn data_length() -> ErrorFlags
        returns
            ErrorFlags(0x02),
    {
        ErrorFlags(0x02)
    }

    /// The exception code is implausible for the function.
    #[verifier::allow_in_spec]
    pub fn exc_code() -> ErrorFlags
        returns
            ErrorFlags(0x04),
    {
        ErrorFlags(0x04)
    }

    #[verifier::allow_in_spec]
    pub fn bits(&self) -> u8
        returns
            self.0,
    {
        self.0
    }

    #[verifier::allow_in_spec]
    pub fn union(self, other: ErrorFlags) -> ErrorFlags
        returns
            ErrorFlags(self.0 | other.0),
    {
        ErrorFlags(self.0 | other.0)
    }

    #[verifier::allow_in_spec]
    pub fn contains(&self, other: ErrorFlags) -> bool
        returns
            self.0 & other.0 == other.0,
    {
        self.0 & other.0 == other.0
    }

    #[verifier::allow_in_spec]
    pub fn intersects(&self, other: ErrorFlags) -> bool
        returns
            self.0 & other.0 != 0,
    {
        self.0 & other.0 != 0
    }
}

impl core::ops::BitOr for ErrorFlags {
    type Output = ErrorFlags;

    fn bitor(self, other: ErrorFlags) -> ErrorFlags {
        self.union(other)
    }
}

impl vstd::std_specs::ops::BitOrSpecImpl for ErrorFlags {
    open spec fn obeys_bitor_spec() -> bool {
        true
    }

    open spec fn bitor_req(self, other: ErrorFlags) -> bool {
        true
    }

    open spec fn bitor_spec(self, other: ErrorFlags) -> ErrorFlags {
        self.union(other)
    }
}

/// `flags` with `added` joined in where `cond` holds.
pub open spec fn flag_if(flags: ErrorFlags, cond: bool, added: ErrorFlags) -> ErrorFlags {
    if cond {
        flags.union(added)
    } else {
        flags
    }
}

/// The access type of a function: which items it reads or writes, and how
/// many at a time. Functions outside the read/write families have none.
pub open spec fn access_of(code: FunctionCode) -> AccessType {
    match code {
        // COILS | READ
        FunctionCode::RdCoils => AccessType(0x09),
        // DISCRETES | READ
        FunctionCode::RdDiscreteInputs => AccessType(0x05),
        // HOLDING | READ
        FunctionCode::RdHoldRegs => AccessType(0x21),
        // INPUT | READ
        FunctionCode::RdInputRegs => AccessType(0x11),
        // COILS | WRITE_SINGLE
        FunctionCode::WrSingleCoil => AccessType(0x4a),
        // HOLDING | WRITE_SINGLE
        FunctionCode::WrSingleReg => AccessType(0x62),
        // COILS | WRITE_MULTIPLE
        FunctionCode::WrMultCoils => AccessType(0x8a),
        // HOLDING | WRITE_MULTIPLE
        FunctionCode::WrMultRegs => AccessType(0xa2),
        // HOLDING | WRITE
        FunctionCode::MaskWrReg => AccessType(0x22),
        // HOLDING | READ | WRITE_MULTIPLE
        FunctionCode::RdWrMultRegs => AccessType(0xa3),
        _ => AccessType::none(),
    }
}

/// Each entry of the access table is the union of the flags it names.
pub proof fn lemma_access_table_flags()
    ensures
        access_of(FunctionCode::RdCoils) == AccessType::coils().union(AccessType::read()),
        access_of(FunctionCode::RdDiscreteInputs) == AccessType::discretes().union(
            AccessType::read(),
        ),
        access_of(FunctionCode::RdHoldRegs) == AccessType::holding().union(AccessType::read()),
        access_of(FunctionCode::RdInputRegs) == AccessType::input().union(AccessType::read()),
        access_of(FunctionCode::WrSingleCoil) == AccessType::coils().union(
            AccessType::write_single(),
        ),
        access_of(FunctionCode::WrSingleReg) == AccessType::holding().union(
            AccessType::write_single(),
        ),
        access_of(FunctionCode::WrMultCoils) == AccessType::coils().union(
            AccessType::write_multiple(),
        ),
        access_of(FunctionCode::WrMultRegs) == AccessType::holding().union(
            AccessType::write_multiple(),
        ),
        access_of(FunctionCode::MaskWrReg) == AccessType::holding().union(AccessType::write()),
        access_of(FunctionCode::RdWrMultRegs) == AccessType::holding().union(
            AccessType::read(),
        ).union(AccessType::write_multiple()),
        AccessType::write_single() == AccessType::write().union(AccessType::single()),
        AccessType::write_multiple() == AccessType::write().union(AccessType::multiple()),
        AccessType::bit_access_mask() == AccessType::discretes().union(AccessType::coils()),
{
    lemma_union_value(AccessType::coils().0, AccessType::read().0, 0x09);
    lemma_union_value(AccessType::discretes().0, AccessType::read().0, 0x05);
    lemma_union_value(AccessType::holding().0, AccessType::read().0, 0x21);
    lemma_union_value(AccessType::input().0, AccessType::read().0, 0x11);
    lemma_union_value(AccessType::coils().0, AccessType::write_single().0, 0x4a);
    lemma_union_value(AccessType::holding().0, AccessType::write_single().0, 0x62);
    lemma_union_value(AccessType::coils().0, AccessType::write_multiple().0, 0x8a);
    lemma_union_value(AccessType::holding().0, AccessType::write_multiple().0, 0xa2);
    lemma_union_value(AccessType::holding().0, AccessType::write().0, 0x22);
    lemma_union_value(AccessType::holding().union(AccessType::read()).0, AccessType::write_multiple().0, 0xa3);
    lemma_union_value(AccessType::write().0, AccessType::single().0, 0x42);
    lemma_union_value(AccessType::write().0, AccessType::multiple().0, 0x82);
    lemma_union_value(AccessType::discretes().0, AccessType::coils().0, 0x0c);
}

/// The unions that the access table names, as byte values.
proof fn lemma_union_value(a: u8, b: u8, c: u8)
    by (bit_vector)
    requires
        (a == 0x08 && b == 0x01 && c == 0x09)
            || (a == 0x04 && b == 0x01 && c == 0x05)
            || (a == 0x20 && b == 0x01 && c == 0x21)
            || (a == 0x10 && b == 0x01 && c == 0x11)
            || (a == 0x08 && b == 0x42 && c == 0x4a)
            || (a == 0x20 && b == 0x42 && c == 0x62)
            || (a == 0x08 && b == 0x82 && c == 0x8a)
            || (a == 0x20 && b == 0x82 && c == 0xa2)
            || (a == 0x20 && b == 0x02 && c == 0x22)
            || (a == 0x21 && b == 0x82 && c == 0xa3)
            || (a == 0x02 && b == 0x40 && c == 0x42)
            || (a == 0x02 && b == 0x80 && c == 0x82)
            || (a == 0x04 && b == 0x08 && c == 0x0c),
    ensures
        a | b == c,
{
}

impl<'a> From<&'a FunctionCode> for AccessType {
    fn from(code: &'a FunctionCode) -> (r: AccessType) {
        match code {
            // COILS | READ
            FunctionCode::RdCoils => AccessType(0x09),
            // DISCRETES | READ
            FunctionCode::RdDiscreteInputs => AccessType(0x05),
            // HOLDING | READ
            FunctionCode::RdHoldRegs => AccessType(0x21),
            // INPUT | READ
            FunctionCode::RdInputRegs => AccessType(0x11),
            // COILS | WRITE_SINGLE
            FunctionCode::WrSingleCoil => AccessType(0x4a),
            // HOLDING | WRITE_SINGLE
            FunctionCode::WrSingleReg => AccessType(0x62),
            // COILS | WRITE_MULTIPLE
            FunctionCode::WrMultCoils => AccessType(0x8a),
            // HOLDING | WRITE_MULTIPLE
            FunctionCode::WrMultRegs => AccessType(0xa2),
            // HOLDING | WRITE
            FunctionCode::MaskWrReg => AccessType(0x22),
            // HOLDING | READ | WRITE_MULTIPLE
            FunctionCode::RdWrMultRegs => AccessType(0xa3),
            _ => AccessType::none(),
        }
    }
}

impl<'a> vstd::std_specs::convert::FromSpecImpl<&'a FunctionCode> for AccessType {
    open spec fn obeys_from_spec() -> bool {
        true
    }

    open spec fn from_spec(code: &'a FunctionCode) -> AccessType {
        access_of(*code)
    }
}

/// The category of a function byte that names no known function, by the
/// ranges of the protocol's code table.
pub open spec fn category_of_raw(id: u8) -> CodeCategory {
    if id == 0 {
        CodeCategory::none()
    } else if id < 9 {
        CodeCategory::public_unassigned()
    } else if id < 15 {
        CodeCategory::reserved()
    } else if id < 41 {
        CodeCategory::public_unassigned()
    } else if id < 43 {
        CodeCategory::reserved()
    } else if id < 65 {
        CodeCategory::public_unassigned()
    } else if id < 73 {
        CodeCategory::user_defined()
    } else if id < 90 {
        CodeCategory::public_unassigned()
    } else if id < 92 {
        CodeCategory::reserved()
    } else if id < 100 {
        CodeCategory::public_unassigned()
    } else if id < 111 {
        CodeCategory::user_defined()
    } else if id < 125 {
        CodeCategory::public_unassigned()
    } else if id < 128 {
        CodeCategory::reserved()
    } else {
        CodeCategory::none()
    }
}

impl From<u8> for CodeCategory {
    fn from(id: u8) -> (r: CodeCategory) {
        if id == 0 {
            CodeCategory::none()
        } else if id < 9 {
            CodeCategory::public_unassigned()
        } else if id < 15 {
            CodeCategory::reserved()
        } else if id < 41 {
            CodeCategory::public_unassigned()
        } else if id < 43 {
            CodeCategory::reserved()
        } else if id < 65 {
            CodeCategory::public_unassigned()
        } else if id < 73 {
            CodeCategory::user_defined()
        } else if id < 90 {
            CodeCategory::public_unassigned()
        } else if id < 92 {
            CodeCategory::reserved()
        } else if id < 100 {
            CodeCategory::public_unassigned()
        } else if id < 111 {
            CodeCategory::user_defined()
        } else if id < 125 {
            CodeCategory::public_unassigned()
        } else if id < 128 {
            CodeCategory::reserved()
        } else {
            CodeCategory::none()
        }
    }
}

impl vstd::std_specs::convert::FromSpecImpl<u8> for CodeCategory {
    open spec fn obeys_from_spec() -> bool {
        true
    }

    open spec fn from_spec(id: u8) -> CodeCategory {
        category_of_raw(id)
    }
}

/// `text` with `name` joined on where `present` holds, after a separator
/// when `text` is not empty.
pub open spec fn join_flag(text: Seq<char>, present: bool, name: Seq<char>) -> Seq<char> {
    if !present {
        text
    } else if text.len() == 0 {
        name
    } else {
        text + " | "@ + name
    }
}

fn push_flag(out: &mut String, present: bool, name: &str)
    ensures
        final(out)@ == join_flag(old(out)@, present, name@),
{
    if present {
        if !out.as_str().is_empty() {
            out.append(" | ");
        }
        out.append(name);
    }
}

/// Digits of `v` in base 16, lower case, without leading zeros.
pub open spec fn lower_hex_text(v: u8) -> Seq<char> {
    let digits = "0123456789abcdef"@;
    if v < 16 {
        seq![digits[v as int]]
    } else {
        seq![digits[(v / 16) as int], digits[(v % 16) as int]]
    }
}

/// The digits of `v` in base 16, lower case, without leading zeros.
fn lower_hex(v: u8) -> (r: String)
    ensures
        r@ == lower_hex_text(v),
{
    let digits = "0123456789abcdef";
    proof {
        reveal_strlit("0123456789abcdef");
    }
    let mut out = String::new();
    if v >= 16 {
        let high = (v / 16) as usize;
        out.append(digits.substring_char(high, high + 1));
    }
    let low = (v % 16) as usize;
    out.append(digits.substring_char(low, low + 1));
    assert(out@ =~= lower_hex_text(v));
    out
}

/// Bits outside the named flags, written as a hexadecimal number.
pub open spec fn extra_text(extra: u8) -> Seq<char> {
    "0x"@ + lower_hex_text(extra)
}

fn push_extra(out: &mut String, extra: u8)
    ensures
        final(out)@ == join_flag(old(out)@, extra != 0, extra_text(extra)),
{
    if extra != 0 {
        let mut piece = String::from_str("0x");
        let digits = lower_hex(extra);
        piece.append(digits.as_str());
        push_flag(out, true, piece.as_str());
    }
}

/// The names of the flags that `b` holds, in declaration order, joined by
/// " | "; bits without a name follow in hexadecimal.
pub open spec fn access_text(b: u8) -> Seq<char> {
        let t = Seq::<char>::empty();
        let t = join_flag(t, b == 0, "NONE"@);
        let t = join_flag(t, b & 0x01 == 0x01, "READ"@);
        let t = join_flag(t, b & 0x02 == 0x02, "WRITE"@);
        let t = join_flag(t, b & 0x04 == 0x04, "DISCRETES"@);
        let t = join_flag(t, b & 0x08 == 0x08, "COILS"@);
        let t = join_flag(t, b & 0x10 == 0x10, "INPUT"@);
        let t = join_flag(t, b & 0x20 == 0x20, "HOLDING"@);
        let t = join_flag(t, b & 0x40 == 0x40, "SINGLE"@);
        let t = join_flag(t, b & 0x80 == 0x80, "MULTIPLE"@);
        let t = join_flag(t, b & 0x0c == 0x0c, "BIT_ACCESS_MASK"@);
        let t = join_flag(t, b & 0x3c == 0x3c, "FUNC_MASK"@);
        let t = join_flag(t, b & 0x42 == 0x42, "WRITE_SINGLE"@);
        join_flag(t, b & 0x82 == 0x82, "WRITE_MULTIPLE"@)
}

impl AccessType {
    /// The names of the flags held, joined by " | ".
    pub fn to_string(&self) -> (r: String)
        ensures
            r@ == access_text(self.0),
    {
        let mut out = String::new();
        push_flag(&mut out, self.0 == 0, "NONE");
        push_flag(&mut out, self.0 & 0x01 == 0x01, "READ");
        push_flag(&mut out, self.0 & 0x02 == 0x02, "WRITE");
        push_flag(&mut out, self.0 & 0x04 == 0x04, "DISCRETES");
        push_flag(&mut out, self.0 & 0x08 == 0x08, "COILS");
        push_flag(&mut out, self.0 & 0x10 == 0x10, "INPUT");
        push_flag(&mut out, self.0 & 0x20 == 0x20, "HOLDING");
        push_flag(&mut out, self.0 & 0x40 == 0x40, "SINGLE");
        push_flag(&mut out, self.0 & 0x80 == 0x80, "MULTIPLE");
        push_flag(&mut out, self.0 & 0x0c == 0x0c, "BIT_ACCESS_MASK");
        push_flag(&mut out, self.0 & 0x3c == 0x3c, "FUNC_MASK");
        push_flag(&mut out, self.0 & 0x42 == 0x42, "WRITE_SINGLE");
        push_flag(&mut out, self.0 & 0x82 == 0x82, "WRITE_MULTIPLE");
        out
    }
}

/// The names of the flags that `b` holds, in declaration order, joined by
/// " | "; bits without a name follow in hexadecimal.
pub open spec fn category_text(b: u8) -> Seq<char> {
        let t = Seq::<char>::empty();
        let t = join_flag(t, b == 0, "NONE"@);
        let t = join_flag(t, b & 0x01 == 0x01, "PUBLIC_ASSIGNED"@);
        let t = join_flag(t, b & 0x02 == 0x02, "PUBLIC_UNASSIGNED"@);
        let t = join_flag(t, b & 0x04 == 0x04, "USER_DEFINED"@);
        let t = join_flag(t, b & 0x08 == 0x08, "RESERVED"@);
        join_flag(t, b & 0xf0 != 0, extra_text(b & 0xf0))
}

impl CodeCategory {
    /// The names of the flags held, joined by " | ".
    pub fn to_string(&self) -> (r: String)
        ensures
            r@ == category_text(self.0),
    {
        let mut out = String::new();
        push_flag(&mut out, self.0 == 0, "NONE");
        push_flag(&mut out, self.0 & 0x01 == 0x01, "PUBLIC_ASSIGNED");
        push_flag(&mut out, self.0 & 0x02 == 0x02, "PUBLIC_UNASSIGNED");
        push_flag(&mut out, self.0 & 0x04 == 0x04, "USER_DEFINED");
        push_flag(&mut out, self.0 & 0x08 == 0x08, "RESERVED");
        push_extra(&mut out, self.0 & 0xf0);
        out
    }
}

/// The names of the flags that `b` holds, in declaration order, joined by
/// " | "; bits without a name follow in hexadecimal.
pub open spec fn error_flags_text(b: u8) -> Seq<char> {
        let t = Seq::<char>::empty();
        let t = join_flag(t, b == 0, "NONE"@);
        let t = join_flag(t, b & 0x01 == 0x01, "DATA_VALUE"@);
        let t = join_flag(t, b & 0x02 == 0x02, "DATA_LENGTH"@);
        let t = join_flag(t, b & 0x04 == 0x04, "EXC_CODE"@);
        join_flag(t, b & 0xf8 != 0, extra_text(b & 0xf8))
}

impl ErrorFlags {
    /// The names of the flags held, joined by " | ".
    pub fn to_string(&self) -> (r: String)
        ensures
            r@ == error_flags_text(self.0),
    {
        let mut out = String::new();
        push_flag(&mut out, self.0 == 0, "NONE");
        push_flag(&mut out, self.0 & 0x01 == 0x01, "DATA_VALUE");
        push_flag(&mut out, self.0 & 0x02 == 0x02, "DATA_LENGTH");
        push_flag(&mut out, self.0 & 0x04 == 0x04, "EXC_CODE");
        push_extra(&mut out, self.0 & 0xf8);
        out
    }
}

/// Whether two strings hold the same characters.
fn str_equal(a: &str, b: &str) -> (r: bool)
    ensures
        r == (a@ == b@),
{
    let n = a.unicode_len();
    if n != b.unicode_len() {
        return false;
    }
    let mut i: usize = 0;
    while i < n
        invariant
            n == a@.len(),
            n == b@.len(),
            i <= n,
            forall|j: int| 0 <= j < i ==> a@[j] == b@[j],
        decreases n - i,
    {
        if a.get_char(i) != b.get_char(i) {
            return false;
        }
        i = i + 1;
    }
    assert(a@ =~= b@);
    true
}

/// The flag that a keyword names, for the eight keywords of the single
/// flags.
pub open spec fn access_keyword(s: Seq<char>) -> Result<AccessType, ()> {
    if s == "read"@ {
        Ok(AccessType::read())
    } else if s == "write"@ {
        Ok(AccessType::write())
    } else if s == "discretes"@ {
        Ok(AccessType::discretes())
    } else if s == "coils"@ {
        Ok(AccessType::coils())
    } else if s == "input"@ {
        Ok(AccessType::input())
    } else if s == "holding"@ {
        Ok(AccessType::holding())
    } else if s == "single"@ {
        Ok(AccessType::single())
    } else if s == "multiple"@ {
        Ok(AccessType::multiple())
    } else {
        Err(())
    }
}

impl AccessType {
    /// Parses one of the keywords `read`, `write`, `discretes`, `coils`,
    /// `input`, `holding`, `single` and `multiple`.
    pub fn from_str(access: &str) -> (r: Result<AccessType, ()>)
        ensures
            r == access_keyword(access@),
    {
        if str_equal(access, "read") {
            Ok(AccessType::read())
        } else if str_equal(access, "write") {
            Ok(AccessType::write())
        } else if str_equal(access, "discretes") {
            Ok(AccessType::discretes())
        } else if str_equal(access, "coils") {
            Ok(AccessType::coils())
        } else if str_equal(access, "input") {
            Ok(AccessType::input())
        } else if str_equal(access, "holding") {
            Ok(AccessType::holding())
        } else if str_equal(access, "single") {
            Ok(AccessType::single())
        } else if str_equal(access, "multiple") {
            Ok(AccessType::multiple())
        } else {
            Err(())
        }
    }
}

} // verus!
