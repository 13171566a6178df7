//! The numbered codes of the protocol: function codes, diagnostic
//! subfunctions, encapsulated-interface (MEI) types and exception codes,
//! each kept beside the raw value it was decoded from.

use vstd::prelude::*;
use vstd::string::StringExecFns;

verus! {

/// Function codes of the public range of the protocol.
#[derive(Clone, Copy, Debug, PartialEq, Eq, Structural, Hash)]
pub enum FunctionCode {
    RdCoils,
    RdDiscreteInputs,
    RdHoldRegs,
    RdInputRegs,
    WrSingleCoil,
    WrSingleReg,
    RdExcStatus,
    Diagnostic,
    Program484,
    Poll484,
    GetCommEventCtr,
    GetCommEventLog,
    ProgramController,
    PollController,
    WrMultCoils,
    WrMultRegs,
    ReportServerID,
    Program884,
    ResetCommLink,
    RdFileRec,
    WrFileRec,
    MaskWrReg,
    RdWrMultRegs,
    RdFIFOQueue,
    MEI,
    Unknown,
}

/// The function code that a byte (with the exception bit cleared) names.
pub open spec fn function_code_of(v: u8) -> FunctionCode {
    match v {
        0x01 => FunctionCode::RdCoils,
        0x02 => FunctionCode::RdDiscreteInputs,
        0x03 => FunctionCode::RdHoldRegs,
        0x04 => FunctionCode::RdInputRegs,
        0x05 => FunctionCode::WrSingleCoil,
        0x06 => FunctionCode::WrSingleReg,
        0x07 => FunctionCode::RdExcStatus,
        0x08 => FunctionCode::Diagnostic,
        0x09 => FunctionCode::Program484,
        0x0a => FunctionCode::Poll484,
        0x0b => FunctionCode::GetCommEventCtr,
        0x0c => FunctionCode::GetCommEventLog,
        0x0d => FunctionCode::ProgramController,
        0x0e => FunctionCode::PollController,
        0x0f => FunctionCode::WrMultCoils,
        0x10 => FunctionCode::WrMultRegs,
        0x11 => FunctionCode::ReportServerID,
        0x12 => FunctionCode::Program884,
        0x13 => FunctionCode::ResetCommLink,
        0x14 => FunctionCode::RdFileRec,
        0x15 => FunctionCode::WrFileRec,
        0x16 => FunctionCode::MaskWrReg,
        0x17 => FunctionCode::RdWrMultRegs,
        0x18 => FunctionCode::RdFIFOQueue,
        0x2b => FunctionCode::MEI,
        _ => FunctionCode::Unknown,
    }
}

impl FunctionCode {
    /// Decodes a function byte; values outside the table give `Unknown`.
    pub fn from_raw(val: u8) -> (r: FunctionCode)
        ensures
            r == function_code_of(val),
            r == FunctionCode::Unknown <==> !(0x01 <= val <= 0x18 || val == 0x2b),
    {
        match val {
            0x01 => FunctionCode::RdCoils,
            0x02 => FunctionCode::RdDiscreteInputs,
            0x03 => FunctionCode::RdHoldRegs,
            0x04 => FunctionCode::RdInputRegs,
            0x05 => FunctionCode::WrSingleCoil,
            0x06 => FunctionCode::WrSingleReg,
            0x07 => FunctionCode::RdExcStatus,
            0x08 => FunctionCode::Diagnostic,
            0x09 => FunctionCode::Program484,
            0x0a => FunctionCode::Poll484,
            0x0b => FunctionCode::GetCommEventCtr,
            0x0c => FunctionCode::GetCommEventLog,
            0x0d => FunctionCode::ProgramController,
            0x0e => FunctionCode::PollController,
            0x0f => FunctionCode::WrMultCoils,
            0x10 => FunctionCode::WrMultRegs,
            0x11 => FunctionCode::ReportServerID,
            0x12 => FunctionCode::Program884,
            0x13 => FunctionCode::ResetCommLink,
            0x14 => FunctionCode::RdFileRec,
            0x15 => FunctionCode::WrFileRec,
            0x16 => FunctionCode::MaskWrReg,
            0x17 => FunctionCode::RdWrMultRegs,
            0x18 => FunctionCode::RdFIFOQueue,
            0x2b => FunctionCode::MEI,
            _ => FunctionCode::Unknown,
        }
    }
}

/// Bytes at or above this value carry the exception bit.
pub const ERROR_MASK: u8 = 0x80;

/// The function byte of a message and the code it decodes to.
#[derive(Clone, Copy, Debug, PartialEq, Eq, Structural)]
pub struct Function {
    /// Value of the function byte
    pub raw: u8,
    /// Function name associated with the raw value
    pub code: FunctionCode,
}

/// The code named by a function byte: the exception bit, when set, is
/// cleared before the lookup.
pub open spec fn decoded_function(val: u8) -> FunctionCode {
    if val >= 0x80 {
        function_code_of(val ^ 0x80)
    } else {
        function_code_of(val)
    }
}

impl Function {
    pub fn new(val: u8) -> (r: Function)
        ensures
            r.raw == val,
            r.code == decoded_function(val),
    {
        Function {
            raw: val,
            code: if val >= ERROR_MASK {
                FunctionCode::from_raw(val ^ ERROR_MASK)
            } else {
                FunctionCode::from_raw(val)
            },
        }
    }
}

/// Subfunction codes of the diagnostic function.
#[derive(Clone, Copy, Debug, PartialEq, Eq, Structural, Hash)]
pub enum DiagnosticSubfunction {
    RetQueryData,
    RestartCommOpt,
    RetDiagReg,
    ChangeInputDelimiter,
    ForceListenOnlyMode,
    ClearCtrDiagReg,
    RetBusMsgCount,
    RetBusCommErrCount,
    RetBusExcErrCount,
    RetServerMsgCount,
    RetServerNoRespCount,
    RetServerNAKCount,
    RetServerBusyCount,
    RetBusCharOverrunCount,
    RetOverrunErrCount,
    ClearOverrunCounterFlag,
    GetClearPlusStats,
    Reserved,
}

/// The subfunction that a 16-bit value names; 0x05 to 0x09 and 0x16 on are
/// reserved.
pub open spec fn subfunction_of(v: u16) -> DiagnosticSubfunction {
    match v {
        0x00 => DiagnosticSubfunction::RetQueryData,
        0x01 => DiagnosticSubfunction::RestartCommOpt,
        0x02 => DiagnosticSubfunction::RetDiagReg,
        0x03 => DiagnosticSubfunction::ChangeInputDelimiter,
        0x04 => DiagnosticSubfunction::ForceListenOnlyMode,
        0x0a => DiagnosticSubfunction::ClearCtrDiagReg,
        0x0b => DiagnosticSubfunction::RetBusMsgCount,
        0x0c => DiagnosticSubfunction::RetBusCommErrCount,
        0x0d => DiagnosticSubfunction::RetBusExcErrCount,
        0x0e => DiagnosticSubfunction::RetServerMsgCount,
        0x0f => DiagnosticSubfunction::RetServerNoRespCount,
        0x10 => DiagnosticSubfunction::RetServerNAKCount,
        0x11 => DiagnosticSubfunction::RetServerBusyCount,
        0x12 => DiagnosticSubfunction::RetBusCharOverrunCount,
        0x13 => DiagnosticSubfunction::RetOverrunErrCount,
        0x14 => DiagnosticSubfunction::ClearOverrunCounterFlag,
        0x15 => DiagnosticSubfunction::GetClearPlusStats,
        _ => DiagnosticSubfunction::Reserved,
    }
}

/// The subfunction field of a diagnostic message and the code it decodes to.
#[derive(Clone, Copy, Debug, PartialEq, Eq, Structural)]
pub struct Diagnostic {
    /// Value of the subfunction bytes
    pub raw: u16,
    /// Subfunction name associated with the raw value
    pub code: DiagnosticSubfunction,
}

impl Diagnostic {
    pub fn new(val: u16) -> (r: Diagnostic)
        ensures
            r.raw == val,
            r.code == subfunction_of(val),
    {
        let code = match val {
            0x00 => DiagnosticSubfunction::RetQueryData,
            0x01 => DiagnosticSubfunction::RestartCommOpt,
            0x02 => DiagnosticSubfunction::RetDiagReg,
            0x03 => DiagnosticSubfunction::ChangeInputDelimiter,
            0x04 => DiagnosticSubfunction::ForceListenOnlyMode,
            0x0a => DiagnosticSubfunction::ClearCtrDiagReg,
            0x0b => DiagnosticSubfunction::RetBusMsgCount,
            0x0c => DiagnosticSubfunction::RetBusCommErrCount,
            0x0d => DiagnosticSubfunction::RetBusExcErrCount,
            0x0e => DiagnosticSubfunction::RetServerMsgCount,
            0x0f => DiagnosticSubfunction::RetServerNoRespCount,
            0x10 => DiagnosticSubfunction::RetServerNAKCount,
            0x11 => DiagnosticSubfunction::RetServerBusyCount,
            0x12 => DiagnosticSubfunction::RetBusCharOverrunCount,
            0x13 => DiagnosticSubfunction::RetOverrunErrCount,
            0x14 => DiagnosticSubfunction::ClearOverrunCounterFlag,
            0x15 => DiagnosticSubfunction::GetClearPlusStats,
            _ => DiagnosticSubfunction::Reserved,
        };
        Diagnostic { raw: val, code }
    }
}

/// Types of the encapsulated interface transport.
#[derive(Clone, Copy, Debug, PartialEq, Eq, Structural, Hash)]
pub enum MEIType {
    Unknown,
    CANOpenGenRefReqResp,
    RdDevId,
}

pub open spec fn mei_type_of(v: u8) -> MEIType {
    match v {
        0x0d => MEIType::CANOpenGenRefReqResp,
        0x0e => MEIType::RdDevId,
        _ => MEIType::Unknown,
    }
}

/// The type byte of an encapsulated interface message and its code.
#[derive(Clone, Copy, Debug, PartialEq, Eq, Structural)]
pub struct MEI {
    /// Value of the mei function byte
    pub raw: u8,
    /// Function name associated with the raw value
    pub code: MEIType,
}

impl MEI {
    pub fn new(val: u8) -> (r: MEI)
        ensures
            r.raw == val,
            r.code == mei_type_of(val),
    {
        let code = match val {
            0x0d => MEIType::CANOpenGenRefReqResp,
            0x0e => MEIType::RdDevId,
            _ => MEIType::Unknown,
        };
        MEI { raw: val, code }
    }
}

/// Exception codes that a server may answer with.
#[derive(Clone, Copy, Debug, PartialEq, Eq, Structural, Hash)]
pub enum ExceptionCode {
    IllegalFunction,
    IllegalDataAddr,
    IllegalDataValue,
    ServerDeviceFail,
    Ack,
    ServerDeviceBusy,
    NegAck,
    MemParityErr,
    GatewayPathUnavailable,
    GatewayTargetFailToResp,
    Unknown,
}

pub open spec fn exception_code_of(v: u8) -> ExceptionCode {
    match v {
        0x01 => ExceptionCode::IllegalFunction,
        0x02 => ExceptionCode::IllegalDataAddr,
        0x03 => ExceptionCode::IllegalDataValue,
        0x04 => ExceptionCode::ServerDeviceFail,
        0x05 => ExceptionCode::Ack,
        0x06 => ExceptionCode::ServerDeviceBusy,
        0x07 => ExceptionCode::NegAck,
        0x08 => ExceptionCode::MemParityErr,
        0x0a => ExceptionCode::GatewayPathUnavailable,
        0x0b => ExceptionCode::GatewayTargetFailToResp,
        _ => ExceptionCode::Unknown,
    }
}

/// The exception code byte of an exception response and its code.
#[derive(Clone, Copy, Debug, PartialEq, Eq, Structural)]
pub struct Exception {
    /// Value of the exception code byte
    pub raw: u8,
    /// Exception name associated with the raw value
    pub code: ExceptionCode,
}

impl Exception {
    pub fn new(val: u8) -> (r: Exception)
        ensures
            r.raw == val,
            r.code == exception_code_of(val),
    {
        let code = match val {
            0x01 => ExceptionCode::IllegalFunction,
            0x02 => ExceptionCode::IllegalDataAddr,
            0x03 => ExceptionCode::IllegalDataValue,
            0x04 => ExceptionCode::ServerDeviceFail,
            0x05 => ExceptionCode::Ack,
            0x06 => ExceptionCode::ServerDeviceBusy,
            0x07 => ExceptionCode::NegAck,
            0x08 => ExceptionCode::MemParityErr,
            0x0a => ExceptionCode::GatewayPathUnavailable,
            0x0b => ExceptionCode::GatewayTargetFailToResp,
            _ => ExceptionCode::Unknown,
        };
        Exception { raw: val, code }
    }
}

impl FunctionCode {
    /// The name of the variant.
    pub open spec fn spec_name(self) -> Seq<char> {
        match self {
            FunctionCode::RdCoils => "RdCoils"@,
            FunctionCode::RdDiscreteInputs => "RdDiscreteInputs"@,
            FunctionCode::RdHoldRegs => "RdHoldRegs"@,
            FunctionCode::RdInputRegs => "RdInputRegs"@,
            FunctionCode::WrSingleCoil => "WrSingleCoil"@,
            FunctionCode::WrSingleReg => "WrSingleReg"@,
            FunctionCode::RdExcStatus => "RdExcStatus"@,
            FunctionCode::Diagnostic => "Diagnostic"@,
            FunctionCode::Program484 => "Program484"@,
            FunctionCode::Poll484 => "Poll484"@,
            FunctionCode::GetCommEventCtr => "GetCommEventCtr"@,
            FunctionCode::GetCommEventLog => "GetCommEventLog"@,
            FunctionCode::ProgramController => "ProgramController"@,
            FunctionCode::PollController => "PollController"@,
            FunctionCode::WrMultCoils => "WrMultCoils"@,
            FunctionCode::WrMultRegs => "WrMultRegs"@,
            FunctionCode::ReportServerID => "ReportServerID"@,
            FunctionCode::Program884 => "Program884"@,
            FunctionCode::ResetCommLink => "ResetCommLink"@,
            FunctionCode::RdFileRec => "RdFileRec"@,
            FunctionCode::WrFileRec => "WrFileRec"@,
            FunctionCode::MaskWrReg => "MaskWrReg"@,
            FunctionCode::RdWrMultRegs => "RdWrMultRegs"@,
            FunctionCode::RdFIFOQueue => "RdFIFOQueue"@,
            FunctionCode::MEI => "MEI"@,
            FunctionCode::Unknown => "Unknown"@,
        }
    }

    /// The name of the variant.
    pub fn to_string(&self) -> (r: String)
        ensures
            r@ == self.spec_name(),
    {
        let name = match self {
            FunctionCode::RdCoils => "RdCoils",
            FunctionCode::RdDiscreteInputs => "RdDiscreteInputs",
            FunctionCode::RdHoldRegs => "RdHoldRegs",
            FunctionCode::RdInputRegs => "RdInputRegs",
            FunctionCode::WrSingleCoil => "WrSingleCoil",
            FunctionCode::WrSingleReg => "WrSingleReg",
            FunctionCode::RdExcStatus => "RdExcStatus",
            FunctionCode::Diagnostic => "Diagnostic",
            FunctionCode::Program484 => "Program484",
            FunctionCode::Poll484 => "Poll484",
            FunctionCode::GetCommEventCtr => "GetCommEventCtr",
            FunctionCode::GetCommEventLog => "GetCommEventLog",
            FunctionCode::ProgramController => "ProgramController",
            FunctionCode::PollController => "PollController",
            FunctionCode::WrMultCoils => "WrMultCoils",
            FunctionCode::WrMultRegs => "WrMultRegs",
            FunctionCode::ReportServerID => "ReportServerID",
            FunctionCode::Program884 => "Program884",
            FunctionCode::ResetCommLink => "ResetCommLink",
            FunctionCode::RdFileRec => "RdFileRec",
            FunctionCode::WrFileRec => "WrFileRec",
            FunctionCode::MaskWrReg => "MaskWrReg",
            FunctionCode::RdWrMultRegs => "RdWrMultRegs",
            FunctionCode::RdFIFOQueue => "RdFIFOQueue",
            FunctionCode::MEI => "MEI",
            FunctionCode::Unknown => "Unknown",
        };
        String::from_str(name)
    }
}

impl DiagnosticSubfunction {
    /// The name of the variant.
    pub open spec fn spec_name(self) -> Seq<char> {
        match self {
            DiagnosticSubfunction::RetQueryData => "RetQueryData"@,
            DiagnosticSubfunction::RestartCommOpt => "RestartCommOpt"@,
            DiagnosticSubfunction::RetDiagReg => "RetDiagReg"@,
            DiagnosticSubfunction::ChangeInputDelimiter => "ChangeInputDelimiter"@,
            DiagnosticSubfunction::ForceListenOnlyMode => "ForceListenOnlyMode"@,
            DiagnosticSubfunction::ClearCtrDiagReg => "ClearCtrDiagReg"@,
            DiagnosticSubfunction::RetBusMsgCount => "RetBusMsgCount"@,
            DiagnosticSubfunction::RetBusCommErrCount => "RetBusCommErrCount"@,
            DiagnosticSubfunction::RetBusExcErrCount => "RetBusExcErrCount"@,
            DiagnosticSubfunction::RetServerMsgCount => "RetServerMsgCount"@,
            DiagnosticSubfunction::RetServerNoRespCount => "RetServerNoRespCount"@,
            DiagnosticSubfunction::RetServerNAKCount => "RetServerNAKCount"@,
            DiagnosticSubfunction::RetServerBusyCount => "RetServerBusyCount"@,
            DiagnosticSubfunction::RetBusCharOverrunCount => "RetBusCharOverrunCount"@,
            DiagnosticSubfunction::RetOverrunErrCount => "RetOverrunErrCount"@,
            DiagnosticSubfunction::ClearOverrunCounterFlag => "ClearOverrunCounterFlag"@,
            DiagnosticSubfunction::GetClearPlusStats => "GetClearPlusStats"@,
            DiagnosticSubfunction::Reserved => "Reserved"@,
        }
    }

    /// The name of the variant.
    pub fn to_string(&self) -> (r: String)
        ensures
            r@ == self.spec_name(),
    {
        let name = match self {
            DiagnosticSubfunction::RetQueryData => "RetQueryData",
            DiagnosticSubfunction::RestartCommOpt => "RestartCommOpt",
            DiagnosticSubfunction::RetDiagReg => "RetDiagReg",
            DiagnosticSubfunction::ChangeInputDelimiter => "ChangeInputDelimiter",
            DiagnosticSubfunction::ForceListenOnlyMode => "ForceListenOnlyMode",
            DiagnosticSubfunction::ClearCtrDiagReg => "ClearCtrDiagReg",
            DiagnosticSubfunction::RetBusMsgCount => "RetBusMsgCount",
            DiagnosticSubfunction::RetBusCommErrCount => "RetBusCommErrCount",
            DiagnosticSubfunction::RetBusExcErrCount => "RetBusExcErrCount",
            DiagnosticSubfunction::RetServerMsgCount => "RetServerMsgCount",
            DiagnosticSubfunction::RetServerNoRespCount => "RetServerNoRespCount",
            DiagnosticSubfunction::RetServerNAKCount => "RetServerNAKCount",
            DiagnosticSubfunction::RetServerBusyCount => "RetServerBusyCount",
            DiagnosticSubfunction::RetBusCharOverrunCount => "RetBusCharOverrunCount",
            DiagnosticSubfunction::RetOverrunErrCount => "RetOverrunErrCount",
            DiagnosticSubfunction::ClearOverrunCounterFlag => "ClearOverrunCounterFlag",
            DiagnosticSubfunction::GetClearPlusStats => "GetClearPlusStats",
            DiagnosticSubfunction::Reserved => "Reserved",
        };
        String::from_str(name)
    }
}

impl MEIType {
    /// The name of the variant.
    pub open spec fn spec_name(self) -> Seq<char> {
        match self {
            MEIType::Unknown => "Unknown"@,
            MEIType::CANOpenGenRefReqResp => "CANOpenGenRefReqResp"@,
            MEIType::RdDevId => "RdDevId"@,
        }
    }

    /// The name of the variant.
    pub fn to_string(&self) -> (r: String)
        ensures
            r@ == self.spec_name(),
    {
        let name = match self {
            MEIType::Unknown => "Unknown",
            MEIType::CANOpenGenRefReqResp => "CANOpenGenRefReqResp",
            MEIType::RdDevId => "RdDevId",
        };
        String::from_str(name)
    }
}

impl ExceptionCode {
    /// The name of the variant.
    pub open spec fn spec_name(self) -> Seq<char> {
        match self {
            ExceptionCode::IllegalFunction => "IllegalFunction"@,
            ExceptionCode::IllegalDataAddr => "IllegalDataAddr"@,
            ExceptionCode::IllegalDataValue => "IllegalDataValue"@,
            ExceptionCode::ServerDeviceFail => "ServerDeviceFail"@,
            ExceptionCode::Ack => "Ack"@,
            ExceptionCode::ServerDeviceBusy => "ServerDeviceBusy"@,
            ExceptionCode::NegAck => "NegAck"@,
            ExceptionCode::MemParityErr => "MemParityErr"@,
            ExceptionCode::GatewayPathUnavailable => "GatewayPathUnavailable"@,
            ExceptionCode::GatewayTargetFailToResp => "GatewayTargetFailToResp"@,
            ExceptionCode::Unknown => "Unknown"@,
        }
    }

    /// The name of the variant.
    pub fn to_string(&self) -> (r: String)
        ensures
            r@ == self.spec_name(),
    {
        let name = match self {
            ExceptionCode::IllegalFunction => "IllegalFunction",
            ExceptionCode::IllegalDataAddr => "IllegalDataAddr",
            ExceptionCode::IllegalDataValue => "IllegalDataValue",
            ExceptionCode::ServerDeviceFail => "ServerDeviceFail",
            ExceptionCode::Ack => "Ack",
            ExceptionCode::ServerDeviceBusy => "ServerDeviceBusy",
            ExceptionCode::NegAck => "NegAck",
            ExceptionCode::MemParityErr => "MemParityErr",
            ExceptionCode::GatewayPathUnavailable => "GatewayPathUnavailable",
            ExceptionCode::GatewayTargetFailToResp => "GatewayTargetFailToResp",
            ExceptionCode::Unknown => "Unknown",
        };
        String::from_str(name)
    }
}

} // verus!
