use sawp_modbus::{
    AccessType, CodeCategory, Data, Diagnostic, DiagnosticSubfunction, Direction, ErrorFlags,
    Exception, ExceptionCode, Function, FunctionCode, MEIType, Message, Modbus, ParseError, Read,
    Write, MEI,
};

fn parse(input: &[u8], direction: Direction) -> Result<(usize, Option<Message>), ParseError> {
    let modbus = Modbus {};
    modbus.parse(input, direction).map(|(rest, msg)| (rest.len(), msg))
}

#[test]
fn unknown_empty() {
    let input: &[u8] = b"";
    let expected: Result<(usize, Option<Message>), ParseError> = Err(ParseError::Incomplete(2));
    assert_eq!(parse(input, Direction::Unknown), expected);
}

#[test]
fn unknown_hello_world() {
    let input: &[u8] = b"hello world";
    let expected: Result<(usize, Option<Message>), ParseError> = Err(ParseError::InvalidData);
    assert_eq!(parse(input, Direction::Unknown), expected);
}

#[test]
fn unknown_diagnostic() {
    let input: &[u8] = &[ 0x00, 0x01, 0x00, 0x00, 0x00, 0x06, 0x03, 0x08, 0x00, 0x04, 0x00, 0x00 ];
    let expected: Result<(usize, Option<Message>), ParseError> = Ok((0, Some(Message{
        transaction_id: 1,
        protocol_id: 0,
        length: 6,
        unit_id: 3,
        function: Function { raw: 8, code: FunctionCode::Diagnostic },
        access_type: AccessType::none(),
        category: CodeCategory::public_assigned(),
        data: Data::Diagnostic { func: Diagnostic { raw: 4, code: DiagnosticSubfunction::ForceListenOnlyMode }, data: vec![0x00, 0x00] },
        flags: ErrorFlags::none(),
    })));
    assert_eq!(parse(input, Direction::Unknown), expected);
}

#[test]
fn unknown_diagnostic_missing_subfunc() {
    let input: &[u8] = &[ 0x00, 0x01, 0x00, 0x00, 0x00, 0x02, 0x03, 0x08 ];
    let expected: Result<(usize, Option<Message>), ParseError> = Err(ParseError::InvalidData);
    assert_eq!(parse(input, Direction::Unknown), expected);
}

#[test]
fn unknown_diagnostic_reserved_1() {
    let input: &[u8] = &[ 0x00, 0x01, 0x00, 0x00, 0x00, 0x04, 0x03, 0x08, 0x00, 0x16 ];
    let expected: Result<(usize, Option<Message>), ParseError> = Ok((0, Some(Message{
        transaction_id: 1,
        protocol_id: 0,
        length: 4,
        unit_id: 3,
        function: Function { raw: 8, code: FunctionCode::Diagnostic },
        access_type: AccessType::none(),
        category: CodeCategory::reserved(),
        data: Data::Diagnostic { func: Diagnostic { raw: 22, code: DiagnosticSubfunction::Reserved }, data: vec![] },
        flags: ErrorFlags::none(),
    })));
    assert_eq!(parse(input, Direction::Unknown), expected);
}

#[test]
fn unknown_diagnostic_reserved_2() {
    let input: &[u8] = &[ 0x00, 0x01, 0x00, 0x00, 0x00, 0x04, 0x03, 0x08, 0x00, 0x05 ];
    let expected: Result<(usize, Option<Message>), ParseError> = Ok((0, Some(Message{
        transaction_id: 1,
        protocol_id: 0,
        length: 4,
        unit_id: 3,
        function: Function { raw: 8, code: FunctionCode::Diagnostic },
        access_type: AccessType::none(),
        category: CodeCategory::reserved(),
        data: Data::Diagnostic { func: Diagnostic { raw: 5, code: DiagnosticSubfunction::Reserved }, data: vec![] },
        flags: ErrorFlags::none(),
    })));
    assert_eq!(parse(input, Direction::Unknown), expected);
}

#[test]
fn unknown_diagnostic_reserved_3() {
    let input: &[u8] = &[ 0x00, 0x01, 0x00, 0x00, 0x00, 0x04, 0x03, 0x08, 0x00, 0x09 ];
    let expected: Result<(usize, Option<Message>), ParseError> = Ok((0, Some(Message{
        transaction_id: 1,
        protocol_id: 0,
        length: 4,
        unit_id: 3,
        function: Function { raw: 8, code: FunctionCode::Diagnostic },
        access_type: AccessType::none(),
        category: CodeCategory::reserved(),
        data: Data::Diagnostic { func: Diagnostic { raw: 9, code: DiagnosticSubfunction::Reserved }, data: vec![] },
        flags: ErrorFlags::none(),
    })));
    assert_eq!(parse(input, Direction::Unknown), expected);
}

#[test]
fn unknown_gateway_exception() {
    let input: &[u8] = &[ 0x00, 0x00, 0x00, 0x00, 0x00, 0x03, 0x08, 0x88, 0x0b ];
    let expected: Result<(usize, Option<Message>), ParseError> = Ok((0, Some(Message{
        transaction_id: 0,
        protocol_id: 0,
        length: 3,
        unit_id: 8,
        function: Function { raw: 136, code: FunctionCode::Diagnostic },
        access_type: AccessType::none(),
        category: CodeCategory::none(),
        data: Data::Exception(Exception { raw: 11, code: ExceptionCode::GatewayTargetFailToResp }),
        flags: ErrorFlags::none(),
    })));
    assert_eq!(parse(input, Direction::Unknown), expected);
}

#[test]
fn unknown_illegal_data_addr() {
    let input: &[u8] = &[ 0x00, 0x00, 0x00, 0x00, 0x00, 0x03, 0x01, 0x81, 0x02 ];
    let expected: Result<(usize, Option<Message>), ParseError> = Ok((0, Some(Message{
        transaction_id: 0,
        protocol_id: 0,
        length: 3,
        unit_id: 1,
        function: Function { raw: 129, code: FunctionCode::RdCoils },
        access_type: AccessType::read() | AccessType::coils(),
        category: CodeCategory::public_assigned(),
        data: Data::Exception(Exception { raw: 2, code: ExceptionCode::IllegalDataAddr }),
        flags: ErrorFlags::none(),
    })));
    assert_eq!(parse(input, Direction::Unknown), expected);
}

#[test]
fn unknown_exception_unknown() {
    let input: &[u8] = &[ 0x00, 0x00, 0x00, 0x00, 0x00, 0x03, 0x08, 0xe4, 0x0c ];
    let expected: Result<(usize, Option<Message>), ParseError> = Ok((0, Some(Message{
        transaction_id: 0,
        protocol_id: 0,
        length: 3,
        unit_id: 8,
        function: Function { raw: 228, code: FunctionCode::Unknown },
        access_type: AccessType::none(),
        category: CodeCategory::none(),
        data: Data::Exception(Exception { raw: 12, code: ExceptionCode::Unknown }),
        flags: ErrorFlags::none(),
    })));
    assert_eq!(parse(input, Direction::Unknown), expected);
}

#[test]
fn unknown_exception_missing_code() {
    // the frame (length 2) is complete and holds no exception code: a frame
    // too short for its function is invalid, no more input would belong to it
    let input: &[u8] = &[ 0x00, 0x00, 0x00, 0x00, 0x00, 0x02, 0x08, 0x88 ];
    let expected: Result<(usize, Option<Message>), ParseError> = Err(ParseError::InvalidData);
    assert_eq!(parse(input, Direction::Unknown), expected);
}

#[test]
fn unknown_exception_with_extra() {
    let input: &[u8] = &[ 0x00, 0x00, 0x00, 0x00, 0x00, 0x03, 0x08, 0x88, 0x0b, 0x00 ];
    let expected: Result<(usize, Option<Message>), ParseError> = Ok((1, Some(Message{
        transaction_id: 0,
        protocol_id: 0,
        length: 3,
        unit_id: 8,
        function: Function { raw: 136, code: FunctionCode::Diagnostic },
        access_type: AccessType::none(),
        category: CodeCategory::none(),
        data: Data::Exception(Exception { raw: 11, code: ExceptionCode::GatewayTargetFailToResp }),
        flags: ErrorFlags::none(),
    })));
    assert_eq!(parse(input, Direction::Unknown), expected);
}

#[test]
fn unknown_exception_invalid_length() {
    let input: &[u8] = &[ 0x00, 0x00, 0x00, 0x04, 0x00, 0x02, 0x08, 0x88, 0x0b ];
    let expected: Result<(usize, Option<Message>), ParseError> = Err(ParseError::InvalidData);
    assert_eq!(parse(input, Direction::Unknown), expected);
}

#[test]
fn unknown_server_id() {
    let input: &[u8] = &[ 0x00, 0x01, 0x00, 0x00, 0x00, 0x02, 0x01, 0x11 ];
    let expected: Result<(usize, Option<Message>), ParseError> = Ok((0, Some(Message{
        transaction_id: 1,
        protocol_id: 0,
        length: 2,
        unit_id: 1,
        function: Function { raw: 17, code: FunctionCode::ReportServerID },
        access_type: AccessType::none(),
        category: CodeCategory::public_assigned(),
        data: Data::ByteVec(vec![]),
        flags: ErrorFlags::none(),
    })));
    assert_eq!(parse(input, Direction::Unknown), expected);
}

#[test]
fn unknown_server_id_with_extra() {
    let input: &[u8] = &[ 0x00, 0x01, 0x00, 0x00, 0x00, 0x02, 0x01, 0x11, 0x05, 0x06, 0x07 ];
    let expected: Result<(usize, Option<Message>), ParseError> = Ok((3, Some(Message{
        transaction_id: 1,
        protocol_id: 0,
        length: 2,
        unit_id: 1,
        function: Function { raw: 17, code: FunctionCode::ReportServerID },
        access_type: AccessType::none(),
        category: CodeCategory::public_assigned(),
        data: Data::ByteVec(vec![]),
        flags: ErrorFlags::none(),
    })));
    assert_eq!(parse(input, Direction::Unknown), expected);
}

#[test]
fn unknown_invalid_length() {
    let input: &[u8] = &[ 0x00, 0x01, 0x00, 0x00, 0x00, 0x01, 0x01, 0x11 ];
    let expected: Result<(usize, Option<Message>), ParseError> = Err(ParseError::InvalidData);
    assert_eq!(parse(input, Direction::Unknown), expected);
}

#[test]
fn unknown_unknown_func() {
    let input: &[u8] = &[ 0x00, 0x01, 0x00, 0x00, 0x00, 0x02, 0x01, 0x64 ];
    let expected: Result<(usize, Option<Message>), ParseError> = Ok((0, Some(Message{
        transaction_id: 1,
        protocol_id: 0,
        length: 2,
        unit_id: 1,
        function: Function { raw: 100, code: FunctionCode::Unknown },
        access_type: AccessType::none(),
        category: CodeCategory::user_defined(),
        data: Data::ByteVec(vec![]),
        flags: ErrorFlags::none(),
    })));
    assert_eq!(parse(input, Direction::Unknown), expected);
}

#[test]
fn unknown_unknown_func_with_extra() {
    let input: &[u8] = &[ 0x00, 0x01, 0x00, 0x00, 0x00, 0x02, 0x01, 0x64, 0x00, 0x00 ];
    let expected: Result<(usize, Option<Message>), ParseError> = Ok((2, Some(Message{
        transaction_id: 1,
        protocol_id: 0,
        length: 2,
        unit_id: 1,
        function: Function { raw: 100, code: FunctionCode::Unknown },
        access_type: AccessType::none(),
        category: CodeCategory::user_defined(),
        data: Data::ByteVec(vec![]),
        flags: ErrorFlags::none(),
    })));
    assert_eq!(parse(input, Direction::Unknown), expected);
}

#[test]
fn unknown_mei_gen_ref() {
    let input: &[u8] = &[ 0x00, 0x00, 0x00, 0x00, 0x00, 0x03, 0x01, 0x2b, 0x0d ];
    let expected: Result<(usize, Option<Message>), ParseError> = Ok((0, Some(Message{
        transaction_id: 0,
        protocol_id: 0,
        length: 3,
        unit_id: 1,
        function: Function { raw: 43, code: FunctionCode::MEI },
        access_type: AccessType::none(),
        category: CodeCategory::public_assigned(),
        data: Data::MEI{ mei_type: MEI { raw: 13, code: MEIType::CANOpenGenRefReqResp }, data: vec![] },
        flags: ErrorFlags::none(),
    })));
    assert_eq!(parse(input, Direction::Unknown), expected);
}

#[test]
fn unknown_mei_gen_ref_with_extra() {
    let input: &[u8] = &[ 0x00, 0x00, 0x00, 0x00, 0x00, 0x03, 0x01, 0x2b, 0x0d, 0x00 ];
    let expected: Result<(usize, Option<Message>), ParseError> = Ok((1, Some(Message{
        transaction_id: 0,
        protocol_id: 0,
        length: 3,
        unit_id: 1,
        function: Function { raw: 43, code: FunctionCode::MEI },
        access_type: AccessType::none(),
        category: CodeCategory::public_assigned(),
        data: Data::MEI{ mei_type: MEI { raw: 13, code: MEIType::CANOpenGenRefReqResp }, data: vec![] },
        flags: ErrorFlags::none(),
    })));
    assert_eq!(parse(input, Direction::Unknown), expected);
}

#[test]
fn unknown_mei_gen_ref_with_data() {
    let input: &[u8] = &[ 0x00, 0x00, 0x00, 0x00, 0x00, 0x04, 0x01, 0x2b, 0x0d, 0x00 ];
    let expected: Result<(usize, Option<Message>), ParseError> = Ok((0, Some(Message{
        transaction_id: 0,
        protocol_id: 0,
        length: 4,
        unit_id: 1,
        function: Function { raw: 43, code: FunctionCode::MEI },
        access_type: AccessType::none(),
        category: CodeCategory::public_assigned(),
        data: Data::MEI{ mei_type: MEI { raw: 13, code: MEIType::CANOpenGenRefReqResp }, data: vec![0x00] },
        flags: ErrorFlags::none(),
    })));
    assert_eq!(parse(input, Direction::Unknown), expected);
}

#[test]
fn unknown_mei_invalid_length() {
    let input: &[u8] = &[ 0x00, 0x00, 0x00, 0x00, 0x00, 0x02, 0x01, 0x2b, 0x0d, 0x00 ];
    let expected: Result<(usize, Option<Message>), ParseError> = Err(ParseError::InvalidData);
    assert_eq!(parse(input, Direction::Unknown), expected);
}

#[test]
fn unknown_mei_missing_bytes() {
    let input: &[u8] = &[ 0x00, 0x00, 0x00, 0x00, 0x00, 0x05, 0x01, 0x2b, 0x0d, 0x00 ];
    let expected: Result<(usize, Option<Message>), ParseError> = Err(ParseError::Incomplete(1));
    assert_eq!(parse(input, Direction::Unknown), expected);
}

#[test]
fn unknown_mei_dev_id() {
    let input: &[u8] = &[ 0x00, 0x00, 0x00, 0x00, 0x00, 0x04, 0x01, 0x2b, 0x0e, 0x00 ];
    let expected: Result<(usize, Option<Message>), ParseError> = Ok((0, Some(Message{
        transaction_id: 0,
        protocol_id: 0,
        length: 4,
        unit_id: 1,
        function: Function { raw: 43, code: FunctionCode::MEI },
        access_type: AccessType::none(),
        category: CodeCategory::public_assigned(),
        data: Data::MEI{ mei_type: MEI { raw: 14, code: MEIType::RdDevId }, data: vec![0x00] },
        flags: ErrorFlags::none(),
    })));
    assert_eq!(parse(input, Direction::Unknown), expected);
}

#[test]
fn unknown_mei_unknown() {
    let input: &[u8] = &[ 0x00, 0x00, 0x00, 0x00, 0x00, 0x03, 0x01, 0x2b, 0x0f ];
    let expected: Result<(usize, Option<Message>), ParseError> = Ok((0, Some(Message{
        transaction_id: 0,
        protocol_id: 0,
        length: 3,
        unit_id: 1,
        function: Function { raw: 43, code: FunctionCode::MEI },
        access_type: AccessType::none(),
        category: CodeCategory::reserved(),
        data: Data::MEI{ mei_type: MEI { raw: 15, code: MEIType::Unknown }, data: vec![] },
        flags: ErrorFlags::none(),
    })));
    assert_eq!(parse(input, Direction::Unknown), expected);
}

#[test]
fn unknown_zero_length() {
    let input: &[u8] = &[ 0x00, 0x00, 0x00, 0x00, 0x00, 0x00, 0x00, 0x00, 0x00, 0x00 ];
    let expected: Result<(usize, Option<Message>), ParseError> = Err(ParseError::InvalidData);
    assert_eq!(parse(input, Direction::Unknown), expected);
}

#[test]
fn unknown_missing_bytes() {
    let input: &[u8] = &[ 0x00, 0x00, ];
    let expected: Result<(usize, Option<Message>), ParseError> = Err(ParseError::Incomplete(2));
    assert_eq!(parse(input, Direction::Unknown), expected);
}

#[test]
fn request_read_coils() {
    let input: &[u8] = &[ 0x00, 0x01, 0x00, 0x00, 0x00, 0x06, 0x01, 0x01, 0x00, 0x00, 0x00, 0x01 ];
    let expected: Result<(usize, Option<Message>), ParseError> = Ok((0, Some(Message{
        transaction_id: 1,
        protocol_id: 0,
        length: 6,
        unit_id: 1,
        function: Function { raw: 1, code: FunctionCode::RdCoils },
        access_type: AccessType::read() | AccessType::coils(),
        category: CodeCategory::public_assigned(),
        data: Data::Read (
            Read::Request {
                address: 0x0000,
                quantity: 0x0001
            }
        ),
        flags: ErrorFlags::none(),
    })));
    assert_eq!(parse(input, Direction::ToServer), expected);
}

#[test]
fn request_read_discrete_inputs() {
    let input: &[u8] = &[ 0x00, 0x01, 0x00, 0x00, 0x00, 0x06, 0x01, 0x02, 0x00, 0x01, 0x00, 0x00 ];
    let expected: Result<(usize, Option<Message>), ParseError> = Ok((0, Some(Message {
        transaction_id: 1,
        protocol_id: 0,
        length: 6,
        unit_id: 1,
        function: Function { raw: 2, code: FunctionCode::RdDiscreteInputs },
        access_type: AccessType::read() | AccessType::discretes(),
        category: CodeCategory::public_assigned(),
        data: Data::Read(Read::Request {
            address: 1,
            quantity: 0
        }),
        flags: ErrorFlags::data_value()
    })));
    assert_eq!(parse(input, Direction::ToServer), expected);
}

#[test]
fn request_read_input_regs() {
    let input: &[u8] = &[ 0x00, 0x01, 0x00, 0x00, 0x00, 0x06, 0x01, 0x04, 0x00, 0x01, 0xFF, 0xFF ];
    let expected: Result<(usize, Option<Message>), ParseError> = Ok((0, Some(Message {
        transaction_id: 1,
        protocol_id: 0,
        length: 6,
        unit_id: 1,
        function: Function { raw: 4, code: FunctionCode::RdInputRegs },
        access_type: AccessType::read() | AccessType::input(),
        category: CodeCategory::public_assigned(),
        data: Data::Read(Read::Request {
            address: 1,
            quantity: 65535
        }),
        flags: ErrorFlags::data_value()
    })));
    assert_eq!(parse(input, Direction::ToServer), expected);
}

#[test]
fn request_read_exception_status() {
    let input: &[u8] = &[ 0x00, 0x01, 0x00, 0x00, 0x00, 0x02, 0x01, 0x07, ];
    let expected: Result<(usize, Option<Message>), ParseError> = Ok((0, Some(Message{
        transaction_id: 1,
        protocol_id: 0,
        length: 2,
        unit_id: 1,
        function: Function { raw: 7, code: FunctionCode::RdExcStatus },
        access_type: AccessType::none(),
        category: CodeCategory::public_assigned(),
        data: Data::ByteVec(vec![]),
        flags: ErrorFlags::none(),
    })));
    assert_eq!(parse(input, Direction::ToServer), expected);
}

#[test]
fn request_read_holding_regs() {
    let input: &[u8] = &[ 0x00, 0x01, 0x00, 0x00, 0x00, 0x06, 0x01, 0x03, 0x00, 0x05, 0x00, 0x02 ];
    let expected: Result<(usize, Option<Message>), ParseError> = Ok((0, Some(Message{
        transaction_id: 1,
        protocol_id: 0,
        length: 6,
        unit_id: 1,
        function: Function { raw: 3, code: FunctionCode::RdHoldRegs },
        access_type: AccessType::read() | AccessType::holding(),
        category: CodeCategory::public_assigned(),
        data: Data::Read (
            Read::Request {
                address: 0x0005,
                quantity: 0x0002
            }
        ),
        flags: ErrorFlags::none(),
    })));
    assert_eq!(parse(input, Direction::ToServer), expected);
}

#[test]
fn request_write_single_coil() {
    let input: &[u8] = &[ 0x00, 0x01, 0x00, 0x00, 0x00, 0x06, 0x01, 0x05, 0x00, 0x02, 0x00, 0x00 ];
    let expected: Result<(usize, Option<Message>), ParseError> = Ok((0, Some(Message{
        transaction_id: 1,
        protocol_id: 0,
        length: 6,
        unit_id: 1,
        function: Function { raw: 5, code: FunctionCode::WrSingleCoil },
        access_type: AccessType::write_single() | AccessType::coils(),
        category: CodeCategory::public_assigned(),
        data: Data::Write (
            Write::Other {
                address: 0x0002,
                data: 0x0000
            }
        ),
        flags: ErrorFlags::none(),
    })));
    assert_eq!(parse(input, Direction::ToServer), expected);
}

#[test]
fn request_write_mult_regs() {
    let input: &[u8] = &[ 0x00, 0x01, 0x00, 0x00, 0x00, 0x0b, 0x01, 0x10, 0x00, 0x03, 0x00, 0x02, 0x04, 0x0a, 0x0b, 0x00, 0x00 ];
    let expected: Result<(usize, Option<Message>), ParseError> = Ok((0, Some(Message{
        transaction_id: 1,
        protocol_id: 0,
        length: 11,
        unit_id: 1,
        function: Function { raw: 16, code: FunctionCode::WrMultRegs },
        access_type: AccessType::holding() | AccessType::write_multiple(),
        category: CodeCategory::public_assigned(),
        data: Data::Write (
            Write::MultReq {
                address: 0x0003,
                quantity: 0x0002,
                data: vec![0x0a, 0x0b, 0x00, 0x00]
            }
        ),
        flags: ErrorFlags::none(),
    })));
    assert_eq!(parse(input, Direction::ToServer), expected);
}

#[test]
fn request_read_write_mult_regs() {
    let input: &[u8] = &[ 0x00, 0x01, 0x00, 0x00, 0x00, 0x0d, 0x01, 0x17, 0x00, 0x01, 0x00, 0x02, 0x00, 0x03, 0x00, 0x01, 0x02, 0x05, 0x06, ];
    let expected: Result<(usize, Option<Message>), ParseError> = Ok((0, Some(Message{
        transaction_id: 1,
        protocol_id: 0,
        length: 13,
        unit_id: 1,
        function: Function { raw: 23, code: FunctionCode::RdWrMultRegs },
        access_type: AccessType::read() | AccessType::write_multiple() | AccessType::holding(),
        category: CodeCategory::public_assigned(),
        data: Data::ReadWrite {
            read: Read::Request {
                address: 0x0001,
                quantity: 0x0002
            },
            write: Write::MultReq {
                address: 0x0003,
                quantity: 0x0001,
                data: vec![0x05, 0x06]
            }
        },
        flags: ErrorFlags::none(),
    })));
    assert_eq!(parse(input, Direction::ToServer), expected);
}

#[test]
fn request_mask_write_reg() {
    let input: &[u8] = &[ 0x00, 0x01, 0x00, 0x00, 0x00, 0x08, 0x01, 0x16, 0x00, 0x01, 0x00, 0x02, 0x00, 0x03, ];
    let expected: Result<(usize, Option<Message>), ParseError> = Ok((0, Some(Message{
        transaction_id: 1,
        protocol_id: 0,
        length: 8,
        unit_id: 1,
        function: Function { raw: 22, code: FunctionCode::MaskWrReg },
        access_type: AccessType::write() | AccessType::holding(),
        category: CodeCategory::public_assigned(),
        data: Data::Write (
            Write::Mask {
                address: 0x0001,
                and_mask: 0x0002,
                or_mask: 0x0003
            }
        ),
        flags: ErrorFlags::none(),
    })));
    assert_eq!(parse(input, Direction::ToServer), expected);
}

#[test]
fn request_mei_gen_ref() {
    let input: &[u8] = &[ 0x00, 0x00, 0x00, 0x00, 0x00, 0x03, 0x01, 0x2b, 0x0d ];
    let expected: Result<(usize, Option<Message>), ParseError> = Ok((0, Some(Message{
        transaction_id: 0,
        protocol_id: 0,
        length: 3,
        unit_id: 1,
        function: Function { raw: 43, code: FunctionCode::MEI },
        access_type: AccessType::none(),
        category: CodeCategory::public_assigned(),
        data: Data::MEI{ mei_type: MEI { raw: 13, code: MEIType::CANOpenGenRefReqResp }, data: vec![] },
        flags: ErrorFlags::none(),
    })));
    assert_eq!(parse(input, Direction::ToServer), expected);
}

#[test]
fn request_diagnostic() {
    let input: &[u8] = &[ 0x00, 0x01, 0x00, 0x00, 0x00, 0x06, 0x03, 0x08, 0x00, 0x04, 0x00, 0x00 ];
    let expected: Result<(usize, Option<Message>), ParseError> = Ok((0, Some(Message{
        transaction_id: 1,
        protocol_id: 0,
        length: 6,
        unit_id: 3,
        function: Function { raw: 8, code: FunctionCode::Diagnostic },
        access_type: AccessType::none(),
        category: CodeCategory::public_assigned(),
        data: Data::Diagnostic { func: Diagnostic { raw: 4, code: DiagnosticSubfunction::ForceListenOnlyMode }, data: vec![0x00, 0x00] },
        flags: ErrorFlags::none(),
    })));
    assert_eq!(parse(input, Direction::ToServer), expected);
}

#[test]
fn request_diagnostic_invalid_value() {
    let input: &[u8] = &[ 0x00, 0x01, 0x00, 0x00, 0x00, 0x06, 0x03, 0x08, 0x00, 0x01, 0x01, 0x00 ];
    let expected: Result<(usize, Option<Message>), ParseError> = Ok((0, Some(Message{
        transaction_id: 1,
        protocol_id: 0,
        length: 6,
        unit_id: 3,
        function: Function { raw: 8, code: FunctionCode::Diagnostic },
        access_type: AccessType::none(),
        category: CodeCategory::public_assigned(),
        data: Data::Diagnostic { func: Diagnostic { raw: 1, code: DiagnosticSubfunction::RestartCommOpt }, data: vec![0x01, 0x00] },
        flags: ErrorFlags::data_value(),
    })));
    assert_eq!(parse(input, Direction::ToServer), expected);
}

#[test]
fn request_diagnostic_missing_subfunc() {
    let input: &[u8] = &[ 0x00, 0x01, 0x00, 0x00, 0x00, 0x02, 0x03, 0x08 ];
    let expected: Result<(usize, Option<Message>), ParseError> = Err(ParseError::InvalidData);
    assert_eq!(parse(input, Direction::ToServer), expected);
}

#[test]
fn request_diagnostic_reserved() {
    let input: &[u8] = &[ 0x00, 0x01, 0x00, 0x00, 0x00, 0x06, 0x03, 0x08, 0x00, 0x16, 0x00, 0x00 ];
    let expected: Result<(usize, Option<Message>), ParseError> = Ok((0, Some(Message{
        transaction_id: 1,
        protocol_id: 0,
        length: 6,
        unit_id: 3,
        function: Function { raw: 8, code: FunctionCode::Diagnostic },
        access_type: AccessType::none(),
        category: CodeCategory::reserved(),
        data: Data::Diagnostic { func: Diagnostic { raw: 22, code: DiagnosticSubfunction::Reserved }, data: vec![0x00, 0x00] },
        flags: ErrorFlags::none(),
    })));
    assert_eq!(parse(input, Direction::ToServer), expected);
}

#[test]
fn response_read_coils() {
    let input: &[u8] = &[ 0x00, 0x01, 0x00, 0x00, 0x00, 0x04, 0x01, 0x01, 0x01, 0x00 ];
    let expected: Result<(usize, Option<Message>), ParseError> = Ok((0, Some(Message{
        transaction_id: 1,
        protocol_id: 0,
        length: 4,
        unit_id: 1,
        function: Function { raw: 1, code: FunctionCode::RdCoils },
        access_type: AccessType::read() | AccessType::coils(),
        category: CodeCategory::public_assigned(),
        data: Data::Read(Read::Response(vec![0x00])),
        flags: ErrorFlags::none(),
    })));
    assert_eq!(parse(input, Direction::ToClient), expected);
}

#[test]
fn response_read_holding_regs() {
    let input: &[u8] = &[ 0x00, 0x01, 0x00, 0x00, 0x00, 0x07, 0x01, 0x03, 0x04, 0x00, 0x09, 0x00, 0x18 ];
    let expected: Result<(usize, Option<Message>), ParseError> = Ok((0, Some(Message{
        transaction_id: 1,
        protocol_id: 0,
        length: 7,
        unit_id: 1,
        function: Function { raw: 3, code: FunctionCode::RdHoldRegs },
        access_type: AccessType::read() | AccessType::holding(),
        category: CodeCategory::public_assigned(),
        data: Data::Read(Read::Response(vec![0x00, 0x09, 0x00, 0x18])),
        flags: ErrorFlags::none(),
    })));
    assert_eq!(parse(input, Direction::ToClient), expected);
}

#[test]
fn response_read_write_mult_regs() {
    let input: &[u8] = &[ 0x00, 0x01, 0x00, 0x00, 0x00, 0x05, 0x01, 0x17, 0x02, 0x0e, 0x0f ];
    let expected: Result<(usize, Option<Message>), ParseError> = Ok((0, Some(Message{
        transaction_id: 1,
        protocol_id: 0,
        length: 5,
        unit_id: 1,
        function: Function { raw: 23, code: FunctionCode::RdWrMultRegs },
        access_type: AccessType::read() | AccessType::write_multiple() | AccessType::holding(),
        category: CodeCategory::public_assigned(),
        data: Data::Read(Read::Response(vec![0x0e, 0x0f])),
        flags: ErrorFlags::none(),
    })));
    assert_eq!(parse(input, Direction::ToClient), expected);
}

#[test]
fn response_invalid_read_exception_status() {
    let input: &[u8] = &[ 0x00, 0x01, 0x00, 0x00, 0x00, 0x04, 0x01, 0x07, 0x00, 0x00 ];
    let expected: Result<(usize, Option<Message>), ParseError> = Ok((0, Some(Message{
        transaction_id: 1,
        protocol_id: 0,
        length: 4,
        unit_id: 1,
        function: Function { raw: 7, code: FunctionCode::RdExcStatus },
        access_type: AccessType::none(),
        category: CodeCategory::public_assigned(),
        data: Data::ByteVec(vec![0x00, 0x00]),
        flags: ErrorFlags::data_length(),
    })));
    assert_eq!(parse(input, Direction::ToClient), expected);
}

#[test]
fn response_write_single_coil() {
    let input: &[u8] = &[ 0x00, 0x01, 0x00, 0x00, 0x00, 0x06, 0x01, 0x05, 0x00, 0x02, 0x00, 0x00 ];
    let expected: Result<(usize, Option<Message>), ParseError> = Ok((0, Some(Message{
        transaction_id: 1,
        protocol_id: 0,
        length: 6,
        unit_id: 1,
        function: Function { raw: 5, code: FunctionCode::WrSingleCoil },
        access_type: AccessType::write_single() | AccessType::coils(),
        category: CodeCategory::public_assigned(),
        data: Data::Write(
            Write::Other {
                address: 0x0002,
                data: 0x0000
            }
        ),
        flags: ErrorFlags::none(),
    })));
    assert_eq!(parse(input, Direction::ToClient), expected);
}

#[test]
fn response_write_mult_regs() {
    let input: &[u8] = &[ 0x00, 0x01, 0x00, 0x00, 0x00, 0x06, 0x01, 0x10, 0x00, 0x03, 0x00, 0x04 ];
    let expected: Result<(usize, Option<Message>), ParseError> = Ok((0, Some(Message{
        transaction_id: 1,
        protocol_id: 0,
        length: 6,
        unit_id: 1,
        function: Function { raw: 16, code: FunctionCode::WrMultRegs },
        access_type: AccessType::write_multiple() | AccessType::holding(),
        category: CodeCategory::public_assigned(),
        data: Data::Write(
            Write::Other {
                address: 0x0003,
                data: 0x0004
            }
        ),
        flags: ErrorFlags::none(),
    })));
    assert_eq!(parse(input, Direction::ToClient), expected);
}

#[test]
fn response_mask_write_reg() {
    let input: &[u8] = &[ 0x00, 0x01, 0x00, 0x00, 0x00, 0x08, 0x01, 0x16, 0x00, 0x01, 0x00, 0x02, 0x00, 0x03, ];
    let expected: Result<(usize, Option<Message>), ParseError> = Ok((0, Some(Message{
        transaction_id: 1,
        protocol_id: 0,
        length: 8,
        unit_id: 1,
        function: Function { raw: 22, code: FunctionCode::MaskWrReg },
        access_type: AccessType::write() | AccessType::holding(),
        category: CodeCategory::public_assigned(),
        data: Data::Write (
            Write::Mask {
                address: 0x0001,
                and_mask: 0x0002,
                or_mask: 0x0003
            }
        ),
        flags: ErrorFlags::none(),
    })));
    assert_eq!(parse(input, Direction::ToClient), expected);
}

#[test]
fn response_mei_gen_ref() {
    let input: &[u8] = &[ 0x00, 0x00, 0x00, 0x00, 0x00, 0x03, 0x01, 0x2b, 0x0d ];
    let expected: Result<(usize, Option<Message>), ParseError> = Ok((0, Some(Message{
        transaction_id: 0,
        protocol_id: 0,
        length: 3,
        unit_id: 1,
        function: Function { raw: 43, code: FunctionCode::MEI },
        access_type: AccessType::none(),
        category: CodeCategory::public_assigned(),
        data: Data::MEI{ mei_type: MEI { raw: 13, code: MEIType::CANOpenGenRefReqResp }, data: vec![] },
        flags: ErrorFlags::none(),
    })));
    assert_eq!(parse(input, Direction::ToClient), expected);
}

#[test]
fn response_diagnostic() {
    let input: &[u8] = &[ 0x00, 0x01, 0x00, 0x00, 0x00, 0x06, 0x03, 0x08, 0x00, 0x04, 0x00, 0x00 ];
    let expected: Result<(usize, Option<Message>), ParseError> = Ok((0, Some(Message{
        transaction_id: 1,
        protocol_id: 0,
        length: 6,
        unit_id: 3,
        function: Function { raw: 8, code: FunctionCode::Diagnostic },
        access_type: AccessType::none(),
        category: CodeCategory::public_assigned(),
        data: Data::Diagnostic { func: Diagnostic { raw: 4, code: DiagnosticSubfunction::ForceListenOnlyMode }, data: vec![0x00, 0x00] },
        flags: ErrorFlags::none(),
    })));
    assert_eq!(parse(input, Direction::ToClient), expected);
}
