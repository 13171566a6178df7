//! A Modbus/TCP message parser with verified framing, dissection, validation
//! and request/response matching.

pub mod codes;
pub mod dissect;
pub mod flags;
pub mod laws;
pub mod message;
pub mod parser;

pub use codes::{
    Diagnostic, DiagnosticSubfunction, Exception, ExceptionCode, Function, FunctionCode, MEIType,
    MEI,
};
pub use flags::{AccessType, CodeCategory, ErrorFlags};
pub use message::{Data, Message, Read, Write};
pub use parser::{Direction, Modbus, ParseError};
