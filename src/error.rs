//! Errors of the client and of hardware probing.
use vstd::prelude::*;
use crate::text::{decimal, decimal_text, signed_decimal, signed_text};

verus! {

/// What can go wrong while talking to the tool server.
#[derive(Debug, Clone, PartialEq)]
pub enum LibreOfficeError {
    NotInstalled,
    PythonNotFound,
    ServerFilesNotFound(String),
    ProcessSpawnFailed(String),
    ProcessCrashed(String),
    HandshakeFailed(String),
    ToolCallFailed(String),
    Timeout(u64),
    JsonRpcError { code: i32, message: String },
    InvalidResponse(String),
    SerializationError(String),
    IoError(String),
    PortInUse(u16),
    NotInitialized,
    AlreadyRunning,
}

/// The text shown to users for an error.
pub open spec fn error_text_of(e: LibreOfficeError) -> Seq<char> {
    match e {
        LibreOfficeError::NotInstalled => "LibreOffice is not installed"@,
        LibreOfficeError::PythonNotFound => "Python executable not found"@,
        LibreOfficeError::ServerFilesNotFound(p) => "MCP server files not found at path: "@ + p@,
        LibreOfficeError::ProcessSpawnFailed(m) => "Failed to spawn MCP server process: "@ + m@,
        LibreOfficeError::ProcessCrashed(m) => "MCP server process crashed: "@ + m@,
        LibreOfficeError::HandshakeFailed(m) => "MCP handshake failed: "@ + m@,
        LibreOfficeError::ToolCallFailed(m) => "Tool call failed: "@ + m@,
        LibreOfficeError::Timeout(s) => "Request timeout after "@ + decimal(s as nat) + " seconds"@,
        LibreOfficeError::JsonRpcError { code, message } => "JSON-RPC error (code "@
            + signed_decimal(code as int) + "): "@ + message@,
        LibreOfficeError::InvalidResponse(m) => "Invalid JSON-RPC response: "@ + m@,
        LibreOfficeError::SerializationError(m) => "JSON serialization error: "@ + m@,
        LibreOfficeError::IoError(m) => "IO error: "@ + m@,
        LibreOfficeError::PortInUse(p) => "Port "@ + decimal(p as nat) + " is already in use"@,
        LibreOfficeError::NotInitialized => "Service not initialized"@,
        LibreOfficeError::AlreadyRunning => "Service already running"@,
    }
}

/// A fixed text followed by a detail.
fn joined(prefix: &str, detail: &str) -> (r: String)
    ensures
        r@ == prefix@ + detail@,
{
    let mut s = String::from_str(prefix);
    s.append(detail);
    s
}

/// A fixed text, a detail and another fixed text.
fn framed(prefix: &str, detail: &str, suffix: &str) -> (r: String)
    ensures
        r@ == prefix@ + detail@ + suffix@,
{
    let mut s = joined(prefix, detail);
    s.append(suffix);
    s
}

impl LibreOfficeError {
    /// The text shown to users for this error.
    pub fn to_text(&self) -> (r: String)
        ensures
            r@ == error_text_of(*self),
    {
        match self {
            LibreOfficeError::NotInstalled => String::from_str("LibreOffice is not installed"),
            LibreOfficeError::PythonNotFound => String::from_str("Python executable not found"),
            LibreOfficeError::ServerFilesNotFound(p) => joined(
                "MCP server files not found at path: ",
                p.as_str(),
            ),
            LibreOfficeError::ProcessSpawnFailed(m) => joined(
                "Failed to spawn MCP server process: ",
                m.as_str(),
            ),
            LibreOfficeError::ProcessCrashed(m) => joined("MCP server process crashed: ", m.as_str()),
            LibreOfficeError::HandshakeFailed(m) => joined("MCP handshake failed: ", m.as_str()),
            LibreOfficeError::ToolCallFailed(m) => joined("Tool call failed: ", m.as_str()),
            LibreOfficeError::Timeout(s) => {
                let n = decimal_text(*s);
                framed("Request timeout after ", n.as_str(), " seconds")
            },
            LibreOfficeError::JsonRpcError { code, message } => {
                let c = signed_text(*code);
                let mut t = framed("JSON-RPC error (code ", c.as_str(), "): ");
                t.append(message.as_str());
                t
            },
            LibreOfficeError::InvalidResponse(m) => joined("Invalid JSON-RPC response: ", m.as_str()),
            LibreOfficeError::SerializationError(m) => joined("JSON serialization error: ", m.as_str()),
            LibreOfficeError::IoError(m) => joined("IO error: ", m.as_str()),
            LibreOfficeError::PortInUse(p) => {
                let n = decimal_text(*p as u64);
                framed("Port ", n.as_str(), " is already in use")
            },
            LibreOfficeError::NotInitialized => String::from_str("Service not initialized"),
            LibreOfficeError::AlreadyRunning => String::from_str("Service already running"),
        }
    }
}

/// What can go wrong while probing the machine's hardware.
#[derive(Debug, Clone, PartialEq)]
pub enum HardwareError {
    QueryFailed(String),
    NoHardware(String),
    InvalidData(String),
}

} // verus!
