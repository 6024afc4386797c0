//! The errors of the server and the text each one is shown as.

use vstd::prelude::*;

use crate::text::concat2;

verus! {

/// Everything that can go wrong in the server. Errors raised by outside
/// libraries are carried as the text those libraries render for them.
#[derive(Debug)]
pub enum AppError {
    Config(String),
    MatrixClient(String),
    MatrixSdk(String),
    Http(String),
    Io(String),
    Serialization(String),
    Mcp(String),
    Auth(String),
    RoomNotFound(String),
    UserNotFound(String),
    PermissionDenied(String),
    InvalidParameter(String),
    RateLimited,
    Unknown(String),
}

/// The text an error is shown as.
pub open spec fn spec_error_message(e: AppError) -> Seq<char> {
    match e {
        AppError::Config(m) => "Configuration error: "@ + m@,
        AppError::MatrixClient(m) => "Matrix client error: "@ + m@,
        AppError::MatrixSdk(m) => "Matrix SDK error: "@ + m@,
        AppError::Http(m) => "HTTP error: "@ + m@,
        AppError::Io(m) => "IO error: "@ + m@,
        AppError::Serialization(m) => "Serialization error: "@ + m@,
        AppError::Mcp(m) => "MCP protocol error: "@ + m@,
        AppError::Auth(m) => "Authentication error: "@ + m@,
        AppError::RoomNotFound(m) => "Room not found: "@ + m@,
        AppError::UserNotFound(m) => "User not found: "@ + m@,
        AppError::PermissionDenied(m) => "Permission denied: "@ + m@,
        AppError::InvalidParameter(m) => "Invalid parameter: "@ + m@,
        AppError::RateLimited => "Rate limited"@,
        AppError::Unknown(m) => "Unknown error: "@ + m@,
    }
}

impl AppError {
    /// The text this error is shown as.
    pub fn message(&self) -> (r: String)
        ensures
            r@ == spec_error_message(*self),
    {
        match self {
            AppError::Config(m) => concat2("Configuration error: ", m.as_str()),
            AppError::MatrixClient(m) => concat2("Matrix client error: ", m.as_str()),
            AppError::MatrixSdk(m) => concat2("Matrix SDK error: ", m.as_str()),
            AppError::Http(m) => concat2("HTTP error: ", m.as_str()),
            AppError::Io(m) => concat2("IO error: ", m.as_str()),
            AppError::Serialization(m) => concat2("Serialization error: ", m.as_str()),
            AppError::Mcp(m) => concat2("MCP protocol error: ", m.as_str()),
            AppError::Auth(m) => concat2("Authentication error: ", m.as_str()),
            AppError::RoomNotFound(m) => concat2("Room not found: ", m.as_str()),
            AppError::UserNotFound(m) => concat2("User not found: ", m.as_str()),
            AppError::PermissionDenied(m) => concat2("Permission denied: ", m.as_str()),
            AppError::InvalidParameter(m) => concat2("Invalid parameter: ", m.as_str()),
            AppError::RateLimited => String::from_str("Rate limited"),
            AppError::Unknown(m) => concat2("Unknown error: ", m.as_str()),
        }
    }
}

} // verus!
