//! The numeric reply codes of the control-channel protocol.

use vstd::prelude::*;

verus! {

/// The reply codes that the server uses, drawn from the standard FTP
/// reply-code space.
#[derive(Clone, Copy, Debug, PartialEq, Eq, Structural)]
pub enum ResultCode {
    ServiceReadyForNewUser,
    CommandNotImplemented,
    CommandOkay,
    InvalidParameterOrArgument,
    UserLoggedIn,
    UnknownCommand,
    PathnameCreated,
    EnteringPassiveMode,
    DataConnectionAlreadyOpen,
    ServiceNotAvailable,
    ConnectionClosed,
    ClosingDataConnection,
    RequestedFileActionOkay,
    FileNotFound,
}

impl ResultCode {
    /// The numeric value that stands for this code on the wire.
    pub open spec fn spec_value(self) -> u32 {
        match self {
            ResultCode::ServiceReadyForNewUser => 220,
            ResultCode::CommandNotImplemented => 502,
            ResultCode::CommandOkay => 200,
            ResultCode::InvalidParameterOrArgument => 501,
            ResultCode::UserLoggedIn => 230,
            ResultCode::UnknownCommand => 500,
            ResultCode::PathnameCreated => 257,
            ResultCode::EnteringPassiveMode => 227,
            ResultCode::DataConnectionAlreadyOpen => 125,
            ResultCode::ServiceNotAvailable => 421,
            ResultCode::ConnectionClosed => 426,
            ResultCode::ClosingDataConnection => 226,
            ResultCode::RequestedFileActionOkay => 250,
            ResultCode::FileNotFound => 550,
        }
    }

    /// The numeric value of the code.
    pub fn value(&self) -> (v: u32)
        ensures
            v == self.spec_value(),
    {
        match self {
            ResultCode::ServiceReadyForNewUser => 220,
            ResultCode::CommandNotImplemented => 502,
            ResultCode::CommandOkay => 200,
            ResultCode::InvalidParameterOrArgument => 501,
            ResultCode::UserLoggedIn => 230,
            ResultCode::UnknownCommand => 500,
            ResultCode::PathnameCreated => 257,
            ResultCode::EnteringPassiveMode => 227,
            ResultCode::DataConnectionAlreadyOpen => 125,
            ResultCode::ServiceNotAvailable => 421,
            ResultCode::ConnectionClosed => 426,
            ResultCode::ClosingDataConnection => 226,
            ResultCode::RequestedFileActionOkay => 250,
            ResultCode::FileNotFound => 550,
        }
    }
}

} // verus!
