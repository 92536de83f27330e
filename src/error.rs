//! Failure kinds of the bridge, each carrying the text shown to the user.
use vstd::prelude::*;

verus! {

/// What went wrong in a bridge operation.
#[derive(Clone, Debug)]
pub enum BridgeError {
    /// The MIDI subsystem could not be opened to list its ports.
    EnumerationError(String),
    /// No live port has the requested name (the name is carried).
    PortNotFound(String),
    /// The driver refused to open the port.
    ConnectError(String),
    /// An outgoing message was not well-formed hex text.
    InvalidEncoding(String),
    /// The driver refused to write a message.
    TransmitError(String),
    /// A filesystem operation failed.
    IoError(String),
    /// A path tag other than `temporary` or `library` (the tag is carried).
    UnsupportedPath(String),
}

/// The text shown to the user for an error.
pub open spec fn message_of(e: BridgeError) -> Seq<char> {
    match e {
        BridgeError::EnumerationError(m) => m@,
        BridgeError::PortNotFound(n) => "Port '"@ + n@ + "' not found"@,
        BridgeError::ConnectError(m) => m@,
        BridgeError::InvalidEncoding(m) => m@,
        BridgeError::TransmitError(m) => m@,
        BridgeError::IoError(m) => m@,
        BridgeError::UnsupportedPath(t) => "Unsupported path: "@ + t@,
    }
}

impl BridgeError {
    /// The text shown to the user: the driver's or system's own words, or
    /// for a missing port and an unknown path tag a sentence naming it.
    pub fn message(&self) -> (r: String)
        ensures
            r@ == message_of(*self),
    {
        match self {
            BridgeError::EnumerationError(m) => m.clone(),
            BridgeError::PortNotFound(n) => String::from_str("Port '").concat(n.as_str()).concat(
                "' not found",
            ),
            BridgeError::ConnectError(m) => m.clone(),
            BridgeError::InvalidEncoding(m) => m.clone(),
            BridgeError::TransmitError(m) => m.clone(),
            BridgeError::IoError(m) => m.clone(),
            BridgeError::UnsupportedPath(t) => String::from_str("Unsupported path: ").concat(
                t.as_str(),
            ),
        }
    }
}

} // verus!
