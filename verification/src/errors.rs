//! The closed set of failures a Rawdog call can surface.

use vstd::prelude::*;

verus! {

/// Stage of the wire codec at which an encoding or decoding failure
/// occurred.
#[derive(Debug, Clone, Copy, PartialEq, Eq, Structural)]
pub enum CodecStage {
    /// Response metadata bytes were not valid UTF-8.
    MetadataUtf8,
    /// Response metadata text was not a JSON header object.
    MetadataJson,
    /// Response payload bytes were not valid UTF-8.
    PayloadUtf8,
    /// Response payload text was not valid standard base64.
    PayloadBase64,
    /// The base64-decoded payload bytes were not valid UTF-8.
    PayloadInnerUtf8,
    /// The base64-decoded payload text was not a JSON status object.
    PayloadJson,
    /// Request metadata JSON was longer than the 16-bit length field allows.
    MetadataOverflow,
}

/// Reason a client configuration was rejected, before any I/O was attempted.
#[derive(Debug, Clone, Copy, PartialEq, Eq, Structural)]
pub enum ConfigFault {
    /// The server address is empty after trimming white space.
    AddressEmpty,
    /// The server port lies outside `1..=65535`.
    PortOutOfRange,
}

/// Every way a Rawdog exchange can fail, as one closed enumeration so that
/// callers can branch on the failure category.
#[derive(Debug, Clone, PartialEq)]
pub enum RawdogError {
    /// Invalid client configuration, detected before any I/O.
    Config(ConfigFault),
    /// TCP connect failure; the string is the reporting I/O layer's message.
    Connection(String),
    /// Read or write failure, timeout, or premature close; the string is the
    /// reporting I/O layer's message.
    Io(String),
    /// UTF-8, base64, or JSON encode/decode failure, tagged with the stage
    /// that failed.
    Encoding(CodecStage),
    /// Well-formed response whose status code was 400 or above; carries the
    /// response's message text.
    Protocol(String),
}

} // verus!
