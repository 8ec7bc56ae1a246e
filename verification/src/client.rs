//! The Rawdog client: configuration, its validation, and the verified part
//! of one call — turning the size block into lengths, the received blocks
//! into a header and status, and the status into the call's outcome.
//!
//! Opening the TCP connection and moving bytes over it is I/O and stays
//! outside the library; the surrounding program validates the
//! configuration here first, then feeds the received bytes back in.

use vstd::prelude::*;

use crate::errors::CodecStage;
use crate::errors::ConfigFault;
use crate::errors::RawdogError;
use crate::jsondec::decode_metadata;
use crate::jsondec::decode_status;
use crate::jsondec::spec_decode_metadata;
use crate::jsondec::spec_decode_status;
use crate::models::has_visible_char;
use crate::models::str_has_visible_char;
use crate::models::TcpHeader;
use crate::models::TcpStatusMessage;
use crate::sizeblock::decode_md_len;
use crate::sizeblock::decode_payload_len;
use crate::sizeblock::spec_u16_from_be_bytes;
use crate::sizeblock::spec_u64_from_be_bytes;

verus! {

/// Smallest allowed server port.
pub const SERVPORT_MIN: i64 = 1;

/// Largest allowed server port.
pub const SERVPORT_MAX: i64 = 65535;

/// Configuration of a Rawdog client. Built once, never mutated; every call
/// opens its own connection from it.
#[derive(Debug, Clone, PartialEq)]
pub struct RawdogClient {
    /// Timeout, in milliseconds, applied when the client receives data
    /// from the server; absent means block indefinitely.
    pub read_timeout: Option<u64>,
    /// Timeout, in milliseconds, applied when the client transmits data to
    /// the server; absent means block indefinitely.
    pub send_timeout: Option<u64>,
    /// Address (IP or domain) of the Rawdog server to connect to.
    pub servaddr: String,
    /// Port the Rawdog server is listening on.
    pub servport: i64,
}

impl Default for RawdogClient {
    /// `localhost:8080` with ten-second timeouts in both directions.
    fn default() -> (r: Self)
        ensures
            r.read_timeout == Some(10000u64),
            r.send_timeout == Some(10000u64),
            r.servaddr@ == "localhost"@,
            r.servport == 8080,
    {
        RawdogClient {
            read_timeout: Some(10000),
            send_timeout: Some(10000),
            servaddr: "localhost".to_owned(),
            servport: 8080,
        }
    }
}

impl RawdogClient {
    /// A configuration that may be connected to: an address that is not
    /// only white space, and a port within `1..=65535`.
    pub open spec fn spec_valid_config(self) -> bool {
        has_visible_char(self.servaddr@) && SERVPORT_MIN <= self.servport <= SERVPORT_MAX
    }

    /// Validates the configuration, before any I/O: an effectively empty
    /// address and an out-of-range port are each rejected with their own
    /// configuration fault, the address checked first.
    pub fn check_config(&self) -> (r: Result<(), RawdogError>)
        ensures
            r is Ok <==> self.spec_valid_config(),
            !has_visible_char(self.servaddr@) ==> r == Err::<(), RawdogError>(
                RawdogError::Config(ConfigFault::AddressEmpty),
            ),
            has_visible_char(self.servaddr@) && !(SERVPORT_MIN <= self.servport <= SERVPORT_MAX)
                ==> r == Err::<(), RawdogError>(RawdogError::Config(ConfigFault::PortOutOfRange)),
    {
        if !str_has_visible_char(self.servaddr.as_str()) {
            return Err(RawdogError::Config(ConfigFault::AddressEmpty));
        }
        if self.servport < SERVPORT_MIN || self.servport > SERVPORT_MAX {
            return Err(RawdogError::Config(ConfigFault::PortOutOfRange));
        }
        Ok(())
    }

    /// Splits the 10-byte size block read from the server into the
    /// metadata length (first two bytes, big-endian) and the payload
    /// length (next eight bytes, big-endian).
    pub fn process_size_bytes(&self, size_buffer: &[u8]) -> (r: (u16, u64))
        requires
            size_buffer@.len() == 10,
        ensures
            r.0 == spec_u16_from_be_bytes(size_buffer@.subrange(0, 2)),
            r.1 == spec_u64_from_be_bytes(size_buffer@.subrange(2, 10)),
    {
        (decode_md_len(size_buffer), decode_payload_len(size_buffer))
    }

    /// Decodes the two received blocks of a response, the metadata first:
    /// exactly [`spec_decode_metadata`] and [`spec_decode_status`] of the
    /// bytes, each empty block yielding its default value, and the first
    /// failing stage's error returned.
    pub fn process_response_bytes(&self, md_buff: &[u8], data_buff: &[u8]) -> (r: Result<
        (TcpHeader, TcpStatusMessage),
        RawdogError,
    >)
        ensures
            match r {
                Ok(p) => spec_decode_metadata(md_buff@) == Ok::<_, CodecStage>(
                    (p.0.agentname@, p.0.endpoint, p.0.addldata@),
                ) && spec_decode_status(data_buff@) == Ok::<_, CodecStage>(
                    (p.1.code, p.1.message@),
                ),
                Err(e) => (spec_decode_metadata(md_buff@) matches Err(stage) && e
                    == RawdogError::Encoding(stage)) || (spec_decode_metadata(md_buff@) is Ok && (
                spec_decode_status(data_buff@) matches Err(stage) && e == RawdogError::Encoding(
                    stage,
                ))),
            },
    {
        let md = match decode_metadata(md_buff) {
            Ok(h) => h,
            Err(e) => {
                return Err(e);
            },
        };
        let status = match decode_status(data_buff) {
            Ok(m) => m,
            Err(e) => {
                return Err(e);
            },
        };
        Ok((md, status))
    }

    /// Applies the status policy to a decoded response: a code of 400 or
    /// above fails the call with the status's message as a protocol error,
    /// anything below succeeds with the echoed header and the message.
    pub fn resolve_status(&self, md: TcpHeader, status: TcpStatusMessage) -> (r: Result<
        (TcpHeader, String),
        RawdogError,
    >)
        ensures
            status.code >= 400 ==> r == Err::<(TcpHeader, String), RawdogError>(
                RawdogError::Protocol(status.message),
            ),
            status.code < 400 ==> r == Ok::<(TcpHeader, String), RawdogError>(
                (md, status.message),
            ),
    {
        if status.is_error() {
            return Err(RawdogError::Protocol(status.message));
        }
        Ok((md, status.message))
    }

    /// The verified tail of a call: decodes the two received blocks and
    /// applies the status policy. The result is a function of the received
    /// bytes: the echoed header and the message exactly when both blocks
    /// decode and the status code is below 400, the protocol error carrying
    /// the status's message when the code is 400 or above, and otherwise
    /// the first failing stage's encoding error.
    pub fn handle_response(&self, md_buff: &[u8], data_buff: &[u8]) -> (r: Result<
        (TcpHeader, String),
        RawdogError,
    >)
        ensures
            match r {
                Ok(p) => spec_decode_metadata(md_buff@) == Ok::<_, CodecStage>(
                    (p.0.agentname@, p.0.endpoint, p.0.addldata@),
                ) && (spec_decode_status(data_buff@) matches Ok(st) && st.0 < 400 && p.1@ == st.1),
                Err(e) => (spec_decode_metadata(md_buff@) matches Err(stage) && e
                    == RawdogError::Encoding(stage)) || (spec_decode_metadata(md_buff@) is Ok && (
                spec_decode_status(data_buff@) matches Err(stage) && e == RawdogError::Encoding(
                    stage,
                ))) || (spec_decode_metadata(md_buff@) is Ok && (spec_decode_status(data_buff@)
                    matches Ok(st) && st.0 >= 400 && (e matches RawdogError::Protocol(m) && m@
                    == st.1))),
            },
    {
        let (md, status) = match self.process_response_bytes(md_buff, data_buff) {
            Ok(p) => p,
            Err(e) => {
                return Err(e);
            },
        };
        self.resolve_status(md, status)
    }
}

} // verus!
