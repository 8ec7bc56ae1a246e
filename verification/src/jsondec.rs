//! Decoding of response blocks. The JSON parsing and field extraction is
//! handed to `serde_json` behind one trusted wrapper per block shape, whose
//! result carries a name — the parsed fields are a function of the JSON
//! text alone — so every decode function's contract ties what it returns
//! to the bytes it was given, stage by stage.

use vstd::prelude::*;

use crate::errors::CodecStage;
use crate::errors::RawdogError;
use crate::models::TcpHeader;
use crate::models::TcpStatusMessage;
use crate::textenc::b64_decode;
use crate::textenc::b64_decoded_of;
use crate::textenc::utf8_to_str;

verus! {

use vstd::utf8::decode_utf8;
use vstd::utf8::valid_utf8;

/// What parsing a text as header JSON yields: the `agentname`, `endpoint`
/// and `addldata` fields, or nothing when the text is not JSON carrying
/// all three with their types. Determined by the text alone.
pub uninterp spec fn json_header_of(s: Seq<char>) -> Option<(Seq<char>, i64, Seq<char>)>;

/// What parsing a text as status JSON yields: the `code` and `message`
/// fields, or nothing when the text is not JSON carrying both with their
/// types. Determined by the text alone.
pub uninterp spec fn json_status_of(s: Seq<char>) -> Option<(i64, Seq<char>)>;

/// Relies on `serde_json::from_str::<Value>` with `Value::get`,
/// `Value::as_str` and `Value::as_i64`: parses a text and extracts the
/// three header fields, a deterministic function of the text named
/// [`json_header_of`]. Extra fields are ignored; a missing or mistyped
/// field fails the parse.
#[verifier::external_body]
fn parse_header_json(s: &str) -> (r: Option<(String, i64, String)>)
    ensures
        match r {
            Some(f) => json_header_of(s@) == Some((f.0@, f.1, f.2@)),
            None => json_header_of(s@) is None,
        },
{
    let v: serde_json::Value = serde_json::from_str(s).ok()?;
    let agentname = v.get("agentname")?.as_str()?.to_owned();
    let endpoint = v.get("endpoint")?.as_i64()?;
    let addldata = v.get("addldata")?.as_str()?.to_owned();
    Some((agentname, endpoint, addldata))
}

/// Relies on `serde_json::from_str::<Value>` with `Value::get`,
/// `Value::as_str` and `Value::as_i64`: parses a text and extracts the two
/// status fields, a deterministic function of the text named
/// [`json_status_of`]. Extra fields are ignored; a missing or mistyped
/// field fails the parse.
#[verifier::external_body]
fn parse_status_json(s: &str) -> (r: Option<(i64, String)>)
    ensures
        match r {
            Some(f) => json_status_of(s@) == Some((f.0, f.1@)),
            None => json_status_of(s@) is None,
        },
{
    let v: serde_json::Value = serde_json::from_str(s).ok()?;
    let code = v.get("code")?.as_i64()?;
    let message = v.get("message")?.as_str()?.to_owned();
    Some((code, message))
}

/// What a metadata block decodes to: the default header's fields for an
/// empty block, otherwise the header fields of its UTF-8 JSON text, or the
/// stage at which decoding fails.
pub open spec fn spec_decode_metadata(bytes: Seq<u8>) -> Result<
    (Seq<char>, i64, Seq<char>),
    CodecStage,
> {
    if bytes.len() == 0 {
        Ok((Seq::<char>::empty(), 0, Seq::<char>::empty()))
    } else if !valid_utf8(bytes) {
        Err(CodecStage::MetadataUtf8)
    } else {
        match json_header_of(decode_utf8(bytes)) {
            Some(f) => Ok(f),
            None => Err(CodecStage::MetadataJson),
        }
    }
}

/// What a payload block decodes to: the default status's fields for an
/// empty block, otherwise the status fields of the UTF-8 JSON inside its
/// UTF-8 base64 text, or the stage at which decoding fails.
pub open spec fn spec_decode_status(bytes: Seq<u8>) -> Result<(i64, Seq<char>), CodecStage> {
    if bytes.len() == 0 {
        Ok((200, Seq::<char>::empty()))
    } else if !valid_utf8(bytes) {
        Err(CodecStage::PayloadUtf8)
    } else {
        match b64_decoded_of(decode_utf8(bytes)) {
            None => Err(CodecStage::PayloadBase64),
            Some(inner) => if !valid_utf8(inner) {
                Err(CodecStage::PayloadInnerUtf8)
            } else {
                match json_status_of(decode_utf8(inner)) {
                    Some(f) => Ok(f),
                    None => Err(CodecStage::PayloadJson),
                }
            },
        }
    }
}

/// Decodes a metadata block into a header: exactly
/// [`spec_decode_metadata`] of the bytes — the default header for an empty
/// block, the parsed header fields otherwise, every failure tagged with
/// its stage.
pub fn decode_metadata(bytes: &[u8]) -> (r: Result<TcpHeader, RawdogError>)
    ensures
        match r {
            Ok(h) => spec_decode_metadata(bytes@) == Ok::<_, CodecStage>(
                (h.agentname@, h.endpoint, h.addldata@),
            ),
            Err(e) => (spec_decode_metadata(bytes@) matches Err(stage) && e
                == RawdogError::Encoding(stage)),
        },
{
    if bytes.len() == 0 {
        return Ok(TcpHeader::default());
    }
    let text = match utf8_to_str(bytes) {
        Some(t) => t,
        None => {
            return Err(RawdogError::Encoding(CodecStage::MetadataUtf8));
        },
    };
    match parse_header_json(text) {
        Some((agentname, endpoint, addldata)) => Ok(
            TcpHeader { agentname, endpoint, addldata },
        ),
        None => Err(RawdogError::Encoding(CodecStage::MetadataJson)),
    }
}

/// Decodes a base64 payload text into the bytes it carries, tagging a
/// malformed text with the base64 stage.
pub fn decode_base64_text(text: &str) -> (r: Result<Vec<u8>, RawdogError>)
    ensures
        match r {
            Ok(v) => b64_decoded_of(text@) == Some(v@),
            Err(e) => b64_decoded_of(text@) is None && e == RawdogError::Encoding(
                CodecStage::PayloadBase64,
            ),
        },
{
    match b64_decode(text) {
        Some(v) => Ok(v),
        None => Err(RawdogError::Encoding(CodecStage::PayloadBase64)),
    }
}

/// Decodes a response payload block into a status message: exactly
/// [`spec_decode_status`] of the bytes — the default status for an empty
/// block, the parsed status fields otherwise, every failure tagged with
/// the stage that failed.
pub fn decode_status(bytes: &[u8]) -> (r: Result<TcpStatusMessage, RawdogError>)
    ensures
        match r {
            Ok(m) => spec_decode_status(bytes@) == Ok::<_, CodecStage>((m.code, m.message@)),
            Err(e) => (spec_decode_status(bytes@) matches Err(stage) && e == RawdogError::Encoding(
                stage,
            )),
        },
{
    if bytes.len() == 0 {
        return Ok(TcpStatusMessage::default());
    }
    let text = match utf8_to_str(bytes) {
        Some(t) => t,
        None => {
            return Err(RawdogError::Encoding(CodecStage::PayloadUtf8));
        },
    };
    let decoded = match decode_base64_text(text) {
        Ok(v) => v,
        Err(e) => {
            return Err(e);
        },
    };
    let inner_text = match utf8_to_str(decoded.as_slice()) {
        Some(t) => t,
        None => {
            return Err(RawdogError::Encoding(CodecStage::PayloadInnerUtf8));
        },
    };
    match parse_status_json(inner_text) {
        Some((code, message)) => Ok(TcpStatusMessage { code, message }),
        None => Err(RawdogError::Encoding(CodecStage::PayloadJson)),
    }
}

} // verus!
