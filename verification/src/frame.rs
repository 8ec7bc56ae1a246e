//! Frames: building the three blocks of an outgoing request, and
//! accumulating the body of an incoming response.
//!
//! The reader is driven by byte counts, not block counts: it says exactly
//! how many bytes the next bounded read may return, accepts short reads,
//! reports a closed connection before the declared lengths are met as an
//! I/O error, and by construction never accepts bytes beyond the declared
//! lengths.

use vstd::prelude::*;

use crate::errors::CodecStage;
use crate::errors::RawdogError;
use crate::jsonenc::encode_header_json;
use crate::jsonenc::spec_header_json;
use crate::models::TcpHeader;
use crate::sizeblock::encode_size_block;
use crate::sizeblock::spec_size_block;
use crate::textenc::b64_encode;
use crate::textenc::b64_of;

verus! {

use vstd::math::min;
use vstd::slice::slice_to_vec;
use vstd::string::StrSliceExecFns;
use vstd::utf8::encode_utf8;

/// The three blocks of an outgoing request, ready to be written to a
/// stream in order: size block, then metadata, then payload.
#[derive(Debug, PartialEq)]
pub struct RequestFrame {
    /// The 10-byte size block declaring the two lengths below.
    pub size_block: Vec<u8>,
    /// UTF-8 JSON encoding of the request header.
    pub metadata: Vec<u8>,
    /// Standard base64 of the raw message bytes.
    pub payload: Vec<u8>,
}

/// Builds the frame for a request: metadata is the JSON encoding of
/// `header`, payload is the standard base64 of the message bytes, and the
/// size block declares exactly their lengths. Fails only when the metadata
/// JSON does not fit the 16-bit length field. The precondition keeps the
/// base64 length computation within `usize`.
pub fn build_request_frame(header: &TcpHeader, message: &str) -> (r: Result<
    RequestFrame,
    RawdogError,
>)
    requires
        encode_utf8(message@).len() / 3 * 4 + 4 <= usize::MAX,
    ensures
        match r {
            Ok(f) => spec_header_json(*header).len() <= 0xffff && f.metadata@ == spec_header_json(
                *header,
            ) && f.payload@ == encode_utf8(b64_of(encode_utf8(message@))) && f.payload@.len()
                == 4 * ((encode_utf8(message@).len() + 2) / 3) && f.size_block@
                == spec_size_block((f.metadata@.len() as u16), (f.payload@.len() as u64)),
            Err(e) => spec_header_json(*header).len() > 0xffff && e == RawdogError::Encoding(
                CodecStage::MetadataOverflow,
            ),
        },
{
    let metadata = encode_header_json(header);
    if metadata.len() > 0xffff {
        return Err(RawdogError::Encoding(CodecStage::MetadataOverflow));
    }
    let encoded = b64_encode(message.as_bytes());
    let payload = encoded.as_str().as_bytes_vec();
    proof {
        vstd::utf8::is_ascii_chars_encode_utf8(encoded@);
        assert(payload@.len() == encoded@.len());
    }
    let md_len: u16 = metadata.len() as u16;
    let payload_len: u64 = payload.len() as u64;
    let size_block = encode_size_block(md_len, payload_len);
    Ok(RequestFrame { size_block, metadata, payload })
}

/// Accumulates the body of an incoming frame — first the metadata block,
/// then the payload block — against the lengths declared in the size
/// block.
pub struct FrameReader {
    md_len: u16,
    payload_len: u64,
    md_buf: Vec<u8>,
    payload_buf: Vec<u8>,
}

impl FrameReader {
    /// The declared metadata length.
    pub closed spec fn spec_md_len(self) -> u16 {
        self.md_len
    }

    /// The declared payload length.
    pub closed spec fn spec_payload_len(self) -> u64 {
        self.payload_len
    }

    /// The metadata bytes received so far.
    pub closed spec fn md_received(self) -> Seq<u8> {
        self.md_buf@
    }

    /// The payload bytes received so far.
    pub closed spec fn payload_received(self) -> Seq<u8> {
        self.payload_buf@
    }

    /// Internal consistency: never more bytes than declared, and payload
    /// bytes only once the metadata block is complete.
    pub open spec fn wf(self) -> bool {
        &&& self.md_received().len() <= self.spec_md_len()
        &&& self.payload_received().len() <= self.spec_payload_len()
        &&& self.payload_received().len() > 0 ==> self.md_received().len() == self.spec_md_len()
    }

    /// Both blocks hold exactly as many bytes as the size block declared.
    pub open spec fn spec_done(self) -> bool {
        self.md_received().len() == self.spec_md_len() && self.payload_received().len()
            == self.spec_payload_len()
    }

    /// How many bytes the next bounded read may return: the rest of the
    /// current block, capped at one 1024-byte read block; zero exactly when
    /// the frame is complete.
    pub open spec fn spec_next_request(self) -> int {
        if self.md_received().len() < self.spec_md_len() {
            min(1024, self.spec_md_len() - self.md_received().len())
        } else {
            min(1024, self.spec_payload_len() - self.payload_received().len())
        }
    }

    /// A reader expecting the two declared block lengths, with nothing
    /// received yet.
    pub fn new(md_len: u16, payload_len: u64) -> (r: Self)
        ensures
            r.wf(),
            r.spec_md_len() == md_len,
            r.spec_payload_len() == payload_len,
            r.md_received() == Seq::<u8>::empty(),
            r.payload_received() == Seq::<u8>::empty(),
    {
        let r = FrameReader { md_len, payload_len, md_buf: Vec::new(), payload_buf: Vec::new() };
        proof {
            assert(r.md_received() =~= Seq::<u8>::empty());
            assert(r.payload_received() =~= Seq::<u8>::empty());
        }
        r
    }

    /// Whether both blocks are complete.
    pub fn done(&self) -> (r: bool)
        ensures
            r == self.spec_done(),
    {
        self.md_buf.len() == self.md_len as usize && self.payload_buf.len() as u64
            == self.payload_len
    }

    /// Bytes to ask of the next bounded read; `0` exactly when done.
    pub fn next_request(&self) -> (r: usize)
        requires
            self.wf(),
        ensures
            r == self.spec_next_request(),
            r <= 1024,
            r == 0 <==> self.spec_done(),
    {
        if self.md_buf.len() < self.md_len as usize {
            let rem: usize = self.md_len as usize - self.md_buf.len();
            if rem > 1024 {
                1024
            } else {
                rem
            }
        } else {
            let rem: u64 = self.payload_len - self.payload_buf.len() as u64;
            if rem > 1024 {
                1024
            } else {
                rem as usize
            }
        }
    }

    /// Takes what one bounded read returned and appends it to the block it
    /// belongs to. An empty chunk while the frame is incomplete means the
    /// connection closed before the declared lengths were received, an I/O
    /// error; the bound on the chunk keeps a read from ever crossing a
    /// block boundary or exceeding a declared length.
    pub fn push(&mut self, chunk: &[u8]) -> (r: Result<(), RawdogError>)
        requires
            old(self).wf(),
            chunk@.len() <= old(self).spec_next_request(),
        ensures
            final(self).wf(),
            final(self).spec_md_len() == old(self).spec_md_len(),
            final(self).spec_payload_len() == old(self).spec_payload_len(),
            r is Ok <==> (old(self).spec_done() || chunk@.len() > 0),
            r is Err ==> *final(self) == *old(self) && (r->Err_0 matches RawdogError::Io(_)),
            r is Ok && old(self).md_received().len() < old(self).spec_md_len()
                ==> final(self).md_received() == old(self).md_received() + chunk@
                    && final(self).payload_received() == old(self).payload_received(),
            r is Ok && old(self).md_received().len() == old(self).spec_md_len()
                ==> final(self).md_received() == old(self).md_received()
                    && final(self).payload_received() == old(self).payload_received() + chunk@,
    {
        if chunk.len() == 0 {
            if self.md_buf.len() == self.md_len as usize && self.payload_buf.len() as u64
                == self.payload_len {
                return Ok(());
            }
            return Err(
                RawdogError::Io("connection closed before the declared frame length".to_owned()),
            );
        }
        let mut incoming = slice_to_vec(chunk);
        if self.md_buf.len() < self.md_len as usize {
            self.md_buf.append(&mut incoming);
        } else {
            self.payload_buf.append(&mut incoming);
        }
        Ok(())
    }

    /// Hands the two completed blocks out, metadata first.
    pub fn into_blocks(self) -> (r: (Vec<u8>, Vec<u8>))
        requires
            self.spec_done(),
        ensures
            r.0@ == self.md_received(),
            r.1@ == self.payload_received(),
            r.0@.len() == self.spec_md_len(),
            r.1@.len() == self.spec_payload_len(),
    {
        (self.md_buf, self.payload_buf)
    }
}

} // verus!
