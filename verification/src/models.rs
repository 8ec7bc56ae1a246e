//! Value types carried in a Rawdog exchange: the request metadata header and
//! the response status message.

use vstd::prelude::*;

verus! {

use vstd::string::StrSliceExecFns;

/// Metadata header sent with every request and echoed back in a response.
/// On the wire it is the UTF-8 JSON object
/// `{"agentname": ..., "endpoint": ..., "addldata": ...}`.
#[derive(Debug, Clone, PartialEq)]
pub struct TcpHeader {
    /// Name of the agent making the request, akin to HTTP's `User-Agent`.
    pub agentname: String,
    /// Identifier of the endpoint the request is addressed to.
    pub endpoint: i64,
    /// Free-form additional metadata sent with the request.
    pub addldata: String,
}

/// Status envelope carried, base64-encoded, in the payload block of a
/// response: a numeric code plus a human-readable message. A code of 400 or
/// above marks the exchange as failed.
#[derive(Debug, Clone, PartialEq)]
pub struct TcpStatusMessage {
    pub code: i64,
    pub message: String,
}

/// The characters `str::trim` strips: Unicode white space.
pub open spec fn is_space_char(c: char) -> bool {
    c == '\u{0009}' || c == '\u{000A}' || c == '\u{000B}' || c == '\u{000C}' || c == '\u{000D}'
        || c == '\u{0020}' || c == '\u{0085}' || c == '\u{00A0}' || c == '\u{1680}' || (
    '\u{2000}' <= c && c <= '\u{200A}') || c == '\u{2028}' || c == '\u{2029}' || c == '\u{202F}'
        || c == '\u{205F}' || c == '\u{3000}'
}

/// Whether some character of `s` is not white space, i.e. whether `s`
/// trimmed of surrounding white space would be non-empty.
pub open spec fn has_visible_char(s: Seq<char>) -> bool {
    exists|i: int| 0 <= i < s.len() && !is_space_char(s[i])
}

/// Runtime check matching [`is_space_char`].
fn is_space(c: char) -> (r: bool)
    ensures
        r == is_space_char(c),
{
    c == '\u{0009}' || c == '\u{000A}' || c == '\u{000B}' || c == '\u{000C}' || c == '\u{000D}'
        || c == '\u{0020}' || c == '\u{0085}' || c == '\u{00A0}' || c == '\u{1680}' || (
    '\u{2000}' <= c && c <= '\u{200A}') || c == '\u{2028}' || c == '\u{2029}' || c == '\u{202F}'
        || c == '\u{205F}' || c == '\u{3000}'
}

/// Runtime check matching [`has_visible_char`]: true when some character of
/// `s` is not white space.
pub fn str_has_visible_char(s: &str) -> (r: bool)
    ensures
        r == has_visible_char(s@),
{
    let n: usize = s.unicode_len();
    let mut i: usize = 0;
    while i < n
        invariant
            n == s@.len(),
            0 <= i <= n,
            forall|j: int| 0 <= j < i ==> is_space_char(s@[j]),
        decreases n - i,
    {
        let c = s.get_char(i);
        if !is_space(c) {
            return true;
        }
        i = i + 1;
    }
    false
}

impl Default for TcpHeader {
    /// The all-empty header: empty agent name, endpoint 0, empty extra data.
    fn default() -> (r: Self)
        ensures
            r.agentname@ == Seq::<char>::empty(),
            r.endpoint == 0,
            r.addldata@ == Seq::<char>::empty(),
    {
        TcpHeader { agentname: String::new(), endpoint: 0, addldata: String::new() }
    }
}

impl Default for TcpStatusMessage {
    /// The neutral status: code 200 with an empty message.
    fn default() -> (r: Self)
        ensures
            r.code == 200,
            r.message@ == Seq::<char>::empty(),
    {
        TcpStatusMessage { code: 200, message: String::new() }
    }
}

impl TcpStatusMessage {
    /// Whether the message, trimmed of surrounding white space, is non-empty.
    pub fn has_message(&self) -> (r: bool)
        ensures
            r == has_visible_char(self.message@),
    {
        str_has_visible_char(self.message.as_str())
    }

    /// Whether the status code denotes a protocol-level failure (400 or
    /// above).
    pub fn is_error(&self) -> (r: bool)
        ensures
            r == (self.code >= 400),
    {
        self.code >= 400
    }
}

} // verus!
