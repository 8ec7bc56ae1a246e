//! Verified JSON encoding of the request metadata header. The header's wire
//! shape is the fixed object `{"agentname":...,"endpoint":...,"addldata":...}`
//! with string values escaped as JSON requires, so the encoder is stated
//! byte-exactly rather than delegated.

use vstd::prelude::*;

use crate::models::TcpHeader;

verus! {

use vstd::utf8::encode_utf8;

/// Lower-case hexadecimal digit for a value below 16.
pub open spec fn spec_hex_digit(n: u8) -> u8
    recommends
        n < 16,
{
    if n < 10 {
        (48 + n) as u8
    } else {
        (87 + n) as u8
    }
}

/// How one byte of a string value appears inside a JSON string literal:
/// quote and backslash get a backslash escape, the five control characters
/// with short escapes use them, any other control character becomes
/// `\u00XX`, and every remaining byte stands as itself.
pub open spec fn spec_escape_byte(b: u8) -> Seq<u8> {
    if b == 34 {
        seq![92u8, 34u8]
    } else if b == 92 {
        seq![92u8, 92u8]
    } else if b == 8 {
        seq![92u8, 98u8]
    } else if b == 9 {
        seq![92u8, 116u8]
    } else if b == 10 {
        seq![92u8, 110u8]
    } else if b == 12 {
        seq![92u8, 102u8]
    } else if b == 13 {
        seq![92u8, 114u8]
    } else if b < 32 {
        seq![92u8, 117u8, 48u8, 48u8, spec_hex_digit(b / 16), spec_hex_digit(b % 16)]
    } else {
        seq![b]
    }
}

/// A byte sequence with every byte escaped as JSON string content.
pub open spec fn spec_escaped(s: Seq<u8>) -> Seq<u8>
    decreases s.len(),
{
    if s.len() == 0 {
        Seq::empty()
    } else {
        spec_escape_byte(s[0]) + spec_escaped(s.skip(1))
    }
}

/// Escaping distributes over concatenation.
pub proof fn lemma_escaped_concat(a: Seq<u8>, b: Seq<u8>)
    ensures
        spec_escaped(a + b) == spec_escaped(a) + spec_escaped(b),
    decreases a.len(),
{
    if a.len() == 0 {
        assert(a + b =~= b);
        assert(spec_escaped(a) + spec_escaped(b) =~= spec_escaped(b));
    } else {
        assert((a + b).skip(1) =~= a.skip(1) + b);
        lemma_escaped_concat(a.skip(1), b);
        assert(spec_escaped(a + b) =~= spec_escape_byte(a[0]) + (spec_escaped(a.skip(1))
            + spec_escaped(b)));
        assert(spec_escape_byte(a[0]) + (spec_escaped(a.skip(1)) + spec_escaped(b))
            =~= (spec_escape_byte(a[0]) + spec_escaped(a.skip(1))) + spec_escaped(b));
    }
}

/// A JSON string literal: the escaped bytes between double quotes.
pub open spec fn spec_json_string(s: Seq<u8>) -> Seq<u8> {
    seq![34u8] + spec_escaped(s) + seq![34u8]
}

/// The decimal digits of a natural number, most significant first.
pub open spec fn spec_dec_digits(n: nat) -> Seq<u8>
    decreases n,
{
    if n < 10 {
        seq![(48 + n) as u8]
    } else {
        spec_dec_digits(n / 10) + seq![(48 + n % 10) as u8]
    }
}

/// The decimal form of a 64-bit signed integer: a minus sign for negative
/// values, then the digits of the magnitude.
pub open spec fn spec_dec_i64(v: i64) -> Seq<u8> {
    if v < 0 {
        seq![45u8] + spec_dec_digits((-(v as int)) as nat)
    } else {
        spec_dec_digits(v as nat)
    }
}

/// The exact bytes of the JSON encoding of a header: the three fields in
/// declaration order, string values escaped, the endpoint in decimal.
pub open spec fn spec_header_json(h: TcpHeader) -> Seq<u8> {
    encode_utf8("{\"agentname\":"@) + spec_json_string(encode_utf8(h.agentname@)) + encode_utf8(
        ",\"endpoint\":"@,
    ) + spec_dec_i64(h.endpoint) + encode_utf8(",\"addldata\":"@) + spec_json_string(
        encode_utf8(h.addldata@),
    ) + encode_utf8("}"@)
}

/// Lower-case hexadecimal digit for a value below 16.
fn hex_digit(n: u8) -> (r: u8)
    requires
        n < 16,
    ensures
        r == spec_hex_digit(n),
{
    if n < 10 {
        48 + n
    } else {
        87 + n
    }
}

/// Appends the bytes of `s` escaped as JSON string content.
fn push_escaped(out: &mut Vec<u8>, s: &[u8])
    ensures
        final(out)@ == old(out)@ + spec_escaped(s@),
{
    let n: usize = s.len();
    let mut i: usize = 0;
    while i < n
        invariant
            n == s@.len(),
            0 <= i <= n,
            out@ == old(out)@ + spec_escaped(s@.take(i as int)),
        decreases n - i,
    {
        let b: u8 = s[i];
        if b == 34 {
            out.push(92);
            out.push(34);
        } else if b == 92 {
            out.push(92);
            out.push(92);
        } else if b == 8 {
            out.push(92);
            out.push(98);
        } else if b == 9 {
            out.push(92);
            out.push(116);
        } else if b == 10 {
            out.push(92);
            out.push(110);
        } else if b == 12 {
            out.push(92);
            out.push(102);
        } else if b == 13 {
            out.push(92);
            out.push(114);
        } else if b < 32 {
            out.push(92);
            out.push(117);
            out.push(48);
            out.push(48);
            out.push(hex_digit(b / 16));
            out.push(hex_digit(b % 16));
        } else {
            out.push(b);
        }
        proof {
            assert(s@.take(i + 1) =~= s@.take(i as int) + seq![s@[i as int]]);
            lemma_escaped_concat(s@.take(i as int), seq![s@[i as int]]);
            assert(seq![s@[i as int]].skip(1) =~= Seq::<u8>::empty());
            assert(spec_escaped(Seq::<u8>::empty()) =~= Seq::<u8>::empty());
            assert(spec_escaped(seq![s@[i as int]]) =~= spec_escape_byte(s@[i as int]));
            assert(out@ =~= old(out)@ + spec_escaped(s@.take(i + 1)));
        }
        i = i + 1;
    }
    proof {
        assert(s@.take(n as int) =~= s@);
    }
}

/// Appends a JSON string literal holding the bytes of `s`.
fn push_json_string(out: &mut Vec<u8>, s: &str)
    ensures
        final(out)@ == old(out)@ + spec_json_string(encode_utf8(s@)),
{
    out.push(34);
    push_escaped(out, s.as_bytes());
    out.push(34);
    proof {
        assert(out@ =~= old(out)@ + spec_json_string(encode_utf8(s@)));
    }
}

/// Appends the decimal digits of `n`, most significant first.
fn push_dec_u64(out: &mut Vec<u8>, n: u64)
    ensures
        final(out)@ == old(out)@ + spec_dec_digits(n as nat),
    decreases n,
{
    if n < 10 {
        out.push(48 + n as u8);
    } else {
        push_dec_u64(out, n / 10);
        out.push(48 + (n % 10) as u8);
        proof {
            assert(out@ =~= old(out)@ + spec_dec_digits(n as nat));
        }
    }
}

/// Appends the decimal form of a 64-bit signed integer.
fn push_dec_i64(out: &mut Vec<u8>, v: i64)
    ensures
        final(out)@ == old(out)@ + spec_dec_i64(v),
{
    if v >= 0 {
        push_dec_u64(out, v as u64);
    } else {
        out.push(45);
        let m: u64 = ((-(v + 1)) as u64) + 1;
        assert(m as nat == (-(v as int)) as nat);
        push_dec_u64(out, m);
        proof {
            assert(out@ =~= old(out)@ + spec_dec_i64(v));
        }
    }
}

/// Appends the bytes of a string slice unchanged.
fn push_str_bytes(out: &mut Vec<u8>, s: &str)
    ensures
        final(out)@ == old(out)@ + encode_utf8(s@),
{
    out.extend_from_slice(s.as_bytes());
}

/// Encodes a header as the UTF-8 JSON bytes the protocol sends as the
/// metadata block: exactly [`spec_header_json`].
pub fn encode_header_json(h: &TcpHeader) -> (r: Vec<u8>)
    ensures
        r@ == spec_header_json(*h),
{
    let mut out: Vec<u8> = Vec::new();
    push_str_bytes(&mut out, "{\"agentname\":");
    push_json_string(&mut out, h.agentname.as_str());
    push_str_bytes(&mut out, ",\"endpoint\":");
    push_dec_i64(&mut out, h.endpoint);
    push_str_bytes(&mut out, ",\"addldata\":");
    push_json_string(&mut out, h.addldata.as_str());
    push_str_bytes(&mut out, "}");
    proof {
        assert(out@ =~= spec_header_json(*h));
    }
    out
}

} // verus!
