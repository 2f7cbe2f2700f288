//! Verified serialization of the response status body.
//!
//! The response's first content block is a compact JSON object with the
//! four status fields the rendering engine reports, its keys in sorted
//! order. String values are escaped the usual JSON way: quote, backslash
//! and the named control characters get a two-character escape, any other
//! control character a `\u00..` escape; all other bytes pass unchanged.

use vstd::prelude::*;
use vstd::utf8::encode_utf8;

verus! {

/// The ASCII code of the lower-case hex digit for `n`.
pub open spec fn spec_hex_digit(n: u8) -> u8
    recommends
        n < 16,
{
    if n < 10 {
        (0x30 + n) as u8
    } else {
        (0x57 + n) as u8
    }
}

/// The JSON escape of one byte of UTF-8 text. Continuation and lead bytes
/// of multi-byte characters are at least 0x80, so escaping byte by byte
/// touches exactly the ASCII characters JSON requires to be escaped.
pub open spec fn spec_escape_byte(b: u8) -> Seq<u8> {
    if b == 0x22 {  // quote
        seq![0x5cu8, 0x22u8]
    } else if b == 0x5c {  // backslash
        seq![0x5cu8, 0x5cu8]
    } else if b == 0x08 {  // backspace
        seq![0x5cu8, 0x62u8]
    } else if b == 0x09 {  // tab
        seq![0x5cu8, 0x74u8]
    } else if b == 0x0a {  // line feed
        seq![0x5cu8, 0x6eu8]
    } else if b == 0x0c {  // form feed
        seq![0x5cu8, 0x66u8]
    } else if b == 0x0d {  // carriage return
        seq![0x5cu8, 0x72u8]
    } else if b < 0x20 {  // other control characters
        seq![0x5cu8, 0x75u8, 0x30u8, 0x30u8, spec_hex_digit(b / 16), spec_hex_digit(b % 16)]
    } else {
        seq![b]
    }
}

/// The JSON escape of a whole byte sequence.
pub open spec fn spec_escape_bytes(s: Seq<u8>) -> Seq<u8>
    decreases s.len(),
{
    if s.len() == 0 {
        Seq::empty()
    } else {
        spec_escape_byte(s[0]) + spec_escape_bytes(s.drop_first())
    }
}

/// Escaping a nonempty sequence escapes everything but its last byte,
/// then that byte.
proof fn lemma_escape_bytes_snoc(s: Seq<u8>)
    requires
        s.len() > 0,
    ensures
        spec_escape_bytes(s) == spec_escape_bytes(s.drop_last()) + spec_escape_byte(s.last()),
    decreases s.len(),
{
    if s.len() == 1 {
        assert(s.drop_last() =~= Seq::<u8>::empty());
        assert(s.drop_first() =~= Seq::<u8>::empty());
        assert(spec_escape_bytes(s) =~= spec_escape_bytes(s.drop_last()) + spec_escape_byte(
            s.last(),
        ));
    } else {
        lemma_escape_bytes_snoc(s.drop_first());
        assert(s.drop_first().drop_last() =~= s.drop_last().drop_first());
        assert(s.drop_last()[0] == s[0]);
        assert(spec_escape_bytes(s) =~= spec_escape_bytes(s.drop_last()) + spec_escape_byte(
            s.last(),
        ));
    }
}

/// The byte of the lower-case hex digit for `n`.
fn hex_digit(n: u8) -> (r: u8)
    requires
        n < 16,
    ensures
        r == spec_hex_digit(n),
{
    if n < 10 {
        0x30 + n
    } else {
        0x57 + n
    }
}

/// Appends the JSON escape of `s` to `out`.
pub fn escape_into(out: &mut Vec<u8>, s: &[u8])
    ensures
        final(out)@ == old(out)@ + spec_escape_bytes(s@),
{
    let mut i: usize = 0;
    proof {
        assert(s@.take(0) =~= Seq::<u8>::empty());
        assert(out@ =~= out@ + spec_escape_bytes(s@.take(0)));
    }
    while i < s.len()
        invariant
            i <= s@.len(),
            out@ == old(out)@ + spec_escape_bytes(s@.take(i as int)),
        decreases s@.len() - i,
    {
        let b = s[i];
        if b == 0x22 {
            out.push(0x5c);
            out.push(0x22);
        } else if b == 0x5c {
            out.push(0x5c);
            out.push(0x5c);
        } else if b == 0x08 {
            out.push(0x5c);
            out.push(0x62);
        } else if b == 0x09 {
            out.push(0x5c);
            out.push(0x74);
        } else if b == 0x0a {
            out.push(0x5c);
            out.push(0x6e);
        } else if b == 0x0c {
            out.push(0x5c);
            out.push(0x66);
        } else if b == 0x0d {
            out.push(0x5c);
            out.push(0x72);
        } else if b < 0x20 {
            out.push(0x5c);
            out.push(0x75);
            out.push(0x30);
            out.push(0x30);
            out.push(hex_digit(b / 16));
            out.push(hex_digit(b % 16));
        } else {
            out.push(b);
        }
        proof {
            lemma_escape_bytes_snoc(s@.take(i as int + 1));
            assert(s@.take(i as int + 1).drop_last() =~= s@.take(i as int));
            assert(s@.take(i as int + 1).last() == s@[i as int]);
            assert(out@ =~= old(out)@ + spec_escape_bytes(s@.take(i as int + 1)));
        }
        i = i + 1;
    }
    proof {
        assert(s@.take(s@.len() as int) =~= s@);
    }
}

/// Appends a byte slice to `out`.
pub fn append_bytes(out: &mut Vec<u8>, s: &[u8])
    ensures
        final(out)@ == old(out)@ + s@,
{
    let mut i: usize = 0;
    proof {
        assert(out@ =~= out@ + s@.take(0));
    }
    while i < s.len()
        invariant
            i <= s@.len(),
            out@ == old(out)@ + s@.take(i as int),
        decreases s@.len() - i,
    {
        out.push(s[i]);
        proof {
            assert(out@ =~= old(out)@ + s@.take(i as int + 1));
        }
        i = i + 1;
    }
    proof {
        assert(s@.take(s@.len() as int) =~= s@);
    }
}

/// Appends the UTF-8 bytes of `s` to `out`.
pub fn append_str_bytes(out: &mut Vec<u8>, s: &str)
    ensures
        final(out)@ == old(out)@ + encode_utf8(s@),
{
    append_bytes(out, s.as_bytes());
}

/// The JSON spelling of a boolean, as bytes.
pub open spec fn spec_bool_bytes(b: bool) -> Seq<u8> {
    if b {
        encode_utf8("true"@)
    } else {
        encode_utf8("false"@)
    }
}

/// The whole response status body: a compact JSON object with the keys
/// `has_error`, `status_code`, `status_param` and `status_text`, in
/// sorted order, the three string values JSON-escaped.
pub open spec fn spec_status_json(
    has_error: bool,
    code: Seq<char>,
    text: Seq<char>,
    param: Seq<char>,
) -> Seq<u8> {
    encode_utf8("{\"has_error\":"@) + spec_bool_bytes(has_error) + encode_utf8(
        ",\"status_code\":\""@,
    ) + spec_escape_bytes(encode_utf8(code)) + encode_utf8("\",\"status_param\":\""@)
        + spec_escape_bytes(encode_utf8(param)) + encode_utf8("\",\"status_text\":\""@)
        + spec_escape_bytes(encode_utf8(text)) + encode_utf8("\"}"@)
}

/// Serializes the response status body.
pub fn status_json_bytes(has_error: bool, code: &str, text: &str, param: &str) -> (r: Vec<u8>)
    ensures
        r@ == spec_status_json(has_error, code@, text@, param@),
{
    let mut out: Vec<u8> = Vec::new();
    append_str_bytes(&mut out, "{\"has_error\":");
    if has_error {
        append_str_bytes(&mut out, "true");
    } else {
        append_str_bytes(&mut out, "false");
    }
    append_str_bytes(&mut out, ",\"status_code\":\"");
    escape_into(&mut out, code.as_bytes());
    append_str_bytes(&mut out, "\",\"status_param\":\"");
    escape_into(&mut out, param.as_bytes());
    append_str_bytes(&mut out, "\",\"status_text\":\"");
    escape_into(&mut out, text.as_bytes());
    append_str_bytes(&mut out, "\"}");
    proof {
        assert(out@ =~= spec_status_json(has_error, code@, text@, param@));
    }
    out
}

} // verus!
