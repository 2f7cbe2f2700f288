//! The per-connection request pipeline: control and format validation,
//! content-block decoding, and response construction.
//!
//! A connection carries exactly one request and one response. The binary
//! around the library does the socket reads and writes and the call into
//! the rendering engine; every decision between those steps is made here.

use crate::codec::Header;
use crate::json::{spec_status_json, status_json_bytes};
use vstd::prelude::*;
use vstd::utf8::{decode_utf8, encode_utf8, valid_utf8};

verus! {

/// Request control byte: parse a template.
pub const CTRL_PARSE_TEMPLATE: u8 = 10;

/// Response control byte: success.
pub const CTRL_STATUS_OK: u8 = 0;

/// Response control byte: general error.
pub const CTRL_STATUS_KO: u8 = 1;

/// Content-format tag: JSON text.
pub const CONTENT_JSON: u8 = 10;

/// Content-format tag: a file path.
pub const CONTENT_PATH: u8 = 20;

/// Content-format tag: plain text.
pub const CONTENT_TEXT: u8 = 30;

/// Content-format tag: opaque binary data.
pub const CONTENT_BIN: u8 = 40;

/// A transport-level failure. Each one is fatal to its connection: the
/// socket is closed without a response. Rendering-level failures are not
/// transport errors; they travel in the response status body instead.
#[derive(Clone, Copy, Debug, PartialEq, Eq, Structural)]
pub enum ProtocolError {
    /// Fewer than 12 bytes were available where a header was expected.
    HeaderTooShort,
    /// The control byte names no supported action.
    UnsupportedControl,
    /// A content-format tag does not fit the requested action.
    InvalidContentFormat,
    /// A content block is not valid UTF-8 text.
    Utf8DecodeError,
    /// A socket read or write failed.
    IOError,
    /// The rendering engine could not be set up for the request.
    RenderError,
    /// A response body is longer than a header length field can carry.
    ContentTooLarge,
}

/// The diagnostic line for each failure.
pub open spec fn spec_error_message(e: ProtocolError) -> Seq<char> {
    match e {
        ProtocolError::HeaderTooShort => "Invalid header format"@,
        ProtocolError::UnsupportedControl => "Unsupported control code"@,
        ProtocolError::InvalidContentFormat => "Invalid content format"@,
        ProtocolError::Utf8DecodeError => "Failed to parse content as UTF-8"@,
        ProtocolError::IOError => "Socket read or write failed"@,
        ProtocolError::RenderError => "Failed to set up the template engine"@,
        ProtocolError::ContentTooLarge => "Response content too large"@,
    }
}

impl ProtocolError {
    /// The diagnostic line for this failure, for the operator-visible
    /// error stream.
    pub fn message(&self) -> (r: &'static str)
        ensures
            r@ == spec_error_message(*self),
    {
        match self {
            ProtocolError::HeaderTooShort => "Invalid header format",
            ProtocolError::UnsupportedControl => "Unsupported control code",
            ProtocolError::InvalidContentFormat => "Invalid content format",
            ProtocolError::Utf8DecodeError => "Failed to parse content as UTF-8",
            ProtocolError::IOError => "Socket read or write failed",
            ProtocolError::RenderError => "Failed to set up the template engine",
            ProtocolError::ContentTooLarge => "Response content too large",
        }
    }
}

/// A request header asks for the one supported action with the content
/// formats that action requires: a JSON schema first, then a template
/// source that is either plain text or a file path.
pub open spec fn valid_request_header(h: Header) -> bool {
    &&& h.control == CTRL_PARSE_TEMPLATE
    &&& h.content_format_1 == CONTENT_JSON
    &&& (h.content_format_2 == CONTENT_TEXT || h.content_format_2 == CONTENT_PATH)
}

/// Validates the control byte and the content-format tags of a request
/// header, exactly as the connection handler does before reading any
/// content: an unknown action is rejected first, then a first block that
/// is not JSON, then a second block that is neither text nor a path.
pub fn validate_request(h: &Header) -> (r: Result<(), ProtocolError>)
    ensures
        r is Ok <==> valid_request_header(*h),
        h.control != CTRL_PARSE_TEMPLATE ==> r == Err::<(), ProtocolError>(
            ProtocolError::UnsupportedControl,
        ),
        h.control == CTRL_PARSE_TEMPLATE && !valid_request_header(*h) ==> r == Err::<
            (),
            ProtocolError,
        >(ProtocolError::InvalidContentFormat),
{
    if h.control != CTRL_PARSE_TEMPLATE {
        return Err(ProtocolError::UnsupportedControl);
    }
    if h.content_format_1 != CONTENT_JSON {
        return Err(ProtocolError::InvalidContentFormat);
    }
    if h.content_format_2 != CONTENT_TEXT && h.content_format_2 != CONTENT_PATH {
        return Err(ProtocolError::InvalidContentFormat);
    }
    Ok(())
}

/// Relies on `String::from_utf8`: it succeeds exactly on valid UTF-8
/// input and returns the characters those bytes encode.
#[verifier::external_body]
fn bytes_to_string(v: Vec<u8>) -> (r: Option<String>)
    ensures
        r is Some <==> valid_utf8(v@),
        r is Some ==> r->0@ == decode_utf8(v@),
{
    String::from_utf8(v).ok()
}

/// Decodes one content block as UTF-8 text; fails exactly when the bytes
/// are not valid UTF-8, which is fatal to the connection.
pub fn decode_text_block(bytes: Vec<u8>) -> (r: Result<String, ProtocolError>)
    ensures
        r is Ok <==> valid_utf8(bytes@),
        r matches Ok(s) ==> s@ == decode_utf8(bytes@) && encode_utf8(s@) == bytes@,
        r is Err ==> r == Err::<String, ProtocolError>(ProtocolError::Utf8DecodeError),
{
    match bytes_to_string(bytes) {
        Some(s) => {
            proof {
                vstd::utf8::decode_utf8_encode_utf8(bytes@);
            }
            Ok(s)
        },
        None => Err(ProtocolError::Utf8DecodeError),
    }
}

/// A decoded request, ready to hand to the rendering engine: the schema
/// text from the first block, the template source from the second, and
/// the source's format tag (plain text or file path).
pub struct RenderRequest {
    /// The JSON schema document, decoded from content block 1.
    pub schema: String,
    /// The template source, decoded from content block 2: inline text or
    /// a path to load, according to `source_kind`.
    pub source: String,
    /// The format tag of content block 2.
    pub source_kind: u8,
}

/// Decodes the two content blocks of a validated request into the texts
/// the rendering engine takes. Fails exactly when a block is not valid
/// UTF-8; block 1 is decoded first, as it is read first from the socket.
pub fn decode_request(header: &Header, block1: Vec<u8>, block2: Vec<u8>) -> (r: Result<
    RenderRequest,
    ProtocolError,
>)
    requires
        valid_request_header(*header),
        block1@.len() == header.content_length_1,
        block2@.len() == header.content_length_2,
    ensures
        r is Ok <==> valid_utf8(block1@) && valid_utf8(block2@),
        r matches Ok(q) ==> q.schema@ == decode_utf8(block1@) && q.source@ == decode_utf8(block2@)
            && q.source_kind == header.content_format_2,
        r is Err ==> r == Err::<RenderRequest, ProtocolError>(ProtocolError::Utf8DecodeError),
{
    let schema = match decode_text_block(block1) {
        Ok(s) => s,
        Err(e) => { return Err(e) },
    };
    let source = match decode_text_block(block2) {
        Ok(s) => s,
        Err(e) => { return Err(e) },
    };
    Ok(RenderRequest { schema, source, source_kind: header.content_format_2 })
}

/// The status descriptor the rendering engine reports for one render:
/// an error flag and three status strings. The connection handler never
/// interprets these; it only serializes them into the response body.
#[derive(Clone, Debug)]
pub struct RenderStatus {
    /// Whether the render reported an error.
    pub has_error: bool,
    /// The engine's status code, as text.
    pub status_code: String,
    /// The engine's status text.
    pub status_text: String,
    /// The engine's status parameter.
    pub status_param: String,
}

/// A complete response: its header and the two content blocks, ready to
/// be written to the socket in that order as one logical message.
pub struct Response {
    /// The response header: success control byte, JSON then plaintext
    /// tags, and the exact lengths of the two bodies.
    pub header: Header,
    /// Content block 1: the JSON status body.
    pub body1: Vec<u8>,
    /// Content block 2: the rendered output text, possibly empty.
    pub body2: Vec<u8>,
}

/// A well-formed response: reserved byte zero, success status, a JSON
/// first block and a plaintext second block, each length field equal to
/// the byte length of its block.
pub open spec fn response_wf(r: Response) -> bool {
    &&& r.header.reserved == 0
    &&& r.header.control == CTRL_STATUS_OK
    &&& r.header.content_format_1 == CONTENT_JSON
    &&& r.header.content_format_2 == CONTENT_TEXT
    &&& r.header.content_length_1 == r.body1@.len()
    &&& r.header.content_length_2 == r.body2@.len()
}

/// The full wire form of a response: its header's 12 bytes, then the
/// status body, then the rendered text, in that order.
pub open spec fn spec_response_bytes(r: Response) -> Seq<u8> {
    crate::codec::spec_header_bytes(r.header) + r.body1@ + r.body2@
}

impl Response {
    /// Serializes the whole response in the order the peer must observe
    /// it: header bytes, JSON status body, rendered text, back to back.
    pub fn wire_bytes(&self) -> (r: Vec<u8>)
        ensures
            r@ == spec_response_bytes(*self),
    {
        let mut out: Vec<u8> = Vec::new();
        let hb = self.header.to_bytes();
        crate::json::append_bytes(&mut out, hb.as_slice());
        crate::json::append_bytes(&mut out, self.body1.as_slice());
        crate::json::append_bytes(&mut out, self.body2.as_slice());
        proof {
            assert(out@ =~= spec_response_bytes(*self));
        }
        out
    }
}

/// A well-formed response's wire form is self-describing: the peer that
/// reads the frame back recovers exactly the header, the status body and
/// the rendered text, in the order and at the lengths the header declares.
pub proof fn lemma_response_framing(resp: Response)
    requires
        response_wf(resp),
    ensures
        ({
            let w = spec_response_bytes(resp);
            &&& w.len() == crate::codec::HEADER_SIZE + resp.body1@.len() + resp.body2@.len()
            &&& crate::codec::spec_header_of(w) == resp.header
            &&& w.subrange(
                crate::codec::HEADER_SIZE as int,
                crate::codec::HEADER_SIZE + resp.body1@.len(),
            ) == resp.body1@
            &&& w.subrange(crate::codec::HEADER_SIZE + resp.body1@.len(), w.len() as int)
                == resp.body2@
        }),
{
    crate::codec::lemma_frame_roundtrip(resp.header, resp.body1@, resp.body2@);
    assert(spec_response_bytes(resp) =~= crate::codec::spec_header_bytes(resp.header)
        + resp.body1@ + resp.body2@);
}

/// Builds the response for a completed render: the serialized status
/// body as block 1 and the rendered text as block 2. Fails exactly when
/// a body would not fit a 32-bit length field.
pub fn build_response(status: &RenderStatus, rendered: &str) -> (r: Result<
    Response,
    ProtocolError,
>)
    ensures
        r is Ok <==> spec_status_json(
            status.has_error,
            status.status_code@,
            status.status_text@,
            status.status_param@,
        ).len() <= u32::MAX && encode_utf8(rendered@).len() <= u32::MAX,
        r matches Ok(resp) ==> response_wf(resp) && resp.body1@ == spec_status_json(
            status.has_error,
            status.status_code@,
            status.status_text@,
            status.status_param@,
        ) && resp.body2@ == encode_utf8(rendered@),
        r is Err ==> r == Err::<Response, ProtocolError>(ProtocolError::ContentTooLarge),
{
    let body1 = status_json_bytes(
        status.has_error,
        status.status_code.as_str(),
        status.status_text.as_str(),
        status.status_param.as_str(),
    );
    let body2 = vstd::slice::slice_to_vec(rendered.as_bytes());
    if body1.len() > u32::MAX as usize || body2.len() > u32::MAX as usize {
        return Err(ProtocolError::ContentTooLarge);
    }
    let header = Header {
        reserved: 0,
        control: CTRL_STATUS_OK,
        content_format_1: CONTENT_JSON,
        content_length_1: body1.len() as u32,
        content_format_2: CONTENT_TEXT,
        content_length_2: body2.len() as u32,
    };
    Ok(Response { header, body1, body2 })
}

} // verus!
