//! The outbound content-coding decision: which request bodies go out as they
//! are and which are refused before any connection is made.
use vstd::prelude::*;
use crate::bytes::{is_visible, is_visible_text, lower_bytes, same_bytes};
use crate::headers::{first_value, Headers};

verus! {

/// `content-encoding`
pub open spec fn content_encoding_name() -> Seq<u8> {
    seq![99u8, 111, 110, 116, 101, 110, 116, 45, 101, 110, 99, 111, 100, 105, 110, 103]
}

/// `accept-encoding`
pub open spec fn accept_encoding_name() -> Seq<u8> {
    seq![97u8, 99, 99, 101, 112, 116, 45, 101, 110, 99, 111, 100, 105, 110, 103]
}

/// `identity`
pub open spec fn identity_token() -> Seq<u8> {
    seq![105u8, 100, 101, 110, 116, 105, 116, 121]
}

/// `gzip`
pub open spec fn gzip_token() -> Seq<u8> {
    seq![103u8, 122, 105, 112]
}

/// `br`
pub open spec fn brotli_token() -> Seq<u8> {
    seq![98u8, 114]
}

/// `deflate`
pub open spec fn deflate_token() -> Seq<u8> {
    seq![100u8, 101, 102, 108, 97, 116, 101]
}

/// `gzip, br, deflate`: the codings advertised for response bodies.
pub open spec fn accepted_encodings() -> Seq<u8> {
    seq![103u8, 122, 105, 112, 44, 32, 98, 114, 44, 32, 100, 101, 102, 108, 97, 116, 101]
}

pub fn content_encoding_header() -> (r: Vec<u8>)
    ensures
        r@ == content_encoding_name(),
{
    vec![99u8, 111, 110, 116, 101, 110, 116, 45, 101, 110, 99, 111, 100, 105, 110, 103]
}

pub fn accept_encoding_header() -> (r: Vec<u8>)
    ensures
        r@ == accept_encoding_name(),
{
    vec![97u8, 99, 99, 101, 112, 116, 45, 101, 110, 99, 111, 100, 105, 110, 103]
}

pub fn accepted_encodings_value() -> (r: Vec<u8>)
    ensures
        r@ == accepted_encodings(),
{
    vec![103u8, 122, 105, 112, 44, 32, 98, 114, 44, 32, 100, 101, 102, 108, 97, 116, 101]
}

/// Why an outbound content coding was refused.
#[derive(Clone, Copy, Debug, PartialEq, Eq, Structural)]
pub enum EncodingFailure {
    /// The header value does not read as text.
    Malformed,
    /// A coding this client recognises (gzip, br, deflate) but has no encoder for.
    NoEncoder,
    /// A coding this client does not know.
    Unknown,
}

/// An outbound `Content-Encoding` that the request cannot be sent with.
#[derive(Clone, Debug)]
pub struct EncodingError {
    /// The header value, as it stood on the request.
    pub encoding: Vec<u8>,
    pub failure: EncodingFailure,
}

/// The refusal reason for a coding other than `identity`.
pub open spec fn failure_of(coding: Seq<u8>) -> EncodingFailure {
    if !is_visible_text(coding) {
        EncodingFailure::Malformed
    } else if coding == gzip_token() || coding == brotli_token() || coding == deflate_token() {
        EncodingFailure::NoEncoder
    } else {
        EncodingFailure::Unknown
    }
}

/// The coding that a message's `Content-Encoding` names, if any.
pub open spec fn outbound_coding(headers: Seq<(Seq<u8>, Seq<u8>)>) -> Option<Seq<u8>> {
    first_value(headers, content_encoding_name())
}

/// A body goes out unchanged when no coding is named or the coding is `identity`.
pub open spec fn sends_unchanged(headers: Seq<(Seq<u8>, Seq<u8>)>) -> bool {
    match outbound_coding(headers) {
        None => true,
        Some(c) => c == identity_token(),
    }
}

proof fn lemma_lower_content_encoding()
    ensures
        lower_bytes(content_encoding_name()) == content_encoding_name(),
{
    assert(lower_bytes(content_encoding_name()) =~= content_encoding_name());
}

/// Applies the outbound coding that the request's `Content-Encoding` names to
/// a buffered body: `identity`, or no such header, sends the bytes as they are;
/// any other value is refused with the value and the reason.
pub fn compress(body: Vec<u8>, headers: &Headers) -> (r: Result<Vec<u8>, EncodingError>)
    ensures
        sends_unchanged(headers@) <==> r is Ok,
        r matches Ok(b) ==> b@ == body@,
        r matches Err(e) ==> outbound_coding(headers@) == Some(e.encoding@) && e.failure
            == failure_of(e.encoding@),
{
    let name = content_encoding_header();
    proof {
        lemma_lower_content_encoding();
    }
    match headers.get(name.as_slice()) {
        None => Ok(body),
        Some(value) => {
            let identity: Vec<u8> = vec![105u8, 100, 101, 110, 116, 105, 116, 121];
            if same_bytes(value.as_slice(), identity.as_slice()) {
                return Ok(body);
            }
            let failure = if !is_visible(value.as_slice()) {
                EncodingFailure::Malformed
            } else {
                let gzip: Vec<u8> = vec![103u8, 122, 105, 112];
                let br: Vec<u8> = vec![98u8, 114];
                let deflate: Vec<u8> = vec![100u8, 101, 102, 108, 97, 116, 101];
                if same_bytes(value.as_slice(), gzip.as_slice()) || same_bytes(
                    value.as_slice(),
                    br.as_slice(),
                ) || same_bytes(value.as_slice(), deflate.as_slice()) {
                    EncodingFailure::NoEncoder
                } else {
                    EncodingFailure::Unknown
                }
            };
            Err(EncodingError { encoding: crate::bytes::copy_bytes(value.as_slice()), failure })
        },
    }
}

/// The response codings whose bodies are read decoded: gzip, br, deflate and
/// identity.
pub open spec fn decodable(coding: Seq<u8>) -> bool {
    coding == identity_token() || coding == gzip_token() || coding == brotli_token() || coding
        == deflate_token()
}

/// The coding a response body is in, where it is one that cannot be decoded:
/// reading such a body fails on its first read, while its status and headers
/// still reach the caller.
pub fn undecodable_coding(headers: &Headers) -> (r: Option<Vec<u8>>)
    ensures
        match outbound_coding(headers@) {
            None => r is None,
            Some(c) => if decodable(c) {
                r is None
            } else {
                r matches Some(v) && v@ == c
            },
        },
{
    let name = content_encoding_header();
    proof {
        lemma_lower_content_encoding();
    }
    match headers.get(name.as_slice()) {
        None => None,
        Some(value) => {
            let identity: Vec<u8> = vec![105u8, 100, 101, 110, 116, 105, 116, 121];
            let gzip: Vec<u8> = vec![103u8, 122, 105, 112];
            let br: Vec<u8> = vec![98u8, 114];
            let deflate: Vec<u8> = vec![100u8, 101, 102, 108, 97, 116, 101];
            if same_bytes(value.as_slice(), identity.as_slice()) || same_bytes(
                value.as_slice(),
                gzip.as_slice(),
            ) || same_bytes(value.as_slice(), br.as_slice()) || same_bytes(
                value.as_slice(),
                deflate.as_slice(),
            ) {
                None
            } else {
                Some(crate::bytes::copy_bytes(value.as_slice()))
            }
        },
    }
}

} // verus!
