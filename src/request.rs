use crate::body::RequestBody;
use crate::error::HError;
use vstd::prelude::*;
use vstd::utf8::{encode_utf8, is_ascii_chars, is_ascii_chars_encode_utf8};

verus! {

/// An HTTP method, as http names it.
#[verifier::external_type_specification]
#[verifier::external_body]
pub struct ExMethod(http::Method);

/// A request target, as http parses it.
#[verifier::external_type_specification]
#[verifier::external_body]
pub struct ExUri(http::Uri);

/// A request, as http assembles it.
#[verifier::external_type_specification]
#[verifier::external_body]
#[verifier::reject_recursive_types(T)]
pub struct ExRequest<T>(http::Request<T>);

/// What a request body contributes to a request: its content type and its
/// encoded bytes.
#[derive(Debug, PartialEq, Eq)]
pub struct Payload {
    pub content_type: &'static str,
    pub body: Vec<u8>,
}

/// Encodes a request body and pairs it with the content type of its type.
pub fn prepare<S: RequestBody>(value: S) -> (r: Result<Payload, HError>)
    ensures
        r is Ok ==> r->Ok_0.content_type@ == S::spec_mime_type() && value.encodes_as(
            r->Ok_0.body@,
        ),
        r is Err ==> !value.always_encodes() && r->Err_0 is InvalidDataFormat
            && value.refuses_with(r->Err_0),
{
    let content_type = S::mime_type();
    match value.to_bytes() {
        Ok(body) => Ok(Payload { content_type, body }),
        Err(e) => Err(e),
    }
}

/// A byte that http takes in a header value: a tab, or any byte from 32 up
/// but 127.
pub open spec fn header_byte_ok(b: u8) -> bool {
    (b >= 32 && b != 127) || b == 9
}

/// Text whose UTF-8 bytes http takes as a header value.
pub open spec fn header_value_ok(s: Seq<char>) -> bool {
    forall|i: int| 0 <= i < encode_utf8(s).len() ==> header_byte_ok(#[trigger] encode_utf8(s)[i])
}

/// The content types of this library's bodies are valid header values, so a
/// request with one of them always assembles.
pub proof fn lemma_content_types_are_header_values()
    ensures
        header_value_ok("text/plain"@),
        header_value_ok("application/json"@),
{
    reveal_strlit("text/plain");
    reveal_strlit("application/json");
    assert(is_ascii_chars("text/plain"@));
    assert(is_ascii_chars("application/json"@));
    is_ascii_chars_encode_utf8("text/plain"@);
    is_ascii_chars_encode_utf8("application/json"@);
}

/// The method of a request that http assembled.
pub uninterp spec fn method_of(r: http::Request<Vec<u8>>) -> http::Method;

/// The target of a request that http assembled.
pub uninterp spec fn uri_of(r: http::Request<Vec<u8>>) -> http::Uri;

/// The bytes of the `Content-Type` header of a request that http assembled.
pub uninterp spec fn content_type_of(r: http::Request<Vec<u8>>) -> Seq<u8>;

/// The body of a request that http assembled.
pub uninterp spec fn body_of(r: http::Request<Vec<u8>>) -> Seq<u8>;

/// Relies on http's request builder: the method and the target are taken as
/// they are, and the request assembles exactly when every byte of the
/// content type is one that a header value may hold; it then holds the
/// method, the target, the content type's bytes as its `Content-Type` header
/// and the body. On failure, the text of the builder's error.
#[verifier::external_body]
fn assemble(method: http::Method, uri: http::Uri, content_type: &str, body: Vec<u8>) -> (r: Result<
    http::Request<Vec<u8>>,
    String,
>)
    ensures
        r is Ok <==> header_value_ok(content_type@),
        r is Ok ==> method_of(r->Ok_0) == method && uri_of(r->Ok_0) == uri && content_type_of(
            r->Ok_0,
        ) == encode_utf8(content_type@) && body_of(r->Ok_0) == body@,
{
    match http::Request::builder().method(method).uri(uri).header(
        http::header::CONTENT_TYPE,
        content_type,
    ).body(body) {
        Ok(req) => Ok(req),
        Err(e) => Err(format!("{}", e)),
    }
}

/// Builds a request whose body is `value`, sent with the content type of its
/// type. A body that cannot be encoded gives the encoder's error; a request
/// that http refuses to assemble is `InvalidHttpRequest`, with the builder's
/// text.
pub fn build_request<S: RequestBody>(method: http::Method, uri: http::Uri, value: S) -> (r: Result<
    http::Request<Vec<u8>>,
    HError,
>)
    ensures
        value.always_encodes() ==> (r is Ok <==> header_value_ok(S::spec_mime_type())),
        value.always_encodes() && r is Err ==> r->Err_0 is InvalidHttpRequest,
        r is Err ==> r->Err_0 is InvalidDataFormat || r->Err_0 is InvalidHttpRequest,
        r is Err && r->Err_0 is InvalidDataFormat ==> !value.always_encodes() && value.refuses_with(
            r->Err_0,
        ),
        r is Err && r->Err_0 is InvalidHttpRequest ==> !header_value_ok(S::spec_mime_type()),
        r is Ok ==> method_of(r->Ok_0) == method && uri_of(r->Ok_0) == uri && content_type_of(
            r->Ok_0,
        ) == encode_utf8(S::spec_mime_type()) && value.encodes_as(body_of(r->Ok_0)),
{
    match prepare(value) {
        Ok(p) => match assemble(method, uri, p.content_type, p.body) {
            Ok(req) => Ok(req),
            Err(m) => Err(HError::InvalidHttpRequest(m)),
        },
        Err(e) => Err(e),
    }
}

/// Builds a request with an empty body and a `text/plain` content type, such
/// as a `GET`; it cannot fail.
pub fn build_empty_request(method: http::Method, uri: http::Uri) -> (r: http::Request<Vec<u8>>)
    ensures
        method_of(r) == method,
        uri_of(r) == uri,
        content_type_of(r) == encode_utf8("text/plain"@),
        body_of(r).len() == 0,
{
    proof {
        lemma_content_types_are_header_values();
    }
    match build_request(method, uri, ()) {
        Ok(req) => req,
        Err(_) => vstd::pervasive::unreached(),
    }
}

} // verus!
