use crate::error::HError;
use vstd::prelude::*;
use vstd::slice::slice_to_vec;
use vstd::string::{StringExecFns, StringSliceAdditionalSpecFns};
use vstd::utf8::{
    decode_utf8, encode_utf8, encode_utf8_decode_utf8, encode_utf8_valid_utf8, valid_utf8,
};

verus! {

/// The content type that a body is sent with, a property of the body's type.
pub trait MimeType {
    spec fn spec_mime_type() -> Seq<char>;

    fn mime_type() -> (r: &'static str)
        ensures
            r@ == Self::spec_mime_type(),
    ;
}

/// A value that can be sent as a request body.
pub trait RequestBody: MimeType + Sized {
    /// `bytes` is an encoding of this value that `to_bytes` may give.
    spec fn encodes_as(&self, bytes: Seq<u8>) -> bool;

    /// The encoding of this value cannot fail.
    spec fn always_encodes(&self) -> bool;

    /// `e` is an error that `to_bytes` may give for this value.
    spec fn refuses_with(&self, e: HError) -> bool;

    fn to_bytes(self) -> (r: Result<Vec<u8>, HError>)
        ensures
            r is Ok ==> self.encodes_as(r->Ok_0@),
            r is Err ==> !self.always_encodes() && r->Err_0 is InvalidDataFormat
                && self.refuses_with(r->Err_0),
    ;
}

/// A value that can be rebuilt from a response's status code and body.
pub trait ResponseBody: Sized {
    /// The media types this body is accepted as.
    spec fn spec_accept_types() -> Seq<char>;

    /// `v` is a value that `from_bytes` may rebuild from `status` and `bytes`.
    spec fn decodes_as(status: u16, bytes: Seq<u8>, v: Self) -> bool;

    /// Decoding `bytes` is owed to succeed.
    spec fn always_decodes(status: u16, bytes: Seq<u8>) -> bool;

    /// Decoding `bytes` is owed to fail.
    spec fn never_decodes(status: u16, bytes: Seq<u8>) -> bool;

    fn accept_types() -> (r: &'static str)
        ensures
            r@ == Self::spec_accept_types(),
    ;

    fn from_bytes(status: u16, body: Vec<u8>) -> (r: Result<Self, HError>)
        ensures
            r is Ok ==> Self::decodes_as(status, body@, r->Ok_0),
            r is Err ==> !Self::always_decodes(status, body@) && r->Err_0 is InvalidDataFormat,
            Self::never_decodes(status, body@) ==> r is Err,
    ;
}

/// The empty body: sent as no bytes, and rebuilt from any response.
impl MimeType for () {
    open spec fn spec_mime_type() -> Seq<char> {
        "text/plain"@
    }

    fn mime_type() -> (r: &'static str) {
        "text/plain"
    }
}

impl RequestBody for () {
    open spec fn encodes_as(&self, bytes: Seq<u8>) -> bool {
        bytes.len() == 0
    }

    open spec fn always_encodes(&self) -> bool {
        true
    }

    open spec fn refuses_with(&self, e: HError) -> bool {
        false
    }

    fn to_bytes(self) -> (r: Result<Vec<u8>, HError>) {
        Ok(Vec::new())
    }
}

impl ResponseBody for () {
    open spec fn spec_accept_types() -> Seq<char> {
        "*/*"@
    }

    open spec fn decodes_as(status: u16, bytes: Seq<u8>, v: ()) -> bool {
        true
    }

    open spec fn always_decodes(status: u16, bytes: Seq<u8>) -> bool {
        true
    }

    open spec fn never_decodes(status: u16, bytes: Seq<u8>) -> bool {
        false
    }

    fn accept_types() -> (r: &'static str) {
        "*/*"
    }

    fn from_bytes(status: u16, body: Vec<u8>) -> (r: Result<(), HError>) {
        Ok(())
    }
}

/// A body in UTF-8 plain text.
#[derive(Debug, PartialEq, Eq)]
pub struct TextPlain(String);

impl View for TextPlain {
    type V = Seq<char>;

    closed spec fn view(&self) -> Seq<char> {
        self.0@
    }
}

impl TextPlain {
    pub fn new(text: String) -> (r: TextPlain)
        ensures
            r@ == text@,
    {
        TextPlain(text)
    }

    pub fn into_inner(self) -> (r: String)
        ensures
            r@ == self@,
    {
        self.0
    }
}

/// A JSON document as serde_json holds it.
#[verifier::external_type_specification]
#[verifier::external_body]
pub struct ExJsonValue(serde_json::Value);

/// A body in JSON, encoded and decoded by serde_json. It is a body of
/// requests and responses when it holds a `serde_json::Value`, the one type
/// whose JSON text and parse result can be named here: such a name cannot be
/// generic over the payload type, and the body traits cannot be implemented
/// under serde's bounds. A typed value is carried as a `Value`, or decoded
/// with `decode_json`.
#[derive(Debug, PartialEq, Eq)]
pub struct Json<V>(pub V);

impl<V> Json<V> {
    pub fn into_inner(self) -> (r: V)
        ensures
            r == self.0,
    {
        self.0
    }

    pub fn inner(&self) -> (r: &V)
        ensures
            *r == self.0,
    {
        &self.0
    }
}

impl<V> core::ops::Deref for Json<V> {
    type Target = V;

    fn deref(&self) -> (r: &V)
        ensures
            *r == self.0,
    {
        &self.0
    }
}

/// The JSON text that serde_json writes for a document.
pub uninterp spec fn json_text_of(v: serde_json::Value) -> Seq<u8>;

/// The document that serde_json parses from some bytes, if they are JSON.
pub uninterp spec fn json_parse_of(bytes: Seq<u8>) -> Option<serde_json::Value>;

/// Relies on serde_json::to_vec: it fails only where a `Serialize` impl fails
/// or a map has a key that is not a string, and a `Value` has neither; the
/// text depends on the document alone.
#[verifier::external_body]
fn json_value_to_vec(value: &serde_json::Value) -> (r: Result<Vec<u8>, String>)
    ensures
        r is Ok,
        r is Ok ==> r->Ok_0@ == json_text_of(*value),
{
    match serde_json::to_vec(value) {
        Ok(b) => Ok(b),
        Err(e) => Err(format!("{}", e)),
    }
}

/// Relies on serde_json::from_slice, read into a `Value`: whether it parses
/// and what it gives depend on the bytes alone; on failure, the text of the
/// parser's error.
#[verifier::external_body]
fn json_value_from_slice(bytes: &[u8]) -> (r: Result<serde_json::Value, String>)
    ensures
        r is Ok <==> json_parse_of(bytes@) is Some,
        r is Ok ==> r->Ok_0 == json_parse_of(bytes@)->Some_0,
{
    match serde_json::from_slice(bytes) {
        Ok(v) => Ok(v),
        Err(e) => Err(format!("{}", e)),
    }
}

/// Relies on serde_json::from_slice, read into a value of any type: the
/// value, or the text of the parser's error.
#[verifier::external_body]
fn json_from_slice<V: serde::de::DeserializeOwned>(bytes: &[u8]) -> (r: Result<V, String>) {
    match serde_json::from_slice(bytes) {
        Ok(v) => Ok(v),
        Err(e) => Err(format!("{}", e)),
    }
}

/// The outcome of decoding a JSON body, from what the JSON parser returned.
pub fn json_outcome<T>(parsed: Result<T, String>) -> (r: Result<T, HError>)
    ensures
        parsed is Ok <==> r is Ok,
        parsed is Ok ==> r->Ok_0 == parsed->Ok_0,
        parsed is Err ==> r->Err_0 is InvalidDataFormat,
        parsed is Err ==> r->Err_0->InvalidDataFormat_0@ == "invalid data format: "@
            + parsed->Err_0@,
{
    match parsed {
        Ok(v) => Ok(v),
        Err(m) => {
            let mut text = String::from_str("invalid data format: ");
            text.append(m.as_str());
            Err(HError::InvalidDataFormat(text))
        }
    }
}

/// Decodes a JSON body; a body that is not JSON of the wanted shape is
/// `InvalidDataFormat`.
pub fn decode_json<T: serde::de::DeserializeOwned>(slice: &[u8]) -> (r: Result<T, HError>)
    ensures
        r is Err ==> r->Err_0 is InvalidDataFormat,
        r is Err ==> r->Err_0->InvalidDataFormat_0@.subrange(0, 21) == "invalid data format: "@,
{
    let r = json_outcome(json_from_slice(slice));
    proof {
        reveal_strlit("invalid data format: ");
    }
    r
}

impl<V> MimeType for Json<V> {
    open spec fn spec_mime_type() -> Seq<char> {
        "application/json"@
    }

    fn mime_type() -> (r: &'static str) {
        "application/json"
    }
}

impl RequestBody for Json<serde_json::Value> {
    open spec fn encodes_as(&self, bytes: Seq<u8>) -> bool {
        bytes == json_text_of(self.0)
    }

    open spec fn always_encodes(&self) -> bool {
        true
    }

    open spec fn refuses_with(&self, e: HError) -> bool {
        false
    }

    fn to_bytes(self) -> (r: Result<Vec<u8>, HError>) {
        match json_value_to_vec(&self.0) {
            Ok(b) => Ok(b),
            Err(m) => Err(HError::InvalidDataFormat(m)),
        }
    }
}

impl ResponseBody for Json<serde_json::Value> {
    open spec fn spec_accept_types() -> Seq<char> {
        "application/json"@
    }

    open spec fn decodes_as(status: u16, bytes: Seq<u8>, v: Json<serde_json::Value>) -> bool {
        json_parse_of(bytes) == Some(v.0)
    }

    open spec fn always_decodes(status: u16, bytes: Seq<u8>) -> bool {
        json_parse_of(bytes) is Some
    }

    open spec fn never_decodes(status: u16, bytes: Seq<u8>) -> bool {
        json_parse_of(bytes) is None
    }

    fn accept_types() -> (r: &'static str) {
        "application/json"
    }

    fn from_bytes(status: u16, body: Vec<u8>) -> (r: Result<Json<serde_json::Value>, HError>) {
        match json_outcome(json_value_from_slice(body.as_slice())) {
            Ok(v) => Ok(Json(v)),
            Err(e) => Err(e),
        }
    }
}

/// Relies on String::from_utf8: it succeeds exactly on valid UTF-8, and the
/// string then holds the characters that the bytes encode.
#[verifier::external_body]
fn string_from_utf8(bytes: Vec<u8>) -> (r: Result<String, String>)
    ensures
        r is Ok <==> valid_utf8(bytes@),
        r is Ok ==> r->Ok_0@ == decode_utf8(bytes@),
{
    match String::from_utf8(bytes) {
        Ok(s) => Ok(s),
        Err(e) => Err(format!("{}", e)),
    }
}

impl MimeType for TextPlain {
    open spec fn spec_mime_type() -> Seq<char> {
        "text/plain"@
    }

    fn mime_type() -> (r: &'static str) {
        "text/plain"
    }
}

impl RequestBody for TextPlain {
    open spec fn encodes_as(&self, bytes: Seq<u8>) -> bool {
        bytes == encode_utf8(self@)
    }

    open spec fn always_encodes(&self) -> bool {
        true
    }

    open spec fn refuses_with(&self, e: HError) -> bool {
        false
    }

    fn to_bytes(self) -> (r: Result<Vec<u8>, HError>) {
        Ok(slice_to_vec(self.0.as_str().as_bytes()))
    }
}

impl ResponseBody for TextPlain {
    open spec fn spec_accept_types() -> Seq<char> {
        "text/plain"@
    }

    open spec fn decodes_as(status: u16, bytes: Seq<u8>, v: TextPlain) -> bool {
        valid_utf8(bytes) && v@ == decode_utf8(bytes)
    }

    open spec fn always_decodes(status: u16, bytes: Seq<u8>) -> bool {
        valid_utf8(bytes)
    }

    open spec fn never_decodes(status: u16, bytes: Seq<u8>) -> bool {
        !valid_utf8(bytes)
    }

    fn accept_types() -> (r: &'static str) {
        "text/plain"
    }

    fn from_bytes(status: u16, body: Vec<u8>) -> (r: Result<TextPlain, HError>) {
        match string_from_utf8(body) {
            Ok(s) => Ok(TextPlain(s)),
            Err(m) => Err(HError::InvalidDataFormat(m)),
        }
    }
}

/// A text body survives the round trip: the bytes it encodes to decode, under
/// any status, and every value they decode to holds the same text.
pub proof fn lemma_text_round_trip(t: TextPlain, status: u16, bytes: Seq<u8>)
    requires
        t.encodes_as(bytes),
    ensures
        TextPlain::always_decodes(status, bytes),
        forall|v: TextPlain| #[trigger] TextPlain::decodes_as(status, bytes, v) ==> v@ == t@,
{
    broadcast use encode_utf8_valid_utf8, encode_utf8_decode_utf8;

}

/// The empty body survives the round trip: what it encodes to decodes,
/// under any status.
pub proof fn lemma_empty_round_trip(status: u16, bytes: Seq<u8>)
    requires
        ().encodes_as(bytes),
    ensures
        <() as ResponseBody>::always_decodes(status, bytes),
        <() as ResponseBody>::decodes_as(status, bytes, ()),
{
}

/// A JSON body decodes to one value at most, whatever the status: the one
/// serde_json parses from the bytes.
pub proof fn lemma_json_decoding_is_unique(s1: u16, s2: u16, bytes: Seq<u8>, v1: Json<serde_json::Value>, v2: Json<serde_json::Value>)
    requires
        <Json<serde_json::Value> as ResponseBody>::decodes_as(s1, bytes, v1),
        <Json<serde_json::Value> as ResponseBody>::decodes_as(s2, bytes, v2),
    ensures
        v1 == v2,
{
}

/// A text body decodes to one text at most, whatever the status.
pub proof fn lemma_text_decoding_is_unique(s1: u16, s2: u16, bytes: Seq<u8>, v1: TextPlain, v2: TextPlain)
    requires
        TextPlain::decodes_as(s1, bytes, v1),
        TextPlain::decodes_as(s2, bytes, v2),
    ensures
        v1@ == v2@,
{
}

} // verus!
