use crate::body::ResponseBody;
use crate::error::HError;
use vstd::prelude::*;

verus! {

/// The status code on which a response body is decoded.
pub const STATUS_OK: u16 = 200;

/// What a request ends in: a decoded body, or a named status.
#[derive(Debug, PartialEq, Eq)]
pub enum Outcome<T> {
    Decoded(T),
    Created,
    Accepted,
    NotFound,
    InternalServerError,
    NotImplemented,
    Unregistered(u16),
}

/// The named outcome of a status other than 200.
pub open spec fn spec_named_outcome<T>(status: u16) -> Outcome<T> {
    if status == 201 {
        Outcome::Created
    } else if status == 202 {
        Outcome::Accepted
    } else if status == 404 {
        Outcome::NotFound
    } else if status == 500 {
        Outcome::InternalServerError
    } else if status == 501 {
        Outcome::NotImplemented
    } else {
        Outcome::Unregistered(status)
    }
}

/// Names the outcome of a status other than 200; the body plays no part.
pub fn named_outcome<T>(status: u16) -> (r: Outcome<T>)
    requires
        status != STATUS_OK,
    ensures
        r == spec_named_outcome::<T>(status),
{
    match status {
        201 => Outcome::Created,
        202 => Outcome::Accepted,
        404 => Outcome::NotFound,
        500 => Outcome::InternalServerError,
        501 => Outcome::NotImplemented,
        _ => Outcome::Unregistered(status),
    }
}

/// Maps a received status and buffered body onto an outcome. Only status 200
/// decodes the body; every other status is named without reading it.
pub fn decode_outcome<R: ResponseBody>(status: u16, body: Vec<u8>) -> (r: Result<Outcome<R>, HError>)
    ensures
        status != STATUS_OK ==> r == Ok::<Outcome<R>, HError>(spec_named_outcome::<R>(status)),
        status == STATUS_OK && r is Ok ==> r->Ok_0 is Decoded && R::decodes_as(
            status,
            body@,
            r->Ok_0->Decoded_0,
        ),
        status == STATUS_OK && r is Err ==> !R::always_decodes(status, body@)
            && r->Err_0 is InvalidDataFormat,
        status == STATUS_OK && R::never_decodes(status, body@) ==> r is Err,
{
    if status == STATUS_OK {
        match R::from_bytes(status, body) {
            Ok(v) => Ok(Outcome::Decoded(v)),
            Err(e) => Err(e),
        }
    } else {
        Ok(named_outcome(status))
    }
}

/// A decoded response body together with the status it came with.
pub struct Response<T> where T: ResponseBody {
    pub status: u16,
    pub value: T,
}

impl<T> Response<T> where T: ResponseBody {
    pub fn new(status: u16, value: T) -> (r: Response<T>)
        ensures
            r.status == status,
            r.value == value,
    {
        Response { status, value }
    }

    pub fn status(&self) -> (r: u16)
        ensures
            r == self.status,
    {
        self.status
    }

    pub fn into_inner(self) -> (r: T)
        ensures
            r == self.value,
    {
        self.value
    }

    pub fn inner(&self) -> (r: &T)
        ensures
            *r == self.value,
    {
        &self.value
    }
}

/// Decodes a buffered body whatever its status, and keeps the status beside
/// the value.
pub fn decode_response<R: ResponseBody>(status: u16, body: Vec<u8>) -> (r: Result<Response<R>, HError>)
    ensures
        r is Ok ==> r->Ok_0.status == status && R::decodes_as(status, body@, r->Ok_0.value),
        r is Err ==> !R::always_decodes(status, body@) && r->Err_0 is InvalidDataFormat,
        R::never_decodes(status, body@) ==> r is Err,
{
    match R::from_bytes(status, body) {
        Ok(v) => Ok(Response::new(status, v)),
        Err(e) => Err(e),
    }
}

} // verus!
