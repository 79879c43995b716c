use vstd::prelude::*;

verus! {

/// The errors that a request can end in.
#[derive(Debug, PartialEq, Eq)]
pub enum HError {
    /// The hand-off between the exchange and its caller was abandoned.
    CanceledSend,
    /// The request could not be assembled.
    InvalidHttpRequest(String),
    /// The transport failed, or the response body stream broke off.
    InvalidHttpResponse(String),
    /// A received body does not match the encoding it was decoded as.
    InvalidDataFormat(String),
}

pub type HResult<T> = Result<T, HError>;

impl HError {
    /// The text that describes this error.
    pub open spec fn spec_description(&self) -> Seq<char> {
        match self {
            HError::CanceledSend => "canceled send in channel"@,
            HError::InvalidHttpRequest(m) => m@,
            HError::InvalidHttpResponse(m) => m@,
            HError::InvalidDataFormat(m) => m@,
        }
    }

    pub fn description(&self) -> (r: &str)
        ensures
            r@ == self.spec_description(),
    {
        match self {
            HError::CanceledSend => "canceled send in channel",
            HError::InvalidHttpRequest(m) => m.as_str(),
            HError::InvalidHttpResponse(m) => m.as_str(),
            HError::InvalidDataFormat(m) => m.as_str(),
        }
    }
}

} // verus!
