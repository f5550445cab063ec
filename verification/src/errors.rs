use vstd::prelude::*;
use vstd::string::StringExecFns;

verus! {

/// How a run can fail: one variant per stage of the pipeline.
#[derive(Debug, Clone, PartialEq, Eq)]
pub enum Error {
    /// The request never completed (connection failure or transport timeout).
    Transport(String),
    /// The endpoint answered with a non-success status code.
    Remote(u16),
    /// The response bytes were not well-formed JSON of the expected shape.
    Parse(String),
    /// The response parsed but carried zero elements.
    EmptyDataset,
    /// The system clock could not be read.
    Clock,
    /// A local file could not be written.
    Io(String),
}

/// The text `message` returns for each variant.
pub open spec fn spec_message(e: Error) -> Seq<char> {
    match e {
        Error::Transport(d) => "transport failure: "@ + d@,
        Error::Remote(status) => "request failed with status "@ + crate::num::dec_str(
            status as nat,
        ),
        Error::Parse(d) => "failed to parse response: "@ + d@,
        Error::EmptyDataset => "no elements found in response"@,
        Error::Clock => "system clock unavailable"@,
        Error::Io(d) => "file write failed: "@ + d@,
    }
}

impl Error {
    /// A human-readable description of the failure.
    pub fn message(&self) -> (r: String)
        ensures
            r@ == spec_message(*self),
    {
        match self {
            Error::Transport(d) => {
                let mut s = String::from_str("transport failure: ");
                s.append(d.as_str());
                s
            },
            Error::Remote(status) => {
                let mut s = String::from_str("request failed with status ");
                let digits = crate::num::u64_to_string(*status as u64);
                s.append(digits.as_str());
                s
            },
            Error::Parse(d) => {
                let mut s = String::from_str("failed to parse response: ");
                s.append(d.as_str());
                s
            },
            Error::EmptyDataset => String::from_str("no elements found in response"),
            Error::Clock => String::from_str("system clock unavailable"),
            Error::Io(d) => {
                let mut s = String::from_str("file write failed: ");
                s.append(d.as_str());
                s
            },
        }
    }
}

/// A success status code is one in the 2xx range.
pub open spec fn is_success_status(status: u16) -> bool {
    200 <= status < 300
}

/// Decides whether a response status lets the pipeline go on: `Ok` exactly on
/// a 2xx status, `Remote` carrying the offending status otherwise.
pub fn check_status(status: u16) -> (r: Result<(), Error>)
    ensures
        r is Ok <==> is_success_status(status),
        r matches Err(e) ==> e == Error::Remote(status),
{
    if 200 <= status && status < 300 {
        Ok(())
    } else {
        Err(Error::Remote(status))
    }
}

/// Extra seconds the transport timeout adds beyond the query's own timeout, so
/// the transport never cuts off a response the service was still allowed to
/// produce. A small fixed buffer, a tunable rather than a derived value.
pub const HTTP_TIMEOUT_BUFFER_SECONDS: u64 = 1;

/// The whole-call transport timeout: the query timeout plus the fixed buffer.
pub fn transport_timeout_seconds(timeout_seconds: u32) -> (r: u64)
    ensures
        r == timeout_seconds + HTTP_TIMEOUT_BUFFER_SECONDS,
{
    timeout_seconds as u64 + HTTP_TIMEOUT_BUFFER_SECONDS
}

} // verus!
