//! The library's error type: one closed set of failures that every operation
//! returns.
use crate::text::{concat, decimal, u64_to_decimal};
use crate::v1::ds_error::DataStoreErrorResponse;
use vstd::prelude::*;
use vstd::string::*;

verus! {

/// A failure of an Open Cloud operation.
#[derive(Debug)]
pub enum Error {
    /// A file could not be read from the file system.
    FileLoadError(String),
    /// The asset type could not be inferred.
    InferAssetTypeError(String),
    /// A non-2xx HTTP status was returned.
    HttpStatusError { code: u16, msg: String },
    /// The transport failed to send the request or read the response.
    ReqwestError(String),
    /// An I/O operation failed.
    IOError(String),
    /// A JSON document could not be written or read.
    SerdeJsonError(String),
    /// The DataStore service returned its structured error payload.
    DataStoreError(DataStoreErrorResponse),
    /// A number could not be parsed.
    ParseFloatError(String),
}

/// An HTTP status error with the given code and message.
pub open spec fn is_status_error(e: Error, code: u16, msg: Seq<char>) -> bool {
    match e {
        Error::HttpStatusError { code: c, msg: m } => c == code && m@ == msg,
        _ => false,
    }
}

/// The text a person reads for an error.
pub open spec fn error_text(e: Error) -> Seq<char> {
    match e {
        Error::FileLoadError(s) => "failed to read file: "@ + s@,
        Error::InferAssetTypeError(s) => "failed to infer asset type: "@ + s@,
        Error::HttpStatusError { code, msg } => "http "@ + decimal(code as nat) + ": "@ + msg@,
        Error::ReqwestError(s) => s@,
        Error::IOError(s) => s@,
        Error::SerdeJsonError(s) => s@,
        Error::DataStoreError(r) => r.text(),
        Error::ParseFloatError(s) => s@,
    }
}

impl Error {
    /// The text a person reads for this error.
    pub fn to_string(&self) -> (r: String)
        ensures
            r@ == error_text(*self),
    {
        match self {
            Error::FileLoadError(s) => concat("failed to read file: ", s.as_str()),
            Error::InferAssetTypeError(s) => concat("failed to infer asset type: ", s.as_str()),
            Error::HttpStatusError { code, msg } => {
                let digits = u64_to_decimal(*code as u64);
                let mut t = concat("http ", digits.as_str());
                t.append(": ");
                t.append(msg.as_str());
                t
            },
            Error::ReqwestError(s) => s.clone(),
            Error::IOError(s) => s.clone(),
            Error::SerdeJsonError(s) => s.clone(),
            Error::DataStoreError(r) => r.to_string(),
            Error::ParseFloatError(s) => s.clone(),
        }
    }
}

/// The error of a JSON body that does not have the shape of `what`.
pub fn malformed(what: &str) -> (r: Error)
    ensures
        r is SerdeJsonError,
{
    let mut s = concat("response body is not a valid ", what);
    s.append(" document");
    Error::SerdeJsonError(s)
}

} // verus!
