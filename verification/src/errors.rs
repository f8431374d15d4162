use vstd::prelude::*;
use crate::text::{append_u16, dec_seq};

verus! {

/// The closed set of ways the pipeline can fail. Every error is terminal:
/// the pipeline never retries a stage.
#[derive(Debug)]
pub enum ShareError {
    /// The supplied path does not exist or is not a regular file; detected
    /// before any network activity.
    InvalidInput { path: String },
    /// The upload endpoint answered outside the success range (the detail is
    /// the raw response body), or its body held no download link (the detail
    /// says so).
    UploadFailed { status: u16, detail: String },
    /// The shortening endpoint answered outside the success range.
    ShortenFailed { status: u16 },
    /// A transport-level failure from either request, surfaced verbatim.
    NetworkError { message: String },
}

/// The single diagnostic line that a failure is reported with.
pub open spec fn diagnostic_of(e: ShareError) -> Seq<char> {
    match e {
        ShareError::InvalidInput { path } => "error: the file '"@ + path@
            + "' does not exist or is not a regular file"@,
        ShareError::UploadFailed { status, detail } => "error uploading the file: status "@
            + dec_seq(status as nat) + ", response: "@ + detail@,
        ShareError::ShortenFailed { status } => "error shortening the URL: status "@
            + dec_seq(status as nat),
        ShareError::NetworkError { message } => "network error: "@ + message@,
    }
}

impl ShareError {
    /// Renders the diagnostic line for this error.
    pub fn diagnostic(&self) -> (r: String)
        ensures
            r@ == diagnostic_of(*self),
    {
        match self {
            ShareError::InvalidInput { path } => {
                let mut out = String::from_str("error: the file '");
                out.append(path.as_str());
                out.append("' does not exist or is not a regular file");
                out
            },
            ShareError::UploadFailed { status, detail } => {
                let mut out = String::from_str("error uploading the file: status ");
                append_u16(&mut out, *status);
                out.append(", response: ");
                out.append(detail.as_str());
                out
            },
            ShareError::ShortenFailed { status } => {
                let mut out = String::from_str("error shortening the URL: status ");
                append_u16(&mut out, *status);
                out
            },
            ShareError::NetworkError { message } => {
                let mut out = String::from_str("network error: ");
                out.append(message.as_str());
                out
            },
        }
    }

    /// The process status that any failure maps to.
    pub fn exit_code(&self) -> (r: i32)
        ensures
            r != 0,
    {
        1
    }
}

} // verus!
