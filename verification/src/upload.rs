use vstd::prelude::*;
use crate::errors::ShareError;
use crate::http::{is_success, spec_is_success};
use crate::json::{data_url_of, extract_data_url};

verus! {

/// The download link obtained from the upload service's response.
#[derive(Debug)]
pub struct UploadResult {
    pub download_url: String,
}

/// The fixed endpoint the file is uploaded to.
pub open spec fn spec_upload_endpoint() -> Seq<char> {
    "https://tmpfiles.org/api/v1/upload"@
}

/// The upload endpoint as a string value.
pub fn upload_endpoint() -> (r: String)
    ensures
        r@ == spec_upload_endpoint(),
{
    String::from_str("https://tmpfiles.org/api/v1/upload")
}

/// The browser-identifying User-Agent header value that every outbound
/// request must carry: the upload service misbehaves without one.
pub open spec fn spec_user_agent() -> Seq<char> {
    "Mozilla/5.0 (Windows NT 10.0; Win64; x64) AppleWebKit/537.36 (KHTML, like Gecko) Chrome/129.0.0.0 Safari/537.36"@
}

/// The User-Agent header value as a string value.
pub fn user_agent() -> (r: String)
    ensures
        r@ == spec_user_agent(),
{
    String::from_str(
        "Mozilla/5.0 (Windows NT 10.0; Win64; x64) AppleWebKit/537.36 (KHTML, like Gecko) Chrome/129.0.0.0 Safari/537.36",
    )
}

/// The name of the single multipart part the upload request carries.
pub open spec fn spec_upload_part_name() -> Seq<char> {
    "file"@
}

/// The multipart part name as a string value.
pub fn upload_part_name() -> (r: String)
    ensures
        r@ == spec_upload_part_name(),
{
    String::from_str("file")
}

/// The diagnostic detail used when a successful upload response yields no
/// download link.
pub open spec fn spec_missing_link_detail() -> Seq<char> {
    "could not obtain download link"@
}

/// The Upload Client's decision on a received response: a success status
/// whose body holds a string at `data.url` yields that download URL; any
/// other outcome is an `UploadFailed` error carrying the status, and either
/// the raw body (non-success status) or a note that no link was found
/// (success status without one).
pub fn parse_upload_response(status: u16, body: String) -> (r: Result<UploadResult, ShareError>)
    ensures
        match r {
            Ok(u) => spec_is_success(status) && data_url_of(body@) == Some(u.download_url@),
            Err(e) => e matches ShareError::UploadFailed { status: st, detail } && st == status
                && (if spec_is_success(status) {
                data_url_of(body@) is None && detail@ == spec_missing_link_detail()
            } else {
                detail@ == body@
            }),
        },
{
    if !is_success(status) {
        return Err(ShareError::UploadFailed { status, detail: body });
    }
    match extract_data_url(body.as_str()) {
        Some(url) => Ok(UploadResult { download_url: url }),
        None => Err(
            ShareError::UploadFailed {
                status,
                detail: String::from_str("could not obtain download link"),
            },
        ),
    }
}

} // verus!
