use vstd::prelude::*;
use crate::errors::ShareError;
use crate::http::{is_success, spec_is_success};
use crate::text::{trim, trim_seq};

verus! {

/// The short link obtained from the shortening service.
#[derive(Debug)]
pub struct ShortenResult {
    pub short_url: String,
}

/// The fixed prefix of a shortening request: the download URL is appended
/// to it as the raw, unescaped `url` query parameter.
pub open spec fn spec_shorten_endpoint_prefix() -> Seq<char> {
    "https://tinyurl.com/api-create.php?url="@
}

/// Builds the GET target for shortening a download URL. The URL is embedded
/// by raw concatenation; no percent-encoding is applied, matching the wire
/// contract of the shortening service as this pipeline uses it.
pub fn shorten_request_url(download_url: &str) -> (r: String)
    ensures
        r@ == spec_shorten_endpoint_prefix() + download_url@,
{
    let mut out = String::from_str("https://tinyurl.com/api-create.php?url=");
    out.append(download_url);
    out
}

/// The Shortener Client's decision on a received response: a success status
/// yields the body with surrounding whitespace stripped; any other status is
/// a `ShortenFailed` error carrying it.
pub fn parse_shorten_response(status: u16, body: &str) -> (r: Result<ShortenResult, ShareError>)
    ensures
        match r {
            Ok(s) => spec_is_success(status) && s.short_url@ == trim_seq(body@),
            Err(e) => !spec_is_success(status) && (e matches ShareError::ShortenFailed {
                status: st,
            } && st == status),
        },
{
    if is_success(status) {
        Ok(ShortenResult { short_url: trim(body) })
    } else {
        Err(ShareError::ShortenFailed { status })
    }
}

} // verus!
