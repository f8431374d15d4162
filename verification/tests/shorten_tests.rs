use file_sharer::errors::ShareError;
use file_sharer::shorten::{parse_shorten_response, shorten_request_url};
use file_sharer::text::{trim, u16_to_string};

#[test]
fn success_body_is_trimmed() {
    let r = parse_shorten_response(200, "  https://tinyurl.com/abc123\n");
    match r {
        Ok(s) => assert_eq!(s.short_url, "https://tinyurl.com/abc123"),
        Err(_) => panic!("a success response must parse"),
    }
}

#[test]
fn non_success_status_fails_with_status() {
    let r = parse_shorten_response(404, "not found");
    match r {
        Ok(_) => panic!("a 404 must fail"),
        Err(ShareError::ShortenFailed { status }) => assert_eq!(status, 404),
        Err(_) => panic!("the error must be ShortenFailed"),
    }
}

#[test]
fn request_url_appends_raw_link() {
    assert_eq!(
        shorten_request_url("https://tmpfiles.org/123/x.txt"),
        "https://tinyurl.com/api-create.php?url=https://tmpfiles.org/123/x.txt"
    );
}

#[test]
fn trim_strips_both_ends_only() {
    assert_eq!(trim("  a b \t\r\n"), "a b");
    assert_eq!(trim(""), "");
    assert_eq!(trim(" \n\t "), "");
    assert_eq!(trim("solid"), "solid");
    assert_eq!(trim("\u{a0}wide\u{3000}"), "wide");
}

#[test]
fn status_codes_render_in_decimal() {
    assert_eq!(u16_to_string(0), "0");
    assert_eq!(u16_to_string(7), "7");
    assert_eq!(u16_to_string(404), "404");
    assert_eq!(u16_to_string(500), "500");
    assert_eq!(u16_to_string(65535), "65535");
}

#[test]
fn diagnostics_name_the_failed_operation() {
    let invalid = ShareError::InvalidInput { path: "nope".to_string() };
    assert_eq!(
        invalid.diagnostic(),
        "error: the file 'nope' does not exist or is not a regular file"
    );
    let upload = ShareError::UploadFailed { status: 500, detail: "boom".to_string() };
    assert_eq!(
        upload.diagnostic(),
        "error uploading the file: status 500, response: boom"
    );
    let shorten = ShareError::ShortenFailed { status: 404 };
    assert_eq!(shorten.diagnostic(), "error shortening the URL: status 404");
    let net = ShareError::NetworkError { message: "dns".to_string() };
    assert_eq!(net.diagnostic(), "network error: dns");
    assert_ne!(invalid.exit_code(), 0);
    assert_ne!(upload.exit_code(), 0);
}
