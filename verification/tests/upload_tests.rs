use file_sharer::errors::ShareError;
use file_sharer::http::is_success;
use file_sharer::upload::{parse_upload_response, upload_endpoint, upload_part_name, user_agent};

#[test]
fn success_body_with_link_yields_download_url() {
    let body = r#"{"data":{"url":"https://tmpfiles.org/123/x.txt"}}"#.to_string();
    let r = parse_upload_response(200, body);
    match r {
        Ok(u) => assert_eq!(u.download_url, "https://tmpfiles.org/123/x.txt"),
        Err(_) => panic!("a success response with a link must parse"),
    }
}

#[test]
fn success_body_without_link_fails() {
    let r = parse_upload_response(200, r#"{"data":{}}"#.to_string());
    match r {
        Ok(_) => panic!("a body without a link must fail"),
        Err(ShareError::UploadFailed { status, detail }) => {
            assert_eq!(status, 200);
            assert_eq!(detail, "could not obtain download link");
        }
        Err(_) => panic!("the error must be UploadFailed"),
    }
}

#[test]
fn non_success_status_fails_with_status_and_body() {
    let r = parse_upload_response(500, "server exploded".to_string());
    match r {
        Ok(_) => panic!("a 500 must fail"),
        Err(ShareError::UploadFailed { status, detail }) => {
            assert_eq!(status, 500);
            assert_eq!(detail, "server exploded");
        }
        Err(_) => panic!("the error must be UploadFailed"),
    }
}

#[test]
fn unparsable_body_fails() {
    let r = parse_upload_response(200, "not json at all".to_string());
    assert!(matches!(r, Err(ShareError::UploadFailed { .. })));
}

#[test]
fn non_string_link_fails() {
    let r = parse_upload_response(200, r#"{"data":{"url":5}}"#.to_string());
    assert!(matches!(r, Err(ShareError::UploadFailed { .. })));
}

#[test]
fn link_outside_data_fails() {
    let r = parse_upload_response(200, r#"{"url":"https://tmpfiles.org/1/y"}"#.to_string());
    assert!(matches!(r, Err(ShareError::UploadFailed { .. })));
}

#[test]
fn wire_constants_match_the_services() {
    assert_eq!(upload_endpoint(), "https://tmpfiles.org/api/v1/upload");
    assert_eq!(upload_part_name(), "file");
    assert!(user_agent().starts_with("Mozilla/5.0"));
}

#[test]
fn success_range_is_exactly_2xx() {
    assert!(!is_success(199));
    assert!(is_success(200));
    assert!(is_success(299));
    assert!(!is_success(300));
    assert!(!is_success(404));
    assert!(!is_success(500));
}
