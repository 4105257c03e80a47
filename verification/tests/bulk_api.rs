use zero_bounce::api::bulk::{
    bulk_fetch_from_response, file_feedback_from_response, file_request_query,
    file_status_from_response, file_submit_from_response, HeaderValue,
};
use zero_bounce::utility::mock_constants::{
    BULK_VALIDATION_DELETE_NOT_FOUND, BULK_VALIDATION_DELETE_OK, BULK_VALIDATION_RESULT_DELETED,
    BULK_VALIDATION_STATUS_OK, BULK_VALIDATION_SUBMIT_ERROR, BULK_VALIDATION_SUBMIT_OK,
    INVALID_API_RESPONSE,
};
use zero_bounce::utility::structures::bulk::{ZBBulkResponse, ZBFileContentType, ZBMultipartField};
use zero_bounce::utility::{CONTENT_TYPE_JSON, CONTENT_TYPE_STREAM};
use zero_bounce::{ZBError, ZBFile};

const MOCK_API_KEY: &str = "mock_api_key";

fn json_header() -> HeaderValue {
    HeaderValue::Value(CONTENT_TYPE_JSON.to_string())
}

#[test]
fn test_bulk_validate_submit_invalid_json() {
    let response = file_submit_from_response("".to_string());
    assert!(response.is_err());
    assert!(matches!(response.unwrap_err(), ZBError::JsonError(_)));
}

#[test]
fn test_bulk_validate_submit_bad_request() {
    let response = file_submit_from_response(BULK_VALIDATION_SUBMIT_ERROR.to_string());
    assert!(response.is_err());

    let ZBError::ExplicitError(msg) = response.unwrap_err() else {
        panic!("unexpected error kind");
    };
    assert!(msg.starts_with("Feedback not success: "));
    assert!(msg.contains("wrong format"));
}

#[test]
fn test_bulk_validate_submit_ok() {
    let response = file_submit_from_response(BULK_VALIDATION_SUBMIT_OK.to_string());
    assert!(response.is_ok());
    assert_eq!(response.unwrap().message, "File Accepted");
}

#[test]
fn test_bulk_validate_status_invalid_json() {
    let response = file_status_from_response(200, "".to_string());
    assert!(response.is_err());
    assert!(matches!(response.unwrap_err(), ZBError::JsonError(_)));
}

#[test]
fn test_bulk_validate_status_bad_request() {
    let response = file_status_from_response(400, INVALID_API_RESPONSE.to_string());
    assert!(response.is_err());
    assert!(matches!(response.unwrap_err(), ZBError::ExplicitError(_)));
}

#[test]
fn test_bulk_validate_status_ok() {
    let response = file_status_from_response(200, BULK_VALIDATION_STATUS_OK.to_string());
    assert!(response.is_ok());
}

#[test]
fn test_bulk_validate_result_no_content_type() {
    let response =
        bulk_fetch_from_response(200, &HeaderValue::Missing, b"mock content".to_vec());
    assert!(response.is_err());

    let ZBError::ExplicitError(msg) = response.unwrap_err() else {
        panic!("unexpected error kind");
    };
    assert_eq!(msg, "content type not specified in response");
}

#[test]
fn test_bulk_validate_result_bad_request() {
    let response =
        bulk_fetch_from_response(400, &json_header(), INVALID_API_RESPONSE.as_bytes().to_vec());
    assert!(response.is_err());

    let ZBError::ExplicitError(msg) = response.unwrap_err() else {
        panic!("unexpected error kind");
    };
    assert!(msg.contains("Missing parameter: api_key."));
}

#[test]
fn test_bulk_validate_result_false_positive() {
    let response = bulk_fetch_from_response(
        200,
        &json_header(),
        BULK_VALIDATION_RESULT_DELETED.as_bytes().to_vec(),
    );
    assert!(response.is_ok());

    match response.unwrap() {
        ZBBulkResponse::Feedback(feedback) => assert_eq!(feedback.success, false),
        ZBBulkResponse::Content(_) => panic!("unexpected response kind"),
    }
}

#[test]
fn test_bulk_validate_result_ok() {
    let expected_content = "some raw content";
    let response = bulk_fetch_from_response(
        200,
        &HeaderValue::Value(CONTENT_TYPE_STREAM.to_string()),
        expected_content.as_bytes().to_vec(),
    );
    assert!(response.is_ok());

    match response.unwrap() {
        ZBBulkResponse::Content(content) => assert_eq!(content, expected_content.as_bytes()),
        ZBBulkResponse::Feedback(_) => panic!("unexpected response kind"),
    }
}

#[test]
fn test_bulk_validate_result_unexpected_content_type() {
    let response = bulk_fetch_from_response(
        200,
        &HeaderValue::Value("text/plain".to_string()),
        b"mock content".to_vec(),
    );
    assert!(response.is_err());

    let ZBError::ExplicitError(msg) = response.unwrap_err() else {
        panic!("unexpected error kind");
    };
    assert_eq!(msg, "Status: 200. Content-type: text/plain. Response content: mock content");
}

#[test]
fn test_bulk_validate_delete_invalid_json() {
    let response = file_feedback_from_response(200, "".to_string());
    assert!(response.is_err());
    assert!(matches!(response.unwrap_err(), ZBError::JsonError(_)));
}

#[test]
fn test_bulk_validate_delete_bad_request() {
    let response = file_feedback_from_response(400, INVALID_API_RESPONSE.to_string());
    assert!(response.is_err());
    assert!(matches!(response.unwrap_err(), ZBError::ExplicitError(_)));
}

#[test]
fn test_bulk_validate_delete_not_ok() {
    let response = file_feedback_from_response(200, BULK_VALIDATION_DELETE_NOT_FOUND.to_string());
    assert!(response.is_ok());

    let response_obj = response.unwrap();
    assert_eq!(response_obj.success, false);
    assert_eq!(response_obj.message, "File cannot be found.");
}

#[test]
fn test_bulk_validate_delete_ok() {
    let response = file_feedback_from_response(200, BULK_VALIDATION_DELETE_OK.to_string());
    assert!(response.is_ok());

    let response_obj = response.unwrap();
    assert_eq!(response_obj.success, true);
}

#[test]
fn test_file_request_query() {
    let params = file_request_query(MOCK_API_KEY, "mock_file_id");
    assert_eq!(
        params,
        vec![
            ("api_key".to_string(), MOCK_API_KEY.to_string()),
            ("file_id".to_string(), "mock_file_id".to_string()),
        ]
    );
}

#[test]
fn test_zb_file_defaults_and_setters() {
    let file = ZBFile::from_content(b"email\nvalid@example.com\n".to_vec())
        .set_has_header_row(false)
        .set_remove_duplicate(true)
        .set_email_address_column(2)
        .set_first_name_column(Some(3));
    assert_eq!(file.has_header_row, false);
    assert_eq!(file.remove_duplicate, true);
    assert_eq!(file.email_address_column, 2);
    assert_eq!(file.first_name_column, Some(3));
    assert_eq!(file.last_name_column, None);
    assert!(!file.content_type.is_empty());
}

#[test]
fn test_content_type_is_empty() {
    assert!(ZBFileContentType::Empty.is_empty());
    assert!(ZBFileContentType::RawContent(vec![]).is_empty());
    assert!(!ZBFileContentType::RawContent(vec![1]).is_empty());
    assert!(!ZBFileContentType::FilePath("emails.csv".to_string()).is_empty());
}

#[test]
fn test_generate_multipart_empty_content() {
    let file = ZBFile::default();
    let multipart = file.generate_multipart();
    assert!(multipart.is_err());

    let ZBError::ExplicitError(msg) = multipart.unwrap_err() else {
        panic!("unexpected error kind");
    };
    assert_eq!(msg, "bulk content cannot be empty");
}

#[test]
fn test_generate_multipart_layout() {
    let file = ZBFile::from_content(b"a@b.c\n".to_vec())
        .set_remove_duplicate(true)
        .set_ip_address_column(Some(4));
    let fields = file.generate_multipart().unwrap();
    assert_eq!(fields.len(), 5);
    match &fields[0] {
        ZBMultipartField::BytesPart { bytes, file_name, mime } => {
            assert_eq!(bytes.as_slice(), b"a@b.c\n");
            assert_eq!(file_name, "file.csv");
            assert_eq!(mime, "text/csv");
        },
        _ => panic!("unexpected first field"),
    }
    assert_eq!(
        fields[1],
        ZBMultipartField::Text {
            name: "has_header_row".to_string(),
            value: "true".to_string(),
        }
    );
    assert_eq!(
        fields[2],
        ZBMultipartField::Text {
            name: "remove_duplicate".to_string(),
            value: "true".to_string(),
        }
    );
    assert_eq!(
        fields[3],
        ZBMultipartField::Text {
            name: "email_address_column".to_string(),
            value: "1".to_string(),
        }
    );
    assert_eq!(
        fields[4],
        ZBMultipartField::Text {
            name: "ip_address_column".to_string(),
            value: "4".to_string(),
        }
    );
}

#[test]
fn test_generate_multipart_from_path() {
    let file = ZBFile::from_path("emails.csv".to_string());
    let fields = file.generate_multipart().unwrap();
    assert_eq!(fields[0], ZBMultipartField::FilePart { path: "emails.csv".to_string() });
}
