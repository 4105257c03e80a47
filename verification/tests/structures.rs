use zero_bounce::dates::{ZBDate, ZBDateTime};
use zero_bounce::json::parse_json;
use zero_bounce::utility::mock_constants::{
    ACTIVITY_DATA_RESPONSE_ACTIVE, ACTIVITY_DATA_RESPONSE_INACTIVE, API_USAGE_RESPONSE,
    BATCH_VALIDATION_ERROR_ONLY, BATCH_VALIDATION_NO_ERROR, BATCH_VALIDATION_WITH_ERROR,
    BULK_VALIDATION_DELETE_OK, BULK_VALIDATION_RESULT_DELETED, BULK_VALIDATION_STATUS_DELETED,
    BULK_VALIDATION_STATUS_OK, BULK_VALIDATION_SUBMIT_OK, VALIDATION_RESPONSE_INVALID,
    VALIDATION_RESPONSE_NULL_FIELDS, VALIDATION_RESPONSE_VALID,
};
use zero_bounce::utility::structures::validation::{ZBBatchValidation, ZBValidation};
use zero_bounce::{ActivityData, ApiUsage, ZBFileFeedback, ZBFileStatus};

fn feedback_of(body: &str) -> Result<ZBFileFeedback, zero_bounce::ZBError> {
    let json = parse_json(body).map_err(zero_bounce::ZBError::JsonError)?;
    ZBFileFeedback::from_json(&json)
}

fn file_status_of(body: &str) -> Result<ZBFileStatus, zero_bounce::ZBError> {
    let json = parse_json(body).map_err(zero_bounce::ZBError::JsonError)?;
    ZBFileStatus::from_json(&json)
}

fn validation_of(body: &str) -> Result<ZBValidation, zero_bounce::ZBError> {
    let json = parse_json(body).map_err(zero_bounce::ZBError::JsonError)?;
    ZBValidation::from_json(&json)
}

fn batch_of(body: &str) -> Result<ZBBatchValidation, zero_bounce::ZBError> {
    let json = parse_json(body).map_err(zero_bounce::ZBError::JsonError)?;
    ZBBatchValidation::from_json(&json)
}

#[test]
fn test_parsing_file_submit_response_ok() {
    let validation = feedback_of(BULK_VALIDATION_SUBMIT_OK);
    assert!(validation.is_ok());

    let validation_obj = validation.unwrap();
    assert_eq!(validation_obj.success, true);
    assert!(validation_obj.file_id.is_some());
    assert!(validation_obj.file_name.is_some());
    assert_eq!(validation_obj.message, "File Accepted");
}

#[test]
fn test_parse_file_status_response_ok() {
    let file_status = file_status_of(BULK_VALIDATION_STATUS_OK);
    assert!(file_status.is_ok());

    let expected_date_time = ZBDateTime {
        date: ZBDate { year: 2023, month: 4, day: 26 },
        hour: 17,
        minute: 52,
        second: 23,
        millisecond: 0,
    };

    let file_status_obj = file_status.unwrap();
    assert_eq!(file_status_obj.success, true);
    assert_eq!(file_status_obj.complete_percentage, 100_000);
    assert_eq!(file_status_obj.upload_date.utc, expected_date_time);
    assert_eq!(file_status_obj.upload_date.offset_seconds, 0);
    assert!(file_status_obj.return_url.is_some());
    assert!(file_status_obj.error_reason.is_none());
}

#[test]
fn test_parse_file_status_response_deleted() {
    let file_status = file_status_of(BULK_VALIDATION_STATUS_DELETED);
    assert!(file_status.is_ok());

    let expected_date_time = ZBDateTime {
        date: ZBDate { year: 2023, month: 4, day: 26 },
        hour: 17,
        minute: 52,
        second: 23,
        millisecond: 0,
    };

    let file_status_obj = file_status.unwrap();
    assert_eq!(file_status_obj.success, true);
    assert_eq!(file_status_obj.complete_percentage, 0);
    assert_eq!(file_status_obj.upload_date.utc, expected_date_time);
    assert!(file_status_obj.return_url.is_none());
    assert!(file_status_obj.error_reason.is_some());
}

#[test]
fn test_parse_file_result_deleted() {
    let feedback = feedback_of(BULK_VALIDATION_RESULT_DELETED);
    assert!(feedback.is_ok());

    let feedback_obj = feedback.unwrap();
    assert_eq!(feedback_obj.success, false);
    assert!(feedback_obj.file_id.is_none());
    assert!(feedback_obj.file_name.is_none());
}

#[test]
fn test_parse_file_delete_ok() {
    let feedback = feedback_of(BULK_VALIDATION_DELETE_OK);
    assert!(feedback.is_ok());

    let feedback_obj = feedback.unwrap();
    assert_eq!(feedback_obj.success, true);
    assert!(feedback_obj.file_id.is_some());
    assert!(feedback_obj.file_name.is_some());
    assert_eq!(feedback_obj.message, "File Deleted");
}

#[test]
fn parse_activity_date_without_amount() {
    let activity_data_res = parse_json(ACTIVITY_DATA_RESPONSE_INACTIVE)
        .map_err(zero_bounce::ZBError::JsonError)
        .and_then(|json| ActivityData::from_json(&json));
    assert!(activity_data_res.is_ok());

    let activity_data = activity_data_res.unwrap();
    assert_eq!(activity_data.found, false);
    assert_eq!(activity_data.active_in_days, None);
}

#[test]
fn parse_activity_date_with_amount() {
    let activity_data_res = parse_json(ACTIVITY_DATA_RESPONSE_ACTIVE)
        .map_err(zero_bounce::ZBError::JsonError)
        .and_then(|json| ActivityData::from_json(&json));
    assert!(activity_data_res.is_ok());

    let activity_data = activity_data_res.unwrap();
    assert_eq!(activity_data.found, true);
    assert_eq!(activity_data.active_in_days, Some(180));
}

#[test]
fn parse_activity_data_absent_amount() {
    // per the wire contract, an absent amount reads the same as a null one
    let activity_data_res = parse_json("{\"found\": false}")
        .map_err(zero_bounce::ZBError::JsonError)
        .and_then(|json| ActivityData::from_json(&json));
    assert!(activity_data_res.is_ok());

    let activity_data = activity_data_res.unwrap();
    assert_eq!(activity_data.found, false);
    assert_eq!(activity_data.active_in_days, None);
}

#[test]
fn parse_api_usage() {
    let api_usage = parse_json(API_USAGE_RESPONSE)
        .map_err(zero_bounce::ZBError::JsonError)
        .and_then(|json| ApiUsage::from_json(&json));
    assert!(api_usage.is_ok());

    let api_usage_obj = api_usage.unwrap();
    let expected_start_date = ZBDate { year: 2010, month: 1, day: 12 };
    let expected_end_date = ZBDate { year: 2030, month: 12, day: 1 };
    assert_eq!(api_usage_obj.start_date, expected_start_date);
    assert_eq!(api_usage_obj.end_date, expected_end_date);
}

#[test]
fn json_parsing_test() {
    let api_usage = parse_json(API_USAGE_RESPONSE)
        .map_err(zero_bounce::ZBError::JsonError)
        .and_then(|json| ApiUsage::from_json(&json));
    assert!(api_usage.is_ok());

    let api_usage_obj = api_usage.unwrap();
    let expected_start_date = ZBDate { year: 2010, month: 1, day: 12 };
    let expected_end_date = ZBDate { year: 2030, month: 12, day: 1 };
    assert_eq!(api_usage_obj.start_date, expected_start_date);
    assert_eq!(api_usage_obj.end_date, expected_end_date);
}

#[test]
fn test_validation_invalid_json() {
    let validation_res = validation_of("");
    assert!(validation_res.is_err());
}

#[test]
fn test_validation_missing_expected_fields() {
    let validation_res = validation_of(VALIDATION_RESPONSE_NULL_FIELDS);
    assert!(validation_res.is_ok());

    let validation = validation_res.unwrap();
    assert_eq!(validation.did_you_mean, None);
    assert_eq!(validation.domain_age_days, Some("".to_string()));
}

#[test]
fn test_validation_invalid_email_status() {
    let validation_res = validation_of(VALIDATION_RESPONSE_INVALID);
    assert!(validation_res.is_ok());

    let validation = validation_res.unwrap();
    assert_eq!(validation.status, "invalid".to_string());
    assert_eq!(validation.sub_status, "mailbox_not_found".to_string());
    assert_eq!(validation.did_you_mean, None);
    assert_eq!(validation.smtp_provider, Some("example".to_string()));
    assert_eq!(validation.free_email, false);

    let expected_date = ZBDateTime {
        date: ZBDate { year: 2023, month: 3, day: 23 },
        hour: 12,
        minute: 30,
        second: 28,
        millisecond: 3,
    };
    assert_eq!(validation.processed_at, expected_date);
}

#[test]
fn test_validation_valid_email_status() {
    let validation_res = validation_of(VALIDATION_RESPONSE_VALID);
    assert!(validation_res.is_ok());

    let validation = validation_res.unwrap();
    assert_eq!(validation.status, "valid".to_string());
    assert_eq!(validation.sub_status, "".to_string());
    assert_eq!(validation.did_you_mean, None);
    assert_eq!(validation.smtp_provider, Some("example".to_string()));
    assert_eq!(validation.free_email, false);

    let expected_date = ZBDateTime {
        date: ZBDate { year: 2023, month: 3, day: 23 },
        hour: 13,
        minute: 30,
        second: 28,
        millisecond: 105,
    };
    assert_eq!(validation.processed_at, expected_date);
}

#[test]
fn test_batch_error_only_content() {
    let batch = batch_of(BATCH_VALIDATION_ERROR_ONLY);
    assert!(batch.is_ok());

    let batch_object = batch.unwrap();
    assert_eq!(batch_object.email_batch.len(), 0);
    assert_eq!(batch_object.errors.len(), 1);
}

#[test]
fn test_batch_validation_and_error_content() {
    let batch = batch_of(BATCH_VALIDATION_WITH_ERROR);
    assert!(batch.is_ok());

    let batch_object = batch.unwrap();
    assert_eq!(batch_object.email_batch.len(), 1);
    assert_eq!(batch_object.errors.len(), 1);
}

#[test]
fn test_batch_validation_only_content() {
    let batch = batch_of(BATCH_VALIDATION_NO_ERROR);
    assert!(batch.is_ok());

    let batch_object = batch.unwrap();
    assert_eq!(batch_object.email_batch.len(), 1);
    assert_eq!(batch_object.errors.len(), 0);
}
