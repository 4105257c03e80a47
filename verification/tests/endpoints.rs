use zero_bounce::api::validation::{
    batch_validate_from_response, batch_validate_prepare_body, validate_query,
    validation_from_response,
};
use zero_bounce::api::{
    activity_from_response, activity_query, api_usage_from_response, api_usage_query,
    api_usage_overall_range, credits_from_response, credits_query, get_credits_from_string,
};
use zero_bounce::dates::ZBDate;
use zero_bounce::utility::mock_constants::{
    ACTIVITY_DATA_RESPONSE_ACTIVE, ACTIVITY_DATA_RESPONSE_INACTIVE, API_USAGE_RESPONSE,
    BATCH_VALIDATION_NO_ERROR, CREDITS_RESPONSE_NEGATIVE, CREDITS_RESPONSE_OK,
    INVALID_API_RESPONSE, VALIDATION_RESPONSE_VALID,
};
use zero_bounce::utility::SANDBOX_IP;
use zero_bounce::ZBError;

const EMAIL: &str = "example@example.com";
const MOCK_API_KEY: &str = "mock_api_key";

#[test]
fn test_credits_negative() {
    let credits = get_credits_from_string(CREDITS_RESPONSE_NEGATIVE.to_string());
    assert!(credits.is_ok());

    let amount = credits.unwrap();
    assert_eq!(amount, -1);
}

#[test]
fn mod_test_credits_ok() {
    let credits = get_credits_from_string(CREDITS_RESPONSE_OK.to_string());
    assert!(credits.is_ok());

    let amount = credits.unwrap();
    assert_eq!(amount, 123456);
}

#[test]
fn test_credits_invalid_json() {
    let credits = credits_from_response(200, "".to_string());
    assert!(credits.is_err());

    let credits_error = credits.unwrap_err();
    assert!(matches!(credits_error, ZBError::JsonError(_)));
}

#[test]
fn test_credits_bad_request() {
    let credits = credits_from_response(400, INVALID_API_RESPONSE.to_string());
    assert!(credits.is_err());

    let credits_error = credits.unwrap_err();
    let ZBError::ExplicitError(message) = credits_error else {
        panic!("unexpected error kind");
    };
    assert!(message.contains("Missing parameter: api_key."));
}

#[test]
fn test_credits_negative_response() {
    let credits = credits_from_response(200, CREDITS_RESPONSE_NEGATIVE.to_string());
    assert!(credits.is_ok());

    let amount = credits.unwrap();
    assert_eq!(amount, -1);
}

#[test]
fn test_credits_ok() {
    let credits = credits_from_response(200, CREDITS_RESPONSE_OK.to_string());
    assert!(credits.is_ok());

    let amount = credits.unwrap();
    assert_eq!(amount, 123456);
}

#[test]
fn test_credits_not_in_json() {
    let credits = credits_from_response(200, "{\"Balance\": \"5\"}".to_string());
    let ZBError::ExplicitError(message) = credits.unwrap_err() else {
        panic!("unexpected error kind");
    };
    assert_eq!(message, "credits value not in json");
}

#[test]
fn test_credits_bad_int() {
    let credits = credits_from_response(200, "{\"Credits\": \"12x\"}".to_string());
    assert!(matches!(credits.unwrap_err(), ZBError::IntParseError(_)));
}

#[test]
fn test_credits_query_carries_key() {
    let params = credits_query(MOCK_API_KEY);
    assert_eq!(params, vec![("api_key".to_string(), MOCK_API_KEY.to_string())]);
}

#[test]
fn test_api_usage_invalid_json() {
    let api_usage = api_usage_from_response(200, "".to_string());
    assert!(api_usage.is_err());
    assert!(matches!(api_usage.unwrap_err(), ZBError::JsonError(_)));
}

#[test]
fn test_api_usage_bad_request() {
    let api_usage = api_usage_from_response(400, INVALID_API_RESPONSE.to_string());
    assert!(api_usage.is_err());
    assert!(matches!(api_usage.unwrap_err(), ZBError::ExplicitError(_)));
}

#[test]
fn test_api_usage_ok() {
    let api_usage_response = api_usage_from_response(200, API_USAGE_RESPONSE.to_string());
    assert!(api_usage_response.is_ok());

    let api_usage = api_usage_response.unwrap();
    let expected_start_date = ZBDate { year: 2010, month: 1, day: 12 };
    let expected_end_date = ZBDate { year: 2030, month: 12, day: 1 };

    assert_eq!(api_usage.total, 10);
    assert_eq!(api_usage.status_valid, 10);
    assert_eq!(api_usage.status_invalid, 0);
    assert_eq!(api_usage.start_date, expected_start_date);
    assert_eq!(api_usage.end_date, expected_end_date);
}

#[test]
fn test_api_usage_query_formats_dates() {
    let start = ZBDate { year: 2000, month: 1, day: 1 };
    let end = ZBDate { year: 2023, month: 12, day: 9 };
    let params = api_usage_query(MOCK_API_KEY, &start, &end);
    assert_eq!(
        params,
        vec![
            ("api_key".to_string(), MOCK_API_KEY.to_string()),
            ("start_date".to_string(), "2000-01-01".to_string()),
            ("end_date".to_string(), "2023-12-09".to_string()),
        ]
    );
}

#[test]
fn test_api_usage_overall_starts_at_2000() {
    let (start, end) = api_usage_overall_range();
    assert_eq!(start, ZBDate { year: 2000, month: 1, day: 1 });
    assert!(end.year >= 2020);
    assert!((1..=12).contains(&end.month));
    assert!((1..=31).contains(&end.day));
}

#[test]
fn test_activity_data_invalid_json() {
    let activity_data = activity_from_response(200, "".to_string());
    assert!(activity_data.is_err());
    assert!(matches!(activity_data.unwrap_err(), ZBError::JsonError(_)));
}

#[test]
fn test_activity_data_bad_request() {
    let activity_data = activity_from_response(400, INVALID_API_RESPONSE.to_string());
    assert!(activity_data.is_err());
    assert!(matches!(activity_data.unwrap_err(), ZBError::ExplicitError(_)));
}

#[test]
fn test_activity_data_ok_active() {
    let activity_data = activity_from_response(200, ACTIVITY_DATA_RESPONSE_ACTIVE.to_string());
    assert!(activity_data.is_ok());

    let activity_data_obj = activity_data.unwrap();
    assert_eq!(activity_data_obj.found, true);
    assert_eq!(activity_data_obj.active_in_days, Some(180));
}

#[test]
fn test_activity_data_ok_inactive() {
    let activity_data = activity_from_response(200, ACTIVITY_DATA_RESPONSE_INACTIVE.to_string());
    assert!(activity_data.is_ok());

    let activity_data_obj = activity_data.unwrap();
    assert_eq!(activity_data_obj.found, false);
    assert_eq!(activity_data_obj.active_in_days, None);
}

#[test]
fn test_activity_query_carries_email() {
    let params = activity_query(MOCK_API_KEY, EMAIL);
    assert_eq!(
        params,
        vec![
            ("api_key".to_string(), MOCK_API_KEY.to_string()),
            ("email".to_string(), EMAIL.to_string()),
        ]
    );
}

#[test]
fn test_simple_validation_invalid_json() {
    let validation = validation_from_response(200, "".to_string());
    assert!(validation.is_err());
    assert!(matches!(validation.unwrap_err(), ZBError::JsonError(_)));
}

#[test]
fn test_simple_validation_bad_request() {
    let validation = validation_from_response(400, INVALID_API_RESPONSE.to_string());
    assert!(validation.is_err());
    assert!(matches!(validation.unwrap_err(), ZBError::ExplicitError(_)));
}

#[test]
fn test_simple_validation_ok() {
    // an empty IP address is left out of the query entirely
    let params = validate_query(MOCK_API_KEY, EMAIL, "");
    assert_eq!(
        params,
        vec![
            ("api_key".to_string(), MOCK_API_KEY.to_string()),
            ("email".to_string(), EMAIL.to_string()),
        ]
    );

    let validation_response = validation_from_response(200, VALIDATION_RESPONSE_VALID.to_string());
    assert!(validation_response.is_ok());
}

#[test]
fn test_simple_validation_with_ip_ok() {
    // a non-empty IP address is attached to the query
    let params = validate_query(MOCK_API_KEY, EMAIL, SANDBOX_IP);
    assert_eq!(
        params,
        vec![
            ("api_key".to_string(), MOCK_API_KEY.to_string()),
            ("email".to_string(), EMAIL.to_string()),
            ("ip_address".to_string(), SANDBOX_IP.to_string()),
        ]
    );

    let validation_response = validation_from_response(200, VALIDATION_RESPONSE_VALID.to_string());
    assert!(validation_response.is_ok());
}

fn emails_and_ips() -> Vec<(String, String)> {
    vec![
        ("valid@example.com".to_string(), "123.123.123.123".to_string()),
        ("invalid@example.com".to_string(), "".to_string()),
    ]
}

#[test]
fn test_serializing_example() {
    let body_result = batch_validate_prepare_body("some_api_key", &emails_and_ips());
    assert!(body_result.is_ok())
}

#[test]
fn test_batch_validation_invalid_json() {
    let validation = batch_validate_from_response(200, "".to_string());
    assert!(validation.is_err());
    assert!(matches!(validation.unwrap_err(), ZBError::JsonError(_)));
}

#[test]
fn test_batch_validation_bad_request() {
    let validation = batch_validate_from_response(400, INVALID_API_RESPONSE.to_string());
    assert!(validation.is_err());
    assert!(matches!(validation.unwrap_err(), ZBError::ExplicitError(_)));
}

#[test]
fn test_batch_validation_ok() {
    let validation = batch_validate_from_response(200, BATCH_VALIDATION_NO_ERROR.to_string());
    assert!(validation.is_ok());
}

#[test]
fn test_batch_body_round_trip() {
    // re-parsing the rendered body gives back the object: the key, then
    // the entries with exactly the two expected members, in order
    let body = batch_validate_prepare_body("some_api_key", &emails_and_ips()).unwrap();
    let reparsed: serde_json::Value = serde_json::from_str(&body).unwrap();

    assert_eq!(reparsed["api_key"], serde_json::Value::String("some_api_key".to_string()));
    let batch = reparsed["email_batch"].as_array().unwrap();
    assert_eq!(batch.len(), 2);
    assert_eq!(batch[0]["email_address"], "valid@example.com");
    assert_eq!(batch[0]["ip_address"], "123.123.123.123");
    assert_eq!(batch[1]["email_address"], "invalid@example.com");
    assert_eq!(batch[1]["ip_address"], "");
    assert_eq!(batch[0].as_object().unwrap().len(), 2);
    assert_eq!(batch[1].as_object().unwrap().len(), 2);
}
