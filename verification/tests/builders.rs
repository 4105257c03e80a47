use zero_bounce::api::{
    domain_search_v2_from_response, find_email_from_response, find_email_query,
    find_email_v2_from_response,
};
use zero_bounce::utility::mock_constants::{
    INVALID_API_RESPONSE, MOCK_DOMAIN_SEARCH_V2_COMPANY, MOCK_DOMAIN_SEARCH_V2_DOMAIN,
    MOCK_DOMAIN_SEARCH_V2_WITH_FORMATS, MOCK_FIND_EMAIL_V2_COMPANY_VALID,
    MOCK_FIND_EMAIL_V2_DOMAIN_VALID, MOCK_FIND_EMAIL_V2_INVALID, MOCK_FIND_MAIL_INVALID,
    MOCK_FIND_MAIL_VALID,
};
use zero_bounce::{DomainSearchV2Builder, FindEmailV2Builder, ZBError};

const MOCK_API_KEY: &str = "mock_api_key";

#[test]
fn test_find_email_v2_empty_first_name() {
    let result = FindEmailV2Builder::new()
        .first_name("")
        .domain("example.com")
        .query_params(MOCK_API_KEY);
    assert!(result.is_err());

    let ZBError::ExplicitError(msg) = result.unwrap_err() else {
        panic!("unexpected error kind");
    };
    assert!(msg.contains("first_name"));
}

#[test]
fn test_find_email_v2_missing_first_name() {
    let result = FindEmailV2Builder::new().domain("example.com").query_params(MOCK_API_KEY);
    assert!(result.is_err());

    let ZBError::ExplicitError(msg) = result.unwrap_err() else {
        panic!("unexpected error kind");
    };
    assert!(msg.contains("first_name"));
}

#[test]
fn test_find_email_v2_both_domain_and_company() {
    let result = FindEmailV2Builder::new()
        .first_name("John")
        .domain("example.com")
        .company_name("Example Inc")
        .query_params(MOCK_API_KEY);
    assert!(result.is_err());

    let ZBError::ExplicitError(msg) = result.unwrap_err() else {
        panic!("unexpected error kind");
    };
    assert!(msg.contains("exactly one"));
}

#[test]
fn test_find_email_v2_neither_domain_nor_company() {
    let result = FindEmailV2Builder::new().first_name("John").query_params(MOCK_API_KEY);
    assert!(result.is_err());

    let ZBError::ExplicitError(msg) = result.unwrap_err() else {
        panic!("unexpected error kind");
    };
    assert!(msg.contains("either domain or company_name"));
}

#[test]
fn test_find_email_v2_empty_domain() {
    let result =
        FindEmailV2Builder::new().first_name("John").domain("").query_params(MOCK_API_KEY);
    assert!(result.is_err());

    let ZBError::ExplicitError(msg) = result.unwrap_err() else {
        panic!("unexpected error kind");
    };
    assert!(msg.contains("domain"));
}

#[test]
fn test_find_email_v2_empty_company_name() {
    let result =
        FindEmailV2Builder::new().first_name("John").company_name("").query_params(MOCK_API_KEY);
    assert!(result.is_err());

    let ZBError::ExplicitError(msg) = result.unwrap_err() else {
        panic!("unexpected error kind");
    };
    assert!(msg.contains("company_name"));
}

#[test]
fn test_find_email_v2_query_with_names() {
    let params = FindEmailV2Builder::new()
        .first_name("John")
        .domain("example.com")
        .middle_name("")
        .last_name("Doe")
        .query_params(MOCK_API_KEY)
        .unwrap();
    // the empty middle name is left out of the query entirely
    assert_eq!(
        params,
        vec![
            ("api_key".to_string(), MOCK_API_KEY.to_string()),
            ("first_name".to_string(), "John".to_string()),
            ("domain".to_string(), "example.com".to_string()),
            ("last_name".to_string(), "Doe".to_string()),
        ]
    );
}

#[test]
fn test_find_email_v2_invalid_json() {
    let result = find_email_v2_from_response(200, "".to_string());
    assert!(result.is_err());
    assert!(matches!(result.unwrap_err(), ZBError::JsonError(_)));
}

#[test]
fn test_find_email_v2_bad_request() {
    let result = find_email_v2_from_response(400, INVALID_API_RESPONSE.to_string());
    assert!(result.is_err());
    assert!(matches!(result.unwrap_err(), ZBError::ExplicitError(_)));
}

#[test]
fn test_find_email_v2_with_domain_ok() {
    let result = find_email_v2_from_response(200, MOCK_FIND_EMAIL_V2_DOMAIN_VALID.to_string());
    assert!(result.is_ok());

    let response = result.unwrap();
    assert_eq!(response.email, "john.doe@example.com");
    assert_eq!(response.email_confidence, "high");
    assert_eq!(response.company_name, "Internet Assigned Numbers Authority");
}

#[test]
fn test_find_email_v2_with_company_name_ok() {
    let result = find_email_v2_from_response(200, MOCK_FIND_EMAIL_V2_COMPANY_VALID.to_string());
    assert!(result.is_ok());

    let response = result.unwrap();
    assert_eq!(response.email, "john.doe@example.com");
    assert_eq!(response.email_confidence, "high");
    assert_eq!(response.company_name, "Example Inc");
    assert_eq!(response.domain, "betheexample.org");
}

#[test]
fn test_find_email_v2_with_middle_name() {
    let params = FindEmailV2Builder::new()
        .first_name("John")
        .domain("example.com")
        .middle_name("Middle")
        .last_name("Doe")
        .query_params(MOCK_API_KEY)
        .unwrap();
    assert!(params.contains(&("middle_name".to_string(), "Middle".to_string())));

    let result = find_email_v2_from_response(200, MOCK_FIND_EMAIL_V2_DOMAIN_VALID.to_string());
    assert!(result.is_ok());

    let response = result.unwrap();
    assert_eq!(response.email, "john.doe@example.com");
    assert_eq!(response.email_confidence, "high");
}

#[test]
fn test_find_email_v2_invalid_response() {
    let result = find_email_v2_from_response(200, MOCK_FIND_EMAIL_V2_INVALID.to_string());
    assert!(result.is_ok());

    let response = result.unwrap();
    assert_eq!(response.email, "");
    assert_eq!(response.email_confidence, "undetermined");
}

#[test]
fn test_domain_search_v2_both_domain_and_company() {
    let result = DomainSearchV2Builder::new()
        .domain("example.com")
        .company_name("Example Inc")
        .query_params(MOCK_API_KEY);
    assert!(result.is_err());

    let ZBError::ExplicitError(msg) = result.unwrap_err() else {
        panic!("unexpected error kind");
    };
    assert!(msg.contains("exactly one"));
}

#[test]
fn test_domain_search_v2_neither_domain_nor_company() {
    let result = DomainSearchV2Builder::new().query_params(MOCK_API_KEY);
    assert!(result.is_err());

    let ZBError::ExplicitError(msg) = result.unwrap_err() else {
        panic!("unexpected error kind");
    };
    assert!(msg.contains("either domain or company_name"));
}

#[test]
fn test_domain_search_v2_empty_domain() {
    let result = DomainSearchV2Builder::new().domain("").query_params(MOCK_API_KEY);
    assert!(result.is_err());

    let ZBError::ExplicitError(msg) = result.unwrap_err() else {
        panic!("unexpected error kind");
    };
    assert!(msg.contains("domain"));
}

#[test]
fn test_domain_search_v2_empty_company_name() {
    let result = DomainSearchV2Builder::new().company_name("").query_params(MOCK_API_KEY);
    assert!(result.is_err());

    let ZBError::ExplicitError(msg) = result.unwrap_err() else {
        panic!("unexpected error kind");
    };
    assert!(msg.contains("company_name"));
}

#[test]
fn test_domain_search_v2_query_with_domain() {
    let params = DomainSearchV2Builder::new().domain("example.com").query_params(MOCK_API_KEY);
    assert_eq!(
        params.unwrap(),
        vec![
            ("api_key".to_string(), MOCK_API_KEY.to_string()),
            ("domain".to_string(), "example.com".to_string()),
        ]
    );
}

#[test]
fn test_domain_search_v2_invalid_json() {
    let result = domain_search_v2_from_response(200, "".to_string());
    assert!(result.is_err());
    assert!(matches!(result.unwrap_err(), ZBError::JsonError(_)));
}

#[test]
fn test_domain_search_v2_bad_request() {
    let result = domain_search_v2_from_response(400, INVALID_API_RESPONSE.to_string());
    assert!(result.is_err());
    assert!(matches!(result.unwrap_err(), ZBError::ExplicitError(_)));
}

#[test]
fn test_domain_search_v2_with_domain_ok() {
    let result = domain_search_v2_from_response(200, MOCK_DOMAIN_SEARCH_V2_DOMAIN.to_string());
    assert!(result.is_ok());

    let response = result.unwrap();
    assert_eq!(response.domain, "example.com");
    assert_eq!(response.company_name, "");
    assert_eq!(response.format, "unknown");
    assert_eq!(response.confidence, "undetermined");
    assert_eq!(response.other_domain_formats.len(), 0);
}

#[test]
fn test_domain_search_v2_with_company_name_ok() {
    let result = domain_search_v2_from_response(200, MOCK_DOMAIN_SEARCH_V2_COMPANY.to_string());
    assert!(result.is_ok());

    let response = result.unwrap();
    assert_eq!(response.domain, "betheexample.org");
    assert_eq!(response.company_name, "Example Inc");
    assert_eq!(response.format, "unknown");
    assert_eq!(response.confidence, "undetermined");
    assert_eq!(response.other_domain_formats.len(), 0);
}

#[test]
fn test_domain_search_v2_with_formats() {
    let result =
        domain_search_v2_from_response(200, MOCK_DOMAIN_SEARCH_V2_WITH_FORMATS.to_string());
    assert!(result.is_ok());

    let response = result.unwrap();
    assert_eq!(response.domain, "example.com");
    assert_eq!(response.format, "first.last");
    assert_eq!(response.confidence, "high");
    assert_eq!(response.other_domain_formats.len(), 2);
    assert_eq!(response.other_domain_formats[0].format, "first_last");
    assert_eq!(response.other_domain_formats[0].confidence, "high");
    assert_eq!(response.other_domain_formats[1].format, "first");
    assert_eq!(response.other_domain_formats[1].confidence, "medium");
}

#[test]
fn test_find_mail_invalid_json() {
    let find_mail_res = find_email_from_response(200, "".to_string());
    assert!(find_mail_res.is_err());
    assert!(matches!(find_mail_res.unwrap_err(), ZBError::JsonError(_)));
}

#[test]
fn test_find_bad_request() {
    let find_mail_res = find_email_from_response(400, INVALID_API_RESPONSE.to_string());
    assert!(find_mail_res.is_err());
    assert!(matches!(find_mail_res.unwrap_err(), ZBError::ExplicitError(_)));
}

#[test]
fn test_find_invalid_status_payload() {
    let find_mail_res = find_email_from_response(200, MOCK_FIND_MAIL_INVALID.to_string());
    assert!(find_mail_res.is_ok());

    let find_mail_object = find_mail_res.unwrap();
    assert_eq!(find_mail_object.status, "invalid");
    assert_eq!(find_mail_object.email, "");
    assert_eq!(find_mail_object.confidence, "undetermined");
    assert_eq!(find_mail_object.other_domain_formats.len(), 0);
}

#[test]
fn test_find_valid_status_payload() {
    let find_mail_res = find_email_from_response(200, MOCK_FIND_MAIL_VALID.to_string());
    assert!(find_mail_res.is_ok());

    let find_mail_object = find_mail_res.unwrap();
    assert_eq!(find_mail_object.status, "valid");
    assert_eq!(find_mail_object.email, "john.doe@example.com");
    assert_eq!(find_mail_object.confidence, "high");
    assert_eq!(find_mail_object.other_domain_formats.len(), 2);
    assert_eq!(find_mail_object.other_domain_formats[0].confidence, "high");
    assert_eq!(find_mail_object.other_domain_formats[1].confidence, "medium");
}

#[test]
fn test_find_email_query_skips_empty_names() {
    let params = find_email_query(MOCK_API_KEY, "example.com", "", "", "");
    assert_eq!(
        params,
        vec![
            ("api_key".to_string(), MOCK_API_KEY.to_string()),
            ("domain".to_string(), "example.com".to_string()),
        ]
    );

    let with_names = find_email_query(MOCK_API_KEY, "example.com", "John", "", "Doe");
    assert_eq!(
        with_names,
        vec![
            ("api_key".to_string(), MOCK_API_KEY.to_string()),
            ("domain".to_string(), "example.com".to_string()),
            ("first_name".to_string(), "John".to_string()),
            ("last_name".to_string(), "Doe".to_string()),
        ]
    );
}
