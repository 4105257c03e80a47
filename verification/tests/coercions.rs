use zero_bounce::dates::{
    format_date_iso, parse_datetime_text, parse_mdy_date, parse_rfc3339, ZBDate, ZBDateTime,
};
use zero_bounce::json::{parse_json, render_json_string, Json};
use zero_bounce::message::{message_from_json, ZBMessage};
use zero_bounce::numbers::{i64_to_string, parse_i64, parse_u128, u64_to_string};
use zero_bounce::percent::parse_percent_milli;
use zero_bounce::text::str_eq;
use zero_bounce::utility::structures::validate_enums::{ZBValidateStatus, ZBValidateSubStatus};
use zero_bounce::ZBUrlProvider;

// ---------------------------------------------------------------------------
// Percentage coercion
// ---------------------------------------------------------------------------
#[test]
fn percent_plain_values() {
    assert_eq!(parse_percent_milli("100%"), 100_000);
    assert_eq!(parse_percent_milli("0%"), 0);
    assert_eq!(parse_percent_milli("57%"), 57_000);
    assert_eq!(parse_percent_milli("99.5%"), 99_500);
    assert_eq!(parse_percent_milli("-12.25%"), -12_250);
    assert_eq!(parse_percent_milli("+3%"), 3_000);
}

#[test]
fn percent_prefix_without_sign_rules() {
    // everything before the first percent sign counts, and a missing sign
    // is fine: the whole string is the prefix then
    assert_eq!(parse_percent_milli("42"), 42_000);
    assert_eq!(parse_percent_milli("8%extra%50"), 8_000);
    assert_eq!(parse_percent_milli(".5%"), 500);
    assert_eq!(parse_percent_milli("7.%"), 7_000);
}

#[test]
fn percent_malformed_gives_sentinel() {
    assert_eq!(parse_percent_milli(""), -1000);
    assert_eq!(parse_percent_milli("%"), -1000);
    assert_eq!(parse_percent_milli("abc%"), -1000);
    assert_eq!(parse_percent_milli("12a%"), -1000);
    assert_eq!(parse_percent_milli("1.2.3%"), -1000);
    assert_eq!(parse_percent_milli("-%"), -1000);
    assert_eq!(parse_percent_milli(".%"), -1000);
    assert_eq!(parse_percent_milli("1e3%"), -1000);
}

// ---------------------------------------------------------------------------
// Integer parsing and rendering
// ---------------------------------------------------------------------------
#[test]
fn parse_i64_accepts_signed_decimals() {
    assert_eq!(parse_i64("0"), Some(0));
    assert_eq!(parse_i64("-1"), Some(-1));
    assert_eq!(parse_i64("+123456"), Some(123456));
    assert_eq!(parse_i64("9223372036854775807"), Some(i64::MAX));
    assert_eq!(parse_i64("-9223372036854775808"), Some(i64::MIN));
    assert_eq!(parse_i64("9223372036854775808"), None);
    assert_eq!(parse_i64("-9223372036854775809"), None);
    assert_eq!(parse_i64(""), None);
    assert_eq!(parse_i64("-"), None);
    assert_eq!(parse_i64("12 "), None);
    assert_eq!(parse_i64("1.0"), None);
}

#[test]
fn parse_u128_accepts_unsigned_decimals() {
    assert_eq!(parse_u128("180"), Some(180));
    assert_eq!(parse_u128("+7"), Some(7));
    assert_eq!(parse_u128("-7"), None);
    assert_eq!(parse_u128("340282366920938463463374607431768211455"), Some(u128::MAX));
    assert_eq!(parse_u128("340282366920938463463374607431768211456"), None);
    assert_eq!(parse_u128(""), None);
}

#[test]
fn integer_rendering_matches_std() {
    assert_eq!(u64_to_string(0), "0");
    assert_eq!(u64_to_string(90210), 90210u64.to_string());
    assert_eq!(i64_to_string(-1), "-1");
    assert_eq!(i64_to_string(i64::MIN), i64::MIN.to_string());
    assert_eq!(i64_to_string(i64::MAX), i64::MAX.to_string());
}

// ---------------------------------------------------------------------------
// Dates
// ---------------------------------------------------------------------------
#[test]
fn mdy_dates_parse_exactly() {
    assert_eq!(parse_mdy_date("1/12/2010"), Some(ZBDate { year: 2010, month: 1, day: 12 }));
    assert_eq!(parse_mdy_date("12/1/2030"), Some(ZBDate { year: 2030, month: 12, day: 1 }));
    assert_eq!(parse_mdy_date("2010-01-12"), None);
    assert_eq!(parse_mdy_date("13/1/2010"), None);
}

#[test]
fn rfc3339_parses_to_utc() {
    let parsed = parse_rfc3339("2023-04-26T17:52:23Z").unwrap();
    assert_eq!(
        parsed.utc,
        ZBDateTime {
            date: ZBDate { year: 2023, month: 4, day: 26 },
            hour: 17,
            minute: 52,
            second: 23,
            millisecond: 0,
        }
    );
    assert_eq!(parsed.offset_seconds, 0);

    let offset = parse_rfc3339("2023-04-26T17:52:23+02:00").unwrap();
    assert_eq!(offset.utc.hour, 15);
    assert_eq!(offset.offset_seconds, 7200);

    assert_eq!(parse_rfc3339("2023-04-26 17:52:23"), None);
}

#[test]
fn datetime_text_needs_millis() {
    let parsed = parse_datetime_text("2023-03-23 13:30:28.105").unwrap();
    assert_eq!(
        parsed,
        ZBDateTime {
            date: ZBDate { year: 2023, month: 3, day: 23 },
            hour: 13,
            minute: 30,
            second: 28,
            millisecond: 105,
        }
    );
    assert_eq!(parse_datetime_text("2023-03-23 13:30:28"), None);
}

#[test]
fn iso_date_zero_pads() {
    assert_eq!(format_date_iso(&ZBDate { year: 2000, month: 1, day: 1 }), "2000-01-01");
    assert_eq!(format_date_iso(&ZBDate { year: 987, month: 11, day: 5 }), "0987-11-05");
}

// ---------------------------------------------------------------------------
// The lenient message decoder
// ---------------------------------------------------------------------------
fn decode_message(body: &str) -> ZBMessage {
    let json = parse_json(body).unwrap();
    message_from_json(&json)
}

#[test]
fn message_single_keeps_text() {
    let message = decode_message("\"File Accepted\"");
    match &message {
        ZBMessage::Single(text) => assert_eq!(text, "File Accepted"),
        _ => panic!("unexpected variant"),
    }
    assert_eq!(message.flattened(), "File Accepted");
}

#[test]
fn message_array_keeps_order_and_blanks_non_strings() {
    let message = decode_message("[\"first\", \"second\", 3, \"fourth\"]");
    match &message {
        ZBMessage::Multiple(parts) => {
            assert_eq!(parts, &vec![
                "first".to_string(),
                "second".to_string(),
                "".to_string(),
                "fourth".to_string(),
            ]);
        },
        _ => panic!("unexpected variant"),
    }
    assert_eq!(message.flattened(), "first\nsecond\n\nfourth");
}

#[test]
fn message_other_shapes_round_trip_as_text() {
    let cases = ["{\"a\":2,\"b\":[null,true]}", "12.5", "null", "true", "-7"];
    for case in cases {
        let message = decode_message(case);
        let ZBMessage::Unexpected(text) = &message else {
            panic!("unexpected variant");
        };
        // the rendered fallback carries the document's semantic content:
        // serde_json re-renders it to the very same text
        let reparsed: serde_json::Value = serde_json::from_str(case).unwrap();
        assert_eq!(text, &reparsed.to_string());
        assert_eq!(message.flattened(), *text);
    }
}

#[test]
fn render_escapes_like_serde() {
    let source = "{\"quote\\\"and\\\\back\":\"line\\nbreak\\ttab\\u0001\"}";
    let json = parse_json(source).unwrap();
    let rendered = render_json_string(&json);
    let reparsed: serde_json::Value = serde_json::from_str(source).unwrap();
    assert_eq!(rendered, reparsed.to_string());
}

// ---------------------------------------------------------------------------
// Status enums, text helpers, URL provider
// ---------------------------------------------------------------------------
#[test]
fn statuses_round_trip_known_and_unknown() {
    assert_eq!(ZBValidateStatus::from_wire("valid"), ZBValidateStatus::Valid);
    assert_eq!(ZBValidateStatus::from_wire("catch-all"), ZBValidateStatus::CatchAll);
    assert_eq!(ZBValidateStatus::from_wire(""), ZBValidateStatus::Empty);
    assert_eq!(
        ZBValidateStatus::from_wire("brand_new"),
        ZBValidateStatus::UnknownValue("brand_new".to_string())
    );

    assert_eq!(
        ZBValidateSubStatus::from_wire("mailbox_not_found"),
        ZBValidateSubStatus::MailboxNotFound
    );
    assert_eq!(ZBValidateSubStatus::from_wire("toxic"), ZBValidateSubStatus::Toxic);
    assert_eq!(ZBValidateSubStatus::from_wire(""), ZBValidateSubStatus::Empty);
    assert_eq!(
        ZBValidateSubStatus::from_wire("odd_reason"),
        ZBValidateSubStatus::UnknownValue("odd_reason".to_string())
    );
}

#[test]
fn statuses_parse_via_from_str() {
    let status: ZBValidateStatus = "spamtrap".parse().unwrap();
    assert_eq!(status, ZBValidateStatus::Spamtrap);
    let sub_status: ZBValidateSubStatus = "greylisted".parse().unwrap();
    assert_eq!(sub_status, ZBValidateSubStatus::Greylisted);
}

#[test]
fn str_eq_compares_contents() {
    assert!(str_eq("abc", "abc"));
    assert!(!str_eq("abc", "abd"));
    assert!(!str_eq("abc", "ab"));
}

#[test]
fn url_provider_concatenates() {
    let provider = ZBUrlProvider {
        url: "https://base.example".to_string(),
        bulk_url: "https://bulk.example".to_string(),
    };
    assert_eq!(provider.url_of("/getcredits"), "https://base.example/getcredits");
    assert_eq!(provider.bulk_url_of("/sendfile"), "https://bulk.example/sendfile");

    let default_provider = ZBUrlProvider::default();
    assert_eq!(default_provider.url, "https://api.zerobounce.net/v2");
    assert_eq!(default_provider.bulk_url, "https://bulkapi.zerobounce.net/v2");
}

#[test]
fn json_lookup_takes_first_member() {
    let json = parse_json("{\"Credits\": \"23\", \"other\": null}").unwrap();
    match json.get("Credits") {
        Some(Json::Str(text)) => assert_eq!(text, "23"),
        _ => panic!("unexpected lookup result"),
    }
    assert!(json.get("missing").is_none());
}
