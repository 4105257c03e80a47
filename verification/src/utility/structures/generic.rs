use vstd::prelude::*;

use crate::dates::{mdy_date_of, parse_mdy_date, ZBDate};
use crate::json::{
    json_lookup, json_shape_error, req_bool_field, req_str_field, req_u64_field, Json, JsonV,
};
use crate::numbers::{int_literal_value, is_uint_literal};
use crate::utility::{ZBError, ZBResult};

verus! {

/// Aggregate usage counters over a date range, one per status and
/// sub-status, with the range's bounds as the wire reports them back.
#[derive(Clone, Copy, Debug, PartialEq, Eq, Structural)]
pub struct ApiUsage {
    pub total: u64,
    pub status_valid: u64,
    pub status_invalid: u64,
    pub status_catch_all: u64,
    pub status_do_not_mail: u64,
    pub status_spamtrap: u64,
    pub status_unknown: u64,
    pub sub_status_toxic: u64,
    pub sub_status_disposable: u64,
    pub sub_status_role_based: u64,
    pub sub_status_possible_trap: u64,
    pub sub_status_global_suppression: u64,
    pub sub_status_timeout_exceeded: u64,
    pub sub_status_mail_server_temporary_error: u64,
    pub sub_status_mail_server_did_not_respond: u64,
    pub sub_status_greylisted: u64,
    pub sub_status_antispam_system: u64,
    pub sub_status_does_not_accept_mail: u64,
    pub sub_status_exception_occurred: u64,
    pub sub_status_failed_syntax_check: u64,
    pub sub_status_mailbox_not_found: u64,
    pub sub_status_unroutable_ip_address: u64,
    pub sub_status_possible_typo: u64,
    pub sub_status_no_dns_entries: u64,
    pub sub_status_role_based_catch_all: u64,
    pub sub_status_mailbox_quota_exceeded: u64,
    pub sub_status_forcible_disconnect: u64,
    pub sub_status_failed_smtp_connection: u64,
    pub sub_status_mx_forward: u64,
    pub start_date: ZBDate,
    pub end_date: ZBDate,
}

/// Whether a JSON document has the usage shape: every counter a plain
/// unsigned integer, and both dates strings in the `m/d/Y` form.
pub open spec fn api_usage_ok(v: JsonV) -> bool {
    &&& req_u64_field(v, "total"@) is Ok
    &&& req_u64_field(v, "status_valid"@) is Ok
    &&& req_u64_field(v, "status_invalid"@) is Ok
    &&& req_u64_field(v, "status_catch_all"@) is Ok
    &&& req_u64_field(v, "status_do_not_mail"@) is Ok
    &&& req_u64_field(v, "status_spamtrap"@) is Ok
    &&& req_u64_field(v, "status_unknown"@) is Ok
    &&& req_u64_field(v, "sub_status_toxic"@) is Ok
    &&& req_u64_field(v, "sub_status_disposable"@) is Ok
    &&& req_u64_field(v, "sub_status_role_based"@) is Ok
    &&& req_u64_field(v, "sub_status_possible_trap"@) is Ok
    &&& req_u64_field(v, "sub_status_global_suppression"@) is Ok
    &&& req_u64_field(v, "sub_status_timeout_exceeded"@) is Ok
    &&& req_u64_field(v, "sub_status_mail_server_temporary_error"@) is Ok
    &&& req_u64_field(v, "sub_status_mail_server_did_not_respond"@) is Ok
    &&& req_u64_field(v, "sub_status_greylisted"@) is Ok
    &&& req_u64_field(v, "sub_status_antispam_system"@) is Ok
    &&& req_u64_field(v, "sub_status_does_not_accept_mail"@) is Ok
    &&& req_u64_field(v, "sub_status_exception_occurred"@) is Ok
    &&& req_u64_field(v, "sub_status_failed_syntax_check"@) is Ok
    &&& req_u64_field(v, "sub_status_mailbox_not_found"@) is Ok
    &&& req_u64_field(v, "sub_status_unroutable_ip_address"@) is Ok
    &&& req_u64_field(v, "sub_status_possible_typo"@) is Ok
    &&& req_u64_field(v, "sub_status_no_dns_entries"@) is Ok
    &&& req_u64_field(v, "sub_status_role_based_catch_all"@) is Ok
    &&& req_u64_field(v, "sub_status_mailbox_quota_exceeded"@) is Ok
    &&& req_u64_field(v, "sub_status_forcible_disconnect"@) is Ok
    &&& req_u64_field(v, "sub_status_failed_smtp_connection"@) is Ok
    &&& req_u64_field(v, "sub_status_mx_forward"@) is Ok
    &&& req_str_field(v, "start_date"@) matches Ok(t) && mdy_date_of(t) is Some
    &&& req_str_field(v, "end_date"@) matches Ok(t) && mdy_date_of(t) is Some
}

/// The usage record a well-shaped document decodes to.
pub open spec fn api_usage_of(v: JsonV) -> ApiUsage {
    ApiUsage {
        total: req_u64_field(v, "total"@)->Ok_0,
        status_valid: req_u64_field(v, "status_valid"@)->Ok_0,
        status_invalid: req_u64_field(v, "status_invalid"@)->Ok_0,
        status_catch_all: req_u64_field(v, "status_catch_all"@)->Ok_0,
        status_do_not_mail: req_u64_field(v, "status_do_not_mail"@)->Ok_0,
        status_spamtrap: req_u64_field(v, "status_spamtrap"@)->Ok_0,
        status_unknown: req_u64_field(v, "status_unknown"@)->Ok_0,
        sub_status_toxic: req_u64_field(v, "sub_status_toxic"@)->Ok_0,
        sub_status_disposable: req_u64_field(v, "sub_status_disposable"@)->Ok_0,
        sub_status_role_based: req_u64_field(v, "sub_status_role_based"@)->Ok_0,
        sub_status_possible_trap: req_u64_field(v, "sub_status_possible_trap"@)->Ok_0,
        sub_status_global_suppression: req_u64_field(v, "sub_status_global_suppression"@)->Ok_0,
        sub_status_timeout_exceeded: req_u64_field(v, "sub_status_timeout_exceeded"@)->Ok_0,
        sub_status_mail_server_temporary_error: req_u64_field(v, "sub_status_mail_server_temporary_error"@)->Ok_0,
        sub_status_mail_server_did_not_respond: req_u64_field(v, "sub_status_mail_server_did_not_respond"@)->Ok_0,
        sub_status_greylisted: req_u64_field(v, "sub_status_greylisted"@)->Ok_0,
        sub_status_antispam_system: req_u64_field(v, "sub_status_antispam_system"@)->Ok_0,
        sub_status_does_not_accept_mail: req_u64_field(v, "sub_status_does_not_accept_mail"@)->Ok_0,
        sub_status_exception_occurred: req_u64_field(v, "sub_status_exception_occurred"@)->Ok_0,
        sub_status_failed_syntax_check: req_u64_field(v, "sub_status_failed_syntax_check"@)->Ok_0,
        sub_status_mailbox_not_found: req_u64_field(v, "sub_status_mailbox_not_found"@)->Ok_0,
        sub_status_unroutable_ip_address: req_u64_field(v, "sub_status_unroutable_ip_address"@)->Ok_0,
        sub_status_possible_typo: req_u64_field(v, "sub_status_possible_typo"@)->Ok_0,
        sub_status_no_dns_entries: req_u64_field(v, "sub_status_no_dns_entries"@)->Ok_0,
        sub_status_role_based_catch_all: req_u64_field(v, "sub_status_role_based_catch_all"@)->Ok_0,
        sub_status_mailbox_quota_exceeded: req_u64_field(v, "sub_status_mailbox_quota_exceeded"@)->Ok_0,
        sub_status_forcible_disconnect: req_u64_field(v, "sub_status_forcible_disconnect"@)->Ok_0,
        sub_status_failed_smtp_connection: req_u64_field(v, "sub_status_failed_smtp_connection"@)->Ok_0,
        sub_status_mx_forward: req_u64_field(v, "sub_status_mx_forward"@)->Ok_0,
        start_date: mdy_date_of(req_str_field(v, "start_date"@)->Ok_0)->0,
        end_date: mdy_date_of(req_str_field(v, "end_date"@)->Ok_0)->0,
    }
}

impl ApiUsage {
    /// Decodes a usage response body's parsed JSON.
    pub fn from_json(j: &Json) -> (r: ZBResult<ApiUsage>)
        ensures
            api_usage_ok(j@) ==> (r matches Ok(u) && u == api_usage_of(j@)),
            !api_usage_ok(j@) ==> (r matches Err(e) && e is JsonError),
    {
        let total = match j.req_u64("total") {
            Ok(n) => n,
            Err(_) => {
                return Err(ZBError::JsonError(json_shape_error("missing or invalid field: total")));
            },
        };
        let status_valid = match j.req_u64("status_valid") {
            Ok(n) => n,
            Err(_) => {
                return Err(ZBError::JsonError(json_shape_error("missing or invalid field: status_valid")));
            },
        };
        let status_invalid = match j.req_u64("status_invalid") {
            Ok(n) => n,
            Err(_) => {
                return Err(ZBError::JsonError(json_shape_error("missing or invalid field: status_invalid")));
            },
        };
        let status_catch_all = match j.req_u64("status_catch_all") {
            Ok(n) => n,
            Err(_) => {
                return Err(ZBError::JsonError(json_shape_error("missing or invalid field: status_catch_all")));
            },
        };
        let status_do_not_mail = match j.req_u64("status_do_not_mail") {
            Ok(n) => n,
            Err(_) => {
                return Err(ZBError::JsonError(json_shape_error("missing or invalid field: status_do_not_mail")));
            },
        };
        let status_spamtrap = match j.req_u64("status_spamtrap") {
            Ok(n) => n,
            Err(_) => {
                return Err(ZBError::JsonError(json_shape_error("missing or invalid field: status_spamtrap")));
            },
        };
        let status_unknown = match j.req_u64("status_unknown") {
            Ok(n) => n,
            Err(_) => {
                return Err(ZBError::JsonError(json_shape_error("missing or invalid field: status_unknown")));
            },
        };
        let sub_status_toxic = match j.req_u64("sub_status_toxic") {
            Ok(n) => n,
            Err(_) => {
                return Err(ZBError::JsonError(json_shape_error("missing or invalid field: sub_status_toxic")));
            },
        };
        let sub_status_disposable = match j.req_u64("sub_status_disposable") {
            Ok(n) => n,
            Err(_) => {
                return Err(ZBError::JsonError(json_shape_error("missing or invalid field: sub_status_disposable")));
            },
        };
        let sub_status_role_based = match j.req_u64("sub_status_role_based") {
            Ok(n) => n,
            Err(_) => {
                return Err(ZBError::JsonError(json_shape_error("missing or invalid field: sub_status_role_based")));
            },
        };
        let sub_status_possible_trap = match j.req_u64("sub_status_possible_trap") {
            Ok(n) => n,
            Err(_) => {
                return Err(ZBError::JsonError(json_shape_error("missing or invalid field: sub_status_possible_trap")));
            },
        };
        let sub_status_global_suppression = match j.req_u64("sub_status_global_suppression") {
            Ok(n) => n,
            Err(_) => {
                return Err(ZBError::JsonError(json_shape_error("missing or invalid field: sub_status_global_suppression")));
            },
        };
        let sub_status_timeout_exceeded = match j.req_u64("sub_status_timeout_exceeded") {
            Ok(n) => n,
            Err(_) => {
                return Err(ZBError::JsonError(json_shape_error("missing or invalid field: sub_status_timeout_exceeded")));
            },
        };
        let sub_status_mail_server_temporary_error = match j.req_u64("sub_status_mail_server_temporary_error") {
            Ok(n) => n,
            Err(_) => {
                return Err(ZBError::JsonError(json_shape_error("missing or invalid field: sub_status_mail_server_temporary_error")));
            },
        };
        let sub_status_mail_server_did_not_respond = match j.req_u64("sub_status_mail_server_did_not_respond") {
            Ok(n) => n,
            Err(_) => {
                return Err(ZBError::JsonError(json_shape_error("missing or invalid field: sub_status_mail_server_did_not_respond")));
            },
        };
        let sub_status_greylisted = match j.req_u64("sub_status_greylisted") {
            Ok(n) => n,
            Err(_) => {
                return Err(ZBError::JsonError(json_shape_error("missing or invalid field: sub_status_greylisted")));
            },
        };
        let sub_status_antispam_system = match j.req_u64("sub_status_antispam_system") {
            Ok(n) => n,
            Err(_) => {
                return Err(ZBError::JsonError(json_shape_error("missing or invalid field: sub_status_antispam_system")));
            },
        };
        let sub_status_does_not_accept_mail = match j.req_u64("sub_status_does_not_accept_mail") {
            Ok(n) => n,
            Err(_) => {
                return Err(ZBError::JsonError(json_shape_error("missing or invalid field: sub_status_does_not_accept_mail")));
            },
        };
        let sub_status_exception_occurred = match j.req_u64("sub_status_exception_occurred") {
            Ok(n) => n,
            Err(_) => {
                return Err(ZBError::JsonError(json_shape_error("missing or invalid field: sub_status_exception_occurred")));
            },
        };
        let sub_status_failed_syntax_check = match j.req_u64("sub_status_failed_syntax_check") {
            Ok(n) => n,
            Err(_) => {
                return Err(ZBError::JsonError(json_shape_error("missing or invalid field: sub_status_failed_syntax_check")));
            },
        };
        let sub_status_mailbox_not_found = match j.req_u64("sub_status_mailbox_not_found") {
            Ok(n) => n,
            Err(_) => {
                return Err(ZBError::JsonError(json_shape_error("missing or invalid field: sub_status_mailbox_not_found")));
            },
        };
        let sub_status_unroutable_ip_address = match j.req_u64("sub_status_unroutable_ip_address") {
            Ok(n) => n,
            Err(_) => {
                return Err(ZBError::JsonError(json_shape_error("missing or invalid field: sub_status_unroutable_ip_address")));
            },
        };
        let sub_status_possible_typo = match j.req_u64("sub_status_possible_typo") {
            Ok(n) => n,
            Err(_) => {
                return Err(ZBError::JsonError(json_shape_error("missing or invalid field: sub_status_possible_typo")));
            },
        };
        let sub_status_no_dns_entries = match j.req_u64("sub_status_no_dns_entries") {
            Ok(n) => n,
            Err(_) => {
                return Err(ZBError::JsonError(json_shape_error("missing or invalid field: sub_status_no_dns_entries")));
            },
        };
        let sub_status_role_based_catch_all = match j.req_u64("sub_status_role_based_catch_all") {
            Ok(n) => n,
            Err(_) => {
                return Err(ZBError::JsonError(json_shape_error("missing or invalid field: sub_status_role_based_catch_all")));
            },
        };
        let sub_status_mailbox_quota_exceeded = match j.req_u64("sub_status_mailbox_quota_exceeded") {
            Ok(n) => n,
            Err(_) => {
                return Err(ZBError::JsonError(json_shape_error("missing or invalid field: sub_status_mailbox_quota_exceeded")));
            },
        };
        let sub_status_forcible_disconnect = match j.req_u64("sub_status_forcible_disconnect") {
            Ok(n) => n,
            Err(_) => {
                return Err(ZBError::JsonError(json_shape_error("missing or invalid field: sub_status_forcible_disconnect")));
            },
        };
        let sub_status_failed_smtp_connection = match j.req_u64("sub_status_failed_smtp_connection") {
            Ok(n) => n,
            Err(_) => {
                return Err(ZBError::JsonError(json_shape_error("missing or invalid field: sub_status_failed_smtp_connection")));
            },
        };
        let sub_status_mx_forward = match j.req_u64("sub_status_mx_forward") {
            Ok(n) => n,
            Err(_) => {
                return Err(ZBError::JsonError(json_shape_error("missing or invalid field: sub_status_mx_forward")));
            },
        };
        let start_text = match j.req_str("start_date") {
            Ok(t) => t,
            Err(_) => {
                return Err(ZBError::JsonError(json_shape_error("missing or invalid field: start_date")));
            },
        };
        let start_date = match parse_mdy_date(start_text.as_str()) {
            Some(d) => d,
            None => {
                return Err(ZBError::JsonError(json_shape_error("start_date is not an m/d/Y date")));
            },
        };
        let end_text = match j.req_str("end_date") {
            Ok(t) => t,
            Err(_) => {
                return Err(ZBError::JsonError(json_shape_error("missing or invalid field: end_date")));
            },
        };
        let end_date = match parse_mdy_date(end_text.as_str()) {
            Some(d) => d,
            None => {
                return Err(ZBError::JsonError(json_shape_error("end_date is not an m/d/Y date")));
            },
        };
        Ok(ApiUsage {
            total,
            status_valid,
            status_invalid,
            status_catch_all,
            status_do_not_mail,
            status_spamtrap,
            status_unknown,
            sub_status_toxic,
            sub_status_disposable,
            sub_status_role_based,
            sub_status_possible_trap,
            sub_status_global_suppression,
            sub_status_timeout_exceeded,
            sub_status_mail_server_temporary_error,
            sub_status_mail_server_did_not_respond,
            sub_status_greylisted,
            sub_status_antispam_system,
            sub_status_does_not_accept_mail,
            sub_status_exception_occurred,
            sub_status_failed_syntax_check,
            sub_status_mailbox_not_found,
            sub_status_unroutable_ip_address,
            sub_status_possible_typo,
            sub_status_no_dns_entries,
            sub_status_role_based_catch_all,
            sub_status_mailbox_quota_exceeded,
            sub_status_forcible_disconnect,
            sub_status_failed_smtp_connection,
            sub_status_mx_forward,
            start_date,
            end_date,
        })
    }
}

/// A stringified unsigned integer member: absent and null both mean
/// nothing, a string of digits means its value, and anything else is a
/// fault.
pub open spec fn stringified_uint_field(v: JsonV, key: Seq<char>) -> Result<Option<u128>, ()> {
    match json_lookup(v, key) {
        None => Ok(None),
        Some(JsonV::Null) => Ok(None),
        Some(JsonV::Str(t)) => if is_uint_literal(t) && int_literal_value(t) <= u128::MAX {
            Ok(Some(int_literal_value(t) as u128))
        } else {
            Err(())
        },
        _ => Err(()),
    }
}

/// One email's activity lookup: whether it was seen, and for how many
/// days, when the service knows.
#[derive(Clone, Copy, Debug, PartialEq, Eq, Structural)]
pub struct ActivityData {
    pub found: bool,
    pub active_in_days: Option<u128>,
}

pub open spec fn activity_data_ok(v: JsonV) -> bool {
    &&& req_bool_field(v, "found"@) is Ok
    &&& stringified_uint_field(v, "active_in_days"@) is Ok
}

pub open spec fn activity_data_of(v: JsonV) -> ActivityData {
    ActivityData {
        found: req_bool_field(v, "found"@)->Ok_0,
        active_in_days: stringified_uint_field(v, "active_in_days"@)->Ok_0,
    }
}

impl ActivityData {
    /// Decodes an activity response body's parsed JSON.
    pub fn from_json(j: &Json) -> (r: ZBResult<ActivityData>)
        ensures
            activity_data_ok(j@) ==> (r matches Ok(a) && a == activity_data_of(j@)),
            !activity_data_ok(j@) ==> (r matches Err(e) && e is JsonError),
    {
        let found = match j.req_bool("found") {
            Ok(b) => b,
            Err(_) => {
                return Err(ZBError::JsonError(json_shape_error("missing or invalid field: found")));
            },
        };
        let active_in_days = match j.get("active_in_days") {
            None => None,
            Some(Json::Null) => None,
            Some(Json::Str(t)) => match crate::numbers::parse_u128(t.as_str()) {
                Some(n) => Some(n),
                None => {
                    return Err(ZBError::JsonError(json_shape_error("active_in_days is not an unsigned integer")));
                },
            },
            _ => {
                return Err(ZBError::JsonError(json_shape_error("missing or invalid field: active_in_days")));
            },
        };
        Ok(ActivityData { found, active_in_days })
    }
}

/// One alternate email/domain format with its own confidence label.
#[derive(Clone, Debug, PartialEq, Eq)]
pub struct ZBDomainFormat {
    pub format: String,
    pub confidence: String,
}

pub struct ZBDomainFormatV {
    pub format: Seq<char>,
    pub confidence: Seq<char>,
}

impl View for ZBDomainFormat {
    type V = ZBDomainFormatV;

    open spec fn view(&self) -> ZBDomainFormatV {
        ZBDomainFormatV { format: self.format@, confidence: self.confidence@ }
    }
}

pub open spec fn domain_format_ok(v: JsonV) -> bool {
    &&& req_str_field(v, "format"@) is Ok
    &&& req_str_field(v, "confidence"@) is Ok
}

pub open spec fn domain_format_of(v: JsonV) -> ZBDomainFormatV {
    ZBDomainFormatV {
        format: req_str_field(v, "format"@)->Ok_0,
        confidence: req_str_field(v, "confidence"@)->Ok_0,
    }
}

/// Whether a member is an array of well-shaped format records.
pub open spec fn formats_field_ok(v: JsonV, key: Seq<char>) -> bool {
    match json_lookup(v, key) {
        Some(JsonV::Arr(items)) => forall|i: int|
            0 <= i < items.len() ==> domain_format_ok(#[trigger] items[i]),
        _ => false,
    }
}

pub open spec fn formats_field_of(v: JsonV, key: Seq<char>) -> Seq<ZBDomainFormatV> {
    match json_lookup(v, key) {
        Some(JsonV::Arr(items)) => Seq::new(items.len(), |i: int| domain_format_of(items[i])),
        _ => Seq::empty(),
    }
}

fn formats_from_json(j: &Json, key: &str) -> (r: Result<Vec<ZBDomainFormat>, ()>)
    ensures
        formats_field_ok(j@, key@) ==> (r matches Ok(fs) && Seq::new(
            fs@.len(),
            |i: int| fs@[i]@,
        ) == formats_field_of(j@, key@)),
        !formats_field_ok(j@, key@) ==> r is Err,
{
    let arr = match j.get(key) {
        Some(Json::Arr(items)) => items,
        _ => {
            return Err(());
        },
    };
    let ghost vs = json_lookup(j@, key@)->0->Arr_0;
    let mut formats: Vec<ZBDomainFormat> = Vec::new();
    let mut i: usize = 0;
    while i < arr.len()
        invariant
            0 <= i <= arr@.len(),
            json_lookup(j@, key@) == Some(JsonV::Arr(vs)),
            vs.len() == arr@.len(),
            forall|k: int| 0 <= k < arr@.len() ==> vs[k] == crate::json::json_view(arr@[k]),
            formats@.len() == i,
            forall|k: int| 0 <= k < i ==> domain_format_ok(vs[k]),
            forall|k: int| 0 <= k < i ==> #[trigger] formats@[k]@ == domain_format_of(vs[k]),
        decreases arr@.len() - i,
    {
        let item = &arr[i];
        let format = match item.req_str("format") {
            Ok(t) => t,
            Err(_) => {
                proof {
                    assert(!domain_format_ok(vs[i as int]));
                    if formats_field_ok(j@, key@) {
                        let items = json_lookup(j@, key@)->0->Arr_0;
                        assert(items == vs);
                        assert(domain_format_ok(items[i as int]));
                        assert(false);
                    }
                }
                return Err(());
            },
        };
        let confidence = match item.req_str("confidence") {
            Ok(t) => t,
            Err(_) => {
                proof {
                    assert(!domain_format_ok(vs[i as int]));
                    if formats_field_ok(j@, key@) {
                        let items = json_lookup(j@, key@)->0->Arr_0;
                        assert(items == vs);
                        assert(domain_format_ok(items[i as int]));
                        assert(false);
                    }
                }
                return Err(());
            },
        };
        formats.push(ZBDomainFormat { format, confidence });
        i += 1;
    }
    proof {
        assert(Seq::new(formats@.len(), |k: int| formats@[k]@) =~= Seq::new(
            vs.len(),
            |k: int| domain_format_of(vs[k]),
        ));
    }
    Ok(formats)
}

/// The legacy email-finder / domain-search result.
#[derive(Clone, Debug, PartialEq, Eq)]
pub struct FindEmailResponse {
    pub email: String,
    pub domain: String,
    pub format: String,
    pub status: String,
    pub sub_status: String,
    pub confidence: String,
    pub did_you_mean: String,
    pub failure_reason: String,
    pub other_domain_formats: Vec<ZBDomainFormat>,
}

pub struct FindEmailResponseV {
    pub email: Seq<char>,
    pub domain: Seq<char>,
    pub format: Seq<char>,
    pub status: Seq<char>,
    pub sub_status: Seq<char>,
    pub confidence: Seq<char>,
    pub did_you_mean: Seq<char>,
    pub failure_reason: Seq<char>,
    pub other_domain_formats: Seq<ZBDomainFormatV>,
}

impl View for FindEmailResponse {
    type V = FindEmailResponseV;

    open spec fn view(&self) -> FindEmailResponseV {
        FindEmailResponseV {
            email: self.email@,
            domain: self.domain@,
            format: self.format@,
            status: self.status@,
            sub_status: self.sub_status@,
            confidence: self.confidence@,
            did_you_mean: self.did_you_mean@,
            failure_reason: self.failure_reason@,
            other_domain_formats: Seq::new(
                self.other_domain_formats@.len(),
                |i: int| self.other_domain_formats@[i]@,
            ),
        }
    }
}

pub open spec fn find_email_ok(v: JsonV) -> bool {
    &&& req_str_field(v, "email"@) is Ok
    &&& req_str_field(v, "domain"@) is Ok
    &&& req_str_field(v, "format"@) is Ok
    &&& req_str_field(v, "status"@) is Ok
    &&& req_str_field(v, "sub_status"@) is Ok
    &&& req_str_field(v, "confidence"@) is Ok
    &&& req_str_field(v, "did_you_mean"@) is Ok
    &&& req_str_field(v, "failure_reason"@) is Ok
    &&& formats_field_ok(v, "other_domain_formats"@)
}

pub open spec fn find_email_of(v: JsonV) -> FindEmailResponseV {
    FindEmailResponseV {
        email: req_str_field(v, "email"@)->Ok_0,
        domain: req_str_field(v, "domain"@)->Ok_0,
        format: req_str_field(v, "format"@)->Ok_0,
        status: req_str_field(v, "status"@)->Ok_0,
        sub_status: req_str_field(v, "sub_status"@)->Ok_0,
        confidence: req_str_field(v, "confidence"@)->Ok_0,
        did_you_mean: req_str_field(v, "did_you_mean"@)->Ok_0,
        failure_reason: req_str_field(v, "failure_reason"@)->Ok_0,
        other_domain_formats: formats_field_of(v, "other_domain_formats"@),
    }
}

impl FindEmailResponse {
    /// Decodes a legacy finder response body's parsed JSON.
    pub fn from_json(j: &Json) -> (r: ZBResult<FindEmailResponse>)
        ensures
            find_email_ok(j@) ==> (r matches Ok(x) && x@ == find_email_of(j@)),
            !find_email_ok(j@) ==> (r matches Err(e) && e is JsonError),
    {
        let email = match j.req_str("email") {
            Ok(t) => t,
            Err(_) => {
                return Err(ZBError::JsonError(json_shape_error("missing or invalid field: email")));
            },
        };
        let domain = match j.req_str("domain") {
            Ok(t) => t,
            Err(_) => {
                return Err(ZBError::JsonError(json_shape_error("missing or invalid field: domain")));
            },
        };
        let format = match j.req_str("format") {
            Ok(t) => t,
            Err(_) => {
                return Err(ZBError::JsonError(json_shape_error("missing or invalid field: format")));
            },
        };
        let status = match j.req_str("status") {
            Ok(t) => t,
            Err(_) => {
                return Err(ZBError::JsonError(json_shape_error("missing or invalid field: status")));
            },
        };
        let sub_status = match j.req_str("sub_status") {
            Ok(t) => t,
            Err(_) => {
                return Err(ZBError::JsonError(json_shape_error("missing or invalid field: sub_status")));
            },
        };
        let confidence = match j.req_str("confidence") {
            Ok(t) => t,
            Err(_) => {
                return Err(ZBError::JsonError(json_shape_error("missing or invalid field: confidence")));
            },
        };
        let did_you_mean = match j.req_str("did_you_mean") {
            Ok(t) => t,
            Err(_) => {
                return Err(ZBError::JsonError(json_shape_error("missing or invalid field: did_you_mean")));
            },
        };
        let failure_reason = match j.req_str("failure_reason") {
            Ok(t) => t,
            Err(_) => {
                return Err(ZBError::JsonError(json_shape_error("missing or invalid field: failure_reason")));
            },
        };
        let other_domain_formats = match formats_from_json(j, "other_domain_formats") {
            Ok(fs) => fs,
            Err(_) => {
                return Err(ZBError::JsonError(json_shape_error("missing or invalid field: other_domain_formats")));
            },
        };
        Ok(FindEmailResponse {
            email,
            domain,
            format,
            status,
            sub_status,
            confidence,
            did_you_mean,
            failure_reason,
            other_domain_formats,
        })
    }
}

/// The email-finder result of the v2 endpoint.
#[derive(Clone, Debug, PartialEq, Eq)]
pub struct FindEmailResponseV2 {
    pub email: String,
    pub email_confidence: String,
    pub domain: String,
    pub company_name: String,
    pub did_you_mean: String,
    pub failure_reason: String,
}

pub struct FindEmailResponseV2V {
    pub email: Seq<char>,
    pub email_confidence: Seq<char>,
    pub domain: Seq<char>,
    pub company_name: Seq<char>,
    pub did_you_mean: Seq<char>,
    pub failure_reason: Seq<char>,
}

impl View for FindEmailResponseV2 {
    type V = FindEmailResponseV2V;

    open spec fn view(&self) -> FindEmailResponseV2V {
        FindEmailResponseV2V {
            email: self.email@,
            email_confidence: self.email_confidence@,
            domain: self.domain@,
            company_name: self.company_name@,
            did_you_mean: self.did_you_mean@,
            failure_reason: self.failure_reason@,
        }
    }
}

pub open spec fn find_email_v2_ok(v: JsonV) -> bool {
    &&& req_str_field(v, "email"@) is Ok
    &&& req_str_field(v, "email_confidence"@) is Ok
    &&& req_str_field(v, "domain"@) is Ok
    &&& req_str_field(v, "company_name"@) is Ok
    &&& req_str_field(v, "did_you_mean"@) is Ok
    &&& req_str_field(v, "failure_reason"@) is Ok
}

pub open spec fn find_email_v2_of(v: JsonV) -> FindEmailResponseV2V {
    FindEmailResponseV2V {
        email: req_str_field(v, "email"@)->Ok_0,
        email_confidence: req_str_field(v, "email_confidence"@)->Ok_0,
        domain: req_str_field(v, "domain"@)->Ok_0,
        company_name: req_str_field(v, "company_name"@)->Ok_0,
        did_you_mean: req_str_field(v, "did_you_mean"@)->Ok_0,
        failure_reason: req_str_field(v, "failure_reason"@)->Ok_0,
    }
}

impl FindEmailResponseV2 {
    /// Decodes a v2 finder response body's parsed JSON.
    pub fn from_json(j: &Json) -> (r: ZBResult<FindEmailResponseV2>)
        ensures
            find_email_v2_ok(j@) ==> (r matches Ok(x) && x@ == find_email_v2_of(j@)),
            !find_email_v2_ok(j@) ==> (r matches Err(e) && e is JsonError),
    {
        let email = match j.req_str("email") {
            Ok(t) => t,
            Err(_) => {
                return Err(ZBError::JsonError(json_shape_error("missing or invalid field: email")));
            },
        };
        let email_confidence = match j.req_str("email_confidence") {
            Ok(t) => t,
            Err(_) => {
                return Err(ZBError::JsonError(json_shape_error("missing or invalid field: email_confidence")));
            },
        };
        let domain = match j.req_str("domain") {
            Ok(t) => t,
            Err(_) => {
                return Err(ZBError::JsonError(json_shape_error("missing or invalid field: domain")));
            },
        };
        let company_name = match j.req_str("company_name") {
            Ok(t) => t,
            Err(_) => {
                return Err(ZBError::JsonError(json_shape_error("missing or invalid field: company_name")));
            },
        };
        let did_you_mean = match j.req_str("did_you_mean") {
            Ok(t) => t,
            Err(_) => {
                return Err(ZBError::JsonError(json_shape_error("missing or invalid field: did_you_mean")));
            },
        };
        let failure_reason = match j.req_str("failure_reason") {
            Ok(t) => t,
            Err(_) => {
                return Err(ZBError::JsonError(json_shape_error("missing or invalid field: failure_reason")));
            },
        };
        Ok(FindEmailResponseV2 {
            email,
            email_confidence,
            domain,
            company_name,
            did_you_mean,
            failure_reason,
        })
    }
}

/// The domain-search result of the v2 endpoint.
#[derive(Clone, Debug, PartialEq, Eq)]
pub struct DomainSearchResponseV2 {
    pub domain: String,
    pub company_name: String,
    pub format: String,
    pub confidence: String,
    pub did_you_mean: String,
    pub failure_reason: String,
    pub other_domain_formats: Vec<ZBDomainFormat>,
}

pub struct DomainSearchResponseV2V {
    pub domain: Seq<char>,
    pub company_name: Seq<char>,
    pub format: Seq<char>,
    pub confidence: Seq<char>,
    pub did_you_mean: Seq<char>,
    pub failure_reason: Seq<char>,
    pub other_domain_formats: Seq<ZBDomainFormatV>,
}

impl View for DomainSearchResponseV2 {
    type V = DomainSearchResponseV2V;

    open spec fn view(&self) -> DomainSearchResponseV2V {
        DomainSearchResponseV2V {
            domain: self.domain@,
            company_name: self.company_name@,
            format: self.format@,
            confidence: self.confidence@,
            did_you_mean: self.did_you_mean@,
            failure_reason: self.failure_reason@,
            other_domain_formats: Seq::new(
                self.other_domain_formats@.len(),
                |i: int| self.other_domain_formats@[i]@,
            ),
        }
    }
}

pub open spec fn domain_search_v2_ok(v: JsonV) -> bool {
    &&& req_str_field(v, "domain"@) is Ok
    &&& req_str_field(v, "company_name"@) is Ok
    &&& req_str_field(v, "format"@) is Ok
    &&& req_str_field(v, "confidence"@) is Ok
    &&& req_str_field(v, "did_you_mean"@) is Ok
    &&& req_str_field(v, "failure_reason"@) is Ok
    &&& formats_field_ok(v, "other_domain_formats"@)
}

pub open spec fn domain_search_v2_of(v: JsonV) -> DomainSearchResponseV2V {
    DomainSearchResponseV2V {
        domain: req_str_field(v, "domain"@)->Ok_0,
        company_name: req_str_field(v, "company_name"@)->Ok_0,
        format: req_str_field(v, "format"@)->Ok_0,
        confidence: req_str_field(v, "confidence"@)->Ok_0,
        did_you_mean: req_str_field(v, "did_you_mean"@)->Ok_0,
        failure_reason: req_str_field(v, "failure_reason"@)->Ok_0,
        other_domain_formats: formats_field_of(v, "other_domain_formats"@),
    }
}

impl DomainSearchResponseV2 {
    /// Decodes a v2 domain-search response body's parsed JSON.
    pub fn from_json(j: &Json) -> (r: ZBResult<DomainSearchResponseV2>)
        ensures
            domain_search_v2_ok(j@) ==> (r matches Ok(x) && x@ == domain_search_v2_of(j@)),
            !domain_search_v2_ok(j@) ==> (r matches Err(e) && e is JsonError),
    {
        let domain = match j.req_str("domain") {
            Ok(t) => t,
            Err(_) => {
                return Err(ZBError::JsonError(json_shape_error("missing or invalid field: domain")));
            },
        };
        let company_name = match j.req_str("company_name") {
            Ok(t) => t,
            Err(_) => {
                return Err(ZBError::JsonError(json_shape_error("missing or invalid field: company_name")));
            },
        };
        let format = match j.req_str("format") {
            Ok(t) => t,
            Err(_) => {
                return Err(ZBError::JsonError(json_shape_error("missing or invalid field: format")));
            },
        };
        let confidence = match j.req_str("confidence") {
            Ok(t) => t,
            Err(_) => {
                return Err(ZBError::JsonError(json_shape_error("missing or invalid field: confidence")));
            },
        };
        let did_you_mean = match j.req_str("did_you_mean") {
            Ok(t) => t,
            Err(_) => {
                return Err(ZBError::JsonError(json_shape_error("missing or invalid field: did_you_mean")));
            },
        };
        let failure_reason = match j.req_str("failure_reason") {
            Ok(t) => t,
            Err(_) => {
                return Err(ZBError::JsonError(json_shape_error("missing or invalid field: failure_reason")));
            },
        };
        let other_domain_formats = match formats_from_json(j, "other_domain_formats") {
            Ok(fs) => fs,
            Err(_) => {
                return Err(ZBError::JsonError(json_shape_error("missing or invalid field: other_domain_formats")));
            },
        };
        Ok(DomainSearchResponseV2 {
            domain,
            company_name,
            format,
            confidence,
            did_you_mean,
            failure_reason,
            other_domain_formats,
        })
    }
}

} // verus!
