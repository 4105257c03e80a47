use vstd::prelude::*;

use crate::api::{check_response, params_view, status_success};
use crate::json::{json_view, parse_json, parsed_json, render_json, render_json_string, Json, JsonV};
use crate::utility::structures::validation::{
    batch_validation_of, batch_validation_ok, validation_of, validation_ok, ZBBatchValidation,
    ZBValidation,
};
use crate::utility::{ZBError, ZBResult};

verus! {

/// The query of the single-validation endpoint: the IP address parameter
/// is attached only when one was given.
pub fn validate_query(api_key: &str, email: &str, ip_address: &str) -> (r: Vec<(String, String)>)
    ensures
        params_view(r@) == seq![("api_key"@, api_key@), ("email"@, email@)] + crate::api::opt_param(
            "ip_address"@,
            ip_address@,
        ),
{
    let mut params: Vec<(String, String)> = Vec::new();
    crate::api::push_param(&mut params, "api_key", api_key);
    crate::api::push_param(&mut params, "email", email);
    if !ip_address.is_empty() {
        crate::api::push_param(&mut params, "ip_address", ip_address);
    }
    proof {
        assert(params_view(params@) =~= seq![("api_key"@, api_key@), ("email"@, email@)]
            + crate::api::opt_param("ip_address"@, ip_address@));
    }
    params
}

/// Interprets a single-validation response.
pub fn validation_from_response(status: u16, body: String) -> (r: ZBResult<ZBValidation>)
    ensures
        !status_success(status) ==> (r matches Err(e) && e matches ZBError::ExplicitError(m) && m@
            == body@),
        status_success(status) ==> match parsed_json(body@) {
            None => r matches Err(e) && e is JsonError,
            Some(v) => if validation_ok(v) {
                r matches Ok(x) && x@ == validation_of(v)
            } else {
                r matches Err(e) && e is JsonError
            },
        },
{
    let content = match check_response(status, body) {
        Ok(b) => b,
        Err(e) => {
            return Err(e);
        },
    };
    let parsed = match parse_json(content.as_str()) {
        Ok(j) => j,
        Err(e) => {
            return Err(ZBError::JsonError(e));
        },
    };
    ZBValidation::from_json(&parsed)
}

/// One entry of the batch request body: an object with exactly the keys
/// `email_address` and `ip_address`.
pub open spec fn email_batch_entry_v(email: Seq<char>, ip: Seq<char>) -> JsonV {
    JsonV::Obj(seq![("email_address"@, JsonV::Str(email)), ("ip_address"@, JsonV::Str(ip))])
}

/// The whole batch request body: the API key, then the entries in the
/// order the caller gave them.
pub open spec fn batch_request_v(api_key: Seq<char>, pairs: Seq<(Seq<char>, Seq<char>)>) -> JsonV {
    JsonV::Obj(
        seq![
            ("api_key"@, JsonV::Str(api_key)),
            (
                "email_batch"@,
                JsonV::Arr(Seq::new(pairs.len(), |i: int| email_batch_entry_v(pairs[i].0, pairs[i].1))),
            ),
        ],
    )
}

fn email_batch_entry(email: &String, ip: &String) -> (r: Json)
    ensures
        json_view(r) == email_batch_entry_v(email@, ip@),
{
    let mut members: Vec<(String, Json)> = Vec::new();
    members.push(("email_address".to_owned(), Json::Str(email.clone())));
    members.push(("ip_address".to_owned(), Json::Str(ip.clone())));
    let entry = Json::Obj(members);
    proof {
        assert(json_view(members@[0].1) == JsonV::Str(email@));
        assert(json_view(members@[1].1) == JsonV::Str(ip@));
        assert(json_view(entry)->Obj_0 =~~= email_batch_entry_v(email@, ip@)->Obj_0);
    }
    entry
}

/// Builds the JSON body of the batch-validation request from the caller's
/// (email, IP address) pairs, in their order, and renders it compactly.
pub fn batch_validate_prepare_body(api_key: &str, emails_and_ip_addresses: &Vec<(String, String)>) -> (r:
    ZBResult<String>)
    ensures
        r matches Ok(body) && body@ == render_json(
            batch_request_v(api_key@, params_view(emails_and_ip_addresses@)),
        ),
{
    let mut entries: Vec<Json> = Vec::new();
    let mut i: usize = 0;
    let ghost pairs = params_view(emails_and_ip_addresses@);
    while i < emails_and_ip_addresses.len()
        invariant
            0 <= i <= emails_and_ip_addresses@.len(),
            pairs == params_view(emails_and_ip_addresses@),
            pairs.len() == emails_and_ip_addresses@.len(),
            entries@.len() == i,
            forall|k: int|
                0 <= k < i ==> json_view(#[trigger] entries@[k]) == email_batch_entry_v(
                    pairs[k].0,
                    pairs[k].1,
                ),
        decreases emails_and_ip_addresses@.len() - i,
    {
        let entry = email_batch_entry(
            &emails_and_ip_addresses[i].0,
            &emails_and_ip_addresses[i].1,
        );
        entries.push(entry);
        i += 1;
    }
    let mut members: Vec<(String, Json)> = Vec::new();
    members.push(("api_key".to_owned(), Json::Str(api_key.to_owned())));
    members.push(("email_batch".to_owned(), Json::Arr(entries)));
    let body = Json::Obj(members);
    proof {
        let expected = batch_request_v(api_key@, pairs);
        assert(json_view(members@[0].1) == JsonV::Str(api_key@));
        assert(json_view(members@[1].1)->Arr_0 =~~= expected->Obj_0[1].1->Arr_0);
        assert(json_view(body)->Obj_0 =~~= expected->Obj_0);
    }
    Ok(render_json_string(&body))
}

/// Interprets a batch-validation response.
pub fn batch_validate_from_response(status: u16, body: String) -> (r: ZBResult<ZBBatchValidation>)
    ensures
        !status_success(status) ==> (r matches Err(e) && e matches ZBError::ExplicitError(m) && m@
            == body@),
        status_success(status) ==> match parsed_json(body@) {
            None => r matches Err(e) && e is JsonError,
            Some(v) => if batch_validation_ok(v) {
                r matches Ok(x) && x@ == batch_validation_of(v)
            } else {
                r matches Err(e) && e is JsonError
            },
        },
{
    let content = match check_response(status, body) {
        Ok(b) => b,
        Err(e) => {
            return Err(e);
        },
    };
    let parsed = match parse_json(content.as_str()) {
        Ok(j) => j,
        Err(e) => {
            return Err(ZBError::JsonError(e));
        },
    };
    ZBBatchValidation::from_json(&parsed)
}

} // verus!
