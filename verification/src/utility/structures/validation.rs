use vstd::prelude::*;

use crate::dates::{datetime_text_of, parse_datetime_text, ZBDateTime};
use crate::json::{
    json_lookup, json_shape_error, json_view, opt_str_field, req_bool_field, req_str_field, Json,
    JsonV,
};
use crate::utility::{ZBError, ZBResult};

verus! {

/// One email's validation outcome, with its optional demographic and
/// infrastructure metadata.
#[derive(Clone, Debug, PartialEq, Eq)]
pub struct ZBValidation {
    pub address: String,
    pub status: String,
    pub sub_status: String,
    pub free_email: bool,
    pub did_you_mean: Option<String>,
    pub account: Option<String>,
    pub domain: Option<String>,
    pub domain_age_days: Option<String>,
    pub smtp_provider: Option<String>,
    pub mx_record: Option<String>,
    pub mx_found: Option<String>,
    pub firstname: Option<String>,
    pub lastname: Option<String>,
    pub gender: Option<String>,
    pub country: Option<String>,
    pub region: Option<String>,
    pub city: Option<String>,
    pub zipcode: Option<String>,
    pub processed_at: ZBDateTime,
}

pub struct ZBValidationV {
    pub address: Seq<char>,
    pub status: Seq<char>,
    pub sub_status: Seq<char>,
    pub free_email: bool,
    pub did_you_mean: Option<Seq<char>>,
    pub account: Option<Seq<char>>,
    pub domain: Option<Seq<char>>,
    pub domain_age_days: Option<Seq<char>>,
    pub smtp_provider: Option<Seq<char>>,
    pub mx_record: Option<Seq<char>>,
    pub mx_found: Option<Seq<char>>,
    pub firstname: Option<Seq<char>>,
    pub lastname: Option<Seq<char>>,
    pub gender: Option<Seq<char>>,
    pub country: Option<Seq<char>>,
    pub region: Option<Seq<char>>,
    pub city: Option<Seq<char>>,
    pub zipcode: Option<Seq<char>>,
    pub processed_at: ZBDateTime,
}

impl View for ZBValidation {
    type V = ZBValidationV;

    open spec fn view(&self) -> ZBValidationV {
        ZBValidationV {
            address: self.address@,
            status: self.status@,
            sub_status: self.sub_status@,
            free_email: self.free_email,
            did_you_mean: self.did_you_mean.deep_view(),
            account: self.account.deep_view(),
            domain: self.domain.deep_view(),
            domain_age_days: self.domain_age_days.deep_view(),
            smtp_provider: self.smtp_provider.deep_view(),
            mx_record: self.mx_record.deep_view(),
            mx_found: self.mx_found.deep_view(),
            firstname: self.firstname.deep_view(),
            lastname: self.lastname.deep_view(),
            gender: self.gender.deep_view(),
            country: self.country.deep_view(),
            region: self.region.deep_view(),
            city: self.city.deep_view(),
            zipcode: self.zipcode.deep_view(),
            processed_at: self.processed_at,
        }
    }
}

/// Whether a JSON document has the validation shape.
pub open spec fn validation_ok(v: JsonV) -> bool {
    &&& req_str_field(v, "address"@) is Ok
    &&& req_str_field(v, "status"@) is Ok
    &&& req_str_field(v, "sub_status"@) is Ok
    &&& req_bool_field(v, "free_email"@) is Ok
    &&& opt_str_field(v, "did_you_mean"@) is Ok
    &&& opt_str_field(v, "account"@) is Ok
    &&& opt_str_field(v, "domain"@) is Ok
    &&& opt_str_field(v, "domain_age_days"@) is Ok
    &&& opt_str_field(v, "smtp_provider"@) is Ok
    &&& opt_str_field(v, "mx_record"@) is Ok
    &&& opt_str_field(v, "mx_found"@) is Ok
    &&& opt_str_field(v, "firstname"@) is Ok
    &&& opt_str_field(v, "lastname"@) is Ok
    &&& opt_str_field(v, "gender"@) is Ok
    &&& opt_str_field(v, "country"@) is Ok
    &&& opt_str_field(v, "region"@) is Ok
    &&& opt_str_field(v, "city"@) is Ok
    &&& opt_str_field(v, "zipcode"@) is Ok
    &&& req_str_field(v, "processed_at"@) matches Ok(t) && datetime_text_of(t) is Some
}

/// The record a well-shaped validation document decodes to.
pub open spec fn validation_of(v: JsonV) -> ZBValidationV {
    ZBValidationV {
        address: req_str_field(v, "address"@)->Ok_0,
        status: req_str_field(v, "status"@)->Ok_0,
        sub_status: req_str_field(v, "sub_status"@)->Ok_0,
        free_email: req_bool_field(v, "free_email"@)->Ok_0,
        did_you_mean: opt_str_field(v, "did_you_mean"@)->Ok_0,
        account: opt_str_field(v, "account"@)->Ok_0,
        domain: opt_str_field(v, "domain"@)->Ok_0,
        domain_age_days: opt_str_field(v, "domain_age_days"@)->Ok_0,
        smtp_provider: opt_str_field(v, "smtp_provider"@)->Ok_0,
        mx_record: opt_str_field(v, "mx_record"@)->Ok_0,
        mx_found: opt_str_field(v, "mx_found"@)->Ok_0,
        firstname: opt_str_field(v, "firstname"@)->Ok_0,
        lastname: opt_str_field(v, "lastname"@)->Ok_0,
        gender: opt_str_field(v, "gender"@)->Ok_0,
        country: opt_str_field(v, "country"@)->Ok_0,
        region: opt_str_field(v, "region"@)->Ok_0,
        city: opt_str_field(v, "city"@)->Ok_0,
        zipcode: opt_str_field(v, "zipcode"@)->Ok_0,
        processed_at: datetime_text_of(req_str_field(v, "processed_at"@)->Ok_0)->0,
    }
}

impl ZBValidation {
    /// Decodes a validation response body's parsed JSON.
    pub fn from_json(j: &Json) -> (r: ZBResult<ZBValidation>)
        ensures
            validation_ok(j@) ==> (r matches Ok(x) && x@ == validation_of(j@)),
            !validation_ok(j@) ==> (r matches Err(e) && e is JsonError),
    {
        let address = match j.req_str("address") {
            Ok(t) => t,
            Err(_) => {
                return Err(ZBError::JsonError(json_shape_error("missing or invalid field: address")));
            },
        };
        let status = match j.req_str("status") {
            Ok(t) => t,
            Err(_) => {
                return Err(ZBError::JsonError(json_shape_error("missing or invalid field: status")));
            },
        };
        let sub_status = match j.req_str("sub_status") {
            Ok(t) => t,
            Err(_) => {
                return Err(ZBError::JsonError(json_shape_error("missing or invalid field: sub_status")));
            },
        };
        let free_email = match j.req_bool("free_email") {
            Ok(b) => b,
            Err(_) => {
                return Err(ZBError::JsonError(json_shape_error("missing or invalid field: free_email")));
            },
        };
        let did_you_mean = match j.opt_str("did_you_mean") {
            Ok(t) => t,
            Err(_) => {
                return Err(ZBError::JsonError(json_shape_error("missing or invalid field: did_you_mean")));
            },
        };
        let account = match j.opt_str("account") {
            Ok(t) => t,
            Err(_) => {
                return Err(ZBError::JsonError(json_shape_error("missing or invalid field: account")));
            },
        };
        let domain = match j.opt_str("domain") {
            Ok(t) => t,
            Err(_) => {
                return Err(ZBError::JsonError(json_shape_error("missing or invalid field: domain")));
            },
        };
        let domain_age_days = match j.opt_str("domain_age_days") {
            Ok(t) => t,
            Err(_) => {
                return Err(ZBError::JsonError(json_shape_error("missing or invalid field: domain_age_days")));
            },
        };
        let smtp_provider = match j.opt_str("smtp_provider") {
            Ok(t) => t,
            Err(_) => {
                return Err(ZBError::JsonError(json_shape_error("missing or invalid field: smtp_provider")));
            },
        };
        let mx_record = match j.opt_str("mx_record") {
            Ok(t) => t,
            Err(_) => {
                return Err(ZBError::JsonError(json_shape_error("missing or invalid field: mx_record")));
            },
        };
        let mx_found = match j.opt_str("mx_found") {
            Ok(t) => t,
            Err(_) => {
                return Err(ZBError::JsonError(json_shape_error("missing or invalid field: mx_found")));
            },
        };
        let firstname = match j.opt_str("firstname") {
            Ok(t) => t,
            Err(_) => {
                return Err(ZBError::JsonError(json_shape_error("missing or invalid field: firstname")));
            },
        };
        let lastname = match j.opt_str("lastname") {
            Ok(t) => t,
            Err(_) => {
                return Err(ZBError::JsonError(json_shape_error("missing or invalid field: lastname")));
            },
        };
        let gender = match j.opt_str("gender") {
            Ok(t) => t,
            Err(_) => {
                return Err(ZBError::JsonError(json_shape_error("missing or invalid field: gender")));
            },
        };
        let country = match j.opt_str("country") {
            Ok(t) => t,
            Err(_) => {
                return Err(ZBError::JsonError(json_shape_error("missing or invalid field: country")));
            },
        };
        let region = match j.opt_str("region") {
            Ok(t) => t,
            Err(_) => {
                return Err(ZBError::JsonError(json_shape_error("missing or invalid field: region")));
            },
        };
        let city = match j.opt_str("city") {
            Ok(t) => t,
            Err(_) => {
                return Err(ZBError::JsonError(json_shape_error("missing or invalid field: city")));
            },
        };
        let zipcode = match j.opt_str("zipcode") {
            Ok(t) => t,
            Err(_) => {
                return Err(ZBError::JsonError(json_shape_error("missing or invalid field: zipcode")));
            },
        };
        let processed_text = match j.req_str("processed_at") {
            Ok(t) => t,
            Err(_) => {
                return Err(ZBError::JsonError(json_shape_error("missing or invalid field: processed_at")));
            },
        };
        let processed_at = match parse_datetime_text(processed_text.as_str()) {
            Some(t) => t,
            None => {
                return Err(ZBError::JsonError(json_shape_error("processed_at is not a timestamp")));
            },
        };
        Ok(ZBValidation {
            address,
            status,
            sub_status,
            free_email,
            did_you_mean,
            account,
            domain,
            domain_age_days,
            smtp_provider,
            mx_record,
            mx_found,
            firstname,
            lastname,
            gender,
            country,
            region,
            city,
            zipcode,
            processed_at,
        })
    }
}

/// One email the batch endpoint could not process, with its message.
#[derive(Clone, Debug, PartialEq, Eq)]
pub struct ZBBatchError {
    pub error: String,
    pub email_address: String,
}

pub struct ZBBatchErrorV {
    pub error: Seq<char>,
    pub email_address: Seq<char>,
}

impl View for ZBBatchError {
    type V = ZBBatchErrorV;

    open spec fn view(&self) -> ZBBatchErrorV {
        ZBBatchErrorV { error: self.error@, email_address: self.email_address@ }
    }
}

pub open spec fn batch_error_ok(v: JsonV) -> bool {
    &&& req_str_field(v, "error"@) is Ok
    &&& req_str_field(v, "email_address"@) is Ok
}

pub open spec fn batch_error_of(v: JsonV) -> ZBBatchErrorV {
    ZBBatchErrorV {
        error: req_str_field(v, "error"@)->Ok_0,
        email_address: req_str_field(v, "email_address"@)->Ok_0,
    }
}

/// A batch validation outcome: the per-email results and the per-email
/// error records, two independent ordered lists.
#[derive(Clone, Debug, PartialEq, Eq)]
pub struct ZBBatchValidation {
    pub email_batch: Vec<ZBValidation>,
    pub errors: Vec<ZBBatchError>,
}

pub struct ZBBatchValidationV {
    pub email_batch: Seq<ZBValidationV>,
    pub errors: Seq<ZBBatchErrorV>,
}

impl View for ZBBatchValidation {
    type V = ZBBatchValidationV;

    open spec fn view(&self) -> ZBBatchValidationV {
        ZBBatchValidationV {
            email_batch: Seq::new(self.email_batch@.len(), |i: int| self.email_batch@[i]@),
            errors: Seq::new(self.errors@.len(), |i: int| self.errors@[i]@),
        }
    }
}

pub open spec fn batch_validation_ok(v: JsonV) -> bool {
    &&& json_lookup(v, "email_batch"@) matches Some(w) && w matches JsonV::Arr(items)
        && forall|i: int| 0 <= i < items.len() ==> validation_ok(#[trigger] items[i])
    &&& json_lookup(v, "errors"@) matches Some(w) && w matches JsonV::Arr(errs) && forall|i: int|
        0 <= i < errs.len() ==> batch_error_ok(#[trigger] errs[i])
}

pub open spec fn batch_validation_of(v: JsonV) -> ZBBatchValidationV {
    let items = json_lookup(v, "email_batch"@)->0->Arr_0;
    let errs = json_lookup(v, "errors"@)->0->Arr_0;
    ZBBatchValidationV {
        email_batch: Seq::new(items.len(), |i: int| validation_of(items[i])),
        errors: Seq::new(errs.len(), |i: int| batch_error_of(errs[i])),
    }
}

impl ZBBatchValidation {
    /// Decodes a batch validation response body's parsed JSON.
    pub fn from_json(j: &Json) -> (r: ZBResult<ZBBatchValidation>)
        ensures
            batch_validation_ok(j@) ==> (r matches Ok(x) && x@ == batch_validation_of(j@)),
            !batch_validation_ok(j@) ==> (r matches Err(e) && e is JsonError),
    {
        let batch_arr = match j.get("email_batch") {
            Some(Json::Arr(items)) => items,
            _ => {
                return Err(ZBError::JsonError(json_shape_error("missing or invalid field: email_batch")));
            },
        };
        let ghost vs = json_lookup(j@, "email_batch"@)->0->Arr_0;
        let mut email_batch: Vec<ZBValidation> = Vec::new();
        let mut i: usize = 0;
        while i < batch_arr.len()
            invariant
                0 <= i <= batch_arr@.len(),
                json_lookup(j@, "email_batch"@) == Some(JsonV::Arr(vs)),
                vs.len() == batch_arr@.len(),
                forall|k: int| 0 <= k < batch_arr@.len() ==> vs[k] == json_view(batch_arr@[k]),
                email_batch@.len() == i,
                forall|k: int| 0 <= k < i ==> validation_ok(#[trigger] vs[k]),
                forall|k: int| 0 <= k < i ==> #[trigger] email_batch@[k]@ == validation_of(vs[k]),
            decreases batch_arr@.len() - i,
        {
            let one = match ZBValidation::from_json(&batch_arr[i]) {
                Ok(x) => x,
                Err(e) => {
                    proof {
                        assert(!validation_ok(vs[i as int]));
                        if batch_validation_ok(j@) {
                            let items = json_lookup(j@, "email_batch"@)->0->Arr_0;
                            assert(items == vs);
                            assert(validation_ok(items[i as int]));
                            assert(false);
                        }
                    }
                    return Err(e);
                },
            };
            email_batch.push(one);
            i += 1;
        }
        let errs_arr = match j.get("errors") {
            Some(Json::Arr(items)) => items,
            _ => {
                return Err(ZBError::JsonError(json_shape_error("missing or invalid field: errors")));
            },
        };
        let ghost es = json_lookup(j@, "errors"@)->0->Arr_0;
        let mut errors: Vec<ZBBatchError> = Vec::new();
        let mut k: usize = 0;
        while k < errs_arr.len()
            invariant
                0 <= k <= errs_arr@.len(),
                json_lookup(j@, "errors"@) == Some(JsonV::Arr(es)),
                es.len() == errs_arr@.len(),
                forall|m: int| 0 <= m < errs_arr@.len() ==> es[m] == json_view(errs_arr@[m]),
                errors@.len() == k,
                forall|m: int| 0 <= m < k ==> batch_error_ok(#[trigger] es[m]),
                forall|m: int| 0 <= m < k ==> #[trigger] errors@[m]@ == batch_error_of(es[m]),
            decreases errs_arr@.len() - k,
        {
            let item = &errs_arr[k];
            let error = match item.req_str("error") {
                Ok(t) => t,
                Err(_) => {
                    proof {
                        assert(!batch_error_ok(es[k as int]));
                        if batch_validation_ok(j@) {
                            let errs = json_lookup(j@, "errors"@)->0->Arr_0;
                            assert(errs == es);
                            assert(batch_error_ok(errs[k as int]));
                            assert(false);
                        }
                    }
                    return Err(ZBError::JsonError(json_shape_error("missing or invalid field: error")));
                },
            };
            let email_address = match item.req_str("email_address") {
                Ok(t) => t,
                Err(_) => {
                    proof {
                        assert(!batch_error_ok(es[k as int]));
                        if batch_validation_ok(j@) {
                            let errs = json_lookup(j@, "errors"@)->0->Arr_0;
                            assert(errs == es);
                            assert(batch_error_ok(errs[k as int]));
                            assert(false);
                        }
                    }
                    return Err(ZBError::JsonError(json_shape_error("missing or invalid field: email_address")));
                },
            };
            errors.push(ZBBatchError { error, email_address });
            k += 1;
        }
        proof {
            assert(Seq::new(email_batch@.len(), |m: int| email_batch@[m]@) =~= Seq::new(
                vs.len(),
                |m: int| validation_of(vs[m]),
            ));
            assert(Seq::new(errors@.len(), |m: int| errors@[m]@) =~= Seq::new(
                es.len(),
                |m: int| batch_error_of(es[m]),
            ));
        }
        Ok(ZBBatchValidation { email_batch, errors })
    }
}

} // verus!
