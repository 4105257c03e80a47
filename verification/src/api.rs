pub mod bulk;
pub mod validation;

use vstd::prelude::*;

use crate::dates::{iso_date_of, format_date_iso, today_utc, ZBDate};
use crate::json::{json_lookup, parse_json, parsed_json, JsonV};
use crate::numbers::{int_literal_value, is_int_literal, parse_i64};
use crate::utility::structures::generic::{
    activity_data_of, activity_data_ok, api_usage_of, api_usage_ok, domain_search_v2_of,
    domain_search_v2_ok, find_email_of, find_email_ok, find_email_v2_of, find_email_v2_ok,
    ActivityData, ApiUsage, DomainSearchResponseV2, FindEmailResponse, FindEmailResponseV2,
};
use crate::utility::{ZBError, ZBResult};

verus! {

/// Whether an HTTP status code counts as success: the 2xx range.
pub open spec fn status_success(code: u16) -> bool {
    200 <= code < 300
}

pub fn is_status_success(code: u16) -> (r: bool)
    ensures
        r == status_success(code),
{
    200 <= code && code < 300
}

/// The query parameters of a request, as name/value pairs in the order
/// they are sent.
pub open spec fn params_view(params: Seq<(String, String)>) -> Seq<(Seq<char>, Seq<char>)> {
    Seq::new(params.len(), |i: int| (params[i].0@, params[i].1@))
}

pub(crate) fn push_param(params: &mut Vec<(String, String)>, name: &str, value: &str)
    ensures
        params_view(final(params)@) == params_view(old(params)@).push((name@, value@)),
{
    params.push((name.to_owned(), value.to_owned()));
    proof {
        assert(params_view(final(params)@) =~= params_view(old(params)@).push((name@, value@)));
    }
}

/// The generic first stage of every plain JSON endpoint: a non-success
/// status fails with the raw body as the explicit message; a success
/// status hands the body on.
pub fn check_response(status: u16, body: String) -> (r: ZBResult<String>)
    ensures
        !status_success(status) ==> (r matches Err(e) && e matches ZBError::ExplicitError(m) && m@
            == body@),
        status_success(status) ==> (r matches Ok(b) && b@ == body@),
{
    if is_status_success(status) {
        Ok(body)
    } else {
        Err(ZBError::ExplicitError(body))
    }
}

// ---------------------------------------------------------------------------
// Credits
// ---------------------------------------------------------------------------
/// What the credits decoder makes of a response body.
pub enum CreditsOutcome {
    /// The body held `{"Credits": "<N>"}` with N a clean 64-bit integer.
    Credits(i64),
    /// The body was not JSON at all.
    NotJson,
    /// The body was JSON but held no string under "Credits".
    NotInJson,
    /// The credits string was not a clean 64-bit integer.
    BadInt,
}

/// What the credits decoder makes of an already-parsed document.
pub open spec fn credits_value_outcome(v: JsonV) -> CreditsOutcome {
    match json_lookup(v, "Credits"@) {
        Some(JsonV::Str(t)) => if is_int_literal(t) && i64::MIN <= int_literal_value(t)
            <= i64::MAX {
            CreditsOutcome::Credits(int_literal_value(t) as i64)
        } else {
            CreditsOutcome::BadInt
        },
        _ => CreditsOutcome::NotInJson,
    }
}

pub open spec fn credits_outcome(s: Seq<char>) -> CreditsOutcome {
    match parsed_json(s) {
        None => CreditsOutcome::NotJson,
        Some(v) => credits_value_outcome(v),
    }
}

/// For every representable signed credit balance, negative ones included,
/// a document of the shape {"Credits": "<N>"} decodes to exactly N.
pub proof fn lemma_credits_decode_round_trip(n: i64)
    ensures
        credits_value_outcome(
            JsonV::Obj(seq![("Credits"@, JsonV::Str(crate::numbers::i64_dec_str(n as int)))]),
        ) == CreditsOutcome::Credits(n),
{
    crate::numbers::lemma_i64_dec_str_round_trip(n);
}

/// Reads the credit balance out of a credits response body. The balance
/// may be negative: the service answers -1 for an invalid or exhausted
/// key, and that is a successful result, not an error.
pub fn get_credits_from_string(string_value: String) -> (r: ZBResult<i64>)
    ensures
        match credits_outcome(string_value@) {
            CreditsOutcome::Credits(n) => r matches Ok(m) && m == n,
            CreditsOutcome::NotJson => r matches Err(e) && e is JsonError,
            CreditsOutcome::NotInJson => r matches Err(e) && (e matches ZBError::ExplicitError(m)
                && m@ == "credits value not in json"@),
            CreditsOutcome::BadInt => r matches Err(e) && e is IntParseError,
        },
{
    let parsed = match parse_json(string_value.as_str()) {
        Ok(j) => j,
        Err(e) => {
            return Err(ZBError::JsonError(e));
        },
    };
    let credits_text = match parsed.get("Credits") {
        Some(crate::json::Json::Str(t)) => t,
        _ => {
            return Err(ZBError::explicit("credits value not in json"));
        },
    };
    match parse_i64(credits_text.as_str()) {
        Some(n) => Ok(n),
        None => Err(ZBError::IntParseError(credits_text.clone())),
    }
}

/// The query of the credits endpoint.
pub fn credits_query(api_key: &str) -> (r: Vec<(String, String)>)
    ensures
        params_view(r@) == seq![("api_key"@, api_key@)],
{
    let mut params: Vec<(String, String)> = Vec::new();
    push_param(&mut params, "api_key", api_key);
    proof {
        assert(params_view(params@) =~= seq![("api_key"@, api_key@)]);
    }
    params
}

/// Interprets a credits response: a non-success status is an explicit
/// error carrying the body, and a success body must decode as credits.
pub fn credits_from_response(status: u16, body: String) -> (r: ZBResult<i64>)
    ensures
        !status_success(status) ==> (r matches Err(e) && e matches ZBError::ExplicitError(m) && m@
            == body@),
        status_success(status) ==> match credits_outcome(body@) {
            CreditsOutcome::Credits(n) => r matches Ok(m) && m == n,
            CreditsOutcome::NotJson => r matches Err(e) && e is JsonError,
            CreditsOutcome::NotInJson => r matches Err(e) && (e matches ZBError::ExplicitError(m)
                && m@ == "credits value not in json"@),
            CreditsOutcome::BadInt => r matches Err(e) && e is IntParseError,
        },
{
    let content = match check_response(status, body) {
        Ok(b) => b,
        Err(e) => {
            return Err(e);
        },
    };
    get_credits_from_string(content)
}

// ---------------------------------------------------------------------------
// API usage
// ---------------------------------------------------------------------------
/// The query of the usage endpoint, over a closed date range.
pub fn api_usage_query(api_key: &str, start_date: &ZBDate, end_date: &ZBDate) -> (r: Vec<
    (String, String),
>)
    requires
        start_date.wf(),
        end_date.wf(),
    ensures
        params_view(r@) == seq![
            ("api_key"@, api_key@),
            ("start_date"@, iso_date_of(*start_date)),
            ("end_date"@, iso_date_of(*end_date)),
        ],
{
    let mut params: Vec<(String, String)> = Vec::new();
    push_param(&mut params, "api_key", api_key);
    let start_text = format_date_iso(start_date);
    push_param(&mut params, "start_date", start_text.as_str());
    let end_text = format_date_iso(end_date);
    push_param(&mut params, "end_date", end_text.as_str());
    proof {
        assert(params_view(params@) =~= seq![
            ("api_key"@, api_key@),
            ("start_date"@, iso_date_of(*start_date)),
            ("end_date"@, iso_date_of(*end_date)),
        ]);
    }
    params
}

/// The range the overall-usage call sugars to: from the start of the year
/// 2000 to today.
pub fn api_usage_overall_range() -> (r: (ZBDate, ZBDate))
    ensures
        r.0 == (ZBDate { year: 2000, month: 1, day: 1 }),
        r.1.wf(),
{
    (ZBDate { year: 2000, month: 1, day: 1 }, today_utc())
}

/// Interprets a usage response.
pub fn api_usage_from_response(status: u16, body: String) -> (r: ZBResult<ApiUsage>)
    ensures
        !status_success(status) ==> (r matches Err(e) && e matches ZBError::ExplicitError(m) && m@
            == body@),
        status_success(status) ==> match parsed_json(body@) {
            None => r matches Err(e) && e is JsonError,
            Some(v) => if api_usage_ok(v) {
                r matches Ok(u) && u == api_usage_of(v)
            } else {
                r matches Err(e) && e is JsonError
            },
        },
{
    let content = match check_response(status, body) {
        Ok(b) => b,
        Err(e) => {
            return Err(e);
        },
    };
    let parsed = match parse_json(content.as_str()) {
        Ok(j) => j,
        Err(e) => {
            return Err(ZBError::JsonError(e));
        },
    };
    ApiUsage::from_json(&parsed)
}

// ---------------------------------------------------------------------------
// Activity data
// ---------------------------------------------------------------------------
/// The query of the activity endpoint.
pub fn activity_query(api_key: &str, email: &str) -> (r: Vec<(String, String)>)
    ensures
        params_view(r@) == seq![("api_key"@, api_key@), ("email"@, email@)],
{
    let mut params: Vec<(String, String)> = Vec::new();
    push_param(&mut params, "api_key", api_key);
    push_param(&mut params, "email", email);
    proof {
        assert(params_view(params@) =~= seq![("api_key"@, api_key@), ("email"@, email@)]);
    }
    params
}

/// Interprets an activity response.
pub fn activity_from_response(status: u16, body: String) -> (r: ZBResult<ActivityData>)
    ensures
        !status_success(status) ==> (r matches Err(e) && e matches ZBError::ExplicitError(m) && m@
            == body@),
        status_success(status) ==> match parsed_json(body@) {
            None => r matches Err(e) && e is JsonError,
            Some(v) => if activity_data_ok(v) {
                r matches Ok(a) && a == activity_data_of(v)
            } else {
                r matches Err(e) && e is JsonError
            },
        },
{
    let content = match check_response(status, body) {
        Ok(b) => b,
        Err(e) => {
            return Err(e);
        },
    };
    let parsed = match parse_json(content.as_str()) {
        Ok(j) => j,
        Err(e) => {
            return Err(ZBError::JsonError(e));
        },
    };
    ActivityData::from_json(&parsed)
}

// ---------------------------------------------------------------------------
// Legacy email finder / domain search
// ---------------------------------------------------------------------------
/// An optional name parameter: one pair when the value is non-empty,
/// nothing when it is empty.
pub open spec fn opt_param(name: Seq<char>, value: Seq<char>) -> Seq<(Seq<char>, Seq<char>)> {
    if value.len() > 0 {
        seq![(name, value)]
    } else {
        Seq::empty()
    }
}

/// The query of the legacy finder: the domain always, each name only when
/// it is non-empty.
pub fn find_email_query(api_key: &str, domain: &str, first_name: &str, middle_name: &str, last_name: &str) -> (r:
    Vec<(String, String)>)
    ensures
        params_view(r@) == seq![("api_key"@, api_key@), ("domain"@, domain@)] + opt_param(
            "first_name"@,
            first_name@,
        ) + opt_param("middle_name"@, middle_name@) + opt_param("last_name"@, last_name@),
{
    let mut params: Vec<(String, String)> = Vec::new();
    push_param(&mut params, "api_key", api_key);
    push_param(&mut params, "domain", domain);
    if !first_name.is_empty() {
        push_param(&mut params, "first_name", first_name);
    }
    if !middle_name.is_empty() {
        push_param(&mut params, "middle_name", middle_name);
    }
    if !last_name.is_empty() {
        push_param(&mut params, "last_name", last_name);
    }
    proof {
        assert(params_view(params@) =~= seq![("api_key"@, api_key@), ("domain"@, domain@)]
            + opt_param("first_name"@, first_name@) + opt_param("middle_name"@, middle_name@)
            + opt_param("last_name"@, last_name@));
    }
    params
}

/// Interprets a legacy finder response.
pub fn find_email_from_response(status: u16, body: String) -> (r: ZBResult<FindEmailResponse>)
    ensures
        !status_success(status) ==> (r matches Err(e) && e matches ZBError::ExplicitError(m) && m@
            == body@),
        status_success(status) ==> match parsed_json(body@) {
            None => r matches Err(e) && e is JsonError,
            Some(v) => if find_email_ok(v) {
                r matches Ok(x) && x@ == find_email_of(v)
            } else {
                r matches Err(e) && e is JsonError
            },
        },
{
    let content = match check_response(status, body) {
        Ok(b) => b,
        Err(e) => {
            return Err(e);
        },
    };
    let parsed = match parse_json(content.as_str()) {
        Ok(j) => j,
        Err(e) => {
            return Err(ZBError::JsonError(e));
        },
    };
    FindEmailResponse::from_json(&parsed)
}

// ---------------------------------------------------------------------------
// V2 email finder / domain search builders
// ---------------------------------------------------------------------------
/// The builder of a v2 email-finder request. Every setter owns its input;
/// the exclusive-or rule over domain and company name is checked when the
/// query is laid out, before any network call.
#[derive(Clone, Debug, PartialEq, Eq, Default)]
pub struct FindEmailV2Builder {
    pub first_name: Option<String>,
    pub domain: Option<String>,
    pub company_name: Option<String>,
    pub middle_name: Option<String>,
    pub last_name: Option<String>,
}

/// How a v2 finder request resolves: one fault, or the laid-out query.
pub enum FinderQueryOutcome {
    MissingFirstName,
    EmptyFirstName,
    EmptyDomain,
    EmptyCompanyName,
    BothDomainAndCompany,
    NeitherDomainNorCompany,
    Query(Seq<(Seq<char>, Seq<char>)>),
}

pub open spec fn find_email_v2_outcome(
    b: FindEmailV2Builder,
    api_key: Seq<char>,
) -> FinderQueryOutcome {
    if b.first_name is None {
        FinderQueryOutcome::MissingFirstName
    } else if b.first_name->0@.len() == 0 {
        FinderQueryOutcome::EmptyFirstName
    } else if b.domain is Some && b.company_name is Some {
        FinderQueryOutcome::BothDomainAndCompany
    } else if b.domain is None && b.company_name is None {
        FinderQueryOutcome::NeitherDomainNorCompany
    } else if b.domain matches Some(d) && d@.len() == 0 {
        FinderQueryOutcome::EmptyDomain
    } else if b.company_name matches Some(c) && c@.len() == 0 {
        FinderQueryOutcome::EmptyCompanyName
    } else {
        FinderQueryOutcome::Query(
            seq![("api_key"@, api_key), ("first_name"@, b.first_name->0@)] + match b.domain {
                Some(d) => seq![("domain"@, d@)],
                None => seq![("company_name"@, b.company_name->0@)],
            } + opt_param("middle_name"@, match b.middle_name {
                Some(m) => m@,
                None => Seq::empty(),
            }) + opt_param("last_name"@, match b.last_name {
                Some(l) => l@,
                None => Seq::empty(),
            }),
        )
    }
}

impl FindEmailV2Builder {
    /// A builder with nothing set yet.
    pub fn new() -> (r: FindEmailV2Builder)
        ensures
            r == (FindEmailV2Builder {
                first_name: None,
                domain: None,
                company_name: None,
                middle_name: None,
                last_name: None,
            }),
    {
        FindEmailV2Builder {
            first_name: None,
            domain: None,
            company_name: None,
            middle_name: None,
            last_name: None,
        }
    }

    /// Sets the first name (mandatory).
    pub fn first_name(self, name: &str) -> (r: Self)
        ensures
            r.first_name matches Some(n) && n@ == name@,
            r.domain == self.domain,
            r.company_name == self.company_name,
            r.middle_name == self.middle_name,
            r.last_name == self.last_name,
    {
        FindEmailV2Builder { first_name: Some(name.to_owned()), ..self }
    }

    /// Sets the domain (exactly one of domain or company name must be set).
    pub fn domain(self, domain: &str) -> (r: Self)
        ensures
            r.domain matches Some(d) && d@ == domain@,
            r.first_name == self.first_name,
            r.company_name == self.company_name,
            r.middle_name == self.middle_name,
            r.last_name == self.last_name,
    {
        FindEmailV2Builder { domain: Some(domain.to_owned()), ..self }
    }

    /// Sets the company name (exactly one of domain or company name must be
    /// set).
    pub fn company_name(self, company: &str) -> (r: Self)
        ensures
            r.company_name matches Some(c) && c@ == company@,
            r.first_name == self.first_name,
            r.domain == self.domain,
            r.middle_name == self.middle_name,
            r.last_name == self.last_name,
    {
        FindEmailV2Builder { company_name: Some(company.to_owned()), ..self }
    }

    /// Sets the middle name (optional; sent only when non-empty).
    pub fn middle_name(self, name: &str) -> (r: Self)
        ensures
            r.middle_name matches Some(n) && n@ == name@,
            r.first_name == self.first_name,
            r.domain == self.domain,
            r.company_name == self.company_name,
            r.last_name == self.last_name,
    {
        FindEmailV2Builder { middle_name: Some(name.to_owned()), ..self }
    }

    /// Sets the last name (optional; sent only when non-empty).
    pub fn last_name(self, name: &str) -> (r: Self)
        ensures
            r.last_name matches Some(n) && n@ == name@,
            r.first_name == self.first_name,
            r.domain == self.domain,
            r.company_name == self.company_name,
            r.middle_name == self.middle_name,
    {
        FindEmailV2Builder { last_name: Some(name.to_owned()), ..self }
    }

    /// Lays out the query, or fails fast: the first name is mandatory and
    /// non-empty, and exactly one of domain or company name must be set,
    /// non-empty — checked before any network call.
    pub fn query_params(&self, api_key: &str) -> (r: ZBResult<Vec<(String, String)>>)
        ensures
            match find_email_v2_outcome(*self, api_key@) {
                FinderQueryOutcome::MissingFirstName => r matches Err(e) && (e matches
                    ZBError::ExplicitError(m) && m@ == "first_name is mandatory and must be set"@),
                FinderQueryOutcome::EmptyFirstName => r matches Err(e) && (e matches
                    ZBError::ExplicitError(m) && m@ == "first_name cannot be empty"@),
                FinderQueryOutcome::BothDomainAndCompany => r matches Err(e) && (e matches
                    ZBError::ExplicitError(m) && m@
                    == "exactly one of domain or company_name must be provided, not both"@),
                FinderQueryOutcome::NeitherDomainNorCompany => r matches Err(e) && (e matches
                    ZBError::ExplicitError(m) && m@
                    == "either domain or company_name must be provided"@),
                FinderQueryOutcome::EmptyDomain => r matches Err(e) && (e matches
                    ZBError::ExplicitError(m) && m@ == "domain cannot be empty"@),
                FinderQueryOutcome::EmptyCompanyName => r matches Err(e) && (e matches
                    ZBError::ExplicitError(m) && m@ == "company_name cannot be empty"@),
                FinderQueryOutcome::Query(q) => r matches Ok(params) && params_view(params@) == q,
            },
    {
        let first_name = match &self.first_name {
            Some(n) => n,
            None => {
                return Err(ZBError::explicit("first_name is mandatory and must be set"));
            },
        };
        if first_name.as_str().is_empty() {
            return Err(ZBError::explicit("first_name cannot be empty"));
        }
        match (&self.domain, &self.company_name) {
            (Some(_), Some(_)) => {
                return Err(
                    ZBError::explicit(
                        "exactly one of domain or company_name must be provided, not both",
                    ),
                );
            },
            (None, None) => {
                return Err(ZBError::explicit("either domain or company_name must be provided"));
            },
            (Some(d), None) => {
                if d.as_str().is_empty() {
                    return Err(ZBError::explicit("domain cannot be empty"));
                }
            },
            (None, Some(c)) => {
                if c.as_str().is_empty() {
                    return Err(ZBError::explicit("company_name cannot be empty"));
                }
            },
        }
        let mut params: Vec<(String, String)> = Vec::new();
        push_param(&mut params, "api_key", api_key);
        push_param(&mut params, "first_name", first_name.as_str());
        match (&self.domain, &self.company_name) {
            (Some(d), _) => {
                push_param(&mut params, "domain", d.as_str());
            },
            (_, Some(c)) => {
                push_param(&mut params, "company_name", c.as_str());
            },
            _ => {
                return Err(ZBError::explicit("either domain or company_name must be provided"));
            },
        }
        if let Some(middle) = &self.middle_name {
            if !middle.as_str().is_empty() {
                push_param(&mut params, "middle_name", middle.as_str());
            }
        }
        if let Some(last) = &self.last_name {
            if !last.as_str().is_empty() {
                push_param(&mut params, "last_name", last.as_str());
            }
        }
        proof {
            assert(find_email_v2_outcome(*self, api_key@) matches FinderQueryOutcome::Query(q)
                && params_view(params@) =~= q);
        }
        Ok(params)
    }
}

/// Interprets a v2 finder response.
pub fn find_email_v2_from_response(status: u16, body: String) -> (r: ZBResult<FindEmailResponseV2>)
    ensures
        !status_success(status) ==> (r matches Err(e) && e matches ZBError::ExplicitError(m) && m@
            == body@),
        status_success(status) ==> match parsed_json(body@) {
            None => r matches Err(e) && e is JsonError,
            Some(v) => if find_email_v2_ok(v) {
                r matches Ok(x) && x@ == find_email_v2_of(v)
            } else {
                r matches Err(e) && e is JsonError
            },
        },
{
    let content = match check_response(status, body) {
        Ok(b) => b,
        Err(e) => {
            return Err(e);
        },
    };
    let parsed = match parse_json(content.as_str()) {
        Ok(j) => j,
        Err(e) => {
            return Err(ZBError::JsonError(e));
        },
    };
    FindEmailResponseV2::from_json(&parsed)
}

/// The builder of a v2 domain-search request, under the same
/// exclusive-or rule as the finder but with no name parameters.
#[derive(Clone, Debug, PartialEq, Eq, Default)]
pub struct DomainSearchV2Builder {
    pub domain: Option<String>,
    pub company_name: Option<String>,
}

pub open spec fn domain_search_v2_outcome(
    b: DomainSearchV2Builder,
    api_key: Seq<char>,
) -> FinderQueryOutcome {
    if b.domain is Some && b.company_name is Some {
        FinderQueryOutcome::BothDomainAndCompany
    } else if b.domain is None && b.company_name is None {
        FinderQueryOutcome::NeitherDomainNorCompany
    } else if b.domain matches Some(d) && d@.len() == 0 {
        FinderQueryOutcome::EmptyDomain
    } else if b.company_name matches Some(c) && c@.len() == 0 {
        FinderQueryOutcome::EmptyCompanyName
    } else {
        FinderQueryOutcome::Query(
            seq![("api_key"@, api_key)] + match b.domain {
                Some(d) => seq![("domain"@, d@)],
                None => seq![("company_name"@, b.company_name->0@)],
            },
        )
    }
}

impl DomainSearchV2Builder {
    /// A builder with nothing set yet.
    pub fn new() -> (r: DomainSearchV2Builder)
        ensures
            r == (DomainSearchV2Builder { domain: None, company_name: None }),
    {
        DomainSearchV2Builder { domain: None, company_name: None }
    }

    /// Sets the domain (exactly one of domain or company name must be set).
    pub fn domain(self, domain: &str) -> (r: Self)
        ensures
            r.domain matches Some(d) && d@ == domain@,
            r.company_name == self.company_name,
    {
        DomainSearchV2Builder { domain: Some(domain.to_owned()), ..self }
    }

    /// Sets the company name (exactly one of domain or company name must be
    /// set).
    pub fn company_name(self, company: &str) -> (r: Self)
        ensures
            r.company_name matches Some(c) && c@ == company@,
            r.domain == self.domain,
    {
        DomainSearchV2Builder { company_name: Some(company.to_owned()), ..self }
    }

    /// Lays out the query, or fails fast on the exclusive-or rule, before
    /// any network call.
    pub fn query_params(&self, api_key: &str) -> (r: ZBResult<Vec<(String, String)>>)
        ensures
            match domain_search_v2_outcome(*self, api_key@) {
                FinderQueryOutcome::BothDomainAndCompany => r matches Err(e) && (e matches
                    ZBError::ExplicitError(m) && m@
                    == "exactly one of domain or company_name must be provided, not both"@),
                FinderQueryOutcome::NeitherDomainNorCompany => r matches Err(e) && (e matches
                    ZBError::ExplicitError(m) && m@
                    == "either domain or company_name must be provided"@),
                FinderQueryOutcome::EmptyDomain => r matches Err(e) && (e matches
                    ZBError::ExplicitError(m) && m@ == "domain cannot be empty"@),
                FinderQueryOutcome::EmptyCompanyName => r matches Err(e) && (e matches
                    ZBError::ExplicitError(m) && m@ == "company_name cannot be empty"@),
                FinderQueryOutcome::Query(q) => r matches Ok(params) && params_view(params@) == q,
                _ => false,
            },
    {
        match (&self.domain, &self.company_name) {
            (Some(_), Some(_)) => {
                return Err(
                    ZBError::explicit(
                        "exactly one of domain or company_name must be provided, not both",
                    ),
                );
            },
            (None, None) => {
                return Err(ZBError::explicit("either domain or company_name must be provided"));
            },
            (Some(d), None) => {
                if d.as_str().is_empty() {
                    return Err(ZBError::explicit("domain cannot be empty"));
                }
            },
            (None, Some(c)) => {
                if c.as_str().is_empty() {
                    return Err(ZBError::explicit("company_name cannot be empty"));
                }
            },
        }
        let mut params: Vec<(String, String)> = Vec::new();
        push_param(&mut params, "api_key", api_key);
        match (&self.domain, &self.company_name) {
            (Some(d), _) => {
                push_param(&mut params, "domain", d.as_str());
            },
            (_, Some(c)) => {
                push_param(&mut params, "company_name", c.as_str());
            },
            _ => {
                return Err(ZBError::explicit("either domain or company_name must be provided"));
            },
        }
        proof {
            assert(domain_search_v2_outcome(*self, api_key@) matches FinderQueryOutcome::Query(q)
                && params_view(params@) =~= q);
        }
        Ok(params)
    }
}

/// Interprets a v2 domain-search response.
pub fn domain_search_v2_from_response(status: u16, body: String) -> (r: ZBResult<
    DomainSearchResponseV2,
>)
    ensures
        !status_success(status) ==> (r matches Err(e) && e matches ZBError::ExplicitError(m) && m@
            == body@),
        status_success(status) ==> match parsed_json(body@) {
            None => r matches Err(e) && e is JsonError,
            Some(v) => if domain_search_v2_ok(v) {
                r matches Ok(x) && x@ == domain_search_v2_of(v)
            } else {
                r matches Err(e) && e is JsonError
            },
        },
{
    let content = match check_response(status, body) {
        Ok(b) => b,
        Err(e) => {
            return Err(e);
        },
    };
    let parsed = match parse_json(content.as_str()) {
        Ok(j) => j,
        Err(e) => {
            return Err(ZBError::JsonError(e));
        },
    };
    DomainSearchResponseV2::from_json(&parsed)
}

} // verus!
