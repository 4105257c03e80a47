pub mod mock_constants;
pub mod structures;

use vstd::prelude::*;

verus! {

pub const URI: &'static str = "https://api.zerobounce.net/v2";

pub const BULK_URI: &'static str = "https://bulkapi.zerobounce.net/v2";

pub const USA_URI: &'static str = "https://api-us.zerobounce.net/v2";

pub const EU_URI: &'static str = "https://api-eu.zerobounce.net/v2";

pub const ENDPOINT_CREDITS: &'static str = "/getcredits";

pub const ENDPOINT_ACTIVITY_DATA: &'static str = "/activity";

pub const ENDPOINT_VALIDATE: &'static str = "/validate";

pub const ENDPOINT_API_USAGE: &'static str = "/getapiusage";

pub const ENDPOINT_BATCH_VALIDATE: &'static str = "/validatebatch";

pub const ENDPOINT_EMAIL_FINDER: &'static str = "/guessformat";

pub const ENDPOINT_FILE_SEND: &'static str = "/sendfile";

pub const ENDPOINT_FILE_STATUS: &'static str = "/filestatus";

pub const ENDPOINT_FILE_RESULT: &'static str = "/getfile";

pub const ENDPOINT_FILE_DELETE: &'static str = "/deletefile";

pub const ENDPOINT_SCORING_SEND: &'static str = "/scoring/sendfile";

pub const ENDPOINT_SCORING_STATUS: &'static str = "/scoring/filestatus";

pub const ENDPOINT_SCORING_RESULT: &'static str = "/scoring/getfile";

pub const ENDPOINT_SCORING_DELETE: &'static str = "/scoring/deletefile";

pub const SANDBOX_IP: &'static str = "99.110.204.1";

pub const CONTENT_TYPE_JSON: &'static str = "application/json";

pub const CONTENT_TYPE_STREAM: &'static str = "application/octet-stream";

// validation statuses
pub const S_VALID: &'static str = "valid";

pub const S_INVALID: &'static str = "invalid";

pub const S_CATCH_ALL: &'static str = "catch-all";

pub const S_UNKNOWN: &'static str = "unknown";

pub const S_SPAMTRAP: &'static str = "spamtrap";

pub const S_ABUSE: &'static str = "abuse";

pub const S_DO_NOT_MAIL: &'static str = "do_not_mail";

// validation sub statuses
pub const SS_ANTISPAM_SYSTEM: &'static str = "antispam_system";

pub const SS_GREYLISTED: &'static str = "greylisted";

pub const SS_MAIL_SERVER_TEMPORARY_ERROR: &'static str = "mail_server_temporary_error";

pub const SS_FORCIBLE_DISCONNECT: &'static str = "forcible_disconnect";

pub const SS_MAIL_SERVER_DID_NOT_RESPOND: &'static str = "mail_server_did_not_respond";

pub const SS_TIMEOUT_EXCEEDED: &'static str = "timeout_exceeded";

pub const SS_FAILED_SMTP_CONNECTION: &'static str = "failed_smtp_connection";

pub const SS_MAILBOX_QUOTA_EXCEEDED: &'static str = "mailbox_quota_exceeded";

pub const SS_EXCEPTION_OCCURRED: &'static str = "exception_occurred";

pub const SS_POSSIBLE_TRAP: &'static str = "possible_trap";

pub const SS_ROLE_BASED: &'static str = "role_based";

pub const SS_GLOBAL_SUPPRESSION: &'static str = "global_suppression";

pub const SS_MAILBOX_NOT_FOUND: &'static str = "mailbox_not_found";

pub const SS_NO_DNS_ENTRIES: &'static str = "no_dns_entries";

pub const SS_FAILED_SYNTAX_CHECK: &'static str = "failed_syntax_check";

pub const SS_POSSIBLE_TYPO: &'static str = "possible_typo";

pub const SS_UNROUTABLE_IP_ADDRESS: &'static str = "unroutable_ip_address";

pub const SS_LEADING_PERIOD_REMOVED: &'static str = "leading_period_removed";

pub const SS_DOES_NOT_ACCEPT_MAIL: &'static str = "does_not_accept_mail";

pub const SS_ALIAS_ADDRESS: &'static str = "alias_address";

pub const SS_ROLE_BASED_CATCH_ALL: &'static str = "role_based_catch_all";

pub const SS_DISPOSABLE: &'static str = "disposable";

pub const SS_TOXIC: &'static str = "toxic";

#[verifier::external_type_specification]
#[verifier::external_body]
pub struct ExReqwestError(reqwest::Error);

/// One of the regional presets for the plain API's base URL.
#[derive(Clone, Copy, Debug)]
pub enum ApiBaseUrl {
    Default,
    USA,
    EU,
}

impl ApiBaseUrl {
    pub fn as_str(&self) -> (r: &'static str)
        ensures
            *self is Default ==> r@ == URI@,
            *self is USA ==> r@ == USA_URI@,
            *self is EU ==> r@ == EU_URI@,
    {
        match self {
            ApiBaseUrl::Default => URI,
            ApiBaseUrl::USA => USA_URI,
            ApiBaseUrl::EU => EU_URI,
        }
    }
}

/// The error taxonomy of the library: a transport failure, an explicit
/// message from the remote service or from a local check, a body that is
/// not the expected JSON, or a numeric field that is not a clean integer.
#[derive(Debug)]
pub enum ZBError {
    ExplicitError(String),
    JsonError(serde_json::Error),
    IntParseError(String),
    RequestError(reqwest::Error),
}

pub type ZBResult<T> = Result<T, ZBError>;

impl ZBError {
    /// An explicit error carrying the given message.
    pub fn explicit(string: &str) -> (r: ZBError)
        ensures
            r matches ZBError::ExplicitError(m) && m@ == string@,
    {
        ZBError::ExplicitError(string.to_owned())
    }
}

impl From<reqwest::Error> for ZBError {
    /// A transport failure, wrapped as the transport error kind.
    fn from(value: reqwest::Error) -> ZBError {
        ZBError::RequestError(value)
    }
}

impl vstd::std_specs::convert::FromSpecImpl<reqwest::Error> for ZBError {
    open spec fn obeys_from_spec() -> bool {
        true
    }

    open spec fn from_spec(t: reqwest::Error) -> ZBError {
        ZBError::RequestError(t)
    }
}

impl From<serde_json::Error> for ZBError {
    /// A body that could not be read as the expected JSON, wrapped as the
    /// decode error kind.
    fn from(value: serde_json::Error) -> ZBError {
        ZBError::JsonError(value)
    }
}

impl vstd::std_specs::convert::FromSpecImpl<serde_json::Error> for ZBError {
    open spec fn obeys_from_spec() -> bool {
        true
    }

    open spec fn from_spec(t: serde_json::Error) -> ZBError {
        ZBError::JsonError(t)
    }
}

} // verus!
