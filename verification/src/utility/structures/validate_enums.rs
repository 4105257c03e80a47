use vstd::prelude::*;

use crate::text::str_eq;

verus! {

/// The coarse validation status of one email, as the validate endpoints
/// report it. A wire value outside the known set is kept losslessly in
/// `UnknownValue`, never turned into an error.
#[derive(Debug, Clone, PartialEq, Eq)]
pub enum ZBValidateStatus {
    Empty,
    Valid,
    Invalid,
    CatchAll,
    Unknown,
    Spamtrap,
    Abuse,
    DoNotMail,
    UnknownValue(String),
}

/// Exactly which status a wire string denotes.
pub open spec fn status_denotes(s: Seq<char>, r: ZBValidateStatus) -> bool {
    if s == Seq::<char>::empty() {
        r is Empty
    } else if s == "valid"@ {
        r is Valid
    } else if s == "invalid"@ {
        r is Invalid
    } else if s == "catch-all"@ {
        r is CatchAll
    } else if s == "unknown"@ {
        r is Unknown
    } else if s == "spamtrap"@ {
        r is Spamtrap
    } else if s == "abuse"@ {
        r is Abuse
    } else if s == "do_not_mail"@ {
        r is DoNotMail
    } else {
        r matches ZBValidateStatus::UnknownValue(t) && t@ == s
    }
}

impl ZBValidateStatus {
    /// Reads a status off the wire; every string denotes some status.
    pub fn from_wire(s: &str) -> (r: ZBValidateStatus)
        ensures
            status_denotes(s@, r),
    {
        if s.unicode_len() == 0 {
            proof {
                assert(s@ =~= Seq::<char>::empty());
            }
            ZBValidateStatus::Empty
        } else if str_eq(s, "valid") {
            ZBValidateStatus::Valid
        } else if str_eq(s, "invalid") {
            ZBValidateStatus::Invalid
        } else if str_eq(s, "catch-all") {
            ZBValidateStatus::CatchAll
        } else if str_eq(s, "unknown") {
            ZBValidateStatus::Unknown
        } else if str_eq(s, "spamtrap") {
            ZBValidateStatus::Spamtrap
        } else if str_eq(s, "abuse") {
            ZBValidateStatus::Abuse
        } else if str_eq(s, "do_not_mail") {
            ZBValidateStatus::DoNotMail
        } else {
            ZBValidateStatus::UnknownValue(s.to_owned())
        }
    }
}

/// The fine-grained reason code qualifying a validation status. A wire
/// value outside the known set is kept losslessly in `UnknownValue`.
#[derive(Debug, Clone, PartialEq, Eq)]
pub enum ZBValidateSubStatus {
    Empty,
    AntispamSystem,
    Greylisted,
    MailServerTemporaryError,
    ForcibleDisconnect,
    MailServerDidNotRespond,
    TimeoutExceeded,
    FailedSmtpConnection,
    MailboxQuotaExceeded,
    ExceptionOccurred,
    PossibleTrap,
    RoleBased,
    GlobalSuppression,
    MailboxNotFound,
    NoDnsEntries,
    FailedSyntaxCheck,
    PossibleTypo,
    UnroutableIpAddress,
    LeadingPeriodRemoved,
    DoesNotAcceptMail,
    AliasAddress,
    RoleBasedCatchAll,
    Disposable,
    Toxic,
    Alternate,
    MxForward,
    Blocked,
    Allowed,
    AcceptAll,
    RoleBasedAcceptAll,
    Gold,
    UnknownValue(String),
}

/// Exactly which sub-status a wire string denotes.
pub open spec fn sub_status_denotes(s: Seq<char>, r: ZBValidateSubStatus) -> bool {
    if s == Seq::<char>::empty() {
        r is Empty
    } else if s == "antispam_system"@ {
        r is AntispamSystem
    } else if s == "greylisted"@ {
        r is Greylisted
    } else if s == "mail_server_temporary_error"@ {
        r is MailServerTemporaryError
    } else if s == "forcible_disconnect"@ {
        r is ForcibleDisconnect
    } else if s == "mail_server_did_not_respond"@ {
        r is MailServerDidNotRespond
    } else if s == "timeout_exceeded"@ {
        r is TimeoutExceeded
    } else if s == "failed_smtp_connection"@ {
        r is FailedSmtpConnection
    } else if s == "mailbox_quota_exceeded"@ {
        r is MailboxQuotaExceeded
    } else if s == "exception_occurred"@ {
        r is ExceptionOccurred
    } else if s == "possible_trap"@ {
        r is PossibleTrap
    } else if s == "role_based"@ {
        r is RoleBased
    } else if s == "global_suppression"@ {
        r is GlobalSuppression
    } else if s == "mailbox_not_found"@ {
        r is MailboxNotFound
    } else if s == "no_dns_entries"@ {
        r is NoDnsEntries
    } else if s == "failed_syntax_check"@ {
        r is FailedSyntaxCheck
    } else if s == "possible_typo"@ {
        r is PossibleTypo
    } else if s == "unroutable_ip_address"@ {
        r is UnroutableIpAddress
    } else if s == "leading_period_removed"@ {
        r is LeadingPeriodRemoved
    } else if s == "does_not_accept_mail"@ {
        r is DoesNotAcceptMail
    } else if s == "alias_address"@ {
        r is AliasAddress
    } else if s == "role_based_catch_all"@ {
        r is RoleBasedCatchAll
    } else if s == "disposable"@ {
        r is Disposable
    } else if s == "toxic"@ {
        r is Toxic
    } else if s == "alternate"@ {
        r is Alternate
    } else if s == "mx_forward"@ {
        r is MxForward
    } else if s == "blocked"@ {
        r is Blocked
    } else if s == "allowed"@ {
        r is Allowed
    } else if s == "accept_all"@ {
        r is AcceptAll
    } else if s == "role_based_accept_all"@ {
        r is RoleBasedAcceptAll
    } else if s == "gold"@ {
        r is Gold
    } else {
        r matches ZBValidateSubStatus::UnknownValue(t) && t@ == s
    }
}

impl ZBValidateSubStatus {
    /// Reads a sub-status off the wire; every string denotes some
    /// sub-status.
    pub fn from_wire(s: &str) -> (r: ZBValidateSubStatus)
        ensures
            sub_status_denotes(s@, r),
    {
        if s.unicode_len() == 0 {
            proof {
                assert(s@ =~= Seq::<char>::empty());
            }
            ZBValidateSubStatus::Empty
        } else if str_eq(s, "antispam_system") {
            ZBValidateSubStatus::AntispamSystem
        } else if str_eq(s, "greylisted") {
            ZBValidateSubStatus::Greylisted
        } else if str_eq(s, "mail_server_temporary_error") {
            ZBValidateSubStatus::MailServerTemporaryError
        } else if str_eq(s, "forcible_disconnect") {
            ZBValidateSubStatus::ForcibleDisconnect
        } else if str_eq(s, "mail_server_did_not_respond") {
            ZBValidateSubStatus::MailServerDidNotRespond
        } else if str_eq(s, "timeout_exceeded") {
            ZBValidateSubStatus::TimeoutExceeded
        } else if str_eq(s, "failed_smtp_connection") {
            ZBValidateSubStatus::FailedSmtpConnection
        } else if str_eq(s, "mailbox_quota_exceeded") {
            ZBValidateSubStatus::MailboxQuotaExceeded
        } else if str_eq(s, "exception_occurred") {
            ZBValidateSubStatus::ExceptionOccurred
        } else if str_eq(s, "possible_trap") {
            ZBValidateSubStatus::PossibleTrap
        } else if str_eq(s, "role_based") {
            ZBValidateSubStatus::RoleBased
        } else if str_eq(s, "global_suppression") {
            ZBValidateSubStatus::GlobalSuppression
        } else if str_eq(s, "mailbox_not_found") {
            ZBValidateSubStatus::MailboxNotFound
        } else if str_eq(s, "no_dns_entries") {
            ZBValidateSubStatus::NoDnsEntries
        } else if str_eq(s, "failed_syntax_check") {
            ZBValidateSubStatus::FailedSyntaxCheck
        } else if str_eq(s, "possible_typo") {
            ZBValidateSubStatus::PossibleTypo
        } else if str_eq(s, "unroutable_ip_address") {
            ZBValidateSubStatus::UnroutableIpAddress
        } else if str_eq(s, "leading_period_removed") {
            ZBValidateSubStatus::LeadingPeriodRemoved
        } else if str_eq(s, "does_not_accept_mail") {
            ZBValidateSubStatus::DoesNotAcceptMail
        } else if str_eq(s, "alias_address") {
            ZBValidateSubStatus::AliasAddress
        } else if str_eq(s, "role_based_catch_all") {
            ZBValidateSubStatus::RoleBasedCatchAll
        } else if str_eq(s, "disposable") {
            ZBValidateSubStatus::Disposable
        } else if str_eq(s, "toxic") {
            ZBValidateSubStatus::Toxic
        } else if str_eq(s, "alternate") {
            ZBValidateSubStatus::Alternate
        } else if str_eq(s, "mx_forward") {
            ZBValidateSubStatus::MxForward
        } else if str_eq(s, "blocked") {
            ZBValidateSubStatus::Blocked
        } else if str_eq(s, "allowed") {
            ZBValidateSubStatus::Allowed
        } else if str_eq(s, "accept_all") {
            ZBValidateSubStatus::AcceptAll
        } else if str_eq(s, "role_based_accept_all") {
            ZBValidateSubStatus::RoleBasedAcceptAll
        } else if str_eq(s, "gold") {
            ZBValidateSubStatus::Gold
        } else {
            ZBValidateSubStatus::UnknownValue(s.to_owned())
        }
    }
}

impl core::str::FromStr for ZBValidateStatus {
    type Err = core::convert::Infallible;

    fn from_str(s: &str) -> Result<Self, Self::Err> {
        Ok(ZBValidateStatus::from_wire(s))
    }
}

impl core::str::FromStr for ZBValidateSubStatus {
    type Err = core::convert::Infallible;

    fn from_str(s: &str) -> Result<Self, Self::Err> {
        Ok(ZBValidateSubStatus::from_wire(s))
    }
}

} // verus!
