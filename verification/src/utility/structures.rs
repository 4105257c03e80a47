pub mod bulk;
pub mod generic;
pub mod validate_enums;
pub mod validation;

pub use generic::{ActivityData, ApiUsage, DomainSearchResponseV2, FindEmailResponse, FindEmailResponseV2};
pub use validate_enums::{ZBValidateStatus, ZBValidateSubStatus};
