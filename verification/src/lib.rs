pub mod text;
pub mod numbers;
pub mod percent;
pub mod json;
pub mod utility;
pub mod dates;
pub mod message;
pub mod api;

pub use crate::api::{DomainSearchV2Builder, FindEmailV2Builder};
pub use crate::utility::structures::bulk::{ZBFile, ZBFileFeedback, ZBFileStatus};
pub use crate::utility::structures::generic::{ActivityData, ApiUsage};
pub use crate::utility::{ApiBaseUrl, ZBError, ZBResult};

use vstd::prelude::*;

verus! {

/// Generates the URLs to be accessed with the HTTP requests, based on the
/// two base API URLs (one for the plain API, one for the bulk/file API).
pub struct ZBUrlProvider {
    pub url: String,
    pub bulk_url: String,
}

impl ZBUrlProvider {
    /// The full URL of an endpoint of the plain API.
    pub fn url_of(&self, endpoint: &str) -> (r: String)
        ensures
            r@ == self.url@ + endpoint@,
    {
        let mut full = self.url.clone();
        full.append(endpoint);
        full
    }

    /// The full URL of an endpoint of the bulk/file API.
    pub fn bulk_url_of(&self, endpoint: &str) -> (r: String)
        ensures
            r@ == self.bulk_url@ + endpoint@,
    {
        let mut full = self.bulk_url.clone();
        full.append(endpoint);
        full
    }
}

impl Default for ZBUrlProvider {
    /// The standard base URLs of the plain and bulk APIs.
    fn default() -> (r: Self)
        ensures
            r.url@ == crate::utility::URI@,
            r.bulk_url@ == crate::utility::BULK_URI@,
    {
        ZBUrlProvider {
            url: crate::utility::URI.to_owned(),
            bulk_url: crate::utility::BULK_URI.to_owned(),
        }
    }
}

} // verus!
