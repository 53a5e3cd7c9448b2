//! A partner's information.

use crate::common::enums::{Version, Action, Result, Status};
use crate::common::traits::{LiqPayRequest, LiqPayResponse};
use crate::signer::HashAlgorithm;
use vstd::prelude::*;

verus! {

/// Represents a request to get a partner's information.
#[derive(Debug)]
pub struct PartnerInformationRequest {
    pub version: Version,
    pub action: Action,
    pub public_key: String,
    pub phone: String,
}

impl LiqPayRequest for PartnerInformationRequest {
    open spec fn spec_hash_algorithm() -> HashAlgorithm {
        HashAlgorithm::Sha3_256
    }

    open spec fn spec_version() -> Version {
        Version::Seven
    }

    proof fn lemma_algorithm_fits_version() {
    }

    fn hash_algorithm() -> (r: HashAlgorithm) {
        HashAlgorithm::Sha3_256
    }
}

impl PartnerInformationRequest {
    /// Construct a new request to get a partner's information.
    pub fn new(public_key: String, phone: String) -> (r: Self)
        ensures
            r.version == Version::Seven,
            r.action == Action::UserInfo,
            r.public_key == public_key,
            r.phone == phone,
    {
        Self {
            version: Version::Seven,
            action: Action::UserInfo,
            public_key,
            phone,
        }
    }
}

/// Represents a response to to getting a partner's information operation.
#[derive(Debug)]
pub struct PartnerInformationResponse {
    /// Represents the result of the request. Can be either `ok` or `error`.
    pub result: Result,
    /// Represents the status of the request.
    pub status: Option<Status>,
    /// Indicates whether a company is blocked.
    pub blocked: Option<String>,
    /// Represents the company creation date.
    pub creation_date: Option<String>,
    /// Represents the company description.
    pub description: Option<String>,
    /// Represents the email of a company.
    pub email: Option<String>,
    /// Represents the logo of a company.
    pub logo: Option<String>,
    /// Represents the name of a company.
    pub name: Option<String>,
    /// Represents the public key of the shop.
    pub public_key: Option<String>,
    /// Represents the refund number of a company.
    pub refund_number: Option<String>,
    /// Represents the refund way of a company.
    pub refund_way: Option<String>,
    /// Represents the role of a user, that initiated the operation.
    pub role: Option<String>,
    /// Represents the public phone number of a company.
    pub public_phone: Option<String>,
    /// Represents the update date of a company information.
    pub update_date: Option<String>,
    /// Represents the company URL.
    pub url: Option<String>,
    /// Holds an error code.
    pub error_code: Option<String>,
    /// Holds an error description.
    pub error_description: Option<String>,
}

impl LiqPayResponse for PartnerInformationResponse {}

}
