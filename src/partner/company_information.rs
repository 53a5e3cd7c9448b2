//! A company's information.

use crate::common::enums::{Version, Action, Language, Result, Status};
use crate::common::traits::{LiqPayRequest, LiqPayResponse};
use crate::signer::HashAlgorithm;
use vstd::prelude::*;

verus! {

/// Represents a request to get a company's information.
#[derive(Debug)]
pub struct CompanyInformationRequest {
    pub version: Version,
    pub action: Action,
    pub public_key: String,
    pub merchant_public_key: String,
    pub language: Option<Language>,
}

impl LiqPayRequest for CompanyInformationRequest {
    open spec fn spec_hash_algorithm() -> HashAlgorithm {
        HashAlgorithm::Sha3_256
    }

    open spec fn spec_version() -> Version {
        Version::Seven
    }

    proof fn lemma_algorithm_fits_version() {
    }

    fn hash_algorithm() -> (r: HashAlgorithm) {
        HashAlgorithm::Sha3_256
    }
}

impl CompanyInformationRequest {
    /// Construct a new request to get a company's information.
    pub fn new(public_key: String, merchant_public_key: String) -> (r: Self)
        ensures
            r.version == Version::Seven,
            r.action == Action::MerchantInfo,
            r.public_key == public_key,
            r.merchant_public_key == merchant_public_key,
            r.language is None,
    {
        Self {
            version: Version::Seven,
            action: Action::MerchantInfo,
            public_key,
            merchant_public_key,
            language: None,
        }
    }

    /// Sets the customer's language. Allowed values are `uk` - Ukrainian and `en` - English.
    pub fn language(self, language: Language) -> (r: Self)
        ensures
            r.version == self.version,
            r.action == self.action,
            r.public_key == self.public_key,
            r.merchant_public_key == self.merchant_public_key,
            r.language == Some(language),
    {
        let mut r = self;
        r.language = Some(language);
        r
    }
}

/// Represents a response to getting a company's information operation.
#[derive(Debug)]
pub struct CompanyInformationResponse {
    /// Represents the result of the request. Can be either `ok` or `error`.
    pub result: Result,
    /// Represents the status of the request.
    pub status: Status,
    /// Indicates whether a company is blocked.
    pub blocked: Option<String>,
    /// Represents the category of a merchant activity.
    pub category: Option<String>,
    /// Represents the full name of a company.
    pub company_name: Option<String>,
    /// Represents the company creation date.
    pub creation_date: Option<String>,
    /// Represents the company description.
    pub description: Option<String>,
    /// Represents the email of a company.
    pub email: Option<String>,
    /// Represents the logo of a company.
    pub logo: Option<String>,
    /// Represents the category code of a merchant's activity type.
    pub merchant_category_code: Option<String>,
    /// Represents the MFO of a company.
    pub mfo: Option<String>,
    /// Represents the name of a company.
    pub name: Option<String>,
    /// Represents the OKPO of a company.
    pub okpo: Option<String>,
    /// Represents the phone number of a company.
    pub phone: Option<String>,
    /// Represents the public key of the shop.
    pub public_key: Option<String>,
    /// Represents the public phone number of a company.
    pub public_phone: Option<String>,
    /// Represents the refund number of a company.
    pub refund_number: Option<String>,
    /// Represents the refund way of a company.
    pub refund_way: Option<String>,
    /// Represents the error description depending on the `language` value.
    pub status_description: Option<String>,
    /// Represents the MEO operator comment.
    pub comment: Option<Vec<String>>,
    /// Represents the merchant business cabinet URL.
    pub link: Option<String>,
    /// Represents the update date of a company information.
    pub update_date: Option<String>,
    /// Represents the company URL.
    pub url: Option<String>,
    /// Holds an error code.
    pub error_code: Option<String>,
    /// Holds an error description.
    pub error_description: Option<String>,
}

impl LiqPayResponse for CompanyInformationResponse {}

}
