//! Invoices and invoice units.

use crate::common::enums::{Version, Action, Language, Result, Status};
use crate::common::traits::{LiqPayRequest, LiqPayResponse};
use crate::signer::HashAlgorithm;
use vstd::prelude::*;

verus! {

/// Represents a request to cancel an invoice sending operation.
#[derive(Debug)]
pub struct CancelInvoiceRequest {
    pub version: Version,
    pub public_key: String,
    pub action: Action,
    pub order_id: String,
}

impl LiqPayRequest for CancelInvoiceRequest {
    open spec fn spec_hash_algorithm() -> HashAlgorithm {
        HashAlgorithm::Sha3_256
    }

    open spec fn spec_version() -> Version {
        Version::Seven
    }

    proof fn lemma_algorithm_fits_version() {
    }

    fn hash_algorithm() -> (r: HashAlgorithm) {
        HashAlgorithm::Sha3_256
    }
}

impl CancelInvoiceRequest {
    /// Constructs a new invoice cancellation request.
    pub fn new(public_key: String, order_id: String) -> (r: Self)
        ensures
            r.version == Version::Seven,
            r.public_key == public_key,
            r.action == Action::CancelInvoice,
            r.order_id == order_id,
    {
        Self {
            version: Version::Seven,
            public_key,
            action: Action::CancelInvoice,
            order_id,
        }
    }
}

/// Represents the response to an invoice cancellation operation.
#[derive(Debug)]
pub struct CancelInvoiceResponse {
    /// Represents the result of the request. Can be either `ok` or `error`.
    pub result: Result,
    /// Represents inv the identifier of anoice.
    pub invoice_id: Option<u32>,
    /// Holds an error code.
    pub error_code: Option<String>,
    /// Holds an error description.
    pub error_description: Option<String>,
}

impl LiqPayResponse for CancelInvoiceResponse {}

/// Represents a request to get invoice units.
#[derive(Debug)]
pub struct InvoiceUnitsRequest {
    pub version: Version,
    pub action: Action,
    pub public_key: String,
    pub hide_language_name: Option<bool>,
    pub language: Option<Language>,
}

impl LiqPayRequest for InvoiceUnitsRequest {
    open spec fn spec_hash_algorithm() -> HashAlgorithm {
        HashAlgorithm::Sha1
    }

    open spec fn spec_version() -> Version {
        Version::Three
    }

    proof fn lemma_algorithm_fits_version() {
    }

    fn hash_algorithm() -> (r: HashAlgorithm) {
        HashAlgorithm::Sha1
    }
}

impl InvoiceUnitsRequest {
    /// Constructs a new request to get invoice units by language.
    /// The result contains only items in the specified locale.
    pub fn by_language(public_key: String, language: Language) -> (r: Self)
        ensures
            r.version == Version::Three,
            r.action == Action::GetInvoiceUnitsByLanguage,
            r.public_key == public_key,
            r.hide_language_name is None,
            r.language == Some(language),
    {
        Self {
            version: Version::Three,
            action: Action::GetInvoiceUnitsByLanguage,
            public_key,
            hide_language_name: None,
            language: Some(language),
        }
    }

    /// Constructs a new request to get full invoice units in both the Ukrainian and English locales.
    pub fn full(public_key: String) -> (r: Self)
        ensures
            r.version == Version::Three,
            r.action == Action::GetInvoiceUnits,
            r.public_key == public_key,
            r.hide_language_name is None,
            r.language is None,
    {
        Self {
            version: Version::Three,
            action: Action::GetInvoiceUnits,
            public_key,
            hide_language_name: None,
            language: None,
        }
    }

    /// Sets the customer's language. Allowed values are `uk` - Ukrainian and `en` - English.
    pub fn language(self, language: Language) -> (r: Self)
        ensures
            r.version == self.version,
            r.action == self.action,
            r.public_key == self.public_key,
            r.hide_language_name == self.hide_language_name,
            r.language == Some(language),
    {
        let mut r = self;
        r.language = Some(language);
        r
    }

    /// Hides the language name. Takes effect only when a language is set.
    pub fn hide_name_language(self) -> (r: Self)
        ensures
            r.version == self.version,
            r.action == self.action,
            r.public_key == self.public_key,
            r.hide_language_name == Some(true),
            r.language == self.language,
    {
        let mut r = self;
        r.hide_language_name = Some(true);
        r
    }
}

/// Represents an invoice unit.
#[derive(Debug)]
pub struct Unit {
    /// Represents the identifier of a unit.
    pub id: u32,
    /// Represents the fiscalization identifier of a unit.
    pub rro_unit_id: Option<u32>,
    /// Represents the full name of a unit in English.
    pub full_name_en: Option<String>,
    /// Represents the full name of a unit in Ukrainian.
    pub full_name_uk: Option<String>,
    /// Represents the full name of a unit.
    pub full_name: Option<String>,
    /// Represents the short name of a unit.
    pub short_name: Option<String>,
    /// Represents the short name of a unit in English.
    pub short_name_en: Option<String>,
    /// Represents the short name of a unit in Ukrainian.
    pub short_name_uk: Option<String>,
}

/// Represents the response to a getting invoice units operation.
#[derive(Debug)]
pub struct InvoiceUnitsResponse {
    /// Represents the result of the request. Can be either `ok` or `error`.
    pub result: Result,
    /// Represents the status of the request.
    pub status: Status,
    /// Represents a collection of invoice units.
    pub units: Option<Vec<Unit>>,
    /// Holds an error code.
    pub error_code: Option<String>,
    /// Holds an error description.
    pub error_description: Option<String>,
}

impl LiqPayResponse for InvoiceUnitsResponse {}

}
