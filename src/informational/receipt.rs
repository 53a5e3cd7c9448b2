//! Sending a receipt to an email address.

use crate::common::enums::{Version, Action, Language, Result, Status};
use crate::common::traits::{LiqPayRequest, LiqPayResponse};
use crate::signer::HashAlgorithm;
use vstd::prelude::*;

verus! {

/// Represents a request to send a receipt to an email address.
#[derive(Debug)]
pub struct SendReceiptRequest {
    pub version: Version,
    pub public_key: String,
    pub action: Action,
    pub email: String,
    pub order_id: String,
    pub payment_id: Option<String>,
    pub language: Option<Language>,
}

impl LiqPayRequest for SendReceiptRequest {
    open spec fn spec_hash_algorithm() -> HashAlgorithm {
        HashAlgorithm::Sha3_256
    }

    open spec fn spec_version() -> Version {
        Version::Seven
    }

    proof fn lemma_algorithm_fits_version() {
    }

    fn hash_algorithm() -> (r: HashAlgorithm) {
        HashAlgorithm::Sha3_256
    }
}

impl SendReceiptRequest {
    /// Constructs a new request to send a receipt to an email address.
    pub fn new(public_key: String, email: String, order_id: String) -> (r: Self)
        ensures
            r.version == Version::Seven,
            r.public_key == public_key,
            r.action == Action::Ticket,
            r.email == email,
            r.order_id == order_id,
            r.payment_id is None,
            r.language is None,
    {
        Self {
            version: Version::Seven,
            public_key,
            action: Action::Ticket,
            email,
            order_id,
            payment_id: None,
            language: None,
        }
    }

    /// Sets an identifier of a payment in LiqPay.
    pub fn payment_id(self, id: String) -> (r: Self)
        ensures
            r.version == self.version,
            r.public_key == self.public_key,
            r.action == self.action,
            r.email == self.email,
            r.order_id == self.order_id,
            r.payment_id == Some(id),
            r.language == self.language,
    {
        let mut r = self;
        r.payment_id = Some(id);
        r
    }

    /// Sets the customer's language. Allowed values are `uk` - Ukrainian and `en` - English.
    pub fn language(self, language: Language) -> (r: Self)
        ensures
            r.version == self.version,
            r.public_key == self.public_key,
            r.action == self.action,
            r.email == self.email,
            r.order_id == self.order_id,
            r.payment_id == self.payment_id,
            r.language == Some(language),
    {
        let mut r = self;
        r.language = Some(language);
        r
    }
}

/// Represents a response to sending a receipt to an email address operation.
#[derive(Debug)]
pub struct SendReceiptResponse {
    /// Represents the result of the request. Can be either `ok` or `error`.
    pub result: Result,
    /// Represents the status of the request.
    pub status: Option<Status>,
    /// Holds an error code.
    pub error_code: Option<String>,
    /// Holds an error description.
    pub error_description: Option<String>,
}

impl LiqPayResponse for SendReceiptResponse {}

}
