//! Card verification.

use crate::common::enums::{Version, Action, Language};
use crate::common::traits::{LiqPayRequest};
use crate::signer::HashAlgorithm;
use vstd::prelude::*;

verus! {

/// Represents a request to verify a card.
#[derive(Debug)]
pub struct CardVerificationRequest {
    pub version: Version,
    pub action: Action,
    pub public_key: String,
    pub card: String,
    pub card_exp_month: String,
    pub card_exp_year: String,
    pub order_id: String,
    pub description: String,
    pub card_cvv: Option<String>,
    pub ip: Option<String>,
    pub language: Option<Language>,
    pub verify_code: Option<char>,
}

impl LiqPayRequest for CardVerificationRequest {
    open spec fn spec_hash_algorithm() -> HashAlgorithm {
        HashAlgorithm::Sha3_256
    }

    open spec fn spec_version() -> Version {
        Version::Seven
    }

    proof fn lemma_algorithm_fits_version() {
    }

    fn hash_algorithm() -> (r: HashAlgorithm) {
        HashAlgorithm::Sha3_256
    }
}

impl CardVerificationRequest {
    /// Constructs a new request to verify a card.
    pub fn new(public_key: String, card: String, exp_month: String, exp_year: String, order_id: String, description: String) -> (r: Self)
        ensures
            r.version == Version::Seven,
            r.action == Action::CardVerification,
            r.public_key == public_key,
            r.card == card,
            r.card_exp_month == exp_month,
            r.card_exp_year == exp_year,
            r.order_id == order_id,
            r.description == description,
            r.card_cvv is None,
            r.ip is None,
            r.language is None,
            r.verify_code is None,
    {
        Self {
            version: Version::Seven,
            action: Action::CardVerification,
            public_key,
            card,
            card_exp_month: exp_month,
            card_exp_year: exp_year,
            order_id,
            description,
            card_cvv: None,
            ip: None,
            language: None,
            verify_code: None,
        }
    }

    /// Sets the card's CVV.
    pub fn cvv(self, cvv: String) -> (r: Self)
        ensures
            r.version == self.version,
            r.action == self.action,
            r.public_key == self.public_key,
            r.card == self.card,
            r.card_exp_month == self.card_exp_month,
            r.card_exp_year == self.card_exp_year,
            r.order_id == self.order_id,
            r.description == self.description,
            r.card_cvv == Some(cvv),
            r.ip == self.ip,
            r.language == self.language,
            r.verify_code == self.verify_code,
    {
        let mut r = self;
        r.card_cvv = Some(cvv);
        r
    }

    /// Sets the IP address of the customer.
    pub fn ip(self, ip: String) -> (r: Self)
        ensures
            r.version == self.version,
            r.action == self.action,
            r.public_key == self.public_key,
            r.card == self.card,
            r.card_exp_month == self.card_exp_month,
            r.card_exp_year == self.card_exp_year,
            r.order_id == self.order_id,
            r.description == self.description,
            r.card_cvv == self.card_cvv,
            r.ip == Some(ip),
            r.language == self.language,
            r.verify_code == self.verify_code,
    {
        let mut r = self;
        r.ip = Some(ip);
        r
    }

    /// Sets the customer's language.
    pub fn language(self, language: Language) -> (r: Self)
        ensures
            r.version == self.version,
            r.action == self.action,
            r.public_key == self.public_key,
            r.card == self.card,
            r.card_exp_month == self.card_exp_month,
            r.card_exp_year == self.card_exp_year,
            r.order_id == self.order_id,
            r.description == self.description,
            r.card_cvv == self.card_cvv,
            r.ip == self.ip,
            r.language == Some(language),
            r.verify_code == self.verify_code,
    {
        let mut r = self;
        r.language = Some(language);
        r
    }

    /// Asks for a verification code (`Y` on the wire).
    pub fn verify_code(self) -> (r: Self)
        ensures
            r.version == self.version,
            r.action == self.action,
            r.public_key == self.public_key,
            r.card == self.card,
            r.card_exp_month == self.card_exp_month,
            r.card_exp_year == self.card_exp_year,
            r.order_id == self.order_id,
            r.description == self.description,
            r.card_cvv == self.card_cvv,
            r.ip == self.ip,
            r.language == self.language,
            r.verify_code == Some('Y'),
    {
        let mut r = self;
        r.verify_code = Some('Y');
        r
    }
}

}
