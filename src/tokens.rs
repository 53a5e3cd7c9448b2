//! Card tokens.

use crate::common::enums::{Version, Action, Result, Status};
use crate::common::traits::{LiqPayRequest, LiqPayResponse};
use crate::signer::HashAlgorithm;
use vstd::prelude::*;

verus! {

/// Represents a token creation request.
#[derive(Debug)]
pub struct CreateTokenRequest {
    pub version: Version,
    pub public_key: String,
    pub action: Action,
    pub is_debit: bool,
    pub is_credit: bool,
    pub push_account_receipt: Option<String>,
    pub push_data: Option<String>,
    pub customer: Option<String>,
    pub card: Option<String>,
    pub card_cvv: Option<String>,
    pub card_exp_month: Option<String>,
    pub card_exp_year: Option<String>,
    pub expiration_date: Option<String>,
}

impl LiqPayRequest for CreateTokenRequest {
    open spec fn spec_hash_algorithm() -> HashAlgorithm {
        HashAlgorithm::Sha3_256
    }

    open spec fn spec_version() -> Version {
        Version::Seven
    }

    proof fn lemma_algorithm_fits_version() {
    }

    fn hash_algorithm() -> (r: HashAlgorithm) {
        HashAlgorithm::Sha3_256
    }
}

impl CreateTokenRequest {
    /// The fields that every token creation request starts with: API version 7,
    /// the token creation action, and a debit or a credit token.
    pub open spec fn starts_as(self, public_key: String, is_debit: bool) -> bool {
        &&& self.version == Version::Seven
        &&& self.public_key == public_key
        &&& self.is_debit == is_debit
        &&& self.is_credit == !is_debit
    }

    /// Constructs a new request to create a card token using Token connect control.
    pub fn token_connect_control(public_key: String, is_debit: bool, push_account_receipt: String) -> (r: Self)
        ensures
            r.starts_as(public_key, is_debit),
            r.action == Action::CreateToken,
            r.push_account_receipt == Some(push_account_receipt),
            r.push_data is None,
            r.customer is None,
            r.card is None,
            r.card_cvv is None,
            r.card_exp_month is None,
            r.card_exp_year is None,
            r.expiration_date is None,
    {
        let mut request = Self::new(public_key, is_debit);
        request.push_account_receipt = Some(push_account_receipt);
        request
    }

    /// Constructs a new request to create a card token using VISA cards enrollment hub.
    pub fn visa_cards_enrollment_hub(public_key: String, is_debit: bool, push_data: String, customer: String) -> (r: Self)
        ensures
            r.starts_as(public_key, is_debit),
            r.action == Action::CreateToken,
            r.push_account_receipt is None,
            r.push_data == Some(push_data),
            r.customer == Some(customer),
            r.card is None,
            r.card_cvv is None,
            r.card_exp_month is None,
            r.card_exp_year is None,
            r.expiration_date is None,
    {
        let mut request = Self::new(public_key, is_debit);
        request.push_data = Some(push_data);
        request.customer = Some(customer);
        request
    }

    /// Constructs a new request to create a card token using a card.
    pub fn card(
        public_key: String,
        is_debit: bool,
        card: String,
        cvv: String,
        exp_month: String,
        exp_year: String,
    ) -> (r: Self)
        ensures
            r.starts_as(public_key, is_debit),
            r.action == Action::CreateToken,
            r.push_account_receipt is None,
            r.push_data is None,
            r.customer is None,
            r.card == Some(card),
            r.card_cvv == Some(cvv),
            r.card_exp_month == Some(exp_month),
            r.card_exp_year == Some(exp_year),
            r.expiration_date is None,
    {
        let mut request = Self::new(public_key, is_debit);
        request.card = Some(card);
        request.card_cvv = Some(cvv);
        request.card_exp_month = Some(exp_month);
        request.card_exp_year = Some(exp_year);
        request
    }

    /// Sets a token to be unique upon creation.
    pub fn unique(self, expiration_date: String) -> (r: Self)
        ensures
            r.version == self.version,
            r.public_key == self.public_key,
            r.action == Action::CreateUniqueToken,
            r.is_debit == self.is_debit,
            r.is_credit == self.is_credit,
            r.push_account_receipt == self.push_account_receipt,
            r.push_data == self.push_data,
            r.customer == self.customer,
            r.card == self.card,
            r.card_cvv == self.card_cvv,
            r.card_exp_month == self.card_exp_month,
            r.card_exp_year == self.card_exp_year,
            r.expiration_date == Some(expiration_date),
    {
        let mut r = self;
        r.action = Action::CreateUniqueToken;
        r.expiration_date = Some(expiration_date);
        r
    }

    fn new(public_key: String, is_debit: bool) -> (r: Self)
        ensures
            r.starts_as(public_key, is_debit),
            r.action == Action::CreateToken,
            r.push_account_receipt is None,
            r.push_data is None,
            r.customer is None,
            r.card is None,
            r.card_cvv is None,
            r.card_exp_month is None,
            r.card_exp_year is None,
            r.expiration_date is None,
    {
        Self {
            version: Version::Seven,
            action: Action::CreateToken,
            public_key,
            is_debit,
            is_credit: !is_debit,
            push_data: None,
            customer: None,
            push_account_receipt: None,
            card: None,
            card_cvv: None,
            card_exp_month: None,
            card_exp_year: None,
            expiration_date: None,
        }
    }
}


/// Represents a card token information status.
#[derive(Clone, Copy, Debug, PartialEq, Eq, Structural)]
pub enum CardTokenInfoStatus {
    Inactive,
    Active,
    Suspended,
    Deleted,
}

/// Represents a card token information description.
#[derive(Clone, Copy, Debug, PartialEq, Eq, Structural)]
pub enum CardtokenInfoDescription {
    Approved,
    RequireAdditionalAuthentication,
    Declined,
    Cancelled,
    Error,
}

/// Represents card token information.
#[derive(Debug)]
pub struct CardTokenInfo {
    /// Represents a token reference.
    pub token_ref: Option<String>,
    /// Represents a token suffix, which is the last 4 digits.
    pub token_suffix: Option<String>,
    /// Represents a token expiration date.
    pub token_exp_date: Option<String>,
    /// Represents a token status.
    pub status: Option<CardTokenInfoStatus>,
    /// Represents the payment decision regarding card digitization for MasterCard-only payments.
    pub decision: CardtokenInfoDescription,
}

/// Represents a card token action.
#[derive(Clone, Copy, Debug, PartialEq, Eq, Structural)]
pub enum CardTokenAction {
    Suspend,
    Unsuspend,
    Delete,
}

/// Represents a token creation response.
#[derive(Debug)]
pub struct CreateTokenResponse {
    /// Represents the result of the request. Can be either `ok` or `error`.
    pub result: Result,
    /// Represents the status of the operation.
    pub status: Option<Status>,
    /// Represents the generated card token.
    pub card_token: Option<String>,
    /// Represents the additional card token information.
    pub card_token_info: Option<CardTokenInfo>,
    /// Holds an error code.
    pub error_code: Option<String>,
    /// Holds an error description.
    pub error_description: Option<String>,
}

impl LiqPayResponse for CreateTokenResponse {}

/// Represents a request to change a token status.
#[derive(Debug)]
pub struct ChangeTokenStatusRequest {
    pub version: Version,
    pub public_key: String,
    pub action: Action,
    pub card_token: String,
    pub card_token_action: CardTokenAction,
}

impl LiqPayRequest for ChangeTokenStatusRequest {
    open spec fn spec_hash_algorithm() -> HashAlgorithm {
        HashAlgorithm::Sha3_256
    }

    open spec fn spec_version() -> Version {
        Version::Seven
    }

    proof fn lemma_algorithm_fits_version() {
    }

    fn hash_algorithm() -> (r: HashAlgorithm) {
        HashAlgorithm::Sha3_256
    }
}

impl ChangeTokenStatusRequest {
    /// Constructs a new request to change a token status.
    pub fn new(public_key: String, card_token: String, card_token_action: CardTokenAction) -> (r: Self)
        ensures
            r.version == Version::Seven,
            r.public_key == public_key,
            r.action == Action::UpdateToken,
            r.card_token == card_token,
            r.card_token_action == card_token_action,
    {
        Self {
            version: Version::Seven,
            public_key,
            action: Action::UpdateToken,
            card_token,
            card_token_action,
        }
    }
}

/// Represents a response of changing a token status.
#[derive(Debug)]
pub struct ChangeTokenStatusResponse {
    /// Represents the result of the request. Can be either `ok` or `error`.
    pub result: Result,
    /// Represents the status of the operation.
    pub status: Option<Status>,
    /// Represents the generated card token.
    pub card_token: Option<String>,
    /// Represents the additional card token information.
    pub card_token_info: Option<CardTokenInfo>,
    /// Holds an error code.
    pub error_code: Option<String>,
    /// Holds an error description.
    pub error_description: Option<String>,
}

impl LiqPayResponse for ChangeTokenStatusResponse {}

}
