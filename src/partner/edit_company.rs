//! Editing a company's information.

use crate::common::enums::{Result, Status};
use crate::common::traits::{LiqPayResponse};
use vstd::prelude::*;

verus! {

/// Represents a response to editing a company's information operation.
#[derive(Debug)]
pub struct EditCompanyResponse {
    /// Represents the result of the request. Can be either `ok` or `error`.
    pub result: Result,
    /// Represents the status of the request.
    pub status: Status,
    /// Represents the private key of a company.
    pub private_key: Option<String>,
    /// Represents the public key of a company.
    pub public_key: Option<String>,
    /// Holds an error code.
    pub error_code: Option<String>,
    /// Holds an error description.
    pub error_description: Option<String>,
}

impl LiqPayResponse for EditCompanyResponse {}

}
