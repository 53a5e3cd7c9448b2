//! Refunds.

use crate::common::enums::{Action, Result, Status};
use crate::common::traits::{LiqPayResponse};
use vstd::prelude::*;

verus! {

/// Represents the response to a refund operation.
#[derive(Debug)]
pub struct RefundResponse {
    /// Represents the result of the request. Can be either `ok` or `error`.
    pub result: Result,
    /// Represents the status of the request. Possible values are `error` - incorrect data,
    /// `failure` - payment failed, `reversed` - payment refunded, `success` - successful payment,
    pub status: Status,
    /// Indicates whether the operation is a return for future payments or whether it should be performed
    /// from the merchant's account.
    pub wait_amount: Option<bool>,
    /// Represents the operation type. Possible values are `pay` - payment,
    /// `hold` - hold operation on a sender's account, `subscribe` - subscription, `paydonate` - donation.
    pub action: Option<Action>,
    /// Represents the identifier of a payment.
    pub payment_id: Option<u32>,
    /// Holds an error code.
    pub error_code: Option<String>,
    /// Holds an error description.
    pub error_description: Option<String>,
}

impl LiqPayResponse for RefundResponse {}

}
