//! Two-step payments.


use vstd::prelude::*;

verus! {

/// Represents a digital wallet option.
#[derive(Clone, Copy, Debug, PartialEq, Eq, Structural)]
pub enum DigitalWallet {
    ApplePay,
    GooglePay,
}

}
