//! Two-stage payments.


use vstd::prelude::*;

verus! {

/// A digital wallet a payment token comes from.
#[derive(Clone, Copy, Debug, PartialEq, Eq, Structural)]
pub enum DigitalWallet {
    ApplePay,
    GooglePay,
}

}
