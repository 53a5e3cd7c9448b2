//! Typed client core for the LiqPay payment gateway: request encoding,
//! request signing and the binding of each request type to its hash algorithm.

pub mod codec;
pub mod common;
pub mod dispatch;
pub mod informational;
pub mod internet_acquiring;
pub mod partner;
pub mod signer;
pub mod tokens;
pub mod verification;
