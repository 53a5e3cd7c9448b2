//! Verification: cards, 3-D Secure and one-time passwords.

pub mod card_verification;
pub mod mpi;
pub mod otp;
