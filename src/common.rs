//! Items shared by all request and response types.

pub mod enums;
pub mod traits;
