//! Informational requests: statuses, archives, reports and receipts.

pub mod add_data;
pub mod archive;
pub mod common;
pub mod receipt;
pub mod registry;
pub mod status;
