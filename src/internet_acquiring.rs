//! Internet acquiring: payments, invoices, subscriptions and refunds.

pub mod common;
pub mod invoice;
pub mod refund;
pub mod subscription;
pub mod two_stage;
pub mod two_step;
