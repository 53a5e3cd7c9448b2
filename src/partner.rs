//! Partner requests: companies, MCC codes and partner information.

pub mod company_information;
pub mod create_company;
pub mod edit_company;
pub mod partner_information;
