//! Registry and compensation reports.

use crate::common::enums::{Version, Action, Result, Status};
use crate::common::traits::{LiqPayRequest, LiqPayResponse};
use crate::signer::HashAlgorithm;
use crate::informational::common::{ResponseFormat};
use vstd::prelude::*;

verus! {

/// Represents a request to get a compensation report.
#[derive(Debug)]
pub struct CompensationReportRequest {
    pub version: Version,
    pub public_key: String,
    pub action: Action,
    pub compensation_id: Option<String>,
    pub date: Option<String>,
    pub response_format: ResponseFormat,
}

impl LiqPayRequest for CompensationReportRequest {
    open spec fn spec_hash_algorithm() -> HashAlgorithm {
        HashAlgorithm::Sha3_256
    }

    open spec fn spec_version() -> Version {
        Version::Seven
    }

    proof fn lemma_algorithm_fits_version() {
    }

    fn hash_algorithm() -> (r: HashAlgorithm) {
        HashAlgorithm::Sha3_256
    }
}

impl CompensationReportRequest {
    /// Constructs a new request to get a compensation report by a compensation identifier.
    pub fn by_compensation_id(public_key: String, compensation_id: String) -> (r: Self)
        ensures
            r.version == Version::Seven,
            r.public_key == public_key,
            r.action == Action::ReportsCompensation,
            r.compensation_id == Some(compensation_id),
            r.date is None,
            r.response_format == ResponseFormat::Json,
    {
        Self {
            version: Version::Seven,
            public_key,
            action: Action::ReportsCompensation,
            compensation_id: Some(compensation_id),
            date: None,
            response_format: ResponseFormat::Json,
        }
    }

    /// Constructs a new request to get a compensation report by a specific date.
    pub fn by_date(public_key: String, date: String) -> (r: Self)
        ensures
            r.version == Version::Seven,
            r.public_key == public_key,
            r.action == Action::ReportsCompensation,
            r.compensation_id is None,
            r.date == Some(date),
            r.response_format == ResponseFormat::Json,
    {
        Self {
            version: Version::Seven,
            public_key,
            action: Action::ReportsCompensation,
            compensation_id: None,
            date: Some(date),
            response_format: ResponseFormat::Json,
        }
    }
}

/// Represents a payment channel.
#[derive(Clone, Copy, Debug, PartialEq, Eq, Structural)]
pub enum Channel {
    Checkout,
    CheckoutJs,
    Api,
}

/// Represents a request to get a registry report.
#[derive(Debug)]
pub struct RegistryRequest {
    pub version: Version,
    pub action: Action,
    pub public_key: String,
    pub format: ResponseFormat,
    pub date: String,
}

impl LiqPayRequest for RegistryRequest {
    open spec fn spec_hash_algorithm() -> HashAlgorithm {
        HashAlgorithm::Sha3_256
    }

    open spec fn spec_version() -> Version {
        Version::Seven
    }

    proof fn lemma_algorithm_fits_version() {
    }

    fn hash_algorithm() -> (r: HashAlgorithm) {
        HashAlgorithm::Sha3_256
    }
}

impl RegistryRequest {
    /// Constructs a new request to get a registry report.
    pub fn new(public_key: String, date: String) -> (r: Self)
        ensures
            r.version == Version::Seven,
            r.action == Action::Registry,
            r.public_key == public_key,
            r.format == ResponseFormat::Json,
            r.date == date,
    {
        Self {
            version: Version::Seven,
            action: Action::Registry,
            public_key,
            format: ResponseFormat::Json,
            date,
        }
    }
}

/// Represents a request to get a compensation report file.
#[derive(Debug)]
pub struct CompensationReportFileRequest {
    pub version: Version,
    pub action: Action,
    pub public_key: String,
    pub response_format: ResponseFormat,
    pub compensation_id: Option<String>,
    pub date: Option<String>,
}

impl LiqPayRequest for CompensationReportFileRequest {
    open spec fn spec_hash_algorithm() -> HashAlgorithm {
        HashAlgorithm::Sha3_256
    }

    open spec fn spec_version() -> Version {
        Version::Seven
    }

    proof fn lemma_algorithm_fits_version() {
    }

    fn hash_algorithm() -> (r: HashAlgorithm) {
        HashAlgorithm::Sha3_256
    }
}

impl CompensationReportFileRequest {
    /// Constructs a new request to get a compensation report file by a specific date.
    pub fn by_date(public_key: String, date: String) -> (r: Self)
        ensures
            r.version == Version::Seven,
            r.action == Action::ReportsCompensationFile,
            r.public_key == public_key,
            r.response_format == ResponseFormat::Csv,
            r.compensation_id is None,
            r.date == Some(date),
    {
        Self {
            version: Version::Seven,
            action: Action::ReportsCompensationFile,
            public_key,
            response_format: ResponseFormat::Csv,
            compensation_id: None,
            date: Some(date),
        }
    }

    /// Constructs a new request to get a compensation report file by a compensation identifier.
    pub fn by_compensation_id(public_key: String, compensation_id: String) -> (r: Self)
        ensures
            r.version == Version::Seven,
            r.action == Action::ReportsCompensationFile,
            r.public_key == public_key,
            r.response_format == ResponseFormat::Csv,
            r.compensation_id == Some(compensation_id),
            r.date is None,
    {
        Self {
            version: Version::Seven,
            action: Action::ReportsCompensationFile,
            public_key,
            response_format: ResponseFormat::Csv,
            compensation_id: Some(compensation_id),
            date: None,
        }
    }
}

/// Represents the response to getting a compensation report file.
#[derive(Debug)]
pub struct CompensationReportFileResponse {
    /// Represents the result of the request. Can be either `ok` or `error`.
    pub result: Result,
    /// Represents the status of the request.
    pub status: Option<Status>,
    /// Represents a registration token to get a file.
    pub registration_token: Option<String>,
    /// Holds an error code.
    pub error_code: Option<String>,
    /// Holds an error description.
    pub error_description: Option<String>,
}

impl LiqPayResponse for CompensationReportFileResponse {}

/// Represents a request to get a compensation report file status.
#[derive(Debug)]
pub struct CompensationReportFileStatusRequest {
    pub version: Version,
    pub action: Action,
    pub public_key: String,
    pub registration_token: String,
}

impl LiqPayRequest for CompensationReportFileStatusRequest {
    open spec fn spec_hash_algorithm() -> HashAlgorithm {
        HashAlgorithm::Sha3_256
    }

    open spec fn spec_version() -> Version {
        Version::Seven
    }

    proof fn lemma_algorithm_fits_version() {
    }

    fn hash_algorithm() -> (r: HashAlgorithm) {
        HashAlgorithm::Sha3_256
    }
}

impl CompensationReportFileStatusRequest {
    /// Constructs a new request to get a compensation report file status.
    pub fn new(public_key: String, registration_token: String) -> (r: Self)
        ensures
            r.version == Version::Seven,
            r.action == Action::ReportsCompensationFileStatus,
            r.public_key == public_key,
            r.registration_token == registration_token,
    {
        Self {
            version: Version::Seven,
            action: Action::ReportsCompensationFileStatus,
            public_key,
            registration_token,
        }
    }
}

/// Represents the response to getting a compensation report file status.
#[derive(Debug)]
pub struct CompensationReportFileStatusResponse {
    /// Represents the result of the request. Can be either `ok` or `error`.
    pub result: Result,
    /// Represents the status of the request.
    pub status: Option<Status>,
    /// Represents a link used to get a report file.
    pub file_link: Option<String>,
    /// Holds an error code.
    pub error_code: Option<String>,
    /// Holds an error description.
    pub error_description: Option<String>,
}

impl LiqPayResponse for CompensationReportFileStatusResponse {}

/// Represents a P2P compensation report file type.
#[derive(Clone, Copy, Debug, PartialEq, Eq, Structural)]
pub enum P2PCompensationReportFileType {
    P2P,
    P2PCredit,
}

/// Represents a request to get a P2P compensation report file.
#[derive(Debug)]
pub struct P2PCompensationReportFileRequest {
    pub version: Version,
    pub action: Action,
    pub public_key: String,
    pub response_format: ResponseFormat,
    pub operation_type: P2PCompensationReportFileType,
    pub date: String,
}

impl LiqPayRequest for P2PCompensationReportFileRequest {
    open spec fn spec_hash_algorithm() -> HashAlgorithm {
        HashAlgorithm::Sha3_256
    }

    open spec fn spec_version() -> Version {
        Version::Seven
    }

    proof fn lemma_algorithm_fits_version() {
    }

    fn hash_algorithm() -> (r: HashAlgorithm) {
        HashAlgorithm::Sha3_256
    }
}

impl P2PCompensationReportFileRequest {
    /// Constructs a new request to get a P2P compensation report file.
    pub fn p2p(public_key: String, date: String) -> (r: Self)
        ensures
            r.version == Version::Seven,
            r.action == Action::ReportsCompensationFile,
            r.public_key == public_key,
            r.response_format == ResponseFormat::Csv,
            r.operation_type == P2PCompensationReportFileType::P2P,
            r.date == date,
    {
        Self::new(public_key, date, P2PCompensationReportFileType::P2P)
    }

    /// Constructs a new request to get a P2P credit compensation report file.
    pub fn p2p_credit(public_key: String, date: String) -> (r: Self)
        ensures
            r.version == Version::Seven,
            r.action == Action::ReportsCompensationFile,
            r.public_key == public_key,
            r.response_format == ResponseFormat::Csv,
            r.operation_type == P2PCompensationReportFileType::P2PCredit,
            r.date == date,
    {
        Self::new(public_key, date, P2PCompensationReportFileType::P2PCredit)
    }

    fn new(public_key: String, date: String, operation_type: P2PCompensationReportFileType) -> (r: Self)
        ensures
            r.version == Version::Seven,
            r.action == Action::ReportsCompensationFile,
            r.public_key == public_key,
            r.response_format == ResponseFormat::Csv,
            r.operation_type == operation_type,
            r.date == date,
    {
        Self {
            version: Version::Seven,
            action: Action::ReportsCompensationFile,
            public_key,
            response_format: ResponseFormat::Csv,
            operation_type,
            date,
        }
    }
}

}
