//! Creating and registering a company.

use crate::common::enums::{Version, Action, Language, Result, Status};
use crate::common::traits::{LiqPayRequest, LiqPayResponse};
use crate::signer::HashAlgorithm;
use vstd::prelude::*;

verus! {

/// Represents the company's contact details
#[derive(Debug)]
pub struct LawContacts {
    pub phone: Option<String>,
    pub email: Option<String>,
}

impl LawContacts {
    /// Construct an empty instance of contact details.
    pub fn new() -> (r: Self)
        ensures
            r.phone is None,
            r.email is None,
    {
        Self {
            phone: None,
            email: None,
        }
    }

    /// Sets the company's phone number.
    pub fn phone(self, phone: String) -> (r: Self)
        ensures
            r.phone == Some(phone),
            r.email == self.email,
    {
        let mut r = self;
        r.phone = Some(phone);
        r
    }

    /// Sets the company's email.
    pub fn email(self, email: String) -> (r: Self)
        ensures
            r.phone == self.phone,
            r.email == Some(email),
    {
        let mut r = self;
        r.email = Some(email);
        r
    }
}

/// Represents the company CTO's information.
#[derive(Debug)]
pub struct LawCtoInformation {
    pub name: Option<String>,
    pub inn: Option<String>,
    pub birth_date: Option<String>,
    pub citizenship: Option<String>,
    pub residency: Option<String>,
}

impl LawCtoInformation {
    /// Construct an empty instance of the company CTO's information.
    pub fn new() -> (r: Self)
        ensures
            r.name is None,
            r.inn is None,
            r.birth_date is None,
            r.citizenship is None,
            r.residency is None,
    {
        Self {
            name: None,
            inn: None,
            birth_date: None,
            citizenship: None,
            residency: None,
        }
    }

    /// Sets the company CTO's full name.
    pub fn name(self, name: String) -> (r: Self)
        ensures
            r.name == Some(name),
            r.inn == self.inn,
            r.birth_date == self.birth_date,
            r.citizenship == self.citizenship,
            r.residency == self.residency,
    {
        let mut r = self;
        r.name = Some(name);
        r
    }

    /// Sets the company CTO's TIN.
    pub fn inn(self, inn: String) -> (r: Self)
        ensures
            r.name == self.name,
            r.inn == Some(inn),
            r.birth_date == self.birth_date,
            r.citizenship == self.citizenship,
            r.residency == self.residency,
    {
        let mut r = self;
        r.inn = Some(inn);
        r
    }

    /// Sets the company CTO's birth date in the YYYY-MM-DD format.
    pub fn birth_date(self, birth_date: String) -> (r: Self)
        ensures
            r.name == self.name,
            r.inn == self.inn,
            r.birth_date == Some(birth_date),
            r.citizenship == self.citizenship,
            r.residency == self.residency,
    {
        let mut r = self;
        r.birth_date = Some(birth_date);
        r
    }

    /// Sets the company CTO's citizenship in latin.
    pub fn citizenship(self, citizenship: String) -> (r: Self)
        ensures
            r.name == self.name,
            r.inn == self.inn,
            r.birth_date == self.birth_date,
            r.citizenship == Some(citizenship),
            r.residency == self.residency,
    {
        let mut r = self;
        r.citizenship = Some(citizenship);
        r
    }

    /// Sets the company CTO's place of residence.
    pub fn residency(self, residency: String) -> (r: Self)
        ensures
            r.name == self.name,
            r.inn == self.inn,
            r.birth_date == self.birth_date,
            r.citizenship == self.citizenship,
            r.residency == Some(residency),
    {
        let mut r = self;
        r.residency = Some(residency);
        r
    }
}

/// Represents the company's owner information.
#[derive(Debug)]
pub struct LawOwnerInformation {
    pub name: Option<String>,
    pub inn: Option<String>,
    pub birth_date: Option<String>,
    pub citizenship: Option<String>,
    pub share_in_capital: Option<String>,
    pub residency: Option<String>,
}

impl LawOwnerInformation {
    /// Construct an empty instance of the company owner's information.
    pub fn new() -> (r: Self)
        ensures
            r.name is None,
            r.inn is None,
            r.birth_date is None,
            r.citizenship is None,
            r.share_in_capital is None,
            r.residency is None,
    {
        Self {
            name: None,
            inn: None,
            birth_date: None,
            citizenship: None,
            share_in_capital: None,
            residency: None,
        }
    }

    /// Sets the company owner's full name.
    pub fn name(self, name: String) -> (r: Self)
        ensures
            r.name == Some(name),
            r.inn == self.inn,
            r.birth_date == self.birth_date,
            r.citizenship == self.citizenship,
            r.share_in_capital == self.share_in_capital,
            r.residency == self.residency,
    {
        let mut r = self;
        r.name = Some(name);
        r
    }

    /// Sets the company owner's TIN.
    pub fn inn(self, inn: String) -> (r: Self)
        ensures
            r.name == self.name,
            r.inn == Some(inn),
            r.birth_date == self.birth_date,
            r.citizenship == self.citizenship,
            r.share_in_capital == self.share_in_capital,
            r.residency == self.residency,
    {
        let mut r = self;
        r.inn = Some(inn);
        r
    }

    /// Sets the company owner's birth date in the YYYY-MM-DD format.
    pub fn birth_date(self, birth_date: String) -> (r: Self)
        ensures
            r.name == self.name,
            r.inn == self.inn,
            r.birth_date == Some(birth_date),
            r.citizenship == self.citizenship,
            r.share_in_capital == self.share_in_capital,
            r.residency == self.residency,
    {
        let mut r = self;
        r.birth_date = Some(birth_date);
        r
    }

    /// Sets the company owner's citizenship in latin.
    pub fn citizenship(self, citizenship: String) -> (r: Self)
        ensures
            r.name == self.name,
            r.inn == self.inn,
            r.birth_date == self.birth_date,
            r.citizenship == Some(citizenship),
            r.share_in_capital == self.share_in_capital,
            r.residency == self.residency,
    {
        let mut r = self;
        r.citizenship = Some(citizenship);
        r
    }

    /// Sets the company owner's equity stake.
    pub fn share_in_capital(self, capital: String) -> (r: Self)
        ensures
            r.name == self.name,
            r.inn == self.inn,
            r.birth_date == self.birth_date,
            r.citizenship == self.citizenship,
            r.share_in_capital == Some(capital),
            r.residency == self.residency,
    {
        let mut r = self;
        r.share_in_capital = Some(capital);
        r
    }

    /// Sets the company owner's place of residence.
    pub fn residency(self, residency: String) -> (r: Self)
        ensures
            r.name == self.name,
            r.inn == self.inn,
            r.birth_date == self.birth_date,
            r.citizenship == self.citizenship,
            r.share_in_capital == self.share_in_capital,
            r.residency == Some(residency),
    {
        let mut r = self;
        r.residency = Some(residency);
        r
    }
}

/// Represents the company co-owner's information.
#[derive(Debug)]
pub struct LawCoOwnerInformation {
    pub name: Option<String>,
    pub inn: Option<String>,
    pub birth_date: Option<String>,
    pub citizenship: Option<String>,
    pub share_in_capital: Option<String>,
    pub residency: Option<String>,
    pub company_name: Option<String>,
    pub company_okpo: Option<String>,
}

impl LawCoOwnerInformation {
    /// Construct an empty instance of the company co-owner's information.
    pub fn new() -> (r: Self)
        ensures
            r.name is None,
            r.inn is None,
            r.birth_date is None,
            r.citizenship is None,
            r.share_in_capital is None,
            r.residency is None,
            r.company_name is None,
            r.company_okpo is None,
    {
        Self {
            name: None,
            inn: None,
            birth_date: None,
            citizenship: None,
            share_in_capital: None,
            residency: None,
            company_name: None,
            company_okpo: None,
        }
    }

    /// Sets the company co-owner's full name.
    pub fn name(self, name: String) -> (r: Self)
        ensures
            r.name == Some(name),
            r.inn == self.inn,
            r.birth_date == self.birth_date,
            r.citizenship == self.citizenship,
            r.share_in_capital == self.share_in_capital,
            r.residency == self.residency,
            r.company_name == self.company_name,
            r.company_okpo == self.company_okpo,
    {
        let mut r = self;
        r.name = Some(name);
        r
    }

    /// Sets the company co-owner's TIN.
    pub fn inn(self, inn: String) -> (r: Self)
        ensures
            r.name == self.name,
            r.inn == Some(inn),
            r.birth_date == self.birth_date,
            r.citizenship == self.citizenship,
            r.share_in_capital == self.share_in_capital,
            r.residency == self.residency,
            r.company_name == self.company_name,
            r.company_okpo == self.company_okpo,
    {
        let mut r = self;
        r.inn = Some(inn);
        r
    }

    /// Sets the company co-owner's birth date in the YYYY-MM-DD format.
    pub fn birth_date(self, birth_date: String) -> (r: Self)
        ensures
            r.name == self.name,
            r.inn == self.inn,
            r.birth_date == Some(birth_date),
            r.citizenship == self.citizenship,
            r.share_in_capital == self.share_in_capital,
            r.residency == self.residency,
            r.company_name == self.company_name,
            r.company_okpo == self.company_okpo,
    {
        let mut r = self;
        r.birth_date = Some(birth_date);
        r
    }

    /// Sets the company co-owner's citizenship in latin.
    pub fn citizenship(self, citizenship: String) -> (r: Self)
        ensures
            r.name == self.name,
            r.inn == self.inn,
            r.birth_date == self.birth_date,
            r.citizenship == Some(citizenship),
            r.share_in_capital == self.share_in_capital,
            r.residency == self.residency,
            r.company_name == self.company_name,
            r.company_okpo == self.company_okpo,
    {
        let mut r = self;
        r.citizenship = Some(citizenship);
        r
    }

    /// Sets the company co-owner's equity stake.
    pub fn share_in_capital(self, capital: String) -> (r: Self)
        ensures
            r.name == self.name,
            r.inn == self.inn,
            r.birth_date == self.birth_date,
            r.citizenship == self.citizenship,
            r.share_in_capital == Some(capital),
            r.residency == self.residency,
            r.company_name == self.company_name,
            r.company_okpo == self.company_okpo,
    {
        let mut r = self;
        r.share_in_capital = Some(capital);
        r
    }

    /// Sets the company co-owner's place of residence.
    pub fn residency(self, residency: String) -> (r: Self)
        ensures
            r.name == self.name,
            r.inn == self.inn,
            r.birth_date == self.birth_date,
            r.citizenship == self.citizenship,
            r.share_in_capital == self.share_in_capital,
            r.residency == Some(residency),
            r.company_name == self.company_name,
            r.company_okpo == self.company_okpo,
    {
        let mut r = self;
        r.residency = Some(residency);
        r
    }

    /// Sets the company's registered name. Must not exceed 255 characters.
    pub fn company_name(self, name: String) -> (r: Self)
        ensures
            r.name == self.name,
            r.inn == self.inn,
            r.birth_date == self.birth_date,
            r.citizenship == self.citizenship,
            r.share_in_capital == self.share_in_capital,
            r.residency == self.residency,
            r.company_name == Some(name),
            r.company_okpo == self.company_okpo,
    {
        let mut r = self;
        r.company_name = Some(name);
        r
    }

    /// Sets the company's USREOU. Must not exceed 255 characters.
    pub fn company_okpo(self, okpo: String) -> (r: Self)
        ensures
            r.name == self.name,
            r.inn == self.inn,
            r.birth_date == self.birth_date,
            r.citizenship == self.citizenship,
            r.share_in_capital == self.share_in_capital,
            r.residency == self.residency,
            r.company_name == self.company_name,
            r.company_okpo == Some(okpo),
    {
        let mut r = self;
        r.company_okpo = Some(okpo);
        r
    }
}

/// Represents a response to editing a company's information operation.
#[derive(Debug)]
pub struct CreateCompanyResponse {
    /// Represents the result of the request. Can be either `ok` or `error`.
    pub result: Result,
    /// Represents the status of the request.
    pub status: Status,
    /// Represents the private key of a company.
    pub private_key: Option<String>,
    /// Represents the public key of a company.
    pub public_key: Option<String>,
    /// Holds an error code.
    pub error_code: Option<String>,
    /// Holds an error description.
    pub error_description: Option<String>,
}

impl LiqPayResponse for CreateCompanyResponse {}

/// Represents a required document for a company activation in accordance with an MCC code.
#[derive(Debug)]
pub struct Document {
    pub file: String,
    pub name: String,
    pub file_name: String,
    pub document_id: Option<String>,
}

impl Document {
    /// Construct a new instance of a document.
    pub fn new(file: String, name: String, file_name: String) -> (r: Self)
        ensures
            r.file == file,
            r.name == name,
            r.file_name == file_name,
            r.document_id is None,
    {
        Self {
            file,
            name,
            file_name,
            document_id: None,
        }
    }

    /// Sets the identifier of a document.
    pub fn document_id(self, id: String) -> (r: Self)
        ensures
            r.file == self.file,
            r.name == self.name,
            r.file_name == self.file_name,
            r.document_id == Some(id),
    {
        let mut r = self;
        r.document_id = Some(id);
        r
    }
}

/// Represents a request to get available MCC codes.
#[derive(Debug)]
pub struct MccCodesRequest {
    pub action: Action,
    pub version: Version,
    pub public_key: String,
    pub language: Option<Language>,
}

impl LiqPayRequest for MccCodesRequest {
    open spec fn spec_hash_algorithm() -> HashAlgorithm {
        HashAlgorithm::Sha1
    }

    open spec fn spec_version() -> Version {
        Version::Three
    }

    proof fn lemma_algorithm_fits_version() {
    }

    fn hash_algorithm() -> (r: HashAlgorithm) {
        HashAlgorithm::Sha1
    }
}

impl MccCodesRequest {
    /// Construct a new request to get available MCC codes.
    pub fn new(public_key: String) -> (r: Self)
        ensures
            r.action == Action::MccCodes,
            r.version == Version::Three,
            r.public_key == public_key,
            r.language is None,
    {
        Self {
            action: Action::MccCodes,
            version: Version::Three,
            public_key,
            language: None,
        }
    }

    /// Sets the language of the returned MCC codes.
    /// Allowed values are `uk` - Ukrainian and `en` - English.
    pub fn language(self, language: Language) -> (r: Self)
        ensures
            r.action == self.action,
            r.version == self.version,
            r.public_key == self.public_key,
            r.language == Some(language),
    {
        let mut r = self;
        r.language = Some(language);
        r
    }
}

/// Represents an MCC code.
#[derive(Debug)]
pub struct MccCode {
    /// Represents the identifier of a code.
    pub id: u32,
    /// Represents the code itself.
    pub mcc_code: Option<u32>,
    /// Represents the name of the code.
    pub name: Option<String>,
    /// Represents the identifier of the category a code belongs to.
    pub parent_id: Option<u32>,
}

/// Represents a response to getting available MCC codes operation.
#[derive(Debug)]
pub struct MccCodesResponse {
    /// Represents the result of the request. Can be either `ok` or `error`.
    pub result: Result,
    /// Represents the status of the request.
    pub status: Status,
    /// Represents a collection of available MCC codes.
    pub mcc_codes: Option<Vec<MccCode>>,
    /// Holds an error code.
    pub error_code: Option<String>,
    /// Holds an error description.
    pub error_description: Option<String>,
}

impl LiqPayResponse for MccCodesResponse {}

/// Represents a request to get documents for an MCC code.
#[derive(Debug)]
pub struct MccDocumentsRequest {
    pub action: Action,
    pub version: Version,
    pub public_key: String,
    pub mcc_code: u32,
    pub language: Option<Language>,
}

impl LiqPayRequest for MccDocumentsRequest {
    open spec fn spec_hash_algorithm() -> HashAlgorithm {
        HashAlgorithm::Sha1
    }

    open spec fn spec_version() -> Version {
        Version::Three
    }

    proof fn lemma_algorithm_fits_version() {
    }

    fn hash_algorithm() -> (r: HashAlgorithm) {
        HashAlgorithm::Sha1
    }
}

impl MccDocumentsRequest {
    /// Construct a new request to get documents for an MCC codes.
    pub fn new(public_key: String, mcc_code: u32) -> (r: Self)
        ensures
            r.action == Action::MccCodes,
            r.version == Version::Three,
            r.public_key == public_key,
            r.mcc_code == mcc_code,
            r.language is None,
    {
        Self {
            action: Action::MccCodes,
            version: Version::Three,
            public_key,
            mcc_code,
            language: None,
        }
    }

    /// Sets the language of the returned MCC codes.
    /// Allowed values are `uk` - Ukrainian and `en` - English.
    pub fn language(self, language: Language) -> (r: Self)
        ensures
            r.action == self.action,
            r.version == self.version,
            r.public_key == self.public_key,
            r.mcc_code == self.mcc_code,
            r.language == Some(language),
    {
        let mut r = self;
        r.language = Some(language);
        r
    }
}

/// Represents a document type.
#[derive(Clone, Copy, Debug, PartialEq, Eq, Structural)]
pub enum DocumentType {
    Required,
    Allof,
    Optional,
}

/// Represents an MCC document.
#[derive(Debug)]
pub struct MccDocument {
    /// Represents the identifier of a document.
    pub doc_id: u32,
    /// Represents the type of a document.
    pub doc_type: DocumentType,
    /// Represents the name of a document.
    pub name: String,
    /// Represents a collection of identifier of documents that can be used as replacements
    /// for the current document.
    pub alt_docs: Vec<u32>,
    /// Represents the description of a document.
    pub description: String,
}

/// Represents a response to getting documents for an MCC code operation.
#[derive(Debug)]
pub struct MccDocumentsResponse {
    /// Represents the result of the request. Can be either `ok` or `error`.
    pub result: Result,
    /// Represents the status of the request.
    pub status: Status,
    /// Represents a collection of an MCC code documents.
    pub mcc_docs: Option<Vec<MccDocument>>,
    /// Holds an error code.
    pub error_code: Option<String>,
    /// Holds an error description.
    pub error_description: Option<String>,
}

impl LiqPayResponse for MccDocumentsResponse {}

/// The status reported to a company's callback URL.
#[derive(Clone, Copy, Debug, PartialEq, Eq, Structural)]
pub enum UrlCallbackStatus {
    Activated,
    Blocked,
}

#[derive(Debug)]
pub struct RegisterCompanyResponse {
    /// Represents the result of the request. Can be either `ok` or `error`.
    pub result: Result,
    /// Represents the status of the request.
    pub status: Option<Status>,
    /// Holds an error code.
    pub error_code: Option<String>,
    /// Holds an error description.
    pub error_description: Option<String>,
}

impl LiqPayResponse for RegisterCompanyResponse {}

}
