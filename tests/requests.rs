use liqpay::common::enums::{Action, Language, Version};
use liqpay::common::traits::LiqPayRequest;
use liqpay::informational::add_data::AddDataRequest;
use liqpay::informational::archive::ArchiveRequest;
use liqpay::informational::common::ResponseFormat;
use liqpay::informational::receipt::SendReceiptRequest;
use liqpay::informational::registry::{
    CompensationReportFileRequest, CompensationReportFileStatusRequest, CompensationReportRequest,
    P2PCompensationReportFileRequest, P2PCompensationReportFileType, RegistryRequest,
};
use liqpay::informational::status::StatusRequest;
use liqpay::internet_acquiring::common::DetailAddenda;
use liqpay::internet_acquiring::invoice::{CancelInvoiceRequest, InvoiceUnitsRequest};
use liqpay::internet_acquiring::subscription::CancelSubscriptionRequest;
use liqpay::partner::company_information::CompanyInformationRequest;
use liqpay::partner::create_company::{
    Document, LawCoOwnerInformation, LawContacts, LawCtoInformation, LawOwnerInformation,
    MccCodesRequest, MccDocumentsRequest,
};
use liqpay::partner::partner_information::PartnerInformationRequest;
use liqpay::signer::HashAlgorithm;
use liqpay::tokens::{CardTokenAction, ChangeTokenStatusRequest, CreateTokenRequest};
use liqpay::verification::card_verification::CardVerificationRequest;
use liqpay::verification::mpi::{BrowserColorDepth, ThreeDsInfo};
use liqpay::verification::otp::OtpRequest;

fn s(v: &str) -> String {
    v.to_string()
}

#[test]
fn every_request_type_is_bound_to_its_algorithm() {
    let legacy = [
        InvoiceUnitsRequest::hash_algorithm(),
        MccCodesRequest::hash_algorithm(),
        MccDocumentsRequest::hash_algorithm(),
    ];
    let current = [
        AddDataRequest::hash_algorithm(),
        ArchiveRequest::hash_algorithm(),
        SendReceiptRequest::hash_algorithm(),
        CompensationReportRequest::hash_algorithm(),
        RegistryRequest::hash_algorithm(),
        CompensationReportFileRequest::hash_algorithm(),
        CompensationReportFileStatusRequest::hash_algorithm(),
        P2PCompensationReportFileRequest::hash_algorithm(),
        StatusRequest::hash_algorithm(),
        CancelInvoiceRequest::hash_algorithm(),
        CancelSubscriptionRequest::hash_algorithm(),
        CompanyInformationRequest::hash_algorithm(),
        PartnerInformationRequest::hash_algorithm(),
        CreateTokenRequest::hash_algorithm(),
        ChangeTokenStatusRequest::hash_algorithm(),
        CardVerificationRequest::hash_algorithm(),
        OtpRequest::hash_algorithm(),
    ];
    assert!(legacy.iter().all(|a| *a == HashAlgorithm::Sha1));
    assert!(current.iter().all(|a| *a == HashAlgorithm::Sha3_256));
}

#[test]
fn informational_requests() {
    let r = AddDataRequest::new(s("pk"), s("o1"), s("info"));
    assert_eq!((r.version, r.action), (Version::Seven, Action::Data));
    assert_eq!((r.public_key.as_str(), r.order_id.as_str(), r.info.as_str()), ("pk", "o1", "info"));

    let r = ArchiveRequest::new(s("pk"), s("2024-01-01"), s("2024-02-01"));
    assert_eq!((r.version, r.action, r.response_format), (Version::Seven, Action::Reports, ResponseFormat::Json));
    assert_eq!((r.date_from.as_str(), r.date_to.as_str()), ("2024-01-01", "2024-02-01"));

    let r = StatusRequest::new(s("pk"), s("o2"));
    assert_eq!((r.version, r.action, r.order_id.as_str()), (Version::Seven, Action::Status, "o2"));
}

#[test]
fn receipt_request_options() {
    let r = SendReceiptRequest::new(s("pk"), s("a@b.c"), s("o1"));
    assert_eq!((r.version, r.action), (Version::Seven, Action::Ticket));
    assert!(r.payment_id.is_none() && r.language.is_none());
    let r = r.payment_id(s("77")).language(Language::En);
    assert_eq!(r.payment_id.as_deref(), Some("77"));
    assert_eq!(r.language, Some(Language::En));
    assert_eq!((r.email.as_str(), r.order_id.as_str()), ("a@b.c", "o1"));
}

#[test]
fn report_requests() {
    let r = CompensationReportRequest::by_compensation_id(s("pk"), s("c1"));
    assert_eq!(r.action, Action::ReportsCompensation);
    assert_eq!((r.compensation_id.as_deref(), r.date.as_deref()), (Some("c1"), None));
    let r = CompensationReportRequest::by_date(s("pk"), s("2024-01-01"));
    assert_eq!((r.compensation_id.as_deref(), r.date.as_deref()), (None, Some("2024-01-01")));
    assert_eq!(r.response_format, ResponseFormat::Json);

    let r = RegistryRequest::new(s("pk"), s("2024-01-01"));
    assert_eq!((r.action, r.format, r.date.as_str()), (Action::Registry, ResponseFormat::Json, "2024-01-01"));

    let r = CompensationReportFileRequest::by_date(s("pk"), s("2024-01-01"));
    assert_eq!((r.action, r.response_format), (Action::ReportsCompensationFile, ResponseFormat::Csv));
    assert_eq!((r.compensation_id.as_deref(), r.date.as_deref()), (None, Some("2024-01-01")));
    let r = CompensationReportFileRequest::by_compensation_id(s("pk"), s("c2"));
    assert_eq!((r.compensation_id.as_deref(), r.date.as_deref()), (Some("c2"), None));

    let r = CompensationReportFileStatusRequest::new(s("pk"), s("tok"));
    assert_eq!((r.action, r.registration_token.as_str()), (Action::ReportsCompensationFileStatus, "tok"));

    let r = P2PCompensationReportFileRequest::p2p(s("pk"), s("2024-03-01"));
    assert_eq!(r.operation_type, P2PCompensationReportFileType::P2P);
    assert_eq!((r.action, r.response_format, r.date.as_str()), (Action::ReportsCompensationFile, ResponseFormat::Csv, "2024-03-01"));
    let r = P2PCompensationReportFileRequest::p2p_credit(s("pk"), s("2024-03-02"));
    assert_eq!(r.operation_type, P2PCompensationReportFileType::P2PCredit);
}

#[test]
fn detail_addenda_builder() {
    let d = DetailAddenda::new();
    assert!(d.airline.is_none() && d.ticket_number.is_none() && d.departure_date.is_none());
    let d = d
        .airline(s("PS"))
        .ticket_number(s("T1"))
        .passenger_name(s("Ann"))
        .flight_number(s("101"))
        .origin_city(s("KBP"))
        .destination_city(s("LWO"))
        .departure_date(240131);
    assert_eq!(d.airline.as_deref(), Some("PS"));
    assert_eq!(d.ticket_number.as_deref(), Some("T1"));
    assert_eq!(d.passenger_name.as_deref(), Some("Ann"));
    assert_eq!(d.flight_number.as_deref(), Some("101"));
    assert_eq!(d.origin_city.as_deref(), Some("KBP"));
    assert_eq!(d.destination_city.as_deref(), Some("LWO"));
    assert_eq!(d.departure_date, Some(240131));
}

#[test]
fn invoice_and_subscription_requests() {
    let r = CancelInvoiceRequest::new(s("pk"), s("o1"));
    assert_eq!((r.version, r.action, r.order_id.as_str()), (Version::Seven, Action::CancelInvoice, "o1"));

    let r = InvoiceUnitsRequest::by_language(s("pk"), Language::Uk);
    assert_eq!((r.version, r.action), (Version::Three, Action::GetInvoiceUnitsByLanguage));
    assert_eq!((r.language, r.hide_language_name), (Some(Language::Uk), None));
    let r = InvoiceUnitsRequest::full(s("pk"));
    assert_eq!((r.action, r.language, r.hide_language_name), (Action::GetInvoiceUnits, None, None));
    let r = r.language(Language::En).hide_name_language();
    assert_eq!((r.language, r.hide_language_name), (Some(Language::En), Some(true)));

    let r = CancelSubscriptionRequest::new(s("pk"), s("o3"));
    assert_eq!((r.action, r.order_id.as_str()), (Action::Unsubscribe, "o3"));
}

#[test]
fn company_law_information_builders() {
    let c = LawContacts::new();
    assert!(c.phone.is_none() && c.email.is_none());
    let c = c.phone(s("+380")).email(s("e@x"));
    assert_eq!((c.phone.as_deref(), c.email.as_deref()), (Some("+380"), Some("e@x")));

    let c = LawCtoInformation::new().name(s("N")).inn(s("1")).birth_date(s("1990-01-01")).citizenship(s("UA")).residency(s("Kyiv"));
    assert_eq!(c.name.as_deref(), Some("N"));
    assert_eq!(c.inn.as_deref(), Some("1"));
    assert_eq!(c.birth_date.as_deref(), Some("1990-01-01"));
    assert_eq!(c.citizenship.as_deref(), Some("UA"));
    assert_eq!(c.residency.as_deref(), Some("Kyiv"));

    let o = LawOwnerInformation::new();
    assert!(o.share_in_capital.is_none());
    let o = o.name(s("O")).inn(s("2")).birth_date(s("b")).citizenship(s("c")).share_in_capital(s("50")).residency(s("r"));
    assert_eq!(o.share_in_capital.as_deref(), Some("50"));
    assert_eq!((o.name.as_deref(), o.residency.as_deref()), (Some("O"), Some("r")));
    assert_eq!((o.inn.as_deref(), o.birth_date.as_deref(), o.citizenship.as_deref()), (Some("2"), Some("b"), Some("c")));

    let co = LawCoOwnerInformation::new().name(s("C")).inn(s("3")).birth_date(s("b")).citizenship(s("c")).share_in_capital(s("10")).residency(s("r")).company_name(s("Co")).company_okpo(s("123"));
    assert_eq!((co.company_name.as_deref(), co.company_okpo.as_deref()), (Some("Co"), Some("123")));
    assert_eq!((co.name.as_deref(), co.share_in_capital.as_deref()), (Some("C"), Some("10")));
    assert_eq!((co.inn.as_deref(), co.birth_date.as_deref(), co.citizenship.as_deref(), co.residency.as_deref()), (Some("3"), Some("b"), Some("c"), Some("r")));
}

#[test]
fn company_and_mcc_requests() {
    let d = Document::new(s("ZmlsZQ=="), s("passport"), s("p.pdf"));
    assert!(d.document_id.is_none());
    let d = d.document_id(s("d1"));
    assert_eq!((d.file.as_str(), d.name.as_str(), d.file_name.as_str(), d.document_id.as_deref()), ("ZmlsZQ==", "passport", "p.pdf", Some("d1")));

    let r = MccCodesRequest::new(s("pk"));
    assert_eq!((r.version, r.action, r.language), (Version::Three, Action::MccCodes, None));
    assert_eq!(r.language(Language::Uk).language, Some(Language::Uk));

    let r = MccDocumentsRequest::new(s("pk"), 5411);
    assert_eq!((r.version, r.mcc_code, r.language), (Version::Three, 5411, None));
    assert_eq!(r.language(Language::En).language, Some(Language::En));

    let r = CompanyInformationRequest::new(s("pk"), s("mpk"));
    assert_eq!((r.version, r.action, r.merchant_public_key.as_str()), (Version::Seven, Action::MerchantInfo, "mpk"));
    assert_eq!(r.language(Language::En).language, Some(Language::En));

    let r = PartnerInformationRequest::new(s("pk"), s("+380"));
    assert_eq!((r.action, r.phone.as_str()), (Action::UserInfo, "+380"));
}

#[test]
fn token_requests() {
    let r = CreateTokenRequest::token_connect_control(s("pk"), true, s("rcpt"));
    assert_eq!((r.version, r.action, r.is_debit, r.is_credit), (Version::Seven, Action::CreateToken, true, false));
    assert_eq!(r.push_account_receipt.as_deref(), Some("rcpt"));
    assert!(r.card.is_none() && r.push_data.is_none());

    let r = CreateTokenRequest::visa_cards_enrollment_hub(s("pk"), false, s("data"), s("cust"));
    assert_eq!((r.is_debit, r.is_credit), (false, true));
    assert_eq!((r.push_data.as_deref(), r.customer.as_deref()), (Some("data"), Some("cust")));

    let r = CreateTokenRequest::card(s("pk"), true, s("4111"), s("123"), s("12"), s("30"));
    assert_eq!((r.card.as_deref(), r.card_cvv.as_deref()), (Some("4111"), Some("123")));
    assert_eq!((r.card_exp_month.as_deref(), r.card_exp_year.as_deref()), (Some("12"), Some("30")));
    let r = r.unique(s("2030-12"));
    assert_eq!((r.action, r.expiration_date.as_deref()), (Action::CreateUniqueToken, Some("2030-12")));
    assert_eq!(r.card.as_deref(), Some("4111"));

    let r = ChangeTokenStatusRequest::new(s("pk"), s("tok"), CardTokenAction::Suspend);
    assert_eq!((r.action, r.card_token.as_str(), r.card_token_action), (Action::UpdateToken, "tok", CardTokenAction::Suspend));
}

#[test]
fn verification_requests() {
    let r = CardVerificationRequest::new(s("pk"), s("4111"), s("12"), s("30"), s("o1"), s("check"));
    assert_eq!((r.version, r.action), (Version::Seven, Action::CardVerification));
    assert_eq!((r.card_exp_month.as_str(), r.card_exp_year.as_str(), r.description.as_str()), ("12", "30", "check"));
    assert!(r.card_cvv.is_none() && r.verify_code.is_none());
    let r = r.cvv(s("123")).ip(s("1.2.3.4")).language(Language::Uk).verify_code();
    assert_eq!((r.card_cvv.as_deref(), r.ip.as_deref()), (Some("123"), Some("1.2.3.4")));
    assert_eq!((r.language, r.verify_code), (Some(Language::Uk), Some('Y')));

    let r = OtpRequest::new(s("pk"), s("1234"), s("tok"));
    assert_eq!((r.action, r.otp.as_str(), r.token.as_str()), (Action::Confirm, "1234", "tok"));
}

#[test]
fn three_ds_info_time_zone_in_minutes() {
    let mk = |tz: i8| ThreeDsInfo::new(s("n"), s("uk"), s("u"), s("1080"), s("1920"), BrowserColorDepth::TwentyFour, s("*/*"), tz, s("agent"));
    assert_eq!(mk(2).browser_tz, -120);
    assert_eq!(mk(-5).browser_tz, 300);
    assert_eq!(mk(0).browser_tz, 0);
    assert_eq!(mk(127).browser_tz, -7620);
    assert_eq!(mk(-128).browser_tz, 7680);
    let i = mk(3);
    assert_eq!((i.browser_java_script_enabled, i.browser_java_enabled), (None, None));
    let i = i.disable_java_script().enable_java();
    assert_eq!((i.browser_java_script_enabled, i.browser_java_enabled), (Some(false), Some(true)));
    assert_eq!(i.browser_color_depth, BrowserColorDepth::TwentyFour);
}
