//! Value tables shared by the gateway's requests and responses.

use vstd::prelude::*;

verus! {

/// The gateway API version a request is addressed to.
#[derive(Clone, Copy, Debug, PartialEq, Eq, Structural)]
pub enum Version {
    Three,
    Seven,
}

/// The operation a request asks for.
#[derive(Clone, Copy, Debug, PartialEq, Eq, Structural)]
pub enum Action {
    Pay,
    SendInvoice,
    CancelInvoice,
    PayQrCode,
    CreateQrCode,
    PayToken,
    PayCash,
    PayTrack,
    Refund,
    Hold,
    HoldCompletion,
    Subscribe,
    UpdateSubscription,
    PayDonate,
    Auth,
    Status,
    Unsubscribe,
    Ticket,
    PaySplit,
    Regular,
    PreparePayment,
    P2PCredit,
    P2PDebit,
    P2P,
    CardVerification,
    Reports,
    CreateToken,
    CreateUniqueToken,
    UpdateToken,
    ReportsCompensation,
    ReportsCompensationFile,
    ReportsCompensationFileStatus,
    Registry,
    Data,
    CreateShop,
    RegisterShop,
    EditShop,
    MccCodes,
    MerchantInfo,
    UserInfo,
    GetInvoiceUnits,
    GetInvoiceUnitsByLanguage,
    Confirm,
    Mpi,
}

/// A kind of payer bonus.
#[derive(Clone, Copy, Debug, PartialEq, Eq, Structural)]
pub enum Bonus {
    BonusPlus,
    DiscountClub,
    Personal,
    Promo,
}

/// A payment currency.
#[derive(Clone, Copy, Debug, PartialEq, Eq, Structural)]
pub enum Currency {
    UAH,
    EUR,
    USD,
}

/// A customer language.
#[derive(Clone, Copy, Debug, PartialEq, Eq, Structural)]
pub enum Language {
    En,
    Uk,
}

/// The 3-D Secure electronic commerce indicator of a payment.
#[derive(Clone, Copy, Debug, PartialEq, Eq, Structural)]
pub enum MpiEci {
    Success3Ds,
    NotSupported3Ds,
    Without3Ds,
}

/// A payment method.
#[derive(Clone, Copy, Debug, PartialEq, Eq, Structural)]
pub enum PayType {
    Card,
    LiqPay,
    Privat24,
    Masterpass,
    MomentPart,
    PayPart,
    Cash,
    Invoice,
    QR,
    ApplePay,
    GooglePay,
    ApplePayDecrypted,
    GooglePayDecrypted,
    Tavv,
}

/// The outcome of a request as the gateway reports it.
#[derive(Clone, Copy, Debug, PartialEq, Eq, Structural)]
pub enum Result {
    /// The request was processed (`ok` on the wire).
    Okay,
    /// The request was refused (`error` on the wire).
    Error,
}

/// The status of a payment or an operation.
#[derive(Clone, Copy, Debug, PartialEq, Eq, Structural)]
pub enum Status {
    Error,
    Failure,
    Reversed,
    Success,
    Verify3Ds,
    VerifyCvv,
    VerifyOtp,
    VerifyIvr,
    VerifyPassword,
    VerifyPhone,
    VerifyPin,
    VerifyReceiver,
    VerifySender,
    VerifySenderApp,
    VerifyCaptcha,
    VerifyMasterPass,
    WaitAccept,
    WaitCard,
    WaitCompensation,
    WaitLc,
    WaitReserve,
    WaitSecure,
    WaitQr,
    WaitSender,
    WaitCash,
    WaitHold,
    WaitInvoice,
    Subscribed,
    Unsubscribed,
    Prepared,
    Processing,
    TryAgain,
    Active,
}

/// The preparation mode of a payment.
#[derive(Clone, Copy, Debug, PartialEq, Eq, Structural)]
pub enum Prepare {
    Enable,
    Tariffs,
}

}
