//! The part of a dispatch that runs before the network: a request's JSON
//! text is encoded and signed with the algorithm its type is bound to.
//! Posting the form and decoding the reply belong to the transport.

use vstd::prelude::*;
use vstd::utf8::*;

use crate::common::traits::LiqPayRequest;
use crate::signer::{build_form_data, payload_of, signature_of, FormData, HashAlgorithm};

verus! {

/// The gateway endpoint every request is posted to.
pub const CLIENT_URL: &'static str = "https://www.liqpay.ua/api/request";

/// The ways a dispatch can fail. A refusal by the gateway (a declined card,
/// a bad signature) is no error: it comes back as an ordinary response.
#[derive(Debug)]
pub enum DispatchError {
    /// The request could not be turned into JSON text.
    Serialization(String),
    /// The exchange with the gateway failed: connection, TLS or timeout.
    Transport(String),
    /// The reply could not be read as the response type bound to the request.
    Decode(String),
}

/// Holds a merchant's private key. The key is bound once, when the signer is
/// made, and only read afterwards, so one signer can serve many dispatches.
pub struct RequestSigner {
    private_key: String,
}

impl RequestSigner {
    /// The private key this signer holds.
    pub closed spec fn key(&self) -> Seq<char> {
        self.private_key@
    }

    /// Binds a private key.
    pub fn new(private_key: String) -> (r: Self)
        ensures
            r.key() == private_key@,
    {
        RequestSigner { private_key }
    }

    /// The form body for a request of type `R` whose JSON text is `json`:
    /// `data` is the payload and `signature` is signed with the algorithm
    /// that `R` is bound to.
    pub fn form_data<R: LiqPayRequest>(&self, json: &str) -> (r: FormData)
        requires
            encode_utf8(json@).len() <= usize::MAX / 2,
        ensures
            r.data@ == payload_of(json@),
            r.signature@ == signature_of(R::spec_hash_algorithm(), self.key(), payload_of(json@)),
    {
        self.form_data_with(R::hash_algorithm(), json)
    }

    /// The form body for a request whose JSON text is `json`, signed with `alg`.
    pub fn form_data_with(&self, alg: HashAlgorithm, json: &str) -> (r: FormData)
        requires
            encode_utf8(json@).len() <= usize::MAX / 2,
        ensures
            r.data@ == payload_of(json@),
            r.signature@ == signature_of(alg, self.key(), payload_of(json@)),
    {
        build_form_data(alg, self.private_key.as_str(), json)
    }
}

}
