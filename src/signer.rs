//! Request signing: `signature = base64(hash(key ++ payload ++ key))`, and the
//! two-field form body that carries a signed request.

use sha1::Digest;
use vstd::prelude::*;
use vstd::string::*;
use vstd::utf8::*;

use crate::codec::{base64_encoding, encode, lemma_encoding_injective};

verus! {

broadcast use vstd::utf8::group_utf8_lib;

/// The hash algorithm that a gateway endpoint validates signatures with.
/// Legacy endpoints (API version 3) expect SHA-1, current ones SHA3-256.
#[derive(Clone, Copy, Debug, PartialEq, Eq, Structural)]
pub enum HashAlgorithm {
    Sha1,
    Sha3_256,
}

/// The SHA-1 digest of a byte string.
pub uninterp spec fn sha1_of(b: Seq<u8>) -> Seq<u8>;

/// The SHA3-256 digest of a byte string.
pub uninterp spec fn sha3_256_of(b: Seq<u8>) -> Seq<u8>;

/// Relies on sha1's `Sha1::digest`: a 20-byte digest that depends on the input alone.
#[verifier::external_body]
fn sha1_digest(b: &[u8]) -> (r: Vec<u8>)
    ensures
        r@ == sha1_of(b@),
        r@.len() == 20,
{
    sha1::Sha1::digest(b).to_vec()
}

/// Relies on sha3's `Sha3_256::digest`: a 32-byte digest that depends on the input alone.
#[verifier::external_body]
fn sha3_256_digest(b: &[u8]) -> (r: Vec<u8>)
    ensures
        r@ == sha3_256_of(b@),
        r@.len() == 32,
{
    sha3::Sha3_256::digest(b).to_vec()
}

pub open spec fn digest_of(alg: HashAlgorithm, b: Seq<u8>) -> Seq<u8> {
    match alg {
        HashAlgorithm::Sha1 => sha1_of(b),
        HashAlgorithm::Sha3_256 => sha3_256_of(b),
    }
}

/// The text that is hashed: the key on both sides of the payload.
pub open spec fn signing_input(key: Seq<char>, payload: Seq<char>) -> Seq<char> {
    key + payload + key
}

/// The wire form of an encoded request: base64 of the UTF-8 bytes of its JSON text.
pub open spec fn payload_of(json: Seq<char>) -> Seq<char> {
    base64_encoding(encode_utf8(json))
}

/// The signature of a payload under a private key.
pub open spec fn signature_of(alg: HashAlgorithm, key: Seq<char>, payload: Seq<char>) -> Seq<char> {
    base64_encoding(digest_of(alg, encode_utf8(signing_input(key, payload))))
}

/// The digest of a byte string under the given algorithm.
pub fn digest(alg: HashAlgorithm, b: &[u8]) -> (r: Vec<u8>)
    ensures
        r@ == digest_of(alg, b@),
        r@.len() == match alg {
            HashAlgorithm::Sha1 => 20int,
            HashAlgorithm::Sha3_256 => 32int,
        },
{
    match alg {
        HashAlgorithm::Sha1 => sha1_digest(b),
        HashAlgorithm::Sha3_256 => sha3_256_digest(b),
    }
}

/// The text that is hashed for a signature: `private_key ++ body ++ private_key`.
pub fn build_signature(private_key: &str, body: &str) -> (r: String)
    ensures
        r@ == signing_input(private_key@, body@),
{
    let mut s = String::from_str(private_key);
    s.append(body);
    s.append(private_key);
    s
}

/// The signature of `payload` under `private_key`:
/// `base64(hash(private_key ++ payload ++ private_key))`.
pub fn sign(alg: HashAlgorithm, private_key: &str, payload: &str) -> (r: String)
    ensures
        r@ == signature_of(alg, private_key@, payload@),
{
    let input = build_signature(private_key, payload);
    let hashed = digest(alg, input.as_str().as_bytes());
    encode(hashed.as_slice())
}

/// The payload of a request whose JSON text is `json`: base64 of its UTF-8 bytes.
pub fn encode_payload(json: &str) -> (r: String)
    requires
        encode_utf8(json@).len() <= usize::MAX / 2,
    ensures
        r@ == payload_of(json@),
{
    encode(json.as_bytes())
}

/// The form body of a signed request: `data` holds the payload,
/// `signature` its signature.
pub struct FormData {
    pub data: String,
    pub signature: String,
}

impl FormData {
    /// The form's entries by name, in the order in which they are sent.
    pub fn entries(&self) -> (r: [(&'static str, &String); 2])
        ensures
            r[0].0@ == "data"@,
            r[0].1@ == self.data@,
            r[1].0@ == "signature"@,
            r[1].1@ == self.signature@,
    {
        [("data", &self.data), ("signature", &self.signature)]
    }
}

/// Encodes a request's JSON text and signs the result: the form body to post.
pub fn build_form_data(alg: HashAlgorithm, private_key: &str, json: &str) -> (r: FormData)
    requires
        encode_utf8(json@).len() <= usize::MAX / 2,
    ensures
        r.data@ == payload_of(json@),
        r.signature@ == signature_of(alg, private_key@, payload_of(json@)),
{
    let data = encode_payload(json);
    let signature = sign(alg, private_key, data.as_str());
    FormData { data, signature }
}

/// Signing is a function of the algorithm, the key and the payload: the same
/// inputs always give the same signature.
pub proof fn lemma_signature_deterministic(
    alg: HashAlgorithm,
    key1: Seq<char>,
    payload1: Seq<char>,
    key2: Seq<char>,
    payload2: Seq<char>,
)
    requires
        key1 == key2,
        payload1 == payload2,
    ensures
        signature_of(alg, key1, payload1) == signature_of(alg, key2, payload2),
{
}

/// Two keys of one length and two payloads of one length, not both the same,
/// give distinct signing inputs; so equal signatures for them can only come
/// from a collision of the hash on those distinct inputs.
pub proof fn lemma_equal_signatures_need_collision(
    alg: HashAlgorithm,
    key1: Seq<char>,
    payload1: Seq<char>,
    key2: Seq<char>,
    payload2: Seq<char>,
)
    requires
        key1.len() == key2.len(),
        payload1.len() == payload2.len(),
        key1 != key2 || payload1 != payload2,
    ensures
        encode_utf8(signing_input(key1, payload1)) != encode_utf8(signing_input(key2, payload2)),
        signature_of(alg, key1, payload1) == signature_of(alg, key2, payload2) ==> digest_of(
            alg,
            encode_utf8(signing_input(key1, payload1)),
        ) == digest_of(alg, encode_utf8(signing_input(key2, payload2))),
{
    let s1 = signing_input(key1, payload1);
    let s2 = signing_input(key2, payload2);
    if s1 == s2 {
        assert(key1 =~= s1.subrange(0, key1.len() as int));
        assert(key2 =~= s2.subrange(0, key2.len() as int));
        assert(payload1 =~= s1.subrange(key1.len() as int, (key1.len() + payload1.len()) as int));
        assert(payload2 =~= s2.subrange(key2.len() as int, (key2.len() + payload2.len()) as int));
    }
    if encode_utf8(s1) == encode_utf8(s2) {
        assert(decode_utf8(encode_utf8(s1)) == s1);
        assert(decode_utf8(encode_utf8(s2)) == s2);
    }
    if signature_of(alg, key1, payload1) == signature_of(alg, key2, payload2) {
        lemma_encoding_injective(digest_of(alg, encode_utf8(s1)), digest_of(alg, encode_utf8(s2)));
    }
}

}
