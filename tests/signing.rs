use liqpay::common::traits::LiqPayRequest;
use liqpay::dispatch::RequestSigner;
use liqpay::informational::status::StatusRequest;
use liqpay::internet_acquiring::invoice::InvoiceUnitsRequest;
use liqpay::signer::{build_form_data, build_signature, digest, encode_payload, sign, HashAlgorithm};

#[test]
fn signing_input_wraps_payload_in_key() {
    assert_eq!(build_signature("secret", "body"), "secretbodysecret");
    assert_eq!(build_signature("", "body"), "body");
    assert_eq!(build_signature("k", ""), "kk");
}

#[test]
fn digest_lengths() {
    assert_eq!(digest(HashAlgorithm::Sha1, b"abc").len(), 20);
    assert_eq!(digest(HashAlgorithm::Sha3_256, b"abc").len(), 32);
}

#[test]
fn fixture_legacy_algorithm() {
    assert_eq!(sign(HashAlgorithm::Sha1, "secret", "body"), "zRd3FxwIjn8O8kPTtT6Ex6IWJgE=");
}

#[test]
fn fixture_current_algorithm() {
    assert_eq!(
        sign(HashAlgorithm::Sha3_256, "secret", "body"),
        "+5dXRaLk0vE3NJzPzYItru46vGfhEhhgvZTL8WBUhOo="
    );
}

#[test]
fn fixture_through_request_binding() {
    let legacy = InvoiceUnitsRequest::hash_algorithm();
    let current = StatusRequest::hash_algorithm();
    assert_eq!(sign(legacy, "secret", "body"), "zRd3FxwIjn8O8kPTtT6Ex6IWJgE=");
    assert_eq!(sign(current, "secret", "body"), "+5dXRaLk0vE3NJzPzYItru46vGfhEhhgvZTL8WBUhOo=");
}

#[test]
fn signing_is_deterministic() {
    for alg in [HashAlgorithm::Sha1, HashAlgorithm::Sha3_256] {
        assert_eq!(sign(alg, "key", "payload"), sign(alg, "key", "payload"));
    }
}

#[test]
fn one_changed_byte_changes_the_signature() {
    let base = sign(HashAlgorithm::Sha3_256, "secret", "body");
    assert_eq!(sign(HashAlgorithm::Sha3_256, "secreT", "body"), "rJy053GXtfVIRmxoY/JISV3us/DuubXJEnJokcE3A3M=");
    assert_ne!(sign(HashAlgorithm::Sha3_256, "secreT", "body"), base);
    assert_ne!(sign(HashAlgorithm::Sha3_256, "secret", "bodi"), base);
    assert_eq!(sign(HashAlgorithm::Sha3_256, "secret", "bodi"), "1mPKhPnwcZ7Ht+6trIuJ9kw5IaqA/PEj7nKC8VDkhOw=");
    let legacy = sign(HashAlgorithm::Sha1, "secret", "body");
    assert_ne!(sign(HashAlgorithm::Sha1, "secret", "bodY"), legacy);
    assert_ne!(sign(HashAlgorithm::Sha1, "Secret", "body"), legacy);
    let mut payload = b"some payload text".to_vec();
    for i in 0..payload.len() {
        let saved = payload[i];
        payload[i] = saved ^ 1;
        let changed = String::from_utf8(payload.clone()).unwrap();
        assert_ne!(sign(HashAlgorithm::Sha3_256, "key", &changed), sign(HashAlgorithm::Sha3_256, "key", "some payload text"));
        payload[i] = saved;
    }
}

#[test]
fn end_to_end_form_body() {
    let json = "{\"order_id\":\"A1\",\"amount\":10.0}";
    assert_eq!(encode_payload(json), "eyJvcmRlcl9pZCI6IkExIiwiYW1vdW50IjoxMC4wfQ==");
    let form = build_form_data(HashAlgorithm::Sha3_256, "secret", json);
    assert_eq!(form.data, "eyJvcmRlcl9pZCI6IkExIiwiYW1vdW50IjoxMC4wfQ==");
    assert_eq!(form.signature, "gJfmqja18ZIkmyXnOn5uD89CgJSJSU/sRxoC6Uj68Vo=");
    let entries = form.entries();
    assert_eq!(entries[0].0, "data");
    assert_eq!(entries[0].1, "eyJvcmRlcl9pZCI6IkExIiwiYW1vdW50IjoxMC4wfQ==");
    assert_eq!(entries[1].0, "signature");
    assert_eq!(entries[1].1, "gJfmqja18ZIkmyXnOn5uD89CgJSJSU/sRxoC6Uj68Vo=");
    let legacy = build_form_data(HashAlgorithm::Sha1, "secret", json);
    assert_eq!(legacy.signature, "vpuf2hkeJkMEm+fTK/YIuNR6YG8=");
}

#[test]
fn signer_uses_the_bound_algorithm() {
    let signer = RequestSigner::new("secret".to_string());
    let json = "{\"order_id\":\"A1\",\"amount\":10.0}";
    let current = signer.form_data::<StatusRequest>(json);
    assert_eq!(current.data, "eyJvcmRlcl9pZCI6IkExIiwiYW1vdW50IjoxMC4wfQ==");
    assert_eq!(current.signature, "gJfmqja18ZIkmyXnOn5uD89CgJSJSU/sRxoC6Uj68Vo=");
    let legacy = signer.form_data::<InvoiceUnitsRequest>(json);
    assert_eq!(legacy.signature, "vpuf2hkeJkMEm+fTK/YIuNR6YG8=");
}

#[test]
fn signer_with_explicit_algorithm() {
    let signer = RequestSigner::new("secret".to_string());
    let form = signer.form_data_with(HashAlgorithm::Sha1, "body");
    assert_eq!(form.data, "Ym9keQ==");
    let expected = sign(HashAlgorithm::Sha1, "secret", "Ym9keQ==");
    assert_eq!(form.signature, expected);
    assert_ne!(signer.form_data_with(HashAlgorithm::Sha3_256, "body").signature, expected);
}
