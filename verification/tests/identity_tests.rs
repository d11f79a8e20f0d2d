use mysten_infra::anemo::config::{transport_idle_timeout, DEFAULT_IDLE_TIMEOUT_MS, VARINT_BOUND};
use mysten_infra::anemo::connection::{
    checked_peer_identity, peer_id_from_public_key, try_peer_identity, IdentityError,
};
use mysten_infra::rccheck::ed25519_certgen::{
    gen_certificate, keypair_bytes_to_pkcs8, CertificateError, Ed25519,
};

fn ed25519_certificate() -> (Vec<u8>, Vec<u8>) {
    let key_pair = rcgen::KeyPair::generate(&rcgen::PKCS_ED25519).unwrap();
    let public = key_pair.public_key_raw().to_vec();
    let mut params = rcgen::CertificateParams::new(vec!["localhost".to_string()]);
    params.alg = &rcgen::PKCS_ED25519;
    params.key_pair = Some(key_pair);
    let cert = rcgen::Certificate::from_params(params).unwrap();
    (cert.serialize_der().unwrap(), public)
}

#[test]
fn identity_is_the_certificate_key() {
    let (der, public) = ed25519_certificate();
    let chain = vec![der];
    let id = try_peer_identity(&chain).unwrap();
    assert_eq!(id.0.to_vec(), public);
    assert_eq!(checked_peer_identity(&chain), Some(Ok(id)));
}

#[test]
fn garbage_is_not_a_certificate() {
    let chain = vec![vec![1u8, 2, 3, 4]];
    assert_eq!(try_peer_identity(&chain), Err(IdentityError::InvalidCertificateEncoding));
    assert_eq!(checked_peer_identity(&chain), Some(Err(IdentityError::InvalidCertificateEncoding)));
}

#[test]
fn empty_chain_or_foreign_key_has_no_identity() {
    assert_eq!(checked_peer_identity(&vec![]), None);
    // A certificate with an ECDSA key: its key is not an ed25519 key.
    let cert = rcgen::generate_simple_self_signed(vec!["localhost".to_string()]).unwrap();
    assert_eq!(checked_peer_identity(&vec![cert.serialize_der().unwrap()]), None);
}

#[test]
fn public_key_bytes() {
    let (_, public) = ed25519_certificate();
    assert_eq!(peer_id_from_public_key(&public).unwrap().0.to_vec(), public);
    assert!(peer_id_from_public_key(&public[..31]).is_none());
}

#[test]
fn spki_encoding_of_a_key() {
    let key = [0x11u8; 32];
    let spki = Ed25519::public_key_to_spki(&key);
    let mut expected = vec![0x30, 0x2a, 0x30, 0x05, 0x06, 0x03, 0x2b, 0x65, 0x70, 0x03, 0x21, 0x00];
    expected.extend_from_slice(&key);
    assert_eq!(spki, expected);
}

#[test]
fn idle_timeout_bounds() {
    assert_eq!(DEFAULT_IDLE_TIMEOUT_MS, 60_000);
    assert_eq!(transport_idle_timeout(None).unwrap(), 60_000);
    assert_eq!(transport_idle_timeout(Some(1)).unwrap(), 1);
    assert_eq!(transport_idle_timeout(Some(VARINT_BOUND - 1)).unwrap(), (VARINT_BOUND - 1) as u64);
    assert!(transport_idle_timeout(Some(VARINT_BOUND)).is_err());
    assert!(transport_idle_timeout(Some(u128::MAX)).is_err());
}

#[test]
fn pkcs8_encoding_of_a_secret_key() {
    let secret = [0x42u8; 32];
    let der = keypair_bytes_to_pkcs8(&secret).unwrap();
    let mut expected = vec![
        0x30, 0x2e, 0x02, 0x01, 0x00, 0x30, 0x05, 0x06, 0x03, 0x2b, 0x65, 0x70, 0x04, 0x22, 0x04, 0x20,
    ];
    expected.extend_from_slice(&secret);
    assert_eq!(der, expected);
    // The encoding is accepted as an ed25519 key pair by certificate generation.
    assert!(rcgen::KeyPair::from_der_and_sign_algo(&der, &rcgen::PKCS_ED25519).is_ok());
}

#[test]
fn certificate_identity_is_the_key_pair_public_key() {
    let secret = [7u8; 32];
    let secret_key = ed25519_dalek::SecretKey::from_bytes(&secret).unwrap();
    let public_key: ed25519_dalek::PublicKey = (&secret_key).into();
    let der = Ed25519::keypair_to_certificate(vec!["localhost".to_string()], &secret).unwrap();
    let id = try_peer_identity(&vec![der.clone()]).unwrap();
    assert_eq!(id.0, *public_key.as_bytes());
    // Generation is deterministic for a given key pair and names.
    let again = Ed25519::keypair_to_certificate(vec!["localhost".to_string()], &secret).unwrap();
    assert_eq!(der, again);
}

#[test]
fn certificate_from_pkcs8_document() {
    let secret = [9u8; 32];
    let pkcs8 = keypair_bytes_to_pkcs8(&secret).unwrap();
    let der = gen_certificate(vec!["localhost".to_string()], &pkcs8).unwrap();
    let via_keypair = Ed25519::keypair_to_certificate(vec!["localhost".to_string()], &secret).unwrap();
    assert_eq!(der, via_keypair);
}

#[test]
fn certificate_from_garbage_key_fails() {
    let r = gen_certificate(vec!["localhost".to_string()], &[1, 2, 3]);
    assert!(matches!(r, Err(CertificateError::Generation(_))));
}

#[test]
fn certificate_generation_succeeds_for_any_secret_key() {
    for b in [0u8, 1, 0x80, 0xff] {
        let secret = [b; 32];
        let names = vec!["localhost".to_string(), "example.org".to_string()];
        assert!(Ed25519::keypair_to_certificate(names.clone(), &secret).is_ok());
        let pkcs8 = keypair_bytes_to_pkcs8(&secret).unwrap();
        assert!(gen_certificate(names, &pkcs8).is_ok());
    }
    assert!(Ed25519::keypair_to_certificate(vec![], &[3u8; 32]).is_ok());
}

#[test]
fn certificate_carries_the_spki_of_the_public_key() {
    let secret = [5u8; 32];
    let secret_key = ed25519_dalek::SecretKey::from_bytes(&secret).unwrap();
    let public_key: ed25519_dalek::PublicKey = (&secret_key).into();
    let spki = Ed25519::public_key_to_spki(public_key.as_bytes());
    let der = Ed25519::keypair_to_certificate(vec!["localhost".to_string()], &secret).unwrap();
    assert!(der.windows(spki.len()).any(|w| w == spki.as_slice()));
    let id = checked_peer_identity(&vec![der]).unwrap().unwrap();
    assert_eq!(id.0, *public_key.as_bytes());
}
