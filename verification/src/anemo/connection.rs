//! The cryptographic identity of the peer at the other end of a connection.
use vstd::prelude::*;
use x509_parser::certificate::X509Certificate;
use x509_parser::traits::FromDer;

use crate::anemo::common::PeerId;

verus! {

/// The subject public key (the bits of its BIT STRING) of the X.509
/// certificate whose DER encoding starts `der`, or `None` when no certificate
/// can be parsed there.
pub uninterp spec fn x509_subject_public_key(der: Seq<u8>) -> Option<Seq<u8>>;

/// Whether `bytes` is a compressed Edwards point that decompresses, that is, a
/// usable ed25519 public key.
pub uninterp spec fn ed25519_key_decodes(bytes: Seq<u8>) -> bool;

/// Calls `x509_parser`'s `X509Certificate::from_der` on `der` and returns the
/// data of the certificate's subject public key. The contract only ties the
/// result to the name [`x509_subject_public_key`]: parsing is a function of the
/// bytes alone.
#[verifier::external_body]
fn parse_subject_public_key(der: &[u8]) -> (r: Option<Vec<u8>>)
    ensures
        match r {
            Some(key) => x509_subject_public_key(der@) == Some(key@),
            None => x509_subject_public_key(der@) is None,
        },
{
    match X509Certificate::from_der(der) {
        Ok((_, cert)) => Some(cert.public_key().subject_public_key.data.to_vec()),
        Err(_) => None,
    }
}

/// Calls `ed25519_dalek::PublicKey::from_bytes`. Its source accepts exactly
/// the 32-byte inputs whose point decompresses, and keeps the input as the
/// key's bytes; the contract claims that, with the decompression test named
/// [`ed25519_key_decodes`].
#[verifier::external_body]
fn decode_public_key(bytes: &[u8]) -> (r: Option<[u8; 32]>)
    ensures
        match r {
            Some(key) => bytes@.len() == 32 && ed25519_key_decodes(bytes@) && key@ == bytes@,
            None => !(bytes@.len() == 32 && ed25519_key_decodes(bytes@)),
        },
{
    match ed25519_dalek::PublicKey::from_bytes(bytes) {
        Ok(key) => Some(*key.as_bytes()),
        Err(_) => None,
    }
}

/// Why the identity of a peer could not be read from its certificate.
#[derive(Clone, Copy, Debug, PartialEq, Eq, Structural)]
pub enum IdentityError {
    /// The first certificate of the chain is not a DER-encoded X.509 certificate.
    InvalidCertificateEncoding,
}

/// The peer id for a public key, when the bytes are a valid ed25519 key.
pub fn peer_id_from_public_key(bytes: &[u8]) -> (r: Option<PeerId>)
    ensures
        match r {
            Some(p) => bytes@.len() == 32 && ed25519_key_decodes(bytes@) && p.key() == bytes@,
            None => !(bytes@.len() == 32 && ed25519_key_decodes(bytes@)),
        },
{
    match decode_public_key(bytes) {
        Some(key) => Some(PeerId(key)),
        None => None,
    }
}

/// The identity of the peer that presented the certificate chain `chain`:
/// the public key of its first certificate.
pub fn try_peer_identity(chain: &Vec<Vec<u8>>) -> (r: Result<PeerId, IdentityError>)
    requires
        chain@.len() > 0,
        x509_subject_public_key(chain@[0]@) matches Some(key) ==> key.len() == 32
            && ed25519_key_decodes(key),
    ensures
        match r {
            Ok(p) => x509_subject_public_key(chain@[0]@) == Some(p.key()),
            Err(e) => e == IdentityError::InvalidCertificateEncoding && x509_subject_public_key(
                chain@[0]@,
            ) is None,
        },
{
    let cert = &chain[0];
    match parse_subject_public_key(cert.as_slice()) {
        Some(key) => match peer_id_from_public_key(key.as_slice()) {
            Some(p) => Ok(p),
            None => {
                assert(false);
                Err(IdentityError::InvalidCertificateEncoding)
            },
        },
        None => Err(IdentityError::InvalidCertificateEncoding),
    }
}

/// Like [`try_peer_identity`], for any chain: `None` when the chain is empty or
/// the key in its first certificate is not a valid ed25519 key.
pub fn checked_peer_identity(chain: &Vec<Vec<u8>>) -> (r: Option<Result<PeerId, IdentityError>>)
    ensures
        match r {
            None => chain@.len() == 0 || (x509_subject_public_key(chain@[0]@) matches Some(key)
                && !(key.len() == 32 && ed25519_key_decodes(key))),
            Some(Ok(p)) => chain@.len() > 0 && x509_subject_public_key(chain@[0]@) == Some(p.key()),
            Some(Err(e)) => chain@.len() > 0 && e == IdentityError::InvalidCertificateEncoding
                && x509_subject_public_key(chain@[0]@) is None,
        },
{
    if chain.len() == 0 {
        return None;
    }
    match parse_subject_public_key(chain[0].as_slice()) {
        Some(key) => match peer_id_from_public_key(key.as_slice()) {
            Some(_) => Some(try_peer_identity(chain)),
            None => None,
        },
        None => Some(try_peer_identity(chain)),
    }
}

} // verus!
