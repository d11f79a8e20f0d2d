//! Encoding ed25519 keys for use in X.509 certificates.
use pkcs8::EncodePrivateKey;
use vstd::prelude::*;

use crate::anemo::connection::{ed25519_key_decodes, x509_subject_public_key};

verus! {

/// The DER header of the X.509 `SubjectPublicKeyInfo` of an ed25519 key
/// (RFC 8410, section 4): `SEQUENCE { SEQUENCE { OID 1.3.101.112 },
/// BIT STRING (no unused bits) }`, up to the 32 key bytes.
pub open spec fn ed25519_spki_prefix() -> Seq<u8> {
    seq![0x30u8, 0x2a, 0x30, 0x05, 0x06, 0x03, 0x2b, 0x65, 0x70, 0x03, 0x21, 0x00]
}

/// The DER encoding of the X.509 `SubjectPublicKeyInfo` (RFC 5280, section
/// 4.1.2.7) of the ed25519 public key `key`, with the ed25519 algorithm
/// identifier and no parameters.
pub open spec fn ed25519_spki_der(key: Seq<u8>) -> Seq<u8> {
    ed25519_spki_prefix() + key
}

/// Builds a `pkcs8::spki::SubjectPublicKeyInfo` with the ed25519 algorithm
/// identifier (`ed25519::pkcs8::ALGORITHM_OID`, no parameters) around `key`
/// and calls `pkcs8::der::Encode::to_vec` on it. The contract claims the
/// encoding [`ed25519_spki_der`] of the key: the `spki` crate writes the
/// algorithm identifier sequence and the key as a BIT STRING with no unused
/// bits. Encoding only fails on lengths far beyond a 32-byte key, which
/// `requires` rules out.
#[verifier::external_body]
fn encode_ed25519_spki(key: &[u8]) -> (der: Vec<u8>)
    requires
        key@.len() == 32,
    ensures
        der@ == ed25519_spki_der(key@),
{
    let key_info = pkcs8::spki::SubjectPublicKeyInfo {
        algorithm: pkcs8::spki::AlgorithmIdentifier { oid: ed25519::pkcs8::ALGORITHM_OID, parameters: None },
        subject_public_key: key,
    };
    pkcs8::der::Encode::to_vec(&key_info).expect("a 32-byte key always encodes")
}

/// The DER header of a PKCS#8 v1 document holding an ed25519 private key
/// (RFC 8410, section 7): `SEQUENCE { INTEGER 0, SEQUENCE { OID 1.3.101.112 },
/// OCTET STRING { OCTET STRING (32 bytes) } }`, up to the 32 key bytes.
pub open spec fn ed25519_pkcs8_v1_prefix() -> Seq<u8> {
    seq![
        0x30u8, 0x2e, 0x02, 0x01, 0x00, 0x30, 0x05, 0x06, 0x03, 0x2b, 0x65, 0x70, 0x04, 0x22, 0x04, 0x20,
    ]
}

/// The PKCS#8 v1 DER encoding (RFC 5958, without the optional public key) of
/// the ed25519 private key whose secret scalar bytes are `secret_key`.
pub open spec fn ed25519_pkcs8_v1_der(secret_key: Seq<u8>) -> Seq<u8> {
    ed25519_pkcs8_v1_prefix() + secret_key
}

/// `der` is the PKCS#8 v1 document of some 32-byte ed25519 secret key.
pub open spec fn is_ed25519_pkcs8_v1(der: Seq<u8>) -> bool {
    der.len() == 48 && der.take(16) == ed25519_pkcs8_v1_prefix()
}

/// `pkcs8::Error`, the error of PKCS#8 encoding.
#[verifier::external_type_specification]
#[verifier::external_body]
pub struct ExPkcs8Error(pkcs8::Error);

/// Calls `ed25519::pkcs8::EncodePrivateKey::to_pkcs8_der` on the
/// `ed25519::KeypairBytes` made of `secret_key` and no public key, and copies
/// out the bytes of the resulting document. Its source writes the nested
/// OCTET STRING of the 32 key bytes into a `PrivateKeyInfo` with the ed25519
/// algorithm identifier and no public key, and DER-encodes that fixed-size
/// structure, which only fails on lengths far beyond these; the contract
/// claims it succeeds with the [`ed25519_pkcs8_v1_der`] bytes of the key.
#[verifier::external_body]
fn encode_ed25519_pkcs8_v1(secret_key: &[u8; 32]) -> (r: Result<Vec<u8>, pkcs8::Error>)
    ensures
        r is Ok,
        r matches Ok(der) ==> der@ == ed25519_pkcs8_v1_der(secret_key@),
{
    let key_bytes = ed25519::KeypairBytes { secret_key: *secret_key, public_key: None };
    key_bytes.to_pkcs8_der().map(|doc| doc.as_bytes().to_vec())
}

/// The PKCS#8 DER form of an ed25519 private key, as certificate generation
/// consumes it. The public key is left out (PKCS#8 v1), since common TLS
/// libraries only read that version.
pub fn keypair_bytes_to_pkcs8(secret_key: &[u8; 32]) -> (r: Result<Vec<u8>, pkcs8::Error>)
    ensures
        r matches Ok(der) && der@ == ed25519_pkcs8_v1_der(secret_key@),
{
    encode_ed25519_pkcs8_v1(secret_key)
}

/// `rcgen::RcgenError`, the error of certificate generation.
#[verifier::external_type_specification]
#[verifier::external_body]
pub struct ExRcgenError(rcgen::RcgenError);

/// The DER encoding of the self-signed X.509 certificate that `rcgen` makes
/// for the ed25519 key pair whose PKCS#8 document is `pkcs8_der`: valid for
/// the DNS names `subject_names`, with an empty distinguished name, rcgen's
/// default validity period, and a serial number derived from the public key.
pub uninterp spec fn self_signed_ed25519_certificate_der(subject_names: Seq<Seq<char>>, pkcs8_der: Seq<u8>) -> Seq<u8>;

/// The names as character sequences.
pub open spec fn names_view(names: Seq<String>) -> Seq<Seq<char>> {
    names.map_values(|s: String| s@)
}

/// The ed25519 public key (RFC 8032, section 5.1.5) of the 32-byte secret key
/// (seed) `secret_key`.
pub uninterp spec fn ed25519_public_key(secret_key: Seq<u8>) -> Seq<u8>;

/// Every character of every name is an ASCII character.
pub open spec fn all_ascii(names: Seq<String>) -> bool {
    forall|i: int, j: int|
        0 <= i < names.len() && 0 <= j < names[i]@.len() ==> (names[i]@[j] as u32) < 128
}

/// Calls `rcgen::KeyPair::from_der_and_sign_algo` on `pkcs8_der` with the
/// ed25519 algorithm, puts the key pair into `rcgen::CertificateParams::new`
/// of `subject_names` with an empty distinguished name and the ed25519
/// algorithm, then calls `rcgen::Certificate::from_params` and
/// `serialize_der`. Every step is deterministic (ed25519 signatures are, and
/// the serial number is a hash of the public key), so a successful result is
/// named [`self_signed_ed25519_certificate_der`] of the arguments.
/// `from_params` only fails when the key pair does not match the algorithm,
/// which cannot happen for an ed25519 key pair loaded with the ed25519
/// algorithm. The names are written as IA5 strings, and `yasna` panics on a
/// name that is not ASCII: `requires` leaves those out. The contract claims
/// success for a PKCS#8 v1 document of a 32-byte ed25519 key: `ring` reads
/// such a document (version 0, the ed25519 algorithm, the key as a nested
/// OCTET STRING) for any 32 key bytes, and once an ed25519 key pair is loaded
/// no step of serialization fails (ed25519 signing cannot fail, and rcgen's
/// remaining steps return no error). Nothing is claimed of other documents.
/// For such a document the certificate's subject public key is the ed25519
/// public key of the seed: `ring` derives it from the seed, rcgen writes it as
/// the key of the `SubjectPublicKeyInfo` (the ed25519 algorithm identifier
/// without parameters, then the key as a BIT STRING, which are the
/// [`ed25519_spki_der`] bytes), and `x509-parser` reads those bytes back;
/// being a derived public key, the point decompresses.
#[verifier::external_body]
fn self_signed_ed25519_certificate(subject_names: Vec<String>, pkcs8_der: &[u8]) -> (r: Result<Vec<u8>, rcgen::RcgenError>)
    requires
        all_ascii(subject_names@),
    ensures
        r matches Ok(der) ==> der@ == self_signed_ed25519_certificate_der(names_view(subject_names@), pkcs8_der@),
        is_ed25519_pkcs8_v1(pkcs8_der@) ==> r is Ok,
        is_ed25519_pkcs8_v1(pkcs8_der@) ==> (r matches Ok(der) ==> certifies_key(der@, ed25519_public_key(pkcs8_der@.skip(16)))),
{
    let key_pair = rcgen::KeyPair::from_der_and_sign_algo(pkcs8_der, &rcgen::PKCS_ED25519)?;
    let mut params = rcgen::CertificateParams::new(subject_names);
    params.key_pair = Some(key_pair);
    params.distinguished_name = rcgen::DistinguishedName::new();
    params.alg = &rcgen::PKCS_ED25519;
    let certificate = rcgen::Certificate::from_params(params).expect("an ed25519 key pair suits the ed25519 algorithm");
    certificate.serialize_der()
}

/// `bytes` occur in `der` from index `i` on.
pub open spec fn occurs_at(der: Seq<u8>, i: int, bytes: Seq<u8>) -> bool {
    0 <= i && i + bytes.len() <= der.len() && der.subrange(i, i + bytes.len()) == bytes
}

/// The certificate `der` carries the ed25519 public key `key`: it holds the
/// [`ed25519_spki_der`] bytes of the key, and parsing it gives that key, a
/// usable 32-byte ed25519 key, as its subject public key.
pub open spec fn certifies_key(der: Seq<u8>, key: Seq<u8>) -> bool {
    &&& x509_subject_public_key(der) == Some(key)
    &&& key.len() == 32
    &&& ed25519_key_decodes(key)
    &&& exists|i: int| #[trigger] occurs_at(der, i, ed25519_spki_der(key))
}

/// Why a certificate could not be made for a key pair.
#[derive(Debug)]
pub enum CertificateError {
    /// The private key could not be encoded as a PKCS#8 document.
    KeyEncoding(pkcs8::Error),
    /// The certificate could not be generated or serialized.
    Generation(rcgen::RcgenError),
}

/// A self-signed ed25519 certificate, valid for `subject_names`, for the key
/// pair whose PKCS#8 document is `pkcs8_der`.
/// The names must be ASCII; the document of an ed25519 key in PKCS#8 v1 form
/// always gives a certificate.
pub fn gen_certificate(subject_names: Vec<String>, pkcs8_der: &[u8]) -> (r: Result<Vec<u8>, CertificateError>)
    requires
        all_ascii(subject_names@),
    ensures
        match r {
            Ok(der) => der@ == self_signed_ed25519_certificate_der(names_view(subject_names@), pkcs8_der@)
                && (is_ed25519_pkcs8_v1(pkcs8_der@) ==> certifies_key(der@, ed25519_public_key(pkcs8_der@.skip(16)))),
            Err(e) => e is Generation && !is_ed25519_pkcs8_v1(pkcs8_der@),
        },
{
    match self_signed_ed25519_certificate(subject_names, pkcs8_der) {
        Ok(der) => Ok(der),
        Err(e) => Err(CertificateError::Generation(e)),
    }
}

/// Token type for certificates and keys of the ed25519 signature scheme.
pub struct Ed25519 {}

impl Ed25519 {
    /// A self-signed certificate for the key pair with secret key
    /// `secret_key`, valid for the domain names `subject_names`, in DER form.
    /// The remaining generation parameters take reasonable defaults; the key
    /// goes into the certificate generator as a PKCS#8 v1 document. The names
    /// must be ASCII; for those, generation always succeeds.
    pub fn keypair_to_certificate(subject_names: Vec<String>, secret_key: &[u8; 32]) -> (r: Result<Vec<u8>, CertificateError>)
        requires
            all_ascii(subject_names@),
        ensures
            r matches Ok(der) && der@ == self_signed_ed25519_certificate_der(
                names_view(subject_names@),
                ed25519_pkcs8_v1_der(secret_key@),
            ) && certifies_key(der@, ed25519_public_key(secret_key@)),
    {
        match keypair_bytes_to_pkcs8(secret_key) {
            Ok(pkcs8_der) => {
                proof {
                    assert(ed25519_pkcs8_v1_der(secret_key@).take(16) =~= ed25519_pkcs8_v1_prefix());
                    assert(ed25519_pkcs8_v1_der(secret_key@).skip(16) =~= secret_key@);
                }
                gen_certificate(subject_names, pkcs8_der.as_slice())
            },
            Err(e) => Err(CertificateError::KeyEncoding(e)),
        }
    }

    /// The X.509 `SubjectPublicKeyInfo` of an ed25519 public key, DER-encoded.
    pub fn public_key_to_spki(public_key: &[u8; 32]) -> (spki: Vec<u8>)
        ensures
            spki@ == ed25519_spki_der(public_key@),
    {
        encode_ed25519_spki(public_key.as_slice())
    }
}

} // verus!
