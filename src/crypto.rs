//! Signing and checking certificates with RSA keys.
//!
//! The signed bytes are the UTF-8 encoding of the certificate's canonical
//! serialization; this module ties the signature, the key identifier and the
//! digest of those bytes together and checks them again.

use openssl::pkey::{PKey, Private, Public};
use openssl::rsa::Rsa;
use vstd::prelude::*;
use vstd::string::{StrSliceExecFns, StringExecFns};

use crate::canonical::{canonical_json, certificate_json, times_ok};
use crate::cert_error::CertificateError;
use crate::certificate::{first_defect, first_signed_defect, reports, SignedCertificate, WipeCertificate};
use crate::digest::{hex_lower, sha256, sha256_hex, sha256_of, to_hex};
use crate::text::{hex_upper_joined, push_hex_upper_joined};

verus! {

#[verifier::external_type_specification]
#[verifier::external_body]
#[verifier::reject_recursive_types(T)]
pub struct ExPKey<T>(PKey<T>);

#[verifier::external_type_specification]
#[verifier::external_body]
#[verifier::reject_recursive_types(T)]
pub struct ExRsa<T>(Rsa<T>);

#[verifier::external_type_specification]
#[verifier::external_body]
pub struct ExPrivate(Private);

#[verifier::external_type_specification]
#[verifier::external_body]
pub struct ExPublic(Public);

#[verifier::external_type_specification]
#[verifier::external_body]
pub struct ExErrorStack(openssl::error::ErrorStack);

/// The base64 text of a byte string.
pub uninterp spec fn base64_of(b: Seq<u8>) -> Seq<char>;

/// Relies on the Display impl of openssl::error::ErrorStack: the text of the
/// library's error queue.
#[verifier::external_body]
fn error_text(e: &openssl::error::ErrorStack) -> String {
    e.to_string()
}

/// Relies on openssl::rsa::Rsa::generate: a new RSA key of `bits` bits.
#[verifier::external_body]
fn rsa_generate(bits: u32) -> Result<Rsa<Private>, openssl::error::ErrorStack> {
    Rsa::generate(bits)
}

/// Relies on openssl::pkey::PKey::from_rsa: the RSA key as a key pair.
#[verifier::external_body]
fn pkey_from_rsa(rsa: Rsa<Private>) -> Result<PKey<Private>, openssl::error::ErrorStack> {
    PKey::from_rsa(rsa)
}

/// Relies on openssl's public_key_to_der on a private key: the DER encoding
/// of its public half.
#[verifier::external_body]
fn private_public_der(k: &PKey<Private>) -> Result<Vec<u8>, openssl::error::ErrorStack> {
    k.public_key_to_der()
}

/// Relies on openssl's public_key_to_der: the DER encoding of a public key.
#[verifier::external_body]
fn public_der(k: &PKey<Public>) -> Result<Vec<u8>, openssl::error::ErrorStack> {
    k.public_key_to_der()
}

/// Relies on openssl::pkey::PKey::public_key_from_der: the public key that a
/// DER encoding holds.
#[verifier::external_body]
fn public_from_der(der: &[u8]) -> Result<PKey<Public>, openssl::error::ErrorStack> {
    PKey::public_key_from_der(der)
}

/// Relies on openssl::pkey::PKey::public_key_from_pem: the public key that a
/// PEM text holds, where the linked OpenSSL reads it. Longer texts than a C
/// int counts make openssl panic.
#[verifier::external_body]
fn public_from_pem(pem: &[u8]) -> Result<PKey<Public>, openssl::error::ErrorStack>
    requires
        pem@.len() <= i32::MAX,
{
    PKey::public_key_from_pem(pem)
}

/// Relies on openssl::pkey::PKey::private_key_from_pem_passphrase with an
/// empty passphrase: the private key that a PEM text holds, never asking for
/// a passphrase on the terminal (an encrypted key is refused). Longer texts
/// than a C int counts make openssl panic.
#[verifier::external_body]
fn private_from_pem(pem: &[u8]) -> Result<PKey<Private>, openssl::error::ErrorStack>
    requires
        pem@.len() <= i32::MAX,
{
    PKey::private_key_from_pem_passphrase(pem, b"")
}

/// Relies on openssl's public_key_to_pem: the PEM text of a public key.
#[verifier::external_body]
fn public_pem(k: &PKey<Public>) -> Result<Vec<u8>, openssl::error::ErrorStack> {
    k.public_key_to_pem()
}

/// Relies on openssl's private_key_to_pem_pkcs8: the PKCS#8 PEM text of a
/// private key.
#[verifier::external_body]
fn private_pem(k: &PKey<Private>) -> Result<Vec<u8>, openssl::error::ErrorStack> {
    k.private_key_to_pem_pkcs8()
}

/// Relies on openssl::sign::Signer with SHA-256: the signature of `data`
/// under `key`.
#[verifier::external_body]
fn sign_sha256(key: &PKey<Private>, data: &[u8]) -> Result<Vec<u8>, openssl::error::ErrorStack> {
    let mut signer = openssl::sign::Signer::new(openssl::hash::MessageDigest::sha256(), key)?;
    signer.update(data)?;
    signer.sign_to_vec()
}

/// Relies on openssl::sign::Verifier with SHA-256: whether `signature` is a
/// signature of `data` under `key`.
#[verifier::external_body]
fn verify_sha256(key: &PKey<Public>, data: &[u8], signature: &[u8]) -> Result<bool, openssl::error::ErrorStack> {
    let mut verifier = openssl::sign::Verifier::new(openssl::hash::MessageDigest::sha256(), key)?;
    verifier.update(data)?;
    verifier.verify(signature)
}

/// Relies on openssl::base64::encode_block: the base64 text of the bytes.
/// Inputs whose encoded length, with its terminator, exceeds what a C int
/// counts make it panic; a billion bytes stay well below that.
#[verifier::external_body]
fn base64_encode(b: &[u8]) -> (r: String)
    requires
        b@.len() <= 1000000000,
    ensures
        r@ == base64_of(b@),
{
    openssl::base64::encode_block(b)
}

/// Relies on openssl::base64::decode_block: the bytes a base64 text holds,
/// surrounding white space ignored. Texts of more bytes than a C int counts
/// make it panic; a character takes at most four bytes.
#[verifier::external_body]
fn base64_decode(s: &str) -> Result<Vec<u8>, openssl::error::ErrorStack>
    requires
        s@.len() <= i32::MAX / 4,
{
    openssl::base64::decode_block(s)
}

/// Relies on String::from_utf8: the text, where the bytes are UTF-8.
#[verifier::external_body]
fn utf8_text(b: Vec<u8>) -> Option<String> {
    String::from_utf8(b).ok()
}

/// How a certificate is signed.
#[derive(Debug, Clone, Copy, PartialEq, Eq, Structural)]
pub enum SignatureAlgorithm {
    RSA2048SHA256,
    RSA4096SHA256,
    ECDSAP256SHA256,
    ECDSAP384SHA384,
}

impl SignatureAlgorithm {
    pub open spec fn spec_label(self) -> Seq<char> {
        match self {
            SignatureAlgorithm::RSA2048SHA256 => "RSA-2048 with SHA-256"@,
            SignatureAlgorithm::RSA4096SHA256 => "RSA-4096 with SHA-256"@,
            SignatureAlgorithm::ECDSAP256SHA256 => "ECDSA P-256 with SHA-256"@,
            SignatureAlgorithm::ECDSAP384SHA384 => "ECDSA P-384 with SHA-384"@,
        }
    }

    /// The algorithm's name.
    pub fn label(&self) -> (r: String)
        ensures
            r@ == self.spec_label(),
    {
        match self {
            SignatureAlgorithm::RSA2048SHA256 => String::from_str("RSA-2048 with SHA-256"),
            SignatureAlgorithm::RSA4096SHA256 => String::from_str("RSA-4096 with SHA-256"),
            SignatureAlgorithm::ECDSAP256SHA256 => String::from_str("ECDSA P-256 with SHA-256"),
            SignatureAlgorithm::ECDSAP384SHA384 => String::from_str("ECDSA P-384 with SHA-384"),
        }
    }

    pub open spec fn spec_tag(self) -> Seq<char> {
        match self {
            SignatureAlgorithm::RSA2048SHA256 => "RSA2048SHA256"@,
            SignatureAlgorithm::RSA4096SHA256 => "RSA4096SHA256"@,
            SignatureAlgorithm::ECDSAP256SHA256 => "ECDSAP256SHA256"@,
            SignatureAlgorithm::ECDSAP384SHA384 => "ECDSAP384SHA384"@,
        }
    }

    /// The algorithm's tag in a certificate envelope.
    pub fn tag(&self) -> (r: String)
        ensures
            r@ == self.spec_tag(),
    {
        match self {
            SignatureAlgorithm::RSA2048SHA256 => String::from_str("RSA2048SHA256"),
            SignatureAlgorithm::RSA4096SHA256 => String::from_str("RSA4096SHA256"),
            SignatureAlgorithm::ECDSAP256SHA256 => String::from_str("ECDSAP256SHA256"),
            SignatureAlgorithm::ECDSAP384SHA384 => String::from_str("ECDSAP384SHA384"),
        }
    }
}

/// The signature of a certificate.
#[derive(Debug, Clone)]
pub struct SignatureInfo {
    /// The signature, in base64.
    pub signature: String,
    pub algorithm: SignatureAlgorithm,
    /// The signing key's identifier: 16 hexadecimal digits.
    pub key_id: String,
    /// When the signature was made, in microseconds since the Unix epoch.
    pub timestamp: i64,
    /// The SHA-256 digest of the signed bytes, in hexadecimal.
    pub certificate_hash: String,
    pub signature_version: u32,
}

/// What is published of a signing key.
#[derive(Debug, Clone)]
pub struct KeyPairInfo {
    pub key_id: String,
    pub algorithm: SignatureAlgorithm,
    pub created_at: i64,
    pub public_key_pem: String,
    pub fingerprint: String,
}

/// The bytes signed for a certificate: its canonical text in UTF-8.
pub open spec fn canonical_bytes(c: WipeCertificate) -> Seq<u8> {
    vstd::utf8::encode_utf8(certificate_json(c))
}

/// A key identifier: the first 8 bytes of the SHA-256 digest of the public
/// key's DER encoding, as 16 lowercase hexadecimal digits.
pub open spec fn spec_key_id(der: Seq<u8>) -> Seq<char> {
    hex_lower(sha256_of(der).subrange(0, 8))
}

/// A key fingerprint: the SHA-256 digest of the public key's DER encoding
/// as uppercase hexadecimal byte pairs joined by colons.
pub open spec fn spec_fingerprint(der: Seq<u8>) -> Seq<char> {
    hex_upper_joined(sha256_of(der), ":"@)
}

/// The text an envelope carries for the signature `sig`: its base64 form.
/// Signatures of more than a billion bytes are refused.
pub fn signature_text(sig: &[u8]) -> (r: Result<String, CertificateError>)
    ensures
        sig@.len() > 1000000000 <==> r is Err,
        r matches Ok(t) ==> t@ == base64_of(sig@),
        r matches Err(e) ==> e is SigningFailed,
{
    if sig.len() > 1000000000 {
        return Err(CertificateError::SigningFailed(String::from_str("signature too long")));
    }
    Ok(base64_encode(sig))
}

/// The identifier of the public key whose DER encoding is `der`.
pub fn key_id_from_der(der: &[u8]) -> (r: String)
    ensures
        r@ == spec_key_id(der@),
        r@.len() == 16,
{
    let d = sha256(der);
    let mut head: Vec<u8> = Vec::new();
    let mut i: usize = 0;
    while i < 8
        invariant
            i <= 8,
            d@.len() == 32,
            head@ == d@.subrange(0, i as int),
        decreases 8 - i,
    {
        head.push(d[i]);
        i += 1;
        assert(head@ =~= d@.subrange(0, i as int));
    }
    let r = to_hex(head.as_slice());
    proof {
        lemma_hex_len(head@);
    }
    r
}

proof fn lemma_hex_len(b: Seq<u8>)
    ensures
        hex_lower(b).len() == 2 * b.len(),
    decreases b.len(),
{
    if b.len() > 0 {
        lemma_hex_len(b.drop_last());
    }
}

/// The fingerprint of the public key whose DER encoding is `der`.
pub fn fingerprint_from_der(der: &[u8]) -> (r: String)
    ensures
        r@ == spec_fingerprint(der@),
{
    let d = sha256(der);
    let mut s = String::new();
    push_hex_upper_joined(&mut s, d.as_slice(), ":");
    s
}

fn crypto_error(e: openssl::error::ErrorStack) -> (r: CertificateError)
    ensures
        r is CryptographicError,
{
    CertificateError::CryptographicError(error_text(&e))
}

/// The error for key generation with an algorithm that has no implementation.
pub open spec fn unsupported_algorithm(a: SignatureAlgorithm, e: CertificateError) -> bool {
    e matches CertificateError::NotSupported(m) && m@ == "Algorithm "@ + a.spec_tag() + " not yet implemented"@
}

/// A holder of a signing key.
#[derive(Debug)]
pub struct CertificateSigner {
    private_key: PKey<Private>,
    public_key: PKey<Public>,
    public_der: Vec<u8>,
    key_id: String,
}

impl CertificateSigner {
    pub closed spec fn spec_key_id(&self) -> Seq<char> {
        self.key_id@
    }

    /// The DER encoding of the public key, as openssl gave it when the
    /// signer was made.
    pub closed spec fn spec_public_der(&self) -> Seq<u8> {
        self.public_der@
    }

    /// The key identifier is that of the public key's DER encoding.
    pub closed spec fn wf(&self) -> bool {
        self.key_id@ == spec_key_id(self.public_der@)
    }

    /// A new key pair for `algorithm`: RSA keys of 2048 or 4096 bits; the
    /// elliptic-curve algorithms are not implemented.
    pub fn generate_key_pair(algorithm: SignatureAlgorithm) -> (r: Result<(PKey<Private>, PKey<Public>), CertificateError>)
        ensures
            (algorithm is ECDSAP256SHA256 || algorithm is ECDSAP384SHA384) ==> (r matches Err(e)
                && unsupported_algorithm(algorithm, e)),
            (algorithm is RSA2048SHA256 || algorithm is RSA4096SHA256) ==> (r matches Err(e) ==> e is KeyGenerationFailed),
    {
        let bits: u32 = match algorithm {
            SignatureAlgorithm::RSA2048SHA256 => 2048,
            SignatureAlgorithm::RSA4096SHA256 => 4096,
            _ => {
                let mut m = String::from_str("Algorithm ");
                let t = algorithm.tag();
                m.append(t.as_str());
                m.append(" not yet implemented");
                return Err(CertificateError::NotSupported(m));
            },
        };
        let rsa = match rsa_generate(bits) {
            Ok(k) => k,
            Err(e) => return Err(CertificateError::KeyGenerationFailed(error_text(&e))),
        };
        let private_key = match pkey_from_rsa(rsa) {
            Ok(k) => k,
            Err(e) => return Err(CertificateError::KeyGenerationFailed(error_text(&e))),
        };
        let der = match private_public_der(&private_key) {
            Ok(d) => d,
            Err(e) => return Err(CertificateError::KeyGenerationFailed(error_text(&e))),
        };
        let public_key = match public_from_der(der.as_slice()) {
            Ok(k) => k,
            Err(e) => return Err(CertificateError::KeyGenerationFailed(error_text(&e))),
        };
        Ok((private_key, public_key))
    }

    /// The DER encoding of a public key, and the identifier of that encoding.
    fn der_and_key_id(public_key: &PKey<Public>) -> (r: Result<(Vec<u8>, String), CertificateError>)
        ensures
            r matches Ok(p) ==> p.1@ == spec_key_id(p.0@) && p.1@.len() == 16,
            r matches Err(e) ==> e is CryptographicError,
    {
        match public_der(public_key) {
            Ok(der) => {
                let id = key_id_from_der(der.as_slice());
                Ok((der, id))
            },
            Err(e) => Err(crypto_error(e)),
        }
    }

    /// A signer with a new RSA-2048 key pair.
    pub fn new() -> (r: Result<CertificateSigner, CertificateError>)
        ensures
            r matches Ok(s) ==> s.wf() && s.spec_key_id() == spec_key_id(s.spec_public_der()) && s.spec_key_id().len() == 16,
    {
        let (private_key, public_key) = Self::generate_key_pair(SignatureAlgorithm::RSA2048SHA256)?;
        let (public_der, key_id) = Self::der_and_key_id(&public_key)?;
        Ok(CertificateSigner { private_key, public_key, public_der, key_id })
    }

    /// A signer with the keys of the given PEM texts: the private key in
    /// PKCS#8 and its public key.
    pub fn from_pem(private_key_pem: &[u8], public_key_pem: &[u8]) -> (r: Result<CertificateSigner, CertificateError>)
        requires
            private_key_pem@.len() <= i32::MAX,
            public_key_pem@.len() <= i32::MAX,
        ensures
            r matches Ok(s) ==> s.wf() && s.spec_key_id() == spec_key_id(s.spec_public_der()) && s.spec_key_id().len() == 16,
            r matches Err(e) ==> e is CryptographicError,
    {
        let private_key = match private_from_pem(private_key_pem) {
            Ok(k) => k,
            Err(e) => return Err(crypto_error(e)),
        };
        let public_key = match public_from_pem(public_key_pem) {
            Ok(k) => k,
            Err(e) => return Err(crypto_error(e)),
        };
        let (public_der, key_id) = Self::der_and_key_id(&public_key)?;
        Ok(CertificateSigner { private_key, public_key, public_der, key_id })
    }

    /// The signing key's identifier.
    pub fn key_id(&self) -> (r: &str)
        ensures
            r@ == self.spec_key_id(),
    {
        self.key_id.as_str()
    }

    /// The public key.
    pub fn public_key(&self) -> &PKey<Public> {
        &self.public_key
    }

    /// The PEM text of the public key.
    pub fn public_key_pem(&self) -> (r: Result<Vec<u8>, CertificateError>)
        ensures
            r matches Err(e) ==> e is CryptographicError,
    {
        match public_pem(&self.public_key) {
            Ok(p) => Ok(p),
            Err(e) => Err(crypto_error(e)),
        }
    }

    /// The PKCS#8 PEM text of the private key.
    pub fn private_key_pem(&self) -> (r: Result<Vec<u8>, CertificateError>)
        ensures
            r matches Err(e) ==> e is CryptographicError,
    {
        match private_pem(&self.private_key) {
            Ok(p) => Ok(p),
            Err(e) => Err(crypto_error(e)),
        }
    }

    /// The base64 signature of `data`.
    fn create_signature(&self, data: &[u8]) -> (r: Result<String, CertificateError>)
        ensures
            r matches Ok(t) ==> exists|sig: Seq<u8>| sig.len() <= 1000000000 && t@ == base64_of(sig),
            r matches Err(e) ==> e is SigningFailed,
    {
        match sign_sha256(&self.private_key, data) {
            Ok(sig) => signature_text(sig.as_slice()),
            Err(e) => Err(CertificateError::SigningFailed(error_text(&e))),
        }
    }

    /// Signs a certificate, taking it over, at time `now`. An invalid
    /// certificate is refused with the error of its first defect, and one
    /// whose times cannot be written with JsonSerializationFailed. The
    /// signature is made over the certificate's canonical bytes and records
    /// this signer's key identifier, RSA-2048 with SHA-256, the hexadecimal
    /// SHA-256 digest of those bytes, version 1, and the signing time: `now`,
    /// or the certificate's generation time where the clock reads earlier.
    pub fn sign_certificate(&self, certificate: WipeCertificate, now: i64) -> (r: Result<SignedCertificate, CertificateError>)
        ensures
            first_defect(certificate.data) is Some ==> reports(
                match r {
                    Ok(_) => Ok(()),
                    Err(e) => Err(e),
                },
                first_defect(certificate.data),
            ),
            first_defect(certificate.data) is None && !times_ok(certificate) ==> (r matches Err(e)
                && e is JsonSerializationFailed),
            first_defect(certificate.data) is None && times_ok(certificate) ==> (r matches Err(e) ==> e is SigningFailed),
            r matches Ok(s) ==> {
                &&& s.certificate == certificate
                &&& s.signature_info.key_id@ == self.spec_key_id()
                &&& s.signature_info.algorithm == SignatureAlgorithm::RSA2048SHA256
                &&& s.signature_info.certificate_hash@ == hex_lower(sha256_of(canonical_bytes(certificate)))
                &&& s.signature_info.signature_version == 1
                &&& exists|sig: Seq<u8>| sig.len() <= 1000000000 && s.signature_info.signature@ == base64_of(sig)
                &&& s.signed_at == if now >= certificate.data.generated_at { now } else { certificate.data.generated_at }
                &&& s.signature_info.timestamp == s.signed_at
                &&& first_signed_defect(s) is None
            },
    {
        certificate.validate()?;
        let text = canonical_json(&certificate)?;
        let canonical = text.as_str().as_bytes();
        let certificate_hash = sha256_hex(canonical);
        let signature = self.create_signature(canonical)?;
        let signed_at = if now >= certificate.data.generated_at { now } else { certificate.data.generated_at };
        let signature_info = SignatureInfo {
            signature,
            algorithm: SignatureAlgorithm::RSA2048SHA256,
            key_id: self.key_id.clone(),
            timestamp: signed_at,
            certificate_hash,
            signature_version: 1,
        };
        Ok(SignedCertificate::new(certificate, signature_info, signed_at))
    }

    /// What is published of the key, as of `now`.
    pub fn get_key_info(&self, now: i64) -> (r: Result<KeyPairInfo, CertificateError>)
        ensures
            r matches Ok(k) ==> k.key_id@ == self.spec_key_id() && k.algorithm
                == SignatureAlgorithm::RSA2048SHA256 && k.created_at == now
                && k.fingerprint@ == spec_fingerprint(self.spec_public_der()),
            r matches Err(e) ==> e is CryptographicError,
    {
        let pem = self.public_key_pem()?;
        let fingerprint = fingerprint_from_der(self.public_der.as_slice());
        let public_key_pem = match utf8_text(pem) {
            Some(t) => t,
            None => return Err(CertificateError::CryptographicError(String::from_str("public key PEM is not UTF-8"))),
        };
        Ok(KeyPairInfo {
            key_id: self.key_id.clone(),
            algorithm: SignatureAlgorithm::RSA2048SHA256,
            created_at: now,
            public_key_pem,
            fingerprint,
        })
    }
}

/// The keys a verifier trusts, each under its identifier.
#[derive(Debug)]
pub struct CertificateVerifier {
    trusted_keys: Vec<(String, PKey<Public>)>,
}

/// The identifiers of a list of keys.
pub open spec fn ids_of(keys: Seq<(String, PKey<Public>)>) -> Seq<Seq<char>> {
    keys.map_values(|k: (String, PKey<Public>)| k.0@)
}

impl CertificateVerifier {
    /// The identifiers of the trusted keys.
    pub closed spec fn key_ids(&self) -> Seq<Seq<char>> {
        ids_of(self.trusted_keys@)
    }

    /// The key trusted under the identifier at position `i`.
    pub closed spec fn key_at(&self, i: int) -> PKey<Public> {
        self.trusted_keys@[i].1
    }

    /// No identifier is listed twice.
    pub closed spec fn wf(&self) -> bool {
        forall|i: int, j: int| 0 <= i < j < self.trusted_keys@.len()
            ==> self.trusted_keys@[i].0@ != self.trusted_keys@[j].0@
    }

    /// A verifier that trusts no key yet.
    pub fn new() -> (r: Result<CertificateVerifier, CertificateError>)
        ensures
            r matches Ok(v) && v.wf() && v.key_ids().len() == 0,
    {
        let v = CertificateVerifier { trusted_keys: Vec::new() };
        assert(v.key_ids() =~= Seq::<Seq<char>>::empty());
        Ok(v)
    }

    fn position(&self, key_id: &String) -> (r: Option<usize>)
        ensures
            r matches Some(i) ==> i < self.key_ids().len() && self.key_ids()[i as int] == key_id@,
            r is None ==> !self.key_ids().contains(key_id@),
    {
        let mut i: usize = 0;
        while i < self.trusted_keys.len()
            invariant
                i <= self.trusted_keys@.len(),
                forall|k: int| 0 <= k < i ==> self.trusted_keys@[k].0@ != key_id@,
            decreases self.trusted_keys.len() - i,
        {
            if self.trusted_keys[i].0 == *key_id {
                return Some(i);
            }
            i += 1;
        }
        proof {
            if self.key_ids().contains(key_id@) {
                let k = choose|k: int| 0 <= k < self.key_ids().len() && self.key_ids()[k] == key_id@;
                assert(self.trusted_keys@[k].0@ == key_id@);
            }
        }
        None
    }

    /// Trusts `public_key` under `key_id`, in place of any key trusted under
    /// that identifier before.
    pub fn add_trusted_key(&mut self, key_id: String, public_key: PKey<Public>)
        requires
            old(self).wf(),
        ensures
            final(self).wf(),
            old(self).key_ids().contains(key_id@) ==> final(self).key_ids() == old(self).key_ids(),
            !old(self).key_ids().contains(key_id@) ==> final(self).key_ids() == old(self).key_ids().push(key_id@),
            exists|i: int| 0 <= i < final(self).key_ids().len() && final(self).key_ids()[i] == key_id@
                && final(self).key_at(i) == public_key,
    {
        match self.position(&key_id) {
            Some(i) => {
                let ghost before = self.trusted_keys@;
                let ghost id = key_id@;
                self.trusted_keys.set(i, (key_id, public_key));
                assert(ids_of(self.trusted_keys@) =~= ids_of(before));
                assert(self.key_at(i as int) == public_key);
                assert(self.key_ids()[i as int] == id);
            },
            None => {
                let ghost before = self.trusted_keys@;
                let ghost id = key_id@;
                self.trusted_keys.push((key_id, public_key));
                assert(ids_of(self.trusted_keys@) =~= ids_of(before).push(id));
                assert(self.key_ids()[before.len() as int] == id);
                assert(self.key_at(before.len() as int) == public_key);
                assert forall|a: int, b: int| 0 <= a < b < self.trusted_keys@.len()
                    implies self.trusted_keys@[a].0@ != self.trusted_keys@[b].0@ by {
                    if b == before.len() {
                        assert(ids_of(before)[a] == before[a].0@);
                    }
                }
            },
        }
    }

    /// The identifier and key of a public-key PEM text.
    pub fn load_public_key_pem(pem: &[u8]) -> (r: Result<(String, PKey<Public>), CertificateError>)
        requires
            pem@.len() <= i32::MAX,
        ensures
            r matches Ok(k) ==> k.0@.len() == 16 && exists|der: Seq<u8>| k.0@ == spec_key_id(der),
            r matches Err(e) ==> e is CryptographicError,
    {
        let public_key = match public_from_pem(pem) {
            Ok(k) => k,
            Err(e) => return Err(crypto_error(e)),
        };
        let (_der, key_id) = CertificateSigner::der_and_key_id(&public_key)?;
        Ok((key_id, public_key))
    }

    /// Whether `signature`, in base64, signs `data` under `public_key`.
    fn verify_signature(&self, data: &[u8], signature: &str, public_key: &PKey<Public>) -> (r: Result<bool, CertificateError>)
        ensures
            signature@.len() > i32::MAX / 4 ==> (r matches Err(e) && e is CryptographicError),
            r matches Err(e) ==> e is CryptographicError || e is SignatureVerificationFailed,
    {
        if signature.unicode_len() > (i32::MAX / 4) as usize {
            return Err(CertificateError::CryptographicError(String::from_str("signature too long")));
        }
        let bytes = match base64_decode(signature) {
            Ok(b) => b,
            Err(e) => return Err(crypto_error(e)),
        };
        match verify_sha256(public_key, data, bytes.as_slice()) {
            Ok(b) => Ok(b),
            Err(_) => Err(CertificateError::SignatureVerificationFailed),
        }
    }

    /// Checks a signed certificate. One with a defect is refused with the
    /// error of the first; one signed with a key this verifier does not trust
    /// is refused with SignatureVerificationFailed; one whose times cannot be
    /// written, with JsonSerializationFailed. Where the digest of the
    /// certificate's canonical bytes differs from the one recorded, the answer
    /// is false; otherwise it is whether the signature holds over those bytes.
    pub fn verify_certificate(&self, signed_certificate: &SignedCertificate) -> (r: Result<bool, CertificateError>)
        requires
            self.wf(),
        ensures
            first_signed_defect(*signed_certificate) is Some ==> reports(
                match r {
                    Ok(_) => Ok(()),
                    Err(e) => Err(e),
                },
                first_signed_defect(*signed_certificate),
            ),
            first_signed_defect(*signed_certificate) is None && !self.key_ids().contains(
                signed_certificate.signature_info.key_id@,
            ) ==> (r matches Err(e) && e is SignatureVerificationFailed),
            first_signed_defect(*signed_certificate) is None && self.key_ids().contains(
                signed_certificate.signature_info.key_id@,
            ) && times_ok(signed_certificate.certificate) && hex_lower(
                sha256_of(canonical_bytes(signed_certificate.certificate)),
            ) != signed_certificate.signature_info.certificate_hash@ ==> r == Ok::<bool, CertificateError>(false),
            first_signed_defect(*signed_certificate) is None && self.key_ids().contains(
                signed_certificate.signature_info.key_id@,
            ) && !times_ok(signed_certificate.certificate) ==> (r matches Err(e) && e is JsonSerializationFailed),
            first_signed_defect(*signed_certificate) is None && self.key_ids().contains(
                signed_certificate.signature_info.key_id@,
            ) && times_ok(signed_certificate.certificate) && hex_lower(
                sha256_of(canonical_bytes(signed_certificate.certificate)),
            ) == signed_certificate.signature_info.certificate_hash@ ==> {
                &&& signed_certificate.signature_info.signature@.len() > i32::MAX / 4 ==> (r matches Err(e)
                    && e is CryptographicError)
                &&& (r is Ok || (r matches Err(e) && (e is CryptographicError || e is SignatureVerificationFailed)))
            },
            r == Ok::<bool, CertificateError>(true) ==> {
                &&& first_signed_defect(*signed_certificate) is None
                &&& self.key_ids().contains(signed_certificate.signature_info.key_id@)
                &&& times_ok(signed_certificate.certificate)
                &&& hex_lower(sha256_of(canonical_bytes(signed_certificate.certificate)))
                    == signed_certificate.signature_info.certificate_hash@
            },
    {
        signed_certificate.validate()?;
        let i = match self.position(&signed_certificate.signature_info.key_id) {
            Some(i) => i,
            None => return Err(CertificateError::SignatureVerificationFailed),
        };
        proof {
            assert(self.key_ids().contains(signed_certificate.signature_info.key_id@)) by {
                assert(self.key_ids()[i as int] == signed_certificate.signature_info.key_id@);
            }
        }
        let text = canonical_json(&signed_certificate.certificate)?;
        let canonical = text.as_str().as_bytes();
        let calculated = sha256_hex(canonical);
        if calculated != signed_certificate.signature_info.certificate_hash {
            return Ok(false);
        }
        let public_key = &self.trusted_keys[i].1;
        self.verify_signature(canonical, signed_certificate.signature_info.signature.as_str(), public_key)
    }
}

} // verus!
