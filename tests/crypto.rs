use sha2::Digest;
use safe_erase::algorithms::WipeAlgorithm;
use safe_erase::canonical::canonical_json;
use safe_erase::cert_error::CertificateError;
use safe_erase::certificate::{CertificateData, DeviceInfo, SignedCertificate, WipeCertificate, WipeInfo};
use safe_erase::crypto::{key_id_from_der, fingerprint_from_der, CertificateSigner, CertificateVerifier, SignatureAlgorithm};

fn create_test_certificate() -> WipeCertificate {
    let data = CertificateData {
        certificate_id: 0x1234_5678_9abc_def0_1234_5678_9abc_def0,
        generated_at: 1_700_000_000_000_000,
        device_info: DeviceInfo {
            path: "/dev/sda".to_string(),
            serial: "TEST123".to_string(),
            model: "Test Drive".to_string(),
            size: 1000000000,
        },
        wipe_info: WipeInfo {
            algorithm: WipeAlgorithm::NIST80088,
            started_at: 1_700_000_000_000_000,
            completed_at: Some(1_700_000_360_000_000),
            duration_us: Some(360_000_000),
            passes_completed: 1,
            verification_passed: Some(true),
        },
        verification_info: None,
        compliance_info: None,
        technical_details: None,
        organization: None,
        metadata: Vec::new(),
    };
    WipeCertificate::new(data)
}

fn canonical(c: &WipeCertificate) -> Vec<u8> {
    canonical_json(c).unwrap().into_bytes()
}

fn sign_one() -> (CertificateSigner, SignedCertificate) {
    let signer = CertificateSigner::new().unwrap();
    let certificate = create_test_certificate();
    let signed = signer.sign_certificate(certificate, 1_700_000_400_000_000).unwrap();
    (signer, signed)
}

#[test]
fn test_certificate_signing_and_verification() {
    let (signer, signed) = sign_one();
    let mut verifier = CertificateVerifier::new().unwrap();
    verifier.add_trusted_key(signer.key_id().to_string(), signer.public_key().clone());
    let is_valid = verifier.verify_certificate(&signed).unwrap();
    assert!(is_valid);
}

#[test]
fn tampered_serial_fails_verification() {
    let (signer, mut signed) = sign_one();
    let mut verifier = CertificateVerifier::new().unwrap();
    verifier.add_trusted_key(signer.key_id().to_string(), signer.public_key().clone());
    signed.certificate.data.device_info.serial = "TEST124".to_string();
    assert!(!verifier.verify_certificate(&signed).unwrap());
}

#[test]
fn untrusted_key_is_refused() {
    let (_, signed) = sign_one();
    let verifier = CertificateVerifier::new().unwrap();
    let err = verifier.verify_certificate(&signed).unwrap_err();
    assert_eq!(err, CertificateError::SignatureVerificationFailed);
}

#[test]
fn signature_info_fields() {

    let (signer, signed) = sign_one();
    let info = signed.signature_info();
    assert_eq!(info.key_id, signer.key_id());
    assert_eq!(info.algorithm, SignatureAlgorithm::RSA2048SHA256);
    assert_eq!(info.signature_version, 1);
    assert_eq!(info.certificate_hash, hex::encode(sha2::Sha256::digest(canonical(&signed.certificate))));
    assert_eq!(signed.signed_at, 1_700_000_400_000_000);
    assert!(signed.validate().is_ok());
}

#[test]
fn invalid_certificate_is_not_signed() {
    let signer = CertificateSigner::new().unwrap();
    let mut certificate = create_test_certificate();
    certificate.data.device_info.model = String::new();
    let err = signer.sign_certificate(certificate, 0).unwrap_err();
    assert_eq!(err, CertificateError::MissingRequiredField("Device model".to_string()));
}

#[test]
fn test_key_generation() {
    let result = CertificateSigner::generate_key_pair(SignatureAlgorithm::RSA2048SHA256);
    assert!(result.is_ok());
    let (private_key, public_key) = result.unwrap();
    assert_eq!(private_key.bits(), 2048);
    assert_eq!(public_key.bits(), 2048);
}

#[test]
fn elliptic_keys_are_not_supported() {
    let err = CertificateSigner::generate_key_pair(SignatureAlgorithm::ECDSAP256SHA256).unwrap_err();
    assert_eq!(err, CertificateError::NotSupported("Algorithm ECDSAP256SHA256 not yet implemented".to_string()));
}

#[test]
fn test_key_id_generation() {
    let signer = CertificateSigner::new().unwrap();
    assert!(!signer.key_id().is_empty());
    assert_eq!(signer.key_id().len(), 16);
}

#[test]
fn key_id_and_fingerprint_from_der() {

    let signer = CertificateSigner::new().unwrap();
    let der = signer.public_key().public_key_to_der().unwrap();
    let digest = sha2::Sha256::digest(&der);
    assert_eq!(key_id_from_der(&der), hex::encode(&digest[..8]));
    assert_eq!(signer.key_id(), key_id_from_der(&der));
    let fp = fingerprint_from_der(&der);
    assert_eq!(fp.len(), 95);
    assert_eq!(fp.replace(':', ""), hex::encode_upper(digest));
    let info = signer.get_key_info(5).unwrap();
    assert_eq!(info.fingerprint, fp);
    assert!(info.public_key_pem.starts_with("-----BEGIN PUBLIC KEY-----"));
}

#[test]
fn signer_round_trips_through_pem() {
    let signer = CertificateSigner::new().unwrap();
    let private_pem = signer.private_key_pem().unwrap();
    let public_pem = signer.public_key_pem().unwrap();
    let again = CertificateSigner::from_pem(&private_pem, &public_pem).unwrap();
    assert_eq!(again.key_id(), signer.key_id());
    let (id, _) = CertificateVerifier::load_public_key_pem(&public_pem).unwrap();
    assert_eq!(id, signer.key_id());
}

#[test]
fn test_signature_algorithm_display() {
    assert_eq!(SignatureAlgorithm::RSA2048SHA256.label(), "RSA-2048 with SHA-256");
    assert_eq!(SignatureAlgorithm::RSA4096SHA256.label(), "RSA-4096 with SHA-256");
}
