use safe_erase::algorithms::WipeAlgorithm;
use safe_erase::cert_error::CertificateError;
use safe_erase::certgen::{create_certificate_data, format_uuid, qr_code_data, verification_url, CertificateFormat, CertificateOptions};
use safe_erase::crypto::{SignatureAlgorithm, SignatureInfo};
use safe_erase::certificate::{
    CertificateData, ComplianceInfo, ComplianceLevel, DeviceInfo, SecurityLevel, SignedCertificate, VerificationInfo,
    WipeCertificate, WipeInfo,
};
use safe_erase::verification::{VerificationStatus, VerificationType};
use safe_erase::wipe::{PerformanceStats, WipeOptions, WipeResult, WipeStatus};

fn now_us() -> i64 {
    chrono::Utc::now().timestamp_micros()
}

fn create_test_certificate_data() -> CertificateData {
    CertificateData {
        certificate_id: uuid::Uuid::new_v4().as_u128(),
        generated_at: now_us(),
        device_info: DeviceInfo {
            path: "/dev/sda".to_string(),
            serial: "TEST123456".to_string(),
            model: "Test SSD".to_string(),
            size: 1000000000,
        },
        wipe_info: WipeInfo {
            algorithm: WipeAlgorithm::NIST80088,
            started_at: now_us(),
            completed_at: Some(now_us()),
            duration_us: Some(3_600_000_000),
            passes_completed: 1,
            verification_passed: Some(true),
        },
        verification_info: None,
        compliance_info: None,
        technical_details: None,
        organization: None,
        metadata: Vec::new(),
    }
}

#[test]
fn test_certificate_creation() {
    let data = create_test_certificate_data();
    let certificate = WipeCertificate::new(data);
    assert_eq!(certificate.format_version, 1);
    assert!(certificate.certificate_id() != 0);
}

#[test]
fn test_certificate_validation() {
    let data = create_test_certificate_data();
    let certificate = WipeCertificate::new(data);
    assert!(certificate.validate().is_ok());
}

#[test]
fn test_compliance_info_from_algorithm() {
    let algorithm = WipeAlgorithm::NIST80088;
    let compliance = ComplianceInfo::from_algorithm(&algorithm);
    assert!(!compliance.standards_met.is_empty());
    assert_eq!(compliance.security_level, SecurityLevel::Standard);
    assert!(compliance.is_fully_compliant());
}

#[test]
fn test_certificate_summary() {
    let data = create_test_certificate_data();
    let certificate = WipeCertificate::new(data);
    let summary = certificate.summary();
    assert_eq!(summary.device_serial, "TEST123456");
    assert_eq!(summary.device_model, "Test SSD");
    assert_eq!(summary.verification_passed, Some(true));
}

fn verification(tested: usize, passed: usize, rate_bp: u64) -> VerificationInfo {
    VerificationInfo {
        verification_id: 5,
        verification_type: VerificationType::Quick,
        samples_tested: tested,
        samples_passed: passed,
        success_rate_basis_points: rate_bp,
        overall_result: VerificationStatus::Passed,
    }
}

#[test]
fn validation_rejects_more_passed_than_tested() {
    let mut data = create_test_certificate_data();
    data.verification_info = Some(verification(100, 101, 10100));
    let err = WipeCertificate::new(data).validate().unwrap_err();
    assert_eq!(
        err,
        CertificateError::InvalidCertificateData("Samples passed cannot exceed samples tested".to_string())
    );
}

#[test]
fn validation_checks_rate_and_fields() {
    let mut data = create_test_certificate_data();
    data.verification_info = Some(verification(100, 97, 9700));
    assert!(WipeCertificate::new(data.clone()).validate().is_ok());
    data.verification_info = Some(verification(100, 97, 9600));
    assert!(WipeCertificate::new(data.clone()).validate().is_ok());
    data.verification_info = Some(verification(100, 97, 9500));
    assert_eq!(
        WipeCertificate::new(data.clone()).validate().unwrap_err(),
        CertificateError::InvalidCertificateData("Success rate does not match sample counts".to_string())
    );
    data.verification_info = None;
    data.device_info.serial = String::new();
    assert_eq!(
        WipeCertificate::new(data.clone()).validate().unwrap_err(),
        CertificateError::MissingRequiredField("Device serial number".to_string())
    );
    data.device_info.serial = "S".to_string();
    data.wipe_info.completed_at = Some(data.wipe_info.started_at - 1);
    assert_eq!(
        WipeCertificate::new(data.clone()).validate().unwrap_err(),
        CertificateError::InvalidTimestamp("Completion time cannot be before start time".to_string())
    );
    data.certificate_id = 0;
    assert_eq!(
        WipeCertificate::new(data).validate().unwrap_err(),
        CertificateError::InvalidCertificateData("Certificate ID cannot be nil".to_string())
    );
}

#[test]
fn compliance_for_custom_and_hardware() {
    let c = ComplianceInfo::from_algorithm(&WipeAlgorithm::ZeroFill);
    assert_eq!(c.standards_met[0].name, "Basic Sanitization");
    assert_eq!(c.standards_met[0].compliance_level, ComplianceLevel::PartiallyCompliant);
    assert!(!c.is_fully_compliant());
    assert!(c.non_compliant_standards().is_empty());
    assert_eq!(c.compliance_notes, vec!["Algorithm: Zero Fill", "Passes: 1", "Security Level: Basic"]);
    let c = ComplianceInfo::from_algorithm(&WipeAlgorithm::ATASecureErase);
    assert_eq!(c.standards_met[0].name, "ATA/ATAPI Command Set");
    assert_eq!(c.standards_met[0].version.as_deref(), Some("ACS-4"));
    assert_eq!(c.security_level, SecurityLevel::High);
    let c = ComplianceInfo::from_algorithm(&WipeAlgorithm::Gutmann);
    assert_eq!(c.compliance_notes[1], "Passes: 35");
}

#[test]
fn test_certificate_options_default() {
    let options = CertificateOptions::default();
    assert!(options.include_qr_code);
    assert!(options.include_technical_details);
    assert!(options.include_compliance_info);
    assert!(options.template_name.is_none());
}

#[test]
fn test_certificate_format_display() {
    assert_eq!(CertificateFormat::PDF.label(), "PDF");
    assert_eq!(CertificateFormat::JSON.label(), "JSON");
    assert_eq!(CertificateFormat::Both.label(), "PDF and JSON");
}

#[test]
fn uuid_text_matches_uuid_crate() {
    let u = uuid::Uuid::new_v4();
    assert_eq!(format_uuid(u.as_u128()), u.to_string());
    assert_eq!(format_uuid(0x0123456789abcdef0011223344556677), "01234567-89ab-cdef-0011-223344556677");
    assert_eq!(
        verification_url(1),
        "https://verify.safeerase.com/certificate/00000000-0000-0000-0000-000000000001"
    );
}

#[test]
fn certificate_data_from_wipe_result() {
    let result = WipeResult {
        operation_id: 1,
        device_path: "/dev/sdb".to_string(),
        device_serial: "SER".to_string(),
        device_model: "MOD".to_string(),
        algorithm: WipeAlgorithm::DoD522022M,
        options: WipeOptions::default(),
        status: WipeStatus::Completed,
        started_at: 10,
        completed_at: Some(20),
        duration_us: Some(10),
        bytes_wiped: 3000,
        passes_completed: 3,
        verification_requested: true,
        verification_passed: Some(true),
        hpa_detected: false,
        hpa_cleared: false,
        dco_detected: false,
        dco_cleared: false,
        error_message: None,
        performance_stats: PerformanceStats {
            average_speed: 1,
            peak_speed: 1,
            total_time_us: 10,
            wipe_time_us: 10,
            verification_time_us: None,
        },
    };
    let mut options = CertificateOptions::default();
    options.include_technical_details = false;
    let d = create_certificate_data(9, 30, result, None, options, Some(vec![("a".to_string(), "1".to_string())]));
    assert_eq!(d.certificate_id, 9);
    assert_eq!(d.device_info.size, 3000);
    assert_eq!(d.wipe_info.passes_completed, 3);
    assert!(d.technical_details.is_none());
    let ci = d.compliance_info.unwrap();
    assert_eq!(ci.standards_met[0].name, "DoD 5220.22-M");
    assert_eq!(ci.security_level, SecurityLevel::High);
}

#[test]
fn qr_payload_matches_serde_json() {
    let mut data = create_test_certificate_data();
    data.certificate_id = 42;
    let info = SignatureInfo {
        signature: "c2ln".to_string(),
        algorithm: SignatureAlgorithm::RSA2048SHA256,
        key_id: "0011223344556677".to_string(),
        timestamp: 0,
        certificate_hash: String::new(),
        signature_version: 1,
    };
    let signed = SignedCertificate::new(WipeCertificate::new(data), info, 0);
    let mut map = serde_json::Map::new();
    map.insert("verification_url".to_string(), serde_json::Value::String(
        "https://verify.safeerase.com/certificate/00000000-0000-0000-0000-00000000002a".to_string(),
    ));
    map.insert("signature".to_string(), serde_json::Value::String("c2ln".to_string()));
    map.insert("certificate_id".to_string(), serde_json::Value::String(
        "00000000-0000-0000-0000-00000000002a".to_string(),
    ));
    let expected = serde_json::Value::Object(map).to_string();
    assert_eq!(qr_code_data(&signed), expected);
}

#[test]
fn validation_rejects_duplicate_keys_and_unwritable_times() {
    let mut data = create_test_certificate_data();
    data.metadata = vec![("a".to_string(), "1".to_string()), ("a".to_string(), "2".to_string())];
    assert_eq!(
        WipeCertificate::new(data.clone()).validate().unwrap_err(),
        CertificateError::InvalidCertificateData("Key listed twice in metadata or technical details".to_string())
    );
    data.metadata = vec![("a".to_string(), "1".to_string())];
    data.technical_details = Some(vec![("x".to_string(), "1".to_string()), ("x".to_string(), "2".to_string())]);
    assert!(WipeCertificate::new(data.clone()).validate().is_err());
    data.technical_details = None;
    assert!(WipeCertificate::new(data.clone()).validate().is_ok());
    data.generated_at = i64::MAX;
    assert_eq!(
        WipeCertificate::new(data).validate().unwrap_err(),
        CertificateError::InvalidTimestamp("Time cannot be written as RFC 3339 text".to_string())
    );
}
