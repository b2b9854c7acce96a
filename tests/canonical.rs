use safe_erase::algorithms::{WipeAlgorithm, WipePattern};
use safe_erase::canonical::{canonical_json, push_json_str, sorted_pairs};
use safe_erase::cert_error::CertificateError;
use safe_erase::certificate::{
    CertificateData, ComplianceInfo, DeviceInfo, OrganizationInfo, VerificationInfo, WipeCertificate, WipeInfo,
};
use safe_erase::verification::{VerificationStatus, VerificationType};

fn full_certificate() -> WipeCertificate {
    WipeCertificate::new(CertificateData {
        certificate_id: 0x0123456789abcdef0011223344556677,
        generated_at: 1_700_000_000_123_456,
        device_info: DeviceInfo {
            path: "/dev/sda".to_string(),
            serial: "SN \"7\"\n".to_string(),
            model: "Drive\\X".to_string(),
            size: 512,
        },
        wipe_info: WipeInfo {
            algorithm: WipeAlgorithm::Custom(vec![WipePattern::Fixed(3), WipePattern::Pattern(vec![1, 2])]),
            started_at: 1_700_000_000_000_000,
            completed_at: Some(1_700_000_001_500_000),
            duration_us: Some(1_500_000),
            passes_completed: 2,
            verification_passed: None,
        },
        verification_info: Some(VerificationInfo {
            verification_id: 1,
            verification_type: VerificationType::Custom,
            samples_tested: 10,
            samples_passed: 9,
            success_rate_basis_points: 9000,
            overall_result: VerificationStatus::Warning,
        }),
        compliance_info: Some(ComplianceInfo::from_algorithm(&WipeAlgorithm::NIST80088)),
        technical_details: Some(vec![("z".to_string(), "[1,2]".to_string()), ("a".to_string(), "true".to_string())]),
        organization: Some(OrganizationInfo {
            name: "Org".to_string(),
            address: "Street 1".to_string(),
            contact_email: "a@b.c".to_string(),
            contact_phone: None,
            website: Some("https://x".to_string()),
            logo_path: None,
            certification_authority: None,
        }),
        metadata: vec![("b".to_string(), "2".to_string()), ("a".to_string(), "1".to_string())],
    })
}

#[test]
fn canonical_form_is_reparsed_to_itself() {
    let text = canonical_json(&full_certificate()).unwrap();
    let value: serde_json::Value = serde_json::from_str(&text).unwrap();
    assert_eq!(serde_json::to_string(&value).unwrap(), text);
    assert_eq!(canonical_json(&full_certificate()).unwrap(), text);
}

#[test]
fn canonical_form_fields() {
    let text = canonical_json(&full_certificate()).unwrap();
    let v: serde_json::Value = serde_json::from_str(&text).unwrap();
    assert_eq!(v["data"]["certificate_id"], "01234567-89ab-cdef-0011-223344556677");
    assert_eq!(v["data"]["generated_at"], "2023-11-14T22:13:20.123456Z");
    assert_eq!(v["data"]["device_info"]["serial"], "SN \"7\"\n");
    assert_eq!(v["data"]["wipe_info"]["duration"]["secs"], 1);
    assert_eq!(v["data"]["wipe_info"]["duration"]["nanos"], 500_000_000);
    assert_eq!(v["data"]["wipe_info"]["algorithm"]["Custom"][1]["Pattern"][1], 2);
    assert_eq!(v["data"]["technical_details"]["z"][0], 1);
    assert_eq!(v["format_version"], 1);
    assert!(text.starts_with("{\"data\":{\"certificate_id\":"));
    assert!(text.contains("\"metadata\":{\"a\":\"1\",\"b\":\"2\"}"));
}

#[test]
fn out_of_range_time_is_refused() {
    let mut c = full_certificate();
    c.data.generated_at = i64::MAX;
    assert!(matches!(canonical_json(&c), Err(CertificateError::JsonSerializationFailed(_))));
}

#[test]
fn strings_escape_like_serde_json() {
    for s in ["plain", "q\"b\\", "tab\tnl\ncr\r", "\u{1}\u{1f}\u{8}\u{c}", "é✓"] {
        let mut out = String::new();
        push_json_str(&mut out, s);
        assert_eq!(out, serde_json::to_string(s).unwrap());
    }
}

#[test]
fn pairs_sorted_by_key() {
    let pairs = vec![
        ("b".to_string(), "1".to_string()),
        ("A".to_string(), "2".to_string()),
        ("ab".to_string(), "3".to_string()),
        ("a".to_string(), "4".to_string()),
    ];
    let keys: Vec<String> = sorted_pairs(&pairs).into_iter().map(|p| p.0).collect();
    assert_eq!(keys, vec!["A", "a", "ab", "b"]);
}
