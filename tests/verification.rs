use safe_erase::algorithms::{SecurityLevel, WipeAlgorithm};
use safe_erase::verification::{
    determine_overall_result, generate_recommendations, has_structured_data, is_sample_acceptable, EntropyBand,
    PatternType, SampleData, VerificationEngine, VerificationStatus, VerificationType,
};

#[test]
fn test_pattern_detection() {
    let engine = VerificationEngine::new();

    let zeros = vec![0u8; 100];
    assert_eq!(engine.detect_pattern_type(&zeros, false), PatternType::AllZeros);

    let ones = vec![0xFFu8; 100];
    assert_eq!(engine.detect_pattern_type(&ones, false), PatternType::AllOnes);

    let repeating = vec![0xAA, 0xBB].repeat(50);
    assert_eq!(engine.detect_pattern_type(&repeating, false), PatternType::Repeating);
}

#[test]
fn test_verification_status_display() {
    assert_eq!(VerificationStatus::Passed.label(), "Passed");
    assert_eq!(VerificationStatus::Failed.label(), "Failed");
    assert_eq!(VerificationStatus::Warning.label(), "Warning");
}

fn spread_bytes(seed: u32) -> Vec<u8> {
    let mut x = seed.wrapping_mul(2654435761).wrapping_add(1);
    (0..4096)
        .map(|_| {
            x ^= x << 13;
            x ^= x >> 17;
            x ^= x << 5;
            (x >> 24) as u8
        })
        .collect()
}

#[test]
fn zero_fill_samples_pass() {
    let engine = VerificationEngine::new();
    let samples: Vec<SampleData> = (0..100)
        .map(|i| SampleData { offset: i * 4096, data: vec![0u8; 4096], entropy: EntropyBand::Below })
        .collect();
    let r = engine.evaluate_samples(&WipeAlgorithm::ZeroFill, &samples, true);
    assert_eq!(r.samples_tested, 100);
    assert_eq!(r.samples_passed, 100);
    assert_eq!(r.success_rate_basis_points, 10000);
    assert_eq!(r.overall_result, VerificationStatus::Passed);
    assert_eq!(r.zero_sectors, 100);
    assert!(r.suspicious_sectors.is_empty());
    assert_eq!(r.low_entropy_sectors.len(), 100);
    assert_eq!(r.recommendations[0], "Wipe verification passed successfully.");
    assert_eq!(
        r.recommendations[2],
        "Found 100 sectors with low entropy. These may require additional attention."
    );
}

#[test]
fn suspicious_samples_fail_verification() {
    let engine = VerificationEngine::new();
    let mut samples: Vec<SampleData> = (0..80)
        .map(|i| SampleData { offset: i * 4096, data: spread_bytes(i as u32), entropy: EntropyBand::Above })
        .collect();
    for i in 80..100u64 {
        let mut data = vec![0x20u8; 4096];
        for (k, b) in data.iter_mut().enumerate() {
            *b = (k % 7) as u8 + 0x30 + (k % 13) as u8;
        }
        data[100..104].copy_from_slice(b"NTFS");
        samples.push(SampleData { offset: i * 4096, data, entropy: EntropyBand::Below });
    }
    let r = engine.evaluate_samples(&WipeAlgorithm::Random, &samples, false);
    assert_eq!(r.samples_tested, 100);
    assert_eq!(r.random_sectors, 80);
    assert_eq!(r.suspicious_sectors.len(), 20);
    assert_eq!(r.samples_passed, 80);
    assert_eq!(r.overall_result, VerificationStatus::Failed);
    assert_eq!(r.recommendations[1], "Suspicious data patterns detected. Use a more aggressive wiping algorithm.");
}

#[test]
fn verdict_thresholds() {
    assert_eq!(determine_overall_result(95, 100, false), VerificationStatus::Passed);
    assert_eq!(determine_overall_result(94, 100, false), VerificationStatus::Warning);
    assert_eq!(determine_overall_result(85, 100, false), VerificationStatus::Warning);
    assert_eq!(determine_overall_result(70, 100, false), VerificationStatus::Inconclusive);
    assert_eq!(determine_overall_result(69, 100, false), VerificationStatus::Failed);
    assert_eq!(determine_overall_result(100, 100, true), VerificationStatus::Failed);
    assert_eq!(determine_overall_result(0, 0, false), VerificationStatus::Failed);
}

#[test]
fn sample_acceptance_by_algorithm() {
    assert!(is_sample_acceptable(&WipeAlgorithm::ZeroFill, PatternType::AllZeros, false));
    assert!(!is_sample_acceptable(&WipeAlgorithm::ZeroFill, PatternType::AllOnes, false));
    assert!(is_sample_acceptable(&WipeAlgorithm::OneFill, PatternType::AllOnes, false));
    assert!(is_sample_acceptable(&WipeAlgorithm::NIST80088, PatternType::Random, true));
    assert!(!is_sample_acceptable(&WipeAlgorithm::NIST80088, PatternType::Random, false));
    assert!(is_sample_acceptable(&WipeAlgorithm::Gutmann, PatternType::Structured, false));
    assert!(!is_sample_acceptable(&WipeAlgorithm::Gutmann, PatternType::Suspicious, false));
}

#[test]
fn sampling_depth_and_counts() {
    let gib: u64 = 1 << 30;
    assert_eq!(VerificationType::determine(50 * gib, SecurityLevel::Basic), VerificationType::Comprehensive);
    assert_eq!(VerificationType::determine(500 * gib, SecurityLevel::High), VerificationType::Standard);
    assert_eq!(VerificationType::determine(500 * gib, SecurityLevel::Standard), VerificationType::Quick);
    assert_eq!(VerificationType::Quick.sampling_parameters(500 * gib), (100, 4096));
    assert_eq!(VerificationType::Quick.sampling_parameters(gib), (10, 4096));
    assert_eq!(VerificationType::Quick.sampling_parameters(50 * gib), (50, 4096));
    assert_eq!(VerificationType::Standard.sampling_parameters(500 * gib), (1000, 4096));
    assert_eq!(VerificationType::Comprehensive.sampling_parameters(gib), (1000, 4096));
    assert_eq!(VerificationType::Custom.sampling_parameters(gib), (500, 4096));
}

#[test]
fn sample_locations_are_sorted_and_in_range() {
    let size: u64 = 1 << 30;
    let locs = VerificationType::Custom.sample_locations(size, 4, 4096);
    let max = size - 4096;
    assert_eq!(locs, vec![0, max / 4, 2 * max / 4, 3 * max / 4]);
    let locs = VerificationType::Comprehensive.sample_locations(size, 100, 4096);
    assert_eq!(locs.len(), 100);
    assert!(locs.windows(2).all(|w| w[0] <= w[1]));
    assert!(locs.iter().all(|&o| o <= max));
    for i in 0..75u64 {
        assert!(locs.contains(&(i * max / 75)));
    }
    let locs = VerificationType::Quick.sample_locations(size, 10, 4096);
    assert_eq!(locs.len(), 10);
    assert!(locs.windows(2).all(|w| w[0] <= w[1]));
    let locs = VerificationType::Quick.sample_locations(100, 3, 4096);
    assert_eq!(locs, vec![0, 0, 0]);
}

#[test]
fn signatures_and_anomalies() {
    let mut data = vec![1u8; 64];
    assert!(!has_structured_data(&data));
    data[10] = 0x55;
    data[11] = 0xAA;
    assert!(has_structured_data(&data));
    assert!(has_structured_data(b"xxFAT32"));
    assert!(!has_structured_data(b"FAT3"));
    let engine = VerificationEngine::new();
    let mut gappy = vec![7u8; 256];
    for b in gappy.iter_mut().take(64) {
        *b = 0;
    }
    let a = engine.detect_anomalies(&gappy, PatternType::Structured, false);
    assert_eq!(a, vec!["Unexpected null byte sequences".to_string()]);
    let a = engine.detect_anomalies(&gappy, PatternType::Suspicious, false);
    assert_eq!(a.len(), 2);
    assert!(engine.detect_anomalies(&vec![0u8; 256], PatternType::AllZeros, false).is_empty());
}

#[test]
fn recommendations_text() {
    let r = generate_recommendations(VerificationStatus::Warning, false, true, 0);
    assert_eq!(
        r,
        vec![
            "Wipe verification passed with warnings. Monitor for potential issues.".to_string(),
            "Low average entropy detected. Consider using random-based wiping algorithms.".to_string(),
        ]
    );
}

#[test]
fn short_data_can_repeat() {
    let engine = VerificationEngine::new();
    assert!(engine.has_repeating_pattern(&[1, 2, 1, 2, 1, 2, 1, 2]));
    assert_eq!(engine.detect_pattern_type(&[1, 2, 1, 2, 1, 2, 1, 2], false), PatternType::Repeating);
    assert!(!engine.has_repeating_pattern(&[1, 2, 1]));
    assert!(engine.has_repeating_pattern(&[1, 2, 3, 4].repeat(8)));
}

#[test]
fn anomalies_do_not_reject_multi_pass_samples() {
    let engine = VerificationEngine::new();
    let mut data = vec![0u8; 256];
    for (i, b) in data.iter_mut().enumerate().skip(128) {
        *b = (i * 37 % 251) as u8 | 1;
    }
    let samples = vec![SampleData { offset: 0, data, entropy: EntropyBand::Below }];
    let r = engine.evaluate_samples(&WipeAlgorithm::DoD522022M, &samples, true);
    assert_eq!(r.pattern_types[0], PatternType::Structured);
    assert_eq!(r.samples_passed, 1);
    assert_eq!(r.structured_sectors, 1);
}

#[test]
fn arranged_locations_merge_drawn_offsets() {
    let size: u64 = 1 << 20;
    let max = size - 4096;
    let locs = VerificationType::Quick.arrange_locations(size, 4, 4096, &[900, 5, 300, 5]);
    assert_eq!(locs, vec![5, 5, 300, 900]);
    let locs = VerificationType::Comprehensive.arrange_locations(size, 4, 4096, &[7]);
    assert_eq!(locs, vec![0, 7, max / 3, 2 * max / 3]);
}
