use sha2::Digest;
use safe_erase::algorithms::{SecurityLevel, WipeAlgorithm, WipePattern};

#[test]
fn test_algorithm_info() {
    let nist = WipeAlgorithm::NIST80088;
    let info = nist.info();
    assert_eq!(info.name, "NIST 800-88");
    assert_eq!(info.passes, 1);
    assert_eq!(info.security_level, SecurityLevel::Standard);
}

#[test]
fn test_dod_patterns() {
    let dod = WipeAlgorithm::DoD522022M;
    let patterns = dod.patterns();
    assert_eq!(patterns.len(), 3);
    assert_eq!(patterns[0], WipePattern::Zeros);
    assert_eq!(patterns[1], WipePattern::Ones);
    assert_eq!(patterns[2], WipePattern::Random);
}

#[test]
fn test_gutmann_patterns() {
    let gutmann = WipeAlgorithm::Gutmann;
    let patterns = gutmann.patterns();
    assert_eq!(patterns.len(), 35);
}

#[test]
fn test_pattern_generation() {
    let zeros = WipePattern::Zeros;
    let data = zeros.generate_data(10, None);
    assert_eq!(data, vec![0u8; 10]);

    let ones = WipePattern::Ones;
    let data = ones.generate_data(5, None);
    assert_eq!(data, vec![0xFFu8; 5]);

    let fixed = WipePattern::Fixed(0xAA);
    let data = fixed.generate_data(3, None);
    assert_eq!(data, vec![0xAAu8; 3]);
}

#[test]
fn test_complement_pattern() {
    let original = vec![0x00, 0xFF, 0xAA, 0x55];
    let complement = WipePattern::Complement;
    let data = complement.generate_data(4, Some(&original));
    assert_eq!(data, vec![0xFF, 0x00, 0x55, 0xAA]);
}

#[test]
fn test_repeating_pattern() {
    let pattern = WipePattern::Pattern(vec![0x12, 0x34]);
    let data = pattern.generate_data(6, None);
    assert_eq!(data, vec![0x12, 0x34, 0x12, 0x34, 0x12, 0x34]);
}

#[test]
fn test_hardware_based_detection() {
    assert!(WipeAlgorithm::ATASecureErase.is_hardware_based());
    assert!(WipeAlgorithm::NVMeFormat.is_hardware_based());
    assert!(!WipeAlgorithm::NIST80088.is_hardware_based());
    assert!(!WipeAlgorithm::DoD522022M.is_hardware_based());
}

#[test]
fn hardware_algorithms_have_no_patterns() {
    assert!(WipeAlgorithm::ATASecureErase.patterns().is_empty());
    assert!(WipeAlgorithm::NVMeFormat.patterns().is_empty());
}

#[test]
fn gutmann_sequence_starts_and_ends_random() {
    let p = WipeAlgorithm::Gutmann.patterns();
    for i in [0usize, 1, 2, 3, 31, 32, 33, 34] {
        assert_eq!(p[i], WipePattern::Random);
    }
    assert_eq!(p[4], WipePattern::Pattern(vec![0x55, 0x55, 0x55]));
    assert_eq!(p[9], WipePattern::Zeros);
    assert_eq!(p[24], WipePattern::Ones);
    assert_eq!(p[30], WipePattern::Pattern(vec![0xDB, 0x6D, 0xB6]));
}

#[test]
fn custom_algorithm_keeps_its_patterns() {
    let ps = vec![WipePattern::Fixed(7), WipePattern::Complement, WipePattern::PseudoRandom(9)];
    let alg = WipeAlgorithm::Custom(ps.clone());
    assert_eq!(alg.patterns(), ps);
    let info = alg.info();
    assert_eq!(info.passes, 3);
    assert_eq!(info.estimated_time_factor_tenths, 30);
    assert_eq!(info.compliance_standards, vec!["Custom".to_string()]);
}

#[test]
fn algorithm_info_time_factors() {
    assert_eq!(WipeAlgorithm::ZeroFill.info().estimated_time_factor_tenths, 8);
    assert_eq!(WipeAlgorithm::Gutmann.info().estimated_time_factor_tenths, 350);
    assert_eq!(WipeAlgorithm::NVMeFormat.info().estimated_time_factor_tenths, 3);
    assert_eq!(WipeAlgorithm::Gutmann.info().security_level, SecurityLevel::Maximum);
}

#[test]
fn recommendations_per_device_kind() {
    assert_eq!(
        WipeAlgorithm::recommended_for_ssd(),
        vec![WipeAlgorithm::ATASecureErase, WipeAlgorithm::NIST80088, WipeAlgorithm::Random]
    );
    assert_eq!(
        WipeAlgorithm::recommended_for_hdd(),
        vec![WipeAlgorithm::DoD522022M, WipeAlgorithm::NIST80088, WipeAlgorithm::Gutmann]
    );
    assert_eq!(
        WipeAlgorithm::recommended_for_nvme(),
        vec![WipeAlgorithm::NVMeFormat, WipeAlgorithm::NIST80088, WipeAlgorithm::Random]
    );
}

#[test]
fn complement_twice_restores_data() {
    let written = vec![0x00u8, 0x13, 0xFF, 0x80, 0x7F];
    let once = WipePattern::Complement.generate_data(5, Some(&written));
    let twice = WipePattern::Complement.generate_data(5, Some(&once));
    assert_eq!(twice, written);
}

#[test]
fn only_complement_reads_the_previous_pass() {
    assert!(WipePattern::Complement.needs_previous_pass());
    assert!(!WipePattern::Zeros.needs_previous_pass());
}

#[test]
fn complement_without_previous_data_is_ones() {
    assert_eq!(WipePattern::Complement.generate_data(3, None), vec![0xFF; 3]);
}

#[test]
fn pseudo_random_is_reproducible_and_random_has_length() {
    let a = WipePattern::PseudoRandom(42).generate_data(64, None);
    let b = WipePattern::PseudoRandom(42).generate_data(64, None);
    let c = WipePattern::PseudoRandom(43).generate_data(64, None);
    assert_eq!(a, b);
    assert_ne!(a, c);
    assert_eq!(a.len(), 64);
    assert_eq!(WipePattern::Random.generate_data(100, None).len(), 100);
}

#[test]
fn pattern_descriptions() {
    assert_eq!(WipePattern::Zeros.description(), "Fill with zeros (0x00)");
    assert_eq!(WipePattern::Fixed(0xAB).description(), "Fill with fixed byte (0xAB)");
    assert_eq!(
        WipePattern::PseudoRandom(1234567).description(),
        "Fill with pseudorandom data (seed: 1234567)"
    );
    assert_eq!(
        WipePattern::Pattern(vec![0x92, 0x49, 0x0A]).description(),
        "Fill with repeating pattern: 92 49 0A"
    );
}

#[test]
fn pattern_hash_is_sha256_of_tag_and_payload() {

    let expected = hex::encode(sha2::Sha256::digest(b"zeros"));
    assert_eq!(WipePattern::Zeros.pattern_hash(), expected);
    let mut input = b"pseudorandom".to_vec();
    input.extend_from_slice(&77u64.to_le_bytes());
    assert_eq!(WipePattern::PseudoRandom(77).pattern_hash(), hex::encode(sha2::Sha256::digest(&input)));
    let mut input = b"pattern".to_vec();
    input.extend_from_slice(&[1, 2, 3]);
    assert_eq!(WipePattern::Pattern(vec![1, 2, 3]).pattern_hash(), hex::encode(sha2::Sha256::digest(&input)));
    assert_eq!(WipePattern::Zeros.pattern_hash().len(), 64);
}
