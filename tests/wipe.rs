use safe_erase::algorithms::{WipeAlgorithm, WipePattern};
use safe_erase::device::{Device, DeviceCapabilities, DeviceInfo, DeviceType, HealthStatus, StorageInterface};
use safe_erase::error::SafeEraseError;
use safe_erase::wipe::{admit_device, all_wiped, HiddenArea, is_data_wiped, BlockStep, HardwareCommand, PassPlan, WipeAction, WipeEvent, WipeOptions, WipeRun, WipeStatus};

fn device(size: u64, hpa: bool) -> Device {
    let info = DeviceInfo {
        path: "/dev/sdz".to_string(),
        name: "sdz".to_string(),
        model: "Model X".to_string(),
        serial: "SN-1".to_string(),
        size,
        device_type: DeviceType::HDD,
        interface: StorageInterface::SATA,
        is_removable: false,
        is_system_disk: false,
        supports_secure_erase: true,
        supports_hpa_dco: hpa,
        firmware_version: Some("1.0".to_string()),
        temperature: Some(30),
        health_status: HealthStatus::Good,
    };
    let caps = DeviceCapabilities {
        supports_ata_secure_erase: true,
        supports_nvme_format: false,
        supports_trim: false,
        supports_write_same: true,
        supports_hpa_detection: hpa,
        supports_dco_detection: hpa,
        max_lba: size / 512,
        logical_sector_size: 512,
        physical_sector_size: 512,
    };
    Device::new(info, caps)
}

#[test]
fn test_wipe_options_default() {
    let options = WipeOptions::default();
    assert!(options.verify_wipe);
    assert_eq!(options.verification_samples, 100);
    assert!(options.clear_hpa_dco);
    assert!(options.prefer_hardware_erase);
}

#[test]
fn test_wipe_status_display() {
    assert_eq!(WipeStatus::Initializing.label(), "Initializing");
    assert_eq!(WipeStatus::Wiping.label(), "Wiping");
    assert_eq!(WipeStatus::Completed.label(), "Completed");
}

#[test]
fn test_is_data_wiped() {
    let zeros = vec![0u8; 100];
    assert!(is_data_wiped(&zeros));

    let ones = vec![0xFFu8; 100];
    assert!(is_data_wiped(&ones));

    let random: Vec<u8> = (0..100).map(|i| (i * 7 + 13) as u8).collect();
    assert!(is_data_wiped(&random));
}

#[test]
fn low_diversity_data_is_not_wiped() {
    let data: Vec<u8> = (0..100).map(|i| (i % 3) as u8).collect();
    assert!(!is_data_wiped(&data));
}

#[test]
fn dod_run_completes_with_three_passes() {
    let dev = device(10_000, true);
    let mut options = WipeOptions::default();
    options.verify_wipe = true;
    let mut run = WipeRun::new(7, &dev, WipeAlgorithm::DoD522022M, options, 1_000);
    assert_eq!(run.next_action(), WipeAction::DetectHpa);
    run.apply(WipeEvent::HpaChecked(Ok(HiddenArea { detected: true, cleared: true })), 1_100);
    assert_eq!(run.next_action(), WipeAction::DetectDco);
    run.apply(WipeEvent::DcoChecked(Err(SafeEraseError::SystemCommandFailed("x".to_string()))), 1_200);
    let expected = [WipePattern::Zeros, WipePattern::Ones, WipePattern::Random];
    for (i, p) in expected.iter().enumerate() {
        assert_eq!(run.next_action(), WipeAction::WritePass { index: i, pattern: p.clone() });
        run.apply(WipeEvent::PassWritten { bytes: 10_000, micros: 1_000 }, 2_000);
    }
    assert_eq!(run.next_action(), WipeAction::FlushCache);
    run.apply(WipeEvent::Flushed, 3_000);
    assert_eq!(run.next_action(), WipeAction::Verify { samples: 100 });
    run.apply(WipeEvent::Verified { passed: Ok(true), micros: 50 }, 4_000);
    assert_eq!(run.next_action(), WipeAction::Finish);
    let r = run.into_result();
    assert_eq!(r.status, WipeStatus::Completed);
    assert_eq!(r.passes_completed, 3);
    assert_eq!(r.bytes_wiped, 30_000);
    assert!(r.hpa_detected && r.hpa_cleared);
    assert!(!r.dco_detected);
    assert_eq!(r.completed_at, Some(4_000));
    assert_eq!(r.duration_us, Some(3_000));
    assert_eq!(r.verification_passed, Some(true));
    assert_eq!(r.performance_stats.peak_speed, 10_000_000);
    assert_eq!(r.performance_stats.average_speed, 10_000_000);
}

#[test]
fn hardware_erase_counts_one_pass() {
    let dev = device(4096, false);
    let mut options = WipeOptions::default();
    options.verify_wipe = false;
    let mut run = WipeRun::new(1, &dev, WipeAlgorithm::ATASecureErase, options, 0);
    assert_eq!(
        run.next_action(),
        WipeAction::HardwareErase(HardwareCommand::AtaSecureErase { enhanced: false })
    );
    run.apply(WipeEvent::HardwareErased { outcome: Ok(()), micros: 1_000_000 }, 10);
    let r = run.result();
    assert_eq!(r.status, WipeStatus::Completed);
    assert_eq!(r.passes_completed, 1);
    assert_eq!(r.bytes_wiped, 4096);
}

#[test]
fn cancellation_ends_the_run() {
    let dev = device(8192, false);
    let mut run = WipeRun::new(2, &dev, WipeAlgorithm::ZeroFill, WipeOptions::default(), 500);
    run.apply(WipeEvent::PassCancelled { bytes: 4096 }, 400);
    assert_eq!(run.next_action(), WipeAction::Finish);
    let r = run.result();
    assert_eq!(r.status, WipeStatus::Cancelled);
    assert_eq!(r.bytes_wiped, 4096);
    assert_eq!(r.completed_at, Some(500));
    assert_eq!(r.duration_us, Some(0));
    run.apply(WipeEvent::PassWritten { bytes: 1, micros: 1 }, 900);
    assert_eq!(run.result().status, WipeStatus::Cancelled);
    assert_eq!(run.result().bytes_wiped, 4096);
}

#[test]
fn failed_verification_fails_the_run() {
    let dev = device(100, false);
    let mut run = WipeRun::new(3, &dev, WipeAlgorithm::OneFill, WipeOptions::default(), 0);
    run.apply(WipeEvent::PassWritten { bytes: 100, micros: 0 }, 1);
    run.apply(WipeEvent::Flushed, 2);
    run.apply(WipeEvent::Verified { passed: Ok(false), micros: 5 }, 3);
    let r = run.into_result();
    assert_eq!(r.status, WipeStatus::Failed);
    assert_eq!(r.verification_passed, Some(false));
    assert_eq!(r.error_message.as_deref(), Some("Wipe verification failed"));
}

#[test]
fn failed_pass_records_the_error() {
    let dev = device(100, false);
    let mut run = WipeRun::new(4, &dev, WipeAlgorithm::Random, WipeOptions::default(), 0);
    run.apply(WipeEvent::PassFailed(SafeEraseError::DeviceIoError("bad sector".to_string())), 9);
    let r = run.into_result();
    assert_eq!(r.status, WipeStatus::Failed);
    assert_eq!(r.error_message.as_deref(), Some("Device I/O error: bad sector"));
    assert_eq!(r.duration_us, Some(9));
}

#[test]
fn pass_plan_blocks_and_cancellation() {
    let mut plan = PassPlan::new(5000, 2048, 512);
    assert_eq!(plan.next_block(false), BlockStep::Write { lba: 0, len: 2048, yield_after: true });
    assert_eq!(plan.next_block(false), BlockStep::Write { lba: 4, len: 2048, yield_after: false });
    assert_eq!(plan.next_block(false), BlockStep::Write { lba: 8, len: 904, yield_after: false });
    assert_eq!(plan.next_block(false), BlockStep::Done { bytes: 5000 });
    let mut plan = PassPlan::new(5000, 2048, 512);
    plan.next_block(false);
    assert_eq!(plan.next_block(true), BlockStep::Cancelled { bytes: 2048 });
    assert_eq!(plan.next_block(false), BlockStep::Cancelled { bytes: 2048 });
    let mut big = PassPlan::new(4 << 20, 8 << 20, 4096);
    assert_eq!(big.next_block(false), BlockStep::Write { lba: 0, len: 1 << 20, yield_after: true });
}

#[test]
fn system_disks_and_odd_geometry_are_refused() {
    let ok = device(8192, false);
    assert!(admit_device(&ok, &WipeOptions::default()).is_ok());
    let odd = device(1000, false);
    assert_eq!(
        admit_device(&odd, &WipeOptions::default()),
        Err(SafeEraseError::UnsupportedDevice("/dev/sdz".to_string()))
    );
    let mut info = ok.info().clone();
    info.is_system_disk = true;
    let system = Device::new(info, *ok.capabilities());
    assert_eq!(
        admit_device(&system, &WipeOptions::default()),
        Err(SafeEraseError::DeviceAccessDenied("/dev/sdz".to_string()))
    );
    let mut options = WipeOptions::default();
    options.allow_system_disk = true;
    assert!(admit_device(&system, &options).is_ok());
}

#[test]
fn hidden_area_detected_but_not_cleared() {
    let dev = device(8192, true);
    let mut run = WipeRun::new(8, &dev, WipeAlgorithm::ZeroFill, WipeOptions::default(), 0);
    run.apply(WipeEvent::HpaChecked(Ok(HiddenArea { detected: true, cleared: false })), 1);
    run.apply(WipeEvent::DcoChecked(Ok(HiddenArea { detected: false, cleared: false })), 2);
    run.apply(WipeEvent::PassWritten { bytes: 8192, micros: 10 }, 3);
    run.apply(WipeEvent::Flushed, 4);
    run.apply(WipeEvent::Verified { passed: Ok(true), micros: 1 }, 5);
    let r = run.into_result();
    assert_eq!(r.status, WipeStatus::Completed);
    assert!(r.hpa_detected);
    assert!(!r.hpa_cleared);
    assert!(!r.dco_detected);
    assert_eq!(r.bytes_wiped, 8192);
}

#[test]
fn new_run_starts_clean_and_reports_progress() {
    let dev = device(8192, true);
    let run = WipeRun::new(9, &dev, WipeAlgorithm::DoD522022M, WipeOptions::default(), 1_000_000);
    let r = run.result();
    assert!(!r.hpa_cleared && !r.dco_cleared && !r.hpa_detected);
    assert_eq!(r.status, WipeStatus::DetectingHPA);
    let p = run.progress(4096, 5, Some("x".to_string()), 3_000_000);
    assert_eq!(p.total_passes, 3);
    assert_eq!(p.total_bytes, 3 * 8192);
    assert_eq!(p.bytes_processed, 4096);
    assert_eq!(p.percentage_basis_points, 1666);
    assert_eq!(p.average_speed, 2048);
    assert_eq!(p.estimated_remaining_us, Some(10_000_000));
    assert_eq!(p.current_pass, 0);
    assert_eq!(p.status, WipeStatus::DetectingHPA);
}

#[test]
fn batches_of_samples() {
    assert!(all_wiped(&[vec![0u8; 16], vec![0xFFu8; 16]]));
    assert!(!all_wiped(&[vec![0u8; 16], (0..100).map(|i| (i % 3) as u8).collect()]));
    assert!(all_wiped(&[]));
}
