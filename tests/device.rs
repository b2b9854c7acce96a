use safe_erase::device::{filter_devices, Device, DeviceCapabilities, DeviceInfo, DeviceType, HealthStatus, StorageInterface};

fn disk(path: &str, size: u64, system: bool, removable: bool) -> DeviceInfo {
    DeviceInfo {
        path: path.to_string(),
        name: "Disk".to_string(),
        model: "Test SSD".to_string(),
        serial: "123456".to_string(),
        size,
        device_type: DeviceType::SSD,
        interface: StorageInterface::SATA,
        is_removable: removable,
        is_system_disk: system,
        supports_secure_erase: true,
        supports_hpa_dco: false,
        firmware_version: None,
        temperature: None,
        health_status: HealthStatus::Good,
    }
}

#[test]
fn test_device_type_display() {
    assert_eq!(DeviceType::SSD.label(), "Solid State Drive");
    assert_eq!(DeviceType::HDD.label(), "Hard Disk Drive");
}

#[test]
fn test_filter_devices() {
    let devices = vec![DeviceInfo {
        path: "/dev/sda".to_string(),
        name: "System Disk".to_string(),
        model: "Test SSD".to_string(),
        serial: "123456".to_string(),
        size: 1000000000,
        device_type: DeviceType::SSD,
        interface: StorageInterface::SATA,
        is_removable: false,
        is_system_disk: true,
        supports_secure_erase: true,
        supports_hpa_dco: false,
        firmware_version: None,
        temperature: None,
        health_status: HealthStatus::Good,
    }];

    let filtered = filter_devices(&devices, false, true, None);
    assert_eq!(filtered.len(), 0);

    let filtered = filter_devices(&devices, true, true, None);
    assert_eq!(filtered.len(), 1);
}

#[test]
fn filter_by_removable_and_size_keeps_order() {
    let devices = vec![
        disk("/dev/sda", 500, false, false),
        disk("/dev/sdb", 2000, false, true),
        disk("/dev/sdc", 3000, false, false),
        disk("/dev/sdd", 100, true, false),
    ];
    let kept = filter_devices(&devices, false, false, Some(1000));
    let paths: Vec<&str> = kept.iter().map(|d| d.path.as_str()).collect();
    assert_eq!(paths, vec!["/dev/sdc"]);
    let kept = filter_devices(&devices, true, true, None);
    assert_eq!(kept.len(), 4);
    assert_eq!(kept[3].path, "/dev/sdd");
}

#[test]
fn device_capability_queries() {
    let caps = DeviceCapabilities {
        supports_ata_secure_erase: false,
        supports_nvme_format: true,
        supports_trim: true,
        supports_write_same: true,
        supports_hpa_detection: false,
        supports_dco_detection: false,
        max_lba: 1000,
        logical_sector_size: 512,
        physical_sector_size: 4096,
    };
    let d = Device::new(disk("/dev/nvme0n1", 512000, false, false), caps);
    assert!(d.supports_secure_erase());
    assert!(!d.supports_hpa_dco());
    assert_eq!(d.path(), "/dev/nvme0n1");
    assert_eq!(d.capabilities().logical_sector_size, 512);
    assert_eq!(StorageInterface::IDE.label(), "IDE");
    assert_eq!(HealthStatus::Critical.label(), "Critical");
}
