use safe_erase::device::{DeviceType, HealthStatus, StorageInterface};
use safe_erase::platform::{
    contains_text, determine_device_type, parse_i32, determine_interface, is_whole_disk, parse_smart_output, type_features,
    SmartInfo,
};

const TABLE: &str = "ID# ATTRIBUTE_NAME          FLAG     VALUE WORST THRESH TYPE      UPDATED  WHEN_FAILED RAW_VALUE
  9 Power_On_Hours          0x0032   095   095   000    Old_age   Always       -       4521
194 Temperature_Celsius     0x0022   064   052   000    Old_age   Always       -       36
";

#[test]
fn smart_table_temperature() {
    let info = parse_smart_output(TABLE).unwrap();
    assert_eq!(info.temperature, Some(36));
    assert_eq!(info.health_status, HealthStatus::Good);
}

#[test]
fn smart_table_without_temperature() {
    let info = parse_smart_output("nothing here\n").unwrap();
    assert_eq!(info.temperature, None);
    let info = parse_smart_output("194 Temperature_Celsius 0x0022 064\n").unwrap();
    assert_eq!(info.temperature, None);
    assert_eq!(SmartInfo::default().health_status, HealthStatus::Unknown);
}

#[test]
fn interface_from_name() {
    assert_eq!(determine_interface("sda", DeviceType::SSD), StorageInterface::SATA);
    assert_eq!(determine_interface("hdb", DeviceType::HDD), StorageInterface::IDE);
    assert_eq!(determine_interface("nvme0n1", DeviceType::NVMe), StorageInterface::NVMe);
    assert_eq!(determine_interface("mmcblk0", DeviceType::Unknown), StorageInterface::Unknown);
    assert_eq!(determine_interface("s", DeviceType::HDD), StorageInterface::Unknown);
}

#[test]
fn substring_search() {
    assert!(contains_text("abcHPAdef", "HPA"));
    assert!(!contains_text("abc", "abcd"));
    assert!(contains_text("abc", ""));
}

#[test]
fn whole_disk_names() {
    assert!(is_whole_disk("sda"));
    assert!(!is_whole_disk("sda1"));
    assert!(!is_whole_disk(""));
    assert!(is_whole_disk("nvme0n1p"));
}

#[test]
fn device_kinds() {
    assert_eq!(determine_device_type("nvme0n1", Some("1"), None), DeviceType::NVMe);
    assert_eq!(determine_device_type("sda", Some("0"), None), DeviceType::SSD);
    assert_eq!(determine_device_type("sda", Some("1"), Some("Some SSD")), DeviceType::HDD);
    assert_eq!(determine_device_type("sdb", None, Some("Samsung SSD 860")), DeviceType::SSD);
    assert_eq!(determine_device_type("sdb", None, Some("Solid Drive")), DeviceType::SSD);
    assert_eq!(determine_device_type("sdb", None, Some("WD Blue")), DeviceType::Unknown);
    assert_eq!(type_features(DeviceType::SSD), (true, true));
    assert_eq!(type_features(DeviceType::HDD), (false, true));
    assert_eq!(type_features(DeviceType::NVMe), (true, false));
}

#[test]
fn integers_read_like_str_parse() {
    for t in ["0", "+12", "-7", "007", "2147483647", "-2147483648", "2147483648", "-2147483649", "", "-", "+", "1a", " 1", "99999999999"] {
        assert_eq!(parse_i32(t), t.parse::<i32>().ok(), "{}", t);
    }
}
