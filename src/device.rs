//! Storage devices: what is known of a drive and what it can do.

use vstd::prelude::*;
use vstd::string::StringExecFns;

verus! {

/// The kind of storage device.
#[allow(non_camel_case_types)]
#[derive(Debug, Clone, Copy, PartialEq, Eq, Structural)]
pub enum DeviceType {
    HDD,
    SSD,
    NVMe,
    eMMC,
    SD,
    USB,
    Unknown,
}

impl DeviceType {
    pub open spec fn spec_label(self) -> Seq<char> {
        match self {
            DeviceType::HDD => "Hard Disk Drive"@,
            DeviceType::SSD => "Solid State Drive"@,
            DeviceType::NVMe => "NVMe SSD"@,
            DeviceType::eMMC => "eMMC Storage"@,
            DeviceType::SD => "SD Card"@,
            DeviceType::USB => "USB Storage"@,
            DeviceType::Unknown => "Unknown"@,
        }
    }

    /// The kind's name as shown to a user.
    pub fn label(&self) -> (r: String)
        ensures
            r@ == self.spec_label(),
    {
        match self {
            DeviceType::HDD => String::from_str("Hard Disk Drive"),
            DeviceType::SSD => String::from_str("Solid State Drive"),
            DeviceType::NVMe => String::from_str("NVMe SSD"),
            DeviceType::eMMC => String::from_str("eMMC Storage"),
            DeviceType::SD => String::from_str("SD Card"),
            DeviceType::USB => String::from_str("USB Storage"),
            DeviceType::Unknown => String::from_str("Unknown"),
        }
    }
}

/// The bus a device is attached by.
#[derive(Debug, Clone, Copy, PartialEq, Eq, Structural)]
pub enum StorageInterface {
    SATA,
    NVMe,
    USB,
    SCSI,
    IDE,
    MMC,
    Unknown,
}

impl StorageInterface {
    pub open spec fn spec_label(self) -> Seq<char> {
        match self {
            StorageInterface::SATA => "SATA"@,
            StorageInterface::NVMe => "NVMe"@,
            StorageInterface::USB => "USB"@,
            StorageInterface::SCSI => "SCSI"@,
            StorageInterface::IDE => "IDE"@,
            StorageInterface::MMC => "MMC"@,
            StorageInterface::Unknown => "Unknown"@,
        }
    }

    /// The bus's name.
    pub fn label(&self) -> (r: String)
        ensures
            r@ == self.spec_label(),
    {
        match self {
            StorageInterface::SATA => String::from_str("SATA"),
            StorageInterface::NVMe => String::from_str("NVMe"),
            StorageInterface::USB => String::from_str("USB"),
            StorageInterface::SCSI => String::from_str("SCSI"),
            StorageInterface::IDE => String::from_str("IDE"),
            StorageInterface::MMC => String::from_str("MMC"),
            StorageInterface::Unknown => String::from_str("Unknown"),
        }
    }
}

/// Health of a device as its SMART data report it.
#[derive(Debug, Clone, Copy, PartialEq, Eq, Structural)]
pub enum HealthStatus {
    Good,
    Warning,
    Critical,
    Unknown,
}

impl HealthStatus {
    pub open spec fn spec_label(self) -> Seq<char> {
        match self {
            HealthStatus::Good => "Good"@,
            HealthStatus::Warning => "Warning"@,
            HealthStatus::Critical => "Critical"@,
            HealthStatus::Unknown => "Unknown"@,
        }
    }

    /// The status's name.
    pub fn label(&self) -> (r: String)
        ensures
            r@ == self.spec_label(),
    {
        match self {
            HealthStatus::Good => String::from_str("Good"),
            HealthStatus::Warning => String::from_str("Warning"),
            HealthStatus::Critical => String::from_str("Critical"),
            HealthStatus::Unknown => String::from_str("Unknown"),
        }
    }
}

/// Identity and geometry of a storage device.
#[derive(Debug, Clone)]
pub struct DeviceInfo {
    pub path: String,
    pub name: String,
    pub model: String,
    pub serial: String,
    pub size: u64,
    pub device_type: DeviceType,
    pub interface: StorageInterface,
    pub is_removable: bool,
    pub is_system_disk: bool,
    pub supports_secure_erase: bool,
    pub supports_hpa_dco: bool,
    pub firmware_version: Option<String>,
    pub temperature: Option<i32>,
    pub health_status: HealthStatus,
}

/// The value of an optional string.
pub open spec fn opt_text(s: Option<String>) -> Option<Seq<char>> {
    match s {
        Some(t) => Some(t@),
        None => None,
    }
}

/// A copy of an optional string.
pub fn copy_opt_text(s: &Option<String>) -> (r: Option<String>)
    ensures
        opt_text(r) == opt_text(*s),
{
    match s {
        Some(t) => Some(t.clone()),
        None => None,
    }
}

impl DeviceInfo {
    /// Whether two descriptions say the same of a device.
    pub open spec fn same(self, o: DeviceInfo) -> bool {
        &&& self.path@ == o.path@
        &&& self.name@ == o.name@
        &&& self.model@ == o.model@
        &&& self.serial@ == o.serial@
        &&& self.size == o.size
        &&& self.device_type == o.device_type
        &&& self.interface == o.interface
        &&& self.is_removable == o.is_removable
        &&& self.is_system_disk == o.is_system_disk
        &&& self.supports_secure_erase == o.supports_secure_erase
        &&& self.supports_hpa_dco == o.supports_hpa_dco
        &&& opt_text(self.firmware_version) == opt_text(o.firmware_version)
        &&& self.temperature == o.temperature
        &&& self.health_status == o.health_status
    }

    /// A copy of the description.
    pub fn duplicate(&self) -> (r: DeviceInfo)
        ensures
            r.same(*self),
    {
        DeviceInfo {
            path: self.path.clone(),
            name: self.name.clone(),
            model: self.model.clone(),
            serial: self.serial.clone(),
            size: self.size,
            device_type: self.device_type,
            interface: self.interface,
            is_removable: self.is_removable,
            is_system_disk: self.is_system_disk,
            supports_secure_erase: self.supports_secure_erase,
            supports_hpa_dco: self.supports_hpa_dco,
            firmware_version: copy_opt_text(&self.firmware_version),
            temperature: self.temperature,
            health_status: self.health_status,
        }
    }
}

/// What a device supports for wiping, and its geometry.
#[derive(Debug, Clone, Copy, PartialEq, Eq, Structural)]
pub struct DeviceCapabilities {
    pub supports_ata_secure_erase: bool,
    pub supports_nvme_format: bool,
    pub supports_trim: bool,
    pub supports_write_same: bool,
    pub supports_hpa_detection: bool,
    pub supports_dco_detection: bool,
    pub max_lba: u64,
    pub logical_sector_size: u32,
    pub physical_sector_size: u32,
}

/// An opened device: the description read when it was opened, and its
/// capabilities. Both stay as they were read.
#[derive(Debug)]
pub struct Device {
    info: DeviceInfo,
    capabilities: DeviceCapabilities,
}

impl Device {
    pub closed spec fn spec_info(&self) -> DeviceInfo {
        self.info
    }

    pub closed spec fn spec_capabilities(&self) -> DeviceCapabilities {
        self.capabilities
    }

    /// A device with the given description and capabilities.
    pub fn new(info: DeviceInfo, capabilities: DeviceCapabilities) -> (r: Device)
        ensures
            r.spec_info() == info,
            r.spec_capabilities() == capabilities,
    {
        Device { info, capabilities }
    }

    /// The description read when the device was opened.
    pub fn info(&self) -> (r: &DeviceInfo)
        ensures
            *r == self.spec_info(),
    {
        &self.info
    }

    /// The device's capabilities.
    pub fn capabilities(&self) -> (r: &DeviceCapabilities)
        ensures
            *r == self.spec_capabilities(),
    {
        &self.capabilities
    }

    /// The device's path.
    pub fn path(&self) -> (r: &str)
        ensures
            r@ == self.spec_info().path@,
    {
        self.info.path.as_str()
    }

    /// Whether the drive has a secure-erase command of its own.
    pub fn supports_secure_erase(&self) -> (r: bool)
        ensures
            r == (self.spec_capabilities().supports_ata_secure_erase
                || self.spec_capabilities().supports_nvme_format),
    {
        self.capabilities.supports_ata_secure_erase || self.capabilities.supports_nvme_format
    }

    /// Whether hidden areas (HPA or DCO) can be detected on the drive.
    pub fn supports_hpa_dco(&self) -> (r: bool)
        ensures
            r == (self.spec_capabilities().supports_hpa_detection
                || self.spec_capabilities().supports_dco_detection),
    {
        self.capabilities.supports_hpa_detection || self.capabilities.supports_dco_detection
    }
}

/// Whether a device passes the filter.
pub open spec fn passes_filter(
    d: DeviceInfo,
    include_system: bool,
    include_removable: bool,
    min_size: Option<u64>,
) -> bool {
    &&& (include_system || !d.is_system_disk)
    &&& (include_removable || !d.is_removable)
    &&& match min_size {
        Some(m) => d.size >= m,
        None => true,
    }
}

/// The devices that pass the filter, in their order.
pub open spec fn filtered(
    ds: Seq<DeviceInfo>,
    include_system: bool,
    include_removable: bool,
    min_size: Option<u64>,
) -> Seq<DeviceInfo>
    decreases ds.len(),
{
    if ds.len() == 0 {
        Seq::empty()
    } else {
        let rest = filtered(ds.drop_last(), include_system, include_removable, min_size);
        if passes_filter(ds.last(), include_system, include_removable, min_size) {
            rest.push(ds.last())
        } else {
            rest
        }
    }
}

/// Whether two sequences of descriptions say the same, item by item.
pub open spec fn same_devices(a: Seq<DeviceInfo>, b: Seq<DeviceInfo>) -> bool {
    a.len() == b.len() && forall|i: int| 0 <= i < a.len() ==> (#[trigger] a[i]).same(b[i])
}

/// The devices that pass the filter: system disks only if `include_system`,
/// removable ones only if `include_removable`, and none smaller than
/// `min_size` where it is given.
pub fn filter_devices(
    devices: &[DeviceInfo],
    include_system: bool,
    include_removable: bool,
    min_size: Option<u64>,
) -> (r: Vec<DeviceInfo>)
    ensures
        same_devices(r@, filtered(devices@, include_system, include_removable, min_size)),
{
    let mut r: Vec<DeviceInfo> = Vec::new();
    let mut i: usize = 0;
    while i < devices.len()
        invariant
            i <= devices.len(),
            same_devices(
                r@,
                filtered(devices@.subrange(0, i as int), include_system, include_removable, min_size),
            ),
        decreases devices.len() - i,
    {
        let d = &devices[i];
        let keep = (include_system || !d.is_system_disk) && (include_removable || !d.is_removable)
            && match min_size {
            Some(m) => d.size >= m,
            None => true,
        };
        proof {
            assert(devices@.subrange(0, i as int + 1).drop_last() =~= devices@.subrange(0, i as int));
        }
        if keep {
            r.push(d.duplicate());
        }
        i += 1;
    }
    assert(devices@.subrange(0, devices.len() as int) =~= devices@);
    r
}

} // verus!
