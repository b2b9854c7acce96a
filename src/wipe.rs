//! The wipe operation: options, the result record, the block-by-block plan of
//! one pass, and the state machine that orders the steps of an operation.
//!
//! The steps themselves (device I/O, drive commands, the cancellation token,
//! the clock) are carried out by the caller: it asks a `WipeRun` for its next
//! action, performs it, and hands back what happened.

use vstd::prelude::*;
use vstd::string::StringExecFns;

use crate::algorithms::{pattern_specs, WipeAlgorithm, WipePattern};
use crate::device::{Device, DeviceCapabilities, DeviceInfo};
use crate::error::SafeEraseError;

verus! {

/// The largest block written at once: 1 MiB.
pub const MAX_BLOCK_SIZE: usize = 1048576;

/// Blocks written between two yields to the scheduler.
pub const YIELD_EVERY: u64 = 100;

/// Where an operation stands.
#[derive(Debug, Clone, Copy, PartialEq, Eq, Structural)]
pub enum WipeStatus {
    Initializing,
    DetectingHPA,
    ClearingHPA,
    DetectingDCO,
    ClearingDCO,
    Wiping,
    Verifying,
    Completed,
    Failed,
    Cancelled,
}

impl WipeStatus {
    pub open spec fn spec_label(self) -> Seq<char> {
        match self {
            WipeStatus::Initializing => "Initializing"@,
            WipeStatus::DetectingHPA => "Detecting HPA"@,
            WipeStatus::ClearingHPA => "Clearing HPA"@,
            WipeStatus::DetectingDCO => "Detecting DCO"@,
            WipeStatus::ClearingDCO => "Clearing DCO"@,
            WipeStatus::Wiping => "Wiping"@,
            WipeStatus::Verifying => "Verifying"@,
            WipeStatus::Completed => "Completed"@,
            WipeStatus::Failed => "Failed"@,
            WipeStatus::Cancelled => "Cancelled"@,
        }
    }

    /// The status's name.
    pub fn label(&self) -> (r: String)
        ensures
            r@ == self.spec_label(),
    {
        match self {
            WipeStatus::Initializing => String::from_str("Initializing"),
            WipeStatus::DetectingHPA => String::from_str("Detecting HPA"),
            WipeStatus::ClearingHPA => String::from_str("Clearing HPA"),
            WipeStatus::DetectingDCO => String::from_str("Detecting DCO"),
            WipeStatus::ClearingDCO => String::from_str("Clearing DCO"),
            WipeStatus::Wiping => String::from_str("Wiping"),
            WipeStatus::Verifying => String::from_str("Verifying"),
            WipeStatus::Completed => String::from_str("Completed"),
            WipeStatus::Failed => String::from_str("Failed"),
            WipeStatus::Cancelled => String::from_str("Cancelled"),
        }
    }

    /// Whether the status is final.
    pub open spec fn spec_terminal(self) -> bool {
        self == WipeStatus::Completed || self == WipeStatus::Failed || self == WipeStatus::Cancelled
    }
}

/// How an operation is carried out.
#[derive(Debug, Clone, Copy, PartialEq, Eq, Structural)]
pub struct WipeOptions {
    /// Whether to verify the wipe after the passes.
    pub verify_wipe: bool,
    /// Samples read when verifying.
    pub verification_samples: usize,
    /// Whether to detect and clear hidden areas first.
    pub clear_hpa_dco: bool,
    /// Bytes written at once; at most 1 MiB is used.
    pub block_size: usize,
    /// Operations allowed at once.
    pub max_concurrent_ops: usize,
    /// Time allowed for the whole operation, in milliseconds.
    pub operation_timeout_ms: Option<u64>,
    /// Whether a drive's own erase command is used where the algorithm is one.
    pub prefer_hardware_erase: bool,
    /// Milliseconds between progress reports.
    pub progress_interval_ms: u64,
    /// Whether a disk holding the running system may be wiped.
    pub allow_system_disk: bool,
}

impl Default for WipeOptions {
    /// Verify with 100 samples, clear hidden areas, write 1 MiB blocks one
    /// operation at a time, allow 24 hours, prefer the drive's own command,
    /// and report progress every second.
    fn default() -> (r: WipeOptions)
        ensures
            r.verify_wipe,
            r.verification_samples == 100,
            r.clear_hpa_dco,
            r.block_size == MAX_BLOCK_SIZE,
            r.max_concurrent_ops == 1,
            r.operation_timeout_ms == Some(86400000u64),
            r.prefer_hardware_erase,
            r.progress_interval_ms == 1000,
            !r.allow_system_disk,
    {
        WipeOptions {
            verify_wipe: true,
            verification_samples: 100,
            clear_hpa_dco: true,
            block_size: MAX_BLOCK_SIZE,
            max_concurrent_ops: 1,
            operation_timeout_ms: Some(86400000),
            prefer_hardware_erase: true,
            progress_interval_ms: 1000,
            allow_system_disk: false,
        }
    }
}

/// Why a device may not be wiped, if it may not: a system disk without the
/// option that allows it, a logical sector size other than 512 or 4096
/// bytes, or a size that is not a whole number of sectors.
pub open spec fn refusal(info: DeviceInfo, caps: DeviceCapabilities, options: WipeOptions) -> Option<SafeEraseError> {
    if info.is_system_disk && !options.allow_system_disk {
        Some(SafeEraseError::DeviceAccessDenied(info.path))
    } else if caps.logical_sector_size != 512 && caps.logical_sector_size != 4096 {
        Some(SafeEraseError::UnsupportedDevice(info.path))
    } else if info.size % (caps.logical_sector_size as u64) != 0 {
        Some(SafeEraseError::UnsupportedDevice(info.path))
    } else {
        None
    }
}

/// Checks that `device` may be wiped under `options`.
pub fn admit_device(device: &Device, options: &WipeOptions) -> (r: Result<(), SafeEraseError>)
    ensures
        match refusal(device.spec_info(), device.spec_capabilities(), *options) {
            None => r is Ok,
            Some(SafeEraseError::DeviceAccessDenied(p)) => r matches Err(SafeEraseError::DeviceAccessDenied(q)) && q@ == p@,
            Some(SafeEraseError::UnsupportedDevice(p)) => r matches Err(SafeEraseError::UnsupportedDevice(q)) && q@ == p@,
            Some(_) => false,
        },
{
    let info = device.info();
    let caps = device.capabilities();
    if info.is_system_disk && !options.allow_system_disk {
        return Err(SafeEraseError::DeviceAccessDenied(info.path.clone()));
    }
    if caps.logical_sector_size != 512 && caps.logical_sector_size != 4096 {
        return Err(SafeEraseError::UnsupportedDevice(info.path.clone()));
    }
    if info.size % (caps.logical_sector_size as u64) != 0 {
        return Err(SafeEraseError::UnsupportedDevice(info.path.clone()));
    }
    Ok(())
}

/// Speeds and times of an operation.
#[derive(Debug, Clone, Copy, PartialEq, Eq, Structural)]
pub struct PerformanceStats {
    /// Mean of the passes' speeds, in bytes per second.
    pub average_speed: u64,
    /// Fastest pass, in bytes per second.
    pub peak_speed: u64,
    /// Microseconds from start to end.
    pub total_time_us: u64,
    /// Microseconds spent writing.
    pub wipe_time_us: u64,
    /// Microseconds spent verifying, where it was done.
    pub verification_time_us: Option<u64>,
}

/// The record of an operation. Times are microseconds since the Unix epoch.
#[derive(Debug, Clone)]
pub struct WipeResult {
    pub operation_id: u128,
    pub device_path: String,
    pub device_serial: String,
    pub device_model: String,
    pub algorithm: WipeAlgorithm,
    pub options: WipeOptions,
    pub status: WipeStatus,
    pub started_at: i64,
    pub completed_at: Option<i64>,
    /// Microseconds from `started_at` to `completed_at`.
    pub duration_us: Option<u64>,
    pub bytes_wiped: u64,
    pub passes_completed: usize,
    pub verification_requested: bool,
    pub verification_passed: Option<bool>,
    pub hpa_detected: bool,
    pub hpa_cleared: bool,
    pub dco_detected: bool,
    pub dco_cleared: bool,
    pub error_message: Option<String>,
    pub performance_stats: PerformanceStats,
}

/// Whether the algorithm runs as the drive's own command under the options.
pub open spec fn uses_hardware(alg: WipeAlgorithm, options: WipeOptions) -> bool {
    options.prefer_hardware_erase && alg.spec_hardware()
}

/// The passes a completed operation has made: one drive command, or one per
/// pattern.
pub open spec fn expected_passes(alg: WipeAlgorithm, options: WipeOptions) -> nat {
    if uses_hardware(alg, options) {
        1
    } else {
        alg.spec_patterns().len()
    }
}

/// Whether the times of a record agree: an end no earlier than the start,
/// and a duration that is their difference.
pub open spec fn times_agree(r: WipeResult) -> bool {
    match r.completed_at {
        Some(c) => c >= r.started_at && r.duration_us == Some((c - r.started_at) as u64),
        None => r.duration_us is None,
    }
}

/// The end time of an operation that started at `started` and ends when the
/// clock reads `now`: a clock that went back gives the start time.
pub open spec fn end_time(started: i64, now: i64) -> i64 {
    if now >= started { now } else { started }
}

/// One block of a pass.
#[derive(Debug, Clone, Copy, PartialEq, Eq, Structural)]
pub enum BlockStep {
    /// Write `len` bytes at sector `lba`; yield to the scheduler afterwards
    /// where `yield_after` is set.
    Write { lba: u64, len: usize, yield_after: bool },
    /// The pass has covered the device.
    Done { bytes: u64 },
    /// The pass was cancelled after `bytes` bytes.
    Cancelled { bytes: u64 },
}

/// The block-by-block progress of one pass over a device.
#[derive(Debug, Clone, Copy, PartialEq, Eq, Structural)]
pub struct PassPlan {
    device_size: u64,
    block_size: usize,
    sector_size: u32,
    written: u64,
    blocks: u64,
    cancelled: bool,
}

impl PassPlan {
    pub closed spec fn spec_device_size(self) -> u64 {
        self.device_size
    }

    pub closed spec fn spec_block_size(self) -> usize {
        self.block_size
    }

    pub closed spec fn spec_written(self) -> u64 {
        self.written
    }

    pub closed spec fn spec_cancelled(self) -> bool {
        self.cancelled
    }

    pub closed spec fn spec_sector_size(self) -> u32 {
        self.sector_size
    }

    /// Blocks written so far.
    pub closed spec fn spec_blocks(self) -> u64 {
        self.blocks
    }

    pub closed spec fn wf(self) -> bool {
        &&& self.written <= self.device_size
        &&& 1 <= self.block_size <= MAX_BLOCK_SIZE
        &&& self.sector_size >= 1
        &&& self.blocks <= self.written
    }

    /// A pass over `device_size` bytes in blocks of `block_size` bytes, held
    /// to at most 1 MiB, on a device of `sector_size`-byte sectors.
    pub fn new(device_size: u64, block_size: usize, sector_size: u32) -> (r: PassPlan)
        requires
            block_size >= 1,
            sector_size >= 1,
        ensures
            r.wf(),
            r.spec_device_size() == device_size,
            r.spec_block_size() == if block_size < MAX_BLOCK_SIZE { block_size } else { MAX_BLOCK_SIZE },
            r.spec_written() == 0,
            r.spec_sector_size() == sector_size,
            r.spec_blocks() == 0,
            !r.spec_cancelled(),
    {
        let b = if block_size < MAX_BLOCK_SIZE { block_size } else { MAX_BLOCK_SIZE };
        PassPlan { device_size, block_size: b, sector_size, written: 0, blocks: 0, cancelled: false }
    }

    /// The next step of the pass. `cancelled` tells whether the operation's
    /// cancellation token has been tripped: then no further block is written.
    /// Each block is as long as the block size or what is left of the device,
    /// whichever is less, and starts at the sector where the previous ended.
    pub fn next_block(&mut self, cancelled: bool) -> (r: BlockStep)
        requires
            old(self).wf(),
        ensures
            final(self).wf(),
            final(self).spec_device_size() == old(self).spec_device_size(),
            final(self).spec_block_size() == old(self).spec_block_size(),
            final(self).spec_sector_size() == old(self).spec_sector_size(),
            (cancelled || old(self).spec_cancelled()) ==> {
                &&& r == (BlockStep::Cancelled { bytes: old(self).spec_written() })
                &&& final(self).spec_written() == old(self).spec_written()
                &&& final(self).spec_cancelled()
            },
            !(cancelled || old(self).spec_cancelled()) && old(self).spec_written() == old(self).spec_device_size()
                ==> r == (BlockStep::Done { bytes: old(self).spec_written() }) && *final(self) == *old(self),
            !(cancelled || old(self).spec_cancelled()) && old(self).spec_written() < old(self).spec_device_size()
                ==> {
                let len = if old(self).spec_device_size() - old(self).spec_written() < old(self).spec_block_size() {
                    old(self).spec_device_size() - old(self).spec_written()
                } else {
                    old(self).spec_block_size() as int
                };
                &&& r matches BlockStep::Write { lba, len: l, yield_after: y }
                &&& l == len
                &&& l >= 1
                &&& lba as int == old(self).spec_written() as int / (old(self).spec_sector_size() as int)
                &&& y == (old(self).spec_blocks() % YIELD_EVERY == 0)
                &&& final(self).spec_written() == old(self).spec_written() + len
                &&& final(self).spec_blocks() == old(self).spec_blocks() + 1
                &&& !final(self).spec_cancelled()
            },
    {
        if cancelled || self.cancelled {
            self.cancelled = true;
            return BlockStep::Cancelled { bytes: self.written };
        }
        if self.written == self.device_size {
            return BlockStep::Done { bytes: self.written };
        }
        let left = self.device_size - self.written;
        let len: usize = if left < self.block_size as u64 {
            left as usize
        } else {
            self.block_size
        };
        let lba = self.written / self.sector_size as u64;
        let yield_after = self.blocks % YIELD_EVERY == 0;
        self.written = self.written + len as u64;
        self.blocks = self.blocks + 1;
        BlockStep::Write { lba, len, yield_after }
    }
}

/// A drive's own erase command.
#[derive(Debug, Clone, Copy, PartialEq, Eq, Structural)]
pub enum HardwareCommand {
    /// ATA Secure Erase, in its normal (not enhanced) form.
    AtaSecureErase { enhanced: bool },
    /// NVMe Format with secure erase.
    NvmeFormat { secure_erase: bool },
}

/// What the caller does next for an operation.
#[derive(Debug, Clone, PartialEq, Eq)]
pub enum WipeAction {
    /// Detect, and clear where found, a host protected area.
    DetectHpa,
    /// Detect, and clear where found, a device configuration overlay.
    DetectDco,
    /// Run the drive's own erase command.
    HardwareErase(HardwareCommand),
    /// Write pass `index` with `pattern` over the whole device.
    WritePass { index: usize, pattern: WipePattern },
    /// Flush the drive's write cache.
    FlushCache,
    /// Verify the wipe with the given number of samples.
    Verify { samples: usize },
    /// Nothing is left: the record is final.
    Finish,
}

/// What a hidden-area check found: whether an area was detected, and
/// whether clearing it succeeded.
#[derive(Debug, Clone, Copy, PartialEq, Eq, Structural)]
pub struct HiddenArea {
    pub detected: bool,
    pub cleared: bool,
}

/// Whether a check detected a hidden area; a failed check detected none.
pub open spec fn area_detected(found: Result<HiddenArea, SafeEraseError>) -> bool {
    found matches Ok(h) && h.detected
}

/// Whether a check detected a hidden area and cleared it.
pub open spec fn area_cleared(found: Result<HiddenArea, SafeEraseError>) -> bool {
    found matches Ok(h) && h.detected && h.cleared
}

/// Whether two records say the same of hidden areas.
pub open spec fn same_flags(a: WipeResult, b: WipeResult) -> bool {
    &&& a.hpa_detected == b.hpa_detected
    &&& a.hpa_cleared == b.hpa_cleared
    &&& a.dco_detected == b.dco_detected
    &&& a.dco_cleared == b.dco_cleared
}

/// Whether two records count the same bytes and passes.
pub open spec fn same_counts(a: WipeResult, b: WipeResult) -> bool {
    a.bytes_wiped == b.bytes_wiped && a.passes_completed == b.passes_completed
}

/// What came of the last action, or a cancellation.
#[derive(Debug)]
pub enum WipeEvent {
    /// The cancellation token was found tripped before the action.
    Cancelled,
    /// What the host-protected-area check found.
    HpaChecked(Result<HiddenArea, SafeEraseError>),
    /// What the device-configuration-overlay check found.
    DcoChecked(Result<HiddenArea, SafeEraseError>),
    /// The drive's own command ran, taking `micros`.
    HardwareErased { outcome: Result<(), SafeEraseError>, micros: u64 },
    /// A pass wrote `bytes` bytes in `micros` microseconds.
    PassWritten { bytes: u64, micros: u64 },
    /// A pass was cancelled after `bytes` bytes.
    PassCancelled { bytes: u64 },
    /// A pass failed.
    PassFailed(SafeEraseError),
    /// The write cache was flushed, or the flush failed: either way the
    /// operation goes on.
    Flushed,
    /// Verification found the wipe sound or not, taking `micros`.
    Verified { passed: Result<bool, SafeEraseError>, micros: u64 },
}

/// The step an operation is at.
#[derive(Debug, Clone, Copy, PartialEq, Eq, Structural)]
pub enum Phase {
    Hpa,
    Dco,
    Wiping,
    Flush,
    Verify,
    Done,
}

/// The state of one operation.
#[derive(Debug)]
pub struct WipeRun {
    result: WipeResult,
    patterns: Vec<WipePattern>,
    phase: Phase,
    device_size: u64,
    speed_sum: u128,
    checks_hidden: bool,
}

/// The status shown while an operation is at a step.
pub open spec fn phase_status(p: Phase) -> WipeStatus {
    match p {
        Phase::Hpa => WipeStatus::DetectingHPA,
        Phase::Dco => WipeStatus::DetectingDCO,
        Phase::Wiping => WipeStatus::Wiping,
        Phase::Flush => WipeStatus::Wiping,
        Phase::Verify => WipeStatus::Verifying,
        Phase::Done => WipeStatus::Completed,
    }
}

/// The step after hidden areas are dealt with: writing, or the flush where
/// there is nothing to write.
pub open spec fn wiping_phase(alg: WipeAlgorithm, options: WipeOptions) -> Phase {
    if !uses_hardware(alg, options) && alg.spec_patterns().len() == 0 {
        Phase::Flush
    } else {
        Phase::Wiping
    }
}

/// The step after the passes: verification where it was asked for.
pub open spec fn after_passes(options: WipeOptions) -> Phase {
    if options.verify_wipe { Phase::Verify } else { Phase::Done }
}

/// Whether `r` is `old` with `status`, brought to an end at `now`.
pub open spec fn ended(old: WipeResult, r: WipeResult, status: WipeStatus, now: i64) -> bool {
    let c = end_time(old.started_at, now);
    &&& r.status == status
    &&& r.completed_at == Some(c)
    &&& r.duration_us == Some((c - old.started_at) as u64)
    &&& r.performance_stats.total_time_us == (c - old.started_at) as u64
}

/// The bytes per second of `bytes` written in `micros` microseconds (one
/// microsecond at least), held to what a `u64` takes.
pub open spec fn speed(bytes: u64, micros: u64) -> u64 {
    let m = if micros == 0 { 1 } else { micros as int };
    let v = bytes as int * 1000000 / m;
    if v > u64::MAX { u64::MAX } else { v as u64 }
}

fn speed_exec(bytes: u64, micros: u64) -> (r: u64)
    ensures
        r == speed(bytes, micros),
{
    let m: u128 = if micros == 0 { 1 } else { micros as u128 };
    let v: u128 = (bytes as u128) * 1000000 / m;
    if v > u64::MAX as u128 { u64::MAX } else { v as u64 }
}

impl WipeRun {
    pub closed spec fn spec_result(&self) -> WipeResult {
        self.result
    }

    pub closed spec fn spec_phase(&self) -> Phase {
        self.phase
    }

    pub closed spec fn spec_device_size(&self) -> u64 {
        self.device_size
    }

    /// The invariant of an operation.
    pub closed spec fn wf(&self) -> bool {
        let r = self.result;
        &&& times_agree(r)
        &&& pattern_specs(self.patterns@) == r.algorithm.spec_patterns()
        &&& (self.phase == Phase::Done) == r.status.spec_terminal()
        &&& self.phase != Phase::Done ==> r.completed_at is None && r.status == phase_status(self.phase)
        &&& self.phase == Phase::Done ==> r.completed_at is Some
        &&& (self.phase == Phase::Flush || self.phase == Phase::Verify || r.status == WipeStatus::Completed)
            ==> r.passes_completed == expected_passes(r.algorithm, r.options)
        &&& self.phase == Phase::Wiping && uses_hardware(r.algorithm, r.options) ==> r.passes_completed == 0
        &&& self.phase == Phase::Wiping && !uses_hardware(r.algorithm, r.options)
            ==> r.passes_completed < self.patterns@.len()
        &&& (self.phase == Phase::Hpa || self.phase == Phase::Dco) ==> r.passes_completed == 0
        &&& r.passes_completed <= expected_passes(r.algorithm, r.options)
        &&& self.speed_sum <= r.passes_completed as int * u64::MAX as int
        &&& r.hpa_cleared ==> r.hpa_detected
        &&& r.dco_cleared ==> r.dco_detected
        &&& !self.checks_hidden ==> self.phase != Phase::Hpa && self.phase != Phase::Dco && !r.hpa_detected
            && !r.dco_detected
        &&& uses_hardware(r.algorithm, r.options) ==> self.phase != Phase::Flush
        &&& (self.phase == Phase::Verify || r.status == WipeStatus::Completed) && uses_hardware(r.algorithm, r.options)
            ==> r.bytes_wiped == self.device_size
    }

    /// Whether the operation checks for hidden areas before writing.
    pub closed spec fn spec_checks_hidden(&self) -> bool {
        self.checks_hidden
    }

    /// A new operation on `device` that started at `started_at`. It first
    /// deals with hidden areas, where the options ask for it and the drive
    /// can detect them, and then writes.
    pub fn new(
        operation_id: u128,
        device: &Device,
        algorithm: WipeAlgorithm,
        options: WipeOptions,
        started_at: i64,
    ) -> (r: WipeRun)
        ensures
            r.wf(),
            r.spec_result().operation_id == operation_id,
            r.spec_result().device_path@ == device.spec_info().path@,
            r.spec_result().device_serial@ == device.spec_info().serial@,
            r.spec_result().device_model@ == device.spec_info().model@,
            r.spec_result().algorithm == algorithm,
            r.spec_result().options == options,
            r.spec_result().started_at == started_at,
            r.spec_result().completed_at is None,
            r.spec_result().bytes_wiped == 0,
            r.spec_result().passes_completed == 0,
            r.spec_result().verification_requested == options.verify_wipe,
            r.spec_result().verification_passed is None,
            !r.spec_result().hpa_detected && !r.spec_result().dco_detected,
            r.spec_result().error_message is None,
            !r.spec_result().hpa_cleared && !r.spec_result().dco_cleared,
            r.spec_result().status == phase_status(r.spec_phase()),
            r.spec_checks_hidden() == (options.clear_hpa_dco && (device.spec_capabilities().supports_hpa_detection
                || device.spec_capabilities().supports_dco_detection)),
            r.spec_device_size() == device.spec_info().size,
            r.spec_phase() == if options.clear_hpa_dco && (device.spec_capabilities().supports_hpa_detection
                || device.spec_capabilities().supports_dco_detection) {
                Phase::Hpa
            } else {
                wiping_phase(algorithm, options)
            },
    {
        let info = device.info();
        let patterns = algorithm.patterns();
        let hardware = options.prefer_hardware_erase && algorithm.is_hardware_based();
        let phase = if options.clear_hpa_dco && device.supports_hpa_dco() {
            Phase::Hpa
        } else if !hardware && patterns.len() == 0 {
            Phase::Flush
        } else {
            Phase::Wiping
        };
        let status = match phase {
            Phase::Hpa => WipeStatus::DetectingHPA,
            _ => WipeStatus::Wiping,
        };
        let result = WipeResult {
            operation_id,
            device_path: info.path.clone(),
            device_serial: info.serial.clone(),
            device_model: info.model.clone(),
            algorithm,
            options,
            status,
            started_at,
            completed_at: None,
            duration_us: None,
            bytes_wiped: 0,
            passes_completed: 0,
            verification_requested: options.verify_wipe,
            verification_passed: None,
            hpa_detected: false,
            hpa_cleared: false,
            dco_detected: false,
            dco_cleared: false,
            error_message: None,
            performance_stats: PerformanceStats {
                average_speed: 0,
                peak_speed: 0,
                total_time_us: 0,
                wipe_time_us: 0,
                verification_time_us: None,
            },
        };
        let checks_hidden = options.clear_hpa_dco && device.supports_hpa_dco();
        WipeRun { result, patterns, phase, device_size: info.size, speed_sum: 0, checks_hidden }
    }

    /// The record as it stands.
    pub fn result(&self) -> (r: &WipeResult)
        ensures
            *r == self.spec_result(),
    {
        &self.result
    }

    /// The record, giving up the operation.
    pub fn into_result(self) -> (r: WipeResult)
        ensures
            r == self.spec_result(),
    {
        self.result
    }

    /// Brings the operation to an end with `status` at `now`.
    fn end(&mut self, status: WipeStatus, now: i64)
        requires
            status.spec_terminal(),
        ensures
            ended(old(self).spec_result(), final(self).spec_result(), status, now),
            final(self).spec_result() == (WipeResult {
                status: final(self).spec_result().status,
                completed_at: final(self).spec_result().completed_at,
                duration_us: final(self).spec_result().duration_us,
                performance_stats: final(self).spec_result().performance_stats,
                ..old(self).spec_result()
            }),
            final(self).spec_result().performance_stats == (PerformanceStats {
                total_time_us: final(self).spec_result().performance_stats.total_time_us,
                ..old(self).spec_result().performance_stats
            }),
            final(self).spec_phase() == Phase::Done,
            final(self).patterns == old(self).patterns,
            final(self).device_size == old(self).device_size,
            final(self).speed_sum == old(self).speed_sum,
            final(self).checks_hidden == old(self).checks_hidden,
    {
        let started = self.result.started_at;
        let c = if now >= started { now } else { started };
        let d = ((c as i128) - (started as i128)) as u64;
        self.result.status = status;
        self.result.completed_at = Some(c);
        self.result.duration_us = Some(d);
        self.result.performance_stats.total_time_us = d;
        self.phase = Phase::Done;
    }

    /// What the caller does next.
    pub fn next_action(&self) -> (r: WipeAction)
        requires
            self.wf(),
        ensures
            self.spec_phase() == Phase::Hpa ==> r == WipeAction::DetectHpa,
            self.spec_phase() == Phase::Dco ==> r == WipeAction::DetectDco,
            self.spec_phase() == Phase::Wiping && uses_hardware(self.spec_result().algorithm, self.spec_result().options)
                ==> r == WipeAction::HardwareErase(
                    if self.spec_result().algorithm is ATASecureErase {
                        HardwareCommand::AtaSecureErase { enhanced: false }
                    } else {
                        HardwareCommand::NvmeFormat { secure_erase: true }
                    },
                ),
            self.spec_phase() == Phase::Wiping && !uses_hardware(self.spec_result().algorithm, self.spec_result().options)
                ==> (r matches WipeAction::WritePass { index, pattern }
                    && index == self.spec_result().passes_completed
                    && pattern@ == self.spec_result().algorithm.spec_patterns()[index as int]),
            self.spec_phase() == Phase::Flush ==> r == WipeAction::FlushCache,
            self.spec_phase() == Phase::Verify ==> r == (WipeAction::Verify {
                samples: if self.spec_result().options.verification_samples < 1000 {
                    self.spec_result().options.verification_samples
                } else {
                    1000
                },
            }),
            self.spec_phase() == Phase::Done ==> r == WipeAction::Finish,
    {
        match self.phase {
            Phase::Hpa => WipeAction::DetectHpa,
            Phase::Dco => WipeAction::DetectDco,
            Phase::Wiping => {
                if self.result.options.prefer_hardware_erase && self.result.algorithm.is_hardware_based() {
                    match self.result.algorithm {
                        WipeAlgorithm::ATASecureErase => WipeAction::HardwareErase(
                            HardwareCommand::AtaSecureErase { enhanced: false },
                        ),
                        _ => WipeAction::HardwareErase(HardwareCommand::NvmeFormat { secure_erase: true }),
                    }
                } else {
                    let index = self.result.passes_completed;
                    proof {
                        assert(pattern_specs(self.patterns@)[index as int] == self.patterns@[index as int]@);
                    }
                    WipeAction::WritePass { index, pattern: self.patterns[index].copy() }
                }
            },
            Phase::Flush => WipeAction::FlushCache,
            Phase::Verify => {
                let n = self.result.options.verification_samples;
                WipeAction::Verify { samples: if n < 1000 { n } else { 1000 } }
            },
            Phase::Done => WipeAction::Finish,
        }
    }
}

/// Whether two records are of the same operation: same identity, device,
/// algorithm, options and start.
pub open spec fn same_operation(a: WipeResult, b: WipeResult) -> bool {
    &&& a.operation_id == b.operation_id
    &&& a.device_path@ == b.device_path@
    &&& a.device_serial@ == b.device_serial@
    &&& a.device_model@ == b.device_model@
    &&& a.algorithm == b.algorithm
    &&& a.options == b.options
    &&& a.started_at == b.started_at
    &&& a.verification_requested == b.verification_requested
}

impl WipeRun {
    fn on_hpa(&mut self, detected: bool, cleared: bool)
        requires
            old(self).wf(),
            cleared ==> detected,
            old(self).spec_phase() == Phase::Hpa,
        ensures
            final(self).wf(),
            final(self).spec_result() == (WipeResult {
                hpa_detected: detected,
                hpa_cleared: cleared,
                status: WipeStatus::DetectingDCO,
                ..old(self).spec_result()
            }),
            final(self).spec_phase() == Phase::Dco,
            final(self).spec_device_size() == old(self).spec_device_size(),
    {
        self.result.hpa_detected = detected;
        self.result.hpa_cleared = cleared;
        self.phase = Phase::Dco;
        self.result.status = WipeStatus::DetectingDCO;
    }

    fn on_dco(&mut self, detected: bool, cleared: bool)
        requires
            old(self).wf(),
            cleared ==> detected,
            old(self).spec_phase() == Phase::Dco,
        ensures
            final(self).wf(),
            final(self).spec_result() == (WipeResult {
                dco_detected: detected,
                dco_cleared: cleared,
                status: WipeStatus::Wiping,
                ..old(self).spec_result()
            }),
            final(self).spec_phase() == wiping_phase(old(self).spec_result().algorithm, old(self).spec_result().options),
            final(self).spec_device_size() == old(self).spec_device_size(),
    {
        let hardware = self.result.options.prefer_hardware_erase && self.result.algorithm.is_hardware_based();
        self.result.dco_detected = detected;
        self.result.dco_cleared = cleared;
        self.phase = if !hardware && self.patterns.len() == 0 {
            Phase::Flush
        } else {
            Phase::Wiping
        };
        self.result.status = WipeStatus::Wiping;
    }

    fn fail(&mut self, message: String, now: i64)
        requires
            old(self).wf(),
            old(self).spec_phase() != Phase::Done,
        ensures
            same_flags(final(self).spec_result(), old(self).spec_result()),
            same_counts(final(self).spec_result(), old(self).spec_result()),
            final(self).wf(),
            same_operation(final(self).spec_result(), old(self).spec_result()),
            ended(old(self).spec_result(), final(self).spec_result(), WipeStatus::Failed, now),
            final(self).spec_result().error_message matches Some(m) && m@ == message@,
            final(self).spec_device_size() == old(self).spec_device_size(),
    {
        self.result.error_message = Some(message);
        self.end(WipeStatus::Failed, now);
    }

    /// After the passes: verification where it was asked for, the end otherwise.
    fn after_passes(&mut self, now: i64)
        requires
            old(self).wf(),
            old(self).spec_phase() != Phase::Done,
            old(self).spec_result().passes_completed == expected_passes(
                old(self).spec_result().algorithm,
                old(self).spec_result().options,
            ),
        ensures
            same_flags(final(self).spec_result(), old(self).spec_result()),
            final(self).wf(),
            same_operation(final(self).spec_result(), old(self).spec_result()),
            final(self).spec_result().bytes_wiped == old(self).spec_result().bytes_wiped,
            final(self).spec_result().passes_completed == old(self).spec_result().passes_completed,
            final(self).spec_result().performance_stats.wipe_time_us == old(self).spec_result().performance_stats.wipe_time_us,
            final(self).spec_result().performance_stats.peak_speed == old(self).spec_result().performance_stats.peak_speed,
            old(self).spec_result().options.verify_wipe ==> final(self).spec_phase() == Phase::Verify,
            !old(self).spec_result().options.verify_wipe ==> ended(
                old(self).spec_result(), final(self).spec_result(), WipeStatus::Completed, now),
            final(self).spec_device_size() == old(self).spec_device_size(),
    {
        if self.result.options.verify_wipe {
            self.phase = Phase::Verify;
            self.result.status = WipeStatus::Verifying;
        } else {
            self.end(WipeStatus::Completed, now);
        }
    }

    fn on_hardware_done(&mut self, micros: u64, now: i64)
        requires
            old(self).wf(),
            old(self).spec_phase() == Phase::Wiping,
            uses_hardware(old(self).spec_result().algorithm, old(self).spec_result().options),
        ensures
            same_flags(final(self).spec_result(), old(self).spec_result()),
            final(self).wf(),
            same_operation(final(self).spec_result(), old(self).spec_result()),
            final(self).spec_result().bytes_wiped == old(self).spec_device_size(),
            final(self).spec_result().passes_completed == 1,
            final(self).spec_result().performance_stats.wipe_time_us == micros,
            final(self).spec_result().performance_stats.peak_speed == speed(old(self).spec_device_size(), micros),
            old(self).spec_result().options.verify_wipe ==> final(self).spec_phase() == Phase::Verify,
            !old(self).spec_result().options.verify_wipe ==> ended(
                old(self).spec_result(), final(self).spec_result(), WipeStatus::Completed, now),
            final(self).spec_device_size() == old(self).spec_device_size(),
    {
        let sp = speed_exec(self.device_size, micros);
        self.result.bytes_wiped = self.device_size;
        self.result.passes_completed = 1;
        self.result.performance_stats.wipe_time_us = micros;
        self.result.performance_stats.average_speed = sp;
        self.result.performance_stats.peak_speed = sp;
        self.speed_sum = sp as u128;
        if self.result.options.verify_wipe {
            self.phase = Phase::Verify;
            self.result.status = WipeStatus::Verifying;
        } else {
            self.end(WipeStatus::Completed, now);
        }
    }

    fn on_pass_written(&mut self, bytes: u64, micros: u64)
        requires
            old(self).wf(),
            old(self).spec_phase() == Phase::Wiping,
            !uses_hardware(old(self).spec_result().algorithm, old(self).spec_result().options),
        ensures
            same_flags(final(self).spec_result(), old(self).spec_result()),
            final(self).wf(),
            same_operation(final(self).spec_result(), old(self).spec_result()),
            final(self).spec_result().bytes_wiped == if old(self).spec_result().bytes_wiped + bytes > u64::MAX {
                u64::MAX as int
            } else {
                old(self).spec_result().bytes_wiped + bytes
            },
            final(self).spec_result().passes_completed == old(self).spec_result().passes_completed + 1,
            final(self).spec_phase() == if final(self).spec_result().passes_completed
                == old(self).spec_result().algorithm.spec_patterns().len() {
                Phase::Flush
            } else {
                Phase::Wiping
            },
            final(self).spec_device_size() == old(self).spec_device_size(),
    {
        let plen = self.patterns.len();
        let total = self.result.bytes_wiped;
        self.result.bytes_wiped = if total > u64::MAX - bytes { u64::MAX } else { total + bytes };
        let sp = speed_exec(bytes, micros);
        let n = self.result.passes_completed + 1;
        proof {
            assert(self.speed_sum + sp <= n as int * u64::MAX as int) by (nonlinear_arith)
                requires self.speed_sum <= (n - 1) as int * u64::MAX as int, sp <= u64::MAX;
        }
        self.speed_sum = self.speed_sum + sp as u128;
        self.result.passes_completed = n;
        let pst = self.result.performance_stats;
        self.result.performance_stats.wipe_time_us = if pst.wipe_time_us > u64::MAX - micros {
            u64::MAX
        } else {
            pst.wipe_time_us + micros
        };
        if sp > pst.peak_speed {
            self.result.performance_stats.peak_speed = sp;
        }
        proof {
            vstd::arithmetic::div_mod::lemma_div_is_ordered(self.speed_sum as int, n as int * u64::MAX as int, n as int);
            vstd::arithmetic::div_mod::lemma_div_multiples_vanish(u64::MAX as int, n as int);
        }
        self.result.performance_stats.average_speed = (self.speed_sum / n as u128) as u64;
        if n == plen {
            self.phase = Phase::Flush;
        }
    }

    fn on_verified(&mut self, ok: bool, micros: u64, now: i64)
        requires
            old(self).wf(),
            old(self).spec_phase() == Phase::Verify,
        ensures
            same_flags(final(self).spec_result(), old(self).spec_result()),
            same_counts(final(self).spec_result(), old(self).spec_result()),
            final(self).wf(),
            same_operation(final(self).spec_result(), old(self).spec_result()),
            final(self).spec_result().verification_passed == Some(ok),
            final(self).spec_result().performance_stats.verification_time_us == Some(micros),
            ok ==> ended(old(self).spec_result(), final(self).spec_result(), WipeStatus::Completed, now),
            !ok ==> ended(old(self).spec_result(), final(self).spec_result(), WipeStatus::Failed, now),
            !ok ==> (final(self).spec_result().error_message matches Some(m) && m@ == "Wipe verification failed"@),
            final(self).spec_device_size() == old(self).spec_device_size(),
    {
        self.result.verification_passed = Some(ok);
        self.result.performance_stats.verification_time_us = Some(micros);
        if ok {
            self.end(WipeStatus::Completed, now);
        } else {
            self.result.error_message = Some(String::from_str("Wipe verification failed"));
            self.end(WipeStatus::Failed, now);
        }
    }

    /// Takes in what came of the last action, or a cancellation, at time
    /// `now`. An event that does not answer the current step changes nothing;
    /// an ended operation changes no more.
    ///
    /// A cancellation ends any unfinished operation as Cancelled, keeping the
    /// bytes and passes counted so far. A hidden-area check records whether
    /// an area was detected, and counts it cleared only where it was detected
    /// and clearing succeeded; a failed check records nothing and the wipe
    /// goes on. Later steps keep these records, and the steps that write
    /// nothing keep the bytes and passes counted. A failed pass or drive command ends the operation as Failed
    /// with the error's text. After the last pass the cache is flushed, and a
    /// failed flush does not stop the operation. Verification that does not
    /// pass, or fails to run, ends it as Failed with "Wipe verification
    /// failed"; otherwise it ends Completed.
    #[verifier::rlimit(60)]
    pub fn apply(&mut self, event: WipeEvent, now: i64)
        requires
            old(self).wf(),
        ensures
            final(self).wf(),
            same_operation(final(self).spec_result(), old(self).spec_result()),
            final(self).spec_device_size() == old(self).spec_device_size(),
            old(self).spec_phase() == Phase::Done ==> final(self).spec_result() == old(self).spec_result()
                && final(self).spec_phase() == Phase::Done,
            !(old(self).spec_phase() == Phase::Hpa && event is HpaChecked) && !(old(self).spec_phase() == Phase::Dco
                && event is DcoChecked) ==> same_flags(final(self).spec_result(), old(self).spec_result()),
            (event is Flushed || event is Verified || event is Cancelled || event is HpaChecked || event is DcoChecked)
                ==> same_counts(final(self).spec_result(), old(self).spec_result()),
            old(self).spec_phase() != Phase::Done && event is Cancelled ==> {
                &&& ended(old(self).spec_result(), final(self).spec_result(), WipeStatus::Cancelled, now)
                &&& final(self).spec_result().bytes_wiped == old(self).spec_result().bytes_wiped
                &&& final(self).spec_result().passes_completed == old(self).spec_result().passes_completed
            },
            old(self).spec_phase() == Phase::Hpa ==> (event matches WipeEvent::HpaChecked(found) ==> {
                &&& final(self).spec_phase() == Phase::Dco
                &&& final(self).spec_result().hpa_detected == area_detected(found)
                &&& final(self).spec_result().hpa_cleared == area_cleared(found)
            }),
            old(self).spec_phase() == Phase::Dco ==> (event matches WipeEvent::DcoChecked(found) ==> {
                &&& final(self).spec_phase() == wiping_phase(old(self).spec_result().algorithm, old(self).spec_result().options)
                &&& final(self).spec_result().dco_detected == area_detected(found)
                &&& final(self).spec_result().dco_cleared == area_cleared(found)
                &&& final(self).spec_result().hpa_detected == old(self).spec_result().hpa_detected
                &&& final(self).spec_result().hpa_cleared == old(self).spec_result().hpa_cleared
            }),
            old(self).spec_phase() == Phase::Wiping && uses_hardware(old(self).spec_result().algorithm, old(self).spec_result().options)
                ==> (event matches WipeEvent::HardwareErased { outcome, micros } ==> match outcome {
                    Ok(_) => {
                        &&& final(self).spec_result().bytes_wiped == old(self).spec_device_size()
                        &&& final(self).spec_result().passes_completed == 1
                        &&& final(self).spec_result().performance_stats.wipe_time_us == micros
                        &&& final(self).spec_result().performance_stats.peak_speed == speed(old(self).spec_device_size(), micros)
                        &&& old(self).spec_result().options.verify_wipe ==> final(self).spec_phase() == Phase::Verify
                        &&& !old(self).spec_result().options.verify_wipe ==> ended(
                            old(self).spec_result(), final(self).spec_result(), WipeStatus::Completed, now)
                    },
                    Err(e) => {
                        &&& ended(old(self).spec_result(), final(self).spec_result(), WipeStatus::Failed, now)
                        &&& final(self).spec_result().error_message matches Some(m) && m@ == e.spec_message()
                    },
                }),
            old(self).spec_phase() == Phase::Wiping && !uses_hardware(old(self).spec_result().algorithm, old(self).spec_result().options)
                ==> {
                &&& event matches WipeEvent::PassWritten { bytes, micros } ==> {
                    &&& final(self).spec_result().bytes_wiped == if old(self).spec_result().bytes_wiped + bytes > u64::MAX {
                        u64::MAX as int
                    } else {
                        old(self).spec_result().bytes_wiped + bytes
                    }
                    &&& final(self).spec_result().passes_completed == old(self).spec_result().passes_completed + 1
                    &&& final(self).spec_phase() == if final(self).spec_result().passes_completed
                        == old(self).spec_result().algorithm.spec_patterns().len() {
                        Phase::Flush
                    } else {
                        Phase::Wiping
                    }
                }
                &&& event matches WipeEvent::PassCancelled { bytes } ==> {
                    &&& ended(old(self).spec_result(), final(self).spec_result(), WipeStatus::Cancelled, now)
                    &&& final(self).spec_result().passes_completed == old(self).spec_result().passes_completed
                    &&& final(self).spec_result().bytes_wiped == if old(self).spec_result().bytes_wiped + bytes > u64::MAX {
                        u64::MAX as int
                    } else {
                        old(self).spec_result().bytes_wiped + bytes
                    }
                }
                &&& event matches WipeEvent::PassFailed(e) ==> {
                    &&& ended(old(self).spec_result(), final(self).spec_result(), WipeStatus::Failed, now)
                    &&& final(self).spec_result().error_message matches Some(m) && m@ == e.spec_message()
                }
            },
            old(self).spec_phase() == Phase::Flush && event is Flushed ==> {
                &&& old(self).spec_result().options.verify_wipe ==> final(self).spec_phase() == Phase::Verify
                &&& !old(self).spec_result().options.verify_wipe ==> ended(
                    old(self).spec_result(), final(self).spec_result(), WipeStatus::Completed, now)
            },
            old(self).spec_phase() == Phase::Verify ==> (event matches WipeEvent::Verified { passed, micros } ==> {
                &&& final(self).spec_result().verification_passed == Some(passed == Ok::<bool, SafeEraseError>(true))
                &&& final(self).spec_result().performance_stats.verification_time_us == Some(micros)
                &&& passed == Ok::<bool, SafeEraseError>(true) ==> ended(
                    old(self).spec_result(), final(self).spec_result(), WipeStatus::Completed, now)
                &&& passed != Ok::<bool, SafeEraseError>(true) ==> {
                    &&& ended(old(self).spec_result(), final(self).spec_result(), WipeStatus::Failed, now)
                    &&& final(self).spec_result().error_message matches Some(m) && m@ == "Wipe verification failed"@
                }
            }),
    {
        if self.phase == Phase::Done {
            return;
        }
        let hardware = self.result.options.prefer_hardware_erase && self.result.algorithm.is_hardware_based();
        match event {
            WipeEvent::Cancelled => {
                self.end(WipeStatus::Cancelled, now);
            },
            WipeEvent::HpaChecked(found) => {
                if self.phase == Phase::Hpa {
                    let (detected, cleared) = match found {
                        Ok(h) => (h.detected, h.detected && h.cleared),
                        Err(_) => (false, false),
                    };
                    self.on_hpa(detected, cleared);
                }
            },
            WipeEvent::DcoChecked(found) => {
                if self.phase == Phase::Dco {
                    let (detected, cleared) = match found {
                        Ok(h) => (h.detected, h.detected && h.cleared),
                        Err(_) => (false, false),
                    };
                    self.on_dco(detected, cleared);
                }
            },
            WipeEvent::HardwareErased { outcome, micros } => {
                if self.phase == Phase::Wiping && hardware {
                    match outcome {
                        Ok(_) => self.on_hardware_done(micros, now),
                        Err(e) => self.fail(e.message(), now),
                    }
                }
            },
            WipeEvent::PassWritten { bytes, micros } => {
                if self.phase == Phase::Wiping && !hardware {
                    self.on_pass_written(bytes, micros);
                }
            },
            WipeEvent::PassCancelled { bytes } => {
                if self.phase == Phase::Wiping && !hardware {
                    let total = self.result.bytes_wiped;
                    self.result.bytes_wiped = if total > u64::MAX - bytes { u64::MAX } else { total + bytes };
                    self.end(WipeStatus::Cancelled, now);
                }
            },
            WipeEvent::PassFailed(e) => {
                if self.phase == Phase::Wiping && !hardware {
                    self.fail(e.message(), now);
                }
            },
            WipeEvent::Flushed => {
                if self.phase == Phase::Flush {
                    self.after_passes(now);
                }
            },
            WipeEvent::Verified { passed, micros } => {
                if self.phase == Phase::Verify {
                    let ok = match passed {
                        Ok(b) => b,
                        Err(_) => false,
                    };
                    self.on_verified(ok, micros, now);
                }
            },
        }
    }
}

/// Laws of every operation record: a completed operation has made every
/// pass of its algorithm (one, for a drive's own command, which covers the
/// whole device); a record's end is no earlier than its start, with the
/// duration their difference; an unfinished operation shows the status of
/// its step and no end; a hidden area counts as cleared only where it was
/// detected, and none is detected where none was looked for; and a finished
/// operation has a final status and an end time.
pub proof fn lemma_wipe_result_laws(run: &WipeRun)
    requires
        run.wf(),
    ensures
        run.spec_result().status == WipeStatus::Completed ==> run.spec_result().passes_completed
            == expected_passes(run.spec_result().algorithm, run.spec_result().options),
        run.spec_result().status == WipeStatus::Completed && uses_hardware(
            run.spec_result().algorithm,
            run.spec_result().options,
        ) ==> run.spec_result().passes_completed == 1,
        run.spec_result().status == WipeStatus::Completed && !uses_hardware(
            run.spec_result().algorithm,
            run.spec_result().options,
        ) ==> run.spec_result().passes_completed == run.spec_result().algorithm.spec_patterns().len(),
        times_agree(run.spec_result()),
        run.spec_result().status == WipeStatus::Completed && uses_hardware(
            run.spec_result().algorithm,
            run.spec_result().options,
        ) ==> run.spec_result().bytes_wiped == run.spec_device_size(),
        run.spec_phase() != Phase::Done ==> run.spec_result().status == phase_status(run.spec_phase())
            && run.spec_result().completed_at is None,
        run.spec_result().hpa_cleared ==> run.spec_result().hpa_detected,
        run.spec_result().dco_cleared ==> run.spec_result().dco_detected,
        !run.spec_checks_hidden() ==> !run.spec_result().hpa_detected && !run.spec_result().dco_detected,
        run.spec_phase() == Phase::Done ==> run.spec_result().status.spec_terminal() && (run.spec_result().completed_at
            matches Some(c) && c >= run.spec_result().started_at),
{
}

/// Once cancelled, an operation asks for nothing more: its next action is
/// to finish, and its record stays Cancelled whatever comes after.
pub proof fn lemma_cancel_is_final(run: &WipeRun)
    requires
        run.wf(),
        run.spec_result().status == WipeStatus::Cancelled,
    ensures
        run.spec_phase() == Phase::Done,
        run.spec_result().completed_at is Some,
{
}

/// How many of the byte values below `n` occur in `d`.
pub open spec fn values_present(d: Seq<u8>, n: int) -> nat
    decreases n,
{
    if n <= 0 {
        0
    } else {
        values_present(d, n - 1) + if d.contains((n - 1) as u8) { 1nat } else { 0nat }
    }
}

/// The quick check made after a wipe: data look wiped where every byte
/// equals the first, or where more than a quarter of the length is distinct
/// byte values.
pub open spec fn spec_data_wiped(d: Seq<u8>) -> bool {
    (forall|i: int| 0 <= i < d.len() ==> #[trigger] d[i] == d[0]) || values_present(d, 256) > d.len() / 4
}

/// Whether data look wiped: all one byte value, or diverse enough to be
/// random. Empty data have no first byte and are left out.
pub fn is_data_wiped(data: &[u8]) -> (r: bool)
    requires
        data@.len() > 0,
    ensures
        r == spec_data_wiped(data@),
{
    let first = data[0];
    let mut i: usize = 0;
    let mut same = true;
    while i < data.len()
        invariant
            i <= data.len(),
            data@.len() > 0,
            first == data@[0],
            same == forall|k: int| 0 <= k < i ==> #[trigger] data@[k] == first,
        decreases data.len() - i,
    {
        if data[i] != first {
            same = false;
        }
        i += 1;
    }
    if same {
        return true;
    }
    let mut seen: Vec<bool> = Vec::new();
    let mut v: usize = 0;
    while v < 256
        invariant
            v <= 256,
            seen@.len() == v,
            forall|k: int| 0 <= k < v ==> !#[trigger] seen@[k],
        decreases 256 - v,
    {
        seen.push(false);
        v += 1;
    }
    let mut j: usize = 0;
    while j < data.len()
        invariant
            j <= data.len(),
            seen@.len() == 256,
            forall|b: int| 0 <= b < 256 ==> #[trigger] seen@[b] == data@.subrange(0, j as int).contains(b as u8),
        decreases data.len() - j,
    {
        let b = data[j];
        let ghost before = seen@;
        seen.set(b as usize, true);
        proof {
            assert forall|c: int| 0 <= c < 256 implies #[trigger] seen@[c] == data@.subrange(0, j as int + 1).contains(c as u8) by {
                let pre = data@.subrange(0, j as int);
                let next = data@.subrange(0, j as int + 1);
                assert(next =~= pre.push(b));
                if pre.contains(c as u8) {
                    let w = choose|w: int| 0 <= w < pre.len() && pre[w] == c as u8;
                    assert(next[w] == c as u8);
                }
                if next.contains(c as u8) && c != b as int {
                    let w = choose|w: int| 0 <= w < next.len() && next[w] == c as u8;
                    assert(w < pre.len());
                    assert(pre[w] == c as u8);
                }
                if c == b as int {
                    assert(next[j as int] == b);
                }
            }
        }
        j += 1;
    }
    assert(data@.subrange(0, data@.len() as int) =~= data@);
    let mut count: usize = 0;
    let mut c: usize = 0;
    while c < 256
        invariant
            c <= 256,
            seen@.len() == 256,
            forall|b: int| 0 <= b < 256 ==> #[trigger] seen@[b] == data@.contains(b as u8),
            count == values_present(data@, c as int),
            count <= c,
        decreases 256 - c,
    {
        if seen[c] {
            count += 1;
        }
        c += 1;
    }
    count > data.len() / 4
}

/// Where an operation stands, as reported while it runs. Speeds are in
/// bytes per second, times in microseconds.
#[derive(Debug, Clone)]
pub struct WipeProgress {
    pub operation_id: u128,
    pub device_path: String,
    /// The pass under way, counting from one.
    pub current_pass: usize,
    pub total_passes: usize,
    /// Bytes written over all passes so far.
    pub bytes_processed: u64,
    /// Bytes written over all passes at the end.
    pub total_bytes: u64,
    /// `bytes_processed / total_bytes`, in hundredths of a percent.
    pub percentage_basis_points: u64,
    pub current_speed: u64,
    /// Bytes processed over the time since the start.
    pub average_speed: u64,
    /// Time left at the average speed, where there is one.
    pub estimated_remaining_us: Option<u64>,
    pub current_pattern: Option<String>,
    pub status: WipeStatus,
    pub started_at: i64,
    pub last_updated: i64,
}

/// `x` held to what a `u64` takes.
pub open spec fn cap(x: int) -> u64 {
    if x > u64::MAX { u64::MAX } else if x < 0 { 0 } else { x as u64 }
}

fn cap_exec(x: u128) -> (r: u64)
    ensures
        r == cap(x as int),
{
    if x > u64::MAX as u128 { u64::MAX } else { x as u64 }
}

/// The bytes an operation writes in all: the device size once per pass.
pub open spec fn spec_total_bytes(size: u64, passes: nat) -> u64 {
    cap(size * passes)
}

/// The share of `done` in `total`, in hundredths of a percent; all of it
/// when there is nothing to do.
pub open spec fn basis_points(done: u64, total: u64) -> u64 {
    if total == 0 { 10000 } else { cap(done as int * 10000 / total as int) }
}

/// The bytes per second of `done` bytes in `elapsed` microseconds; none
/// measured before any time has passed.
pub open spec fn rate(done: u64, elapsed: int) -> u64 {
    if elapsed <= 0 { 0 } else { cap(done as int * 1000000 / elapsed) }
}

/// The microseconds left for `left` bytes at `speed`; none at no speed.
pub open spec fn remaining(left: int, speed: u64) -> Option<u64> {
    if speed == 0 { None } else { Some(cap(left * 1000000 / speed as int)) }
}

impl WipeRun {
    /// The progress report at `now`, with `pass_bytes` written so far in the
    /// pass under way, that pass's speed and the description of its pattern.
    pub fn progress(&self, pass_bytes: u64, current_speed: u64, current_pattern: Option<String>, now: i64) -> (r: WipeProgress)
        requires
            self.wf(),
        ensures
            ({
                let res = self.spec_result();
                let total_passes = expected_passes(res.algorithm, res.options);
                let total = spec_total_bytes(self.spec_device_size(), total_passes);
                let done = if res.bytes_wiped + pass_bytes > total { total as int } else { res.bytes_wiped + pass_bytes };
                &&& r.operation_id == res.operation_id
                &&& r.device_path@ == res.device_path@
                &&& r.total_passes == total_passes
                &&& r.current_pass == if self.spec_phase() == Phase::Wiping { res.passes_completed + 1 } else { res.passes_completed as int }
                &&& r.total_bytes == total
                &&& r.bytes_processed == done
                &&& r.percentage_basis_points == basis_points(done as u64, total)
                &&& r.current_speed == current_speed
                &&& r.average_speed == rate(done as u64, now - res.started_at)
                &&& r.estimated_remaining_us == remaining(total - done, r.average_speed)
                &&& r.current_pattern == current_pattern
                &&& r.status == res.status
                &&& r.started_at == res.started_at
                &&& r.last_updated == now
            }),
    {
        let total_passes: usize = if self.result.options.prefer_hardware_erase && self.result.algorithm.is_hardware_based() {
            1
        } else {
            self.patterns.len()
        };
        proof {
            assert(pattern_specs(self.patterns@).len() == self.patterns@.len());
            assert((self.device_size as int) * (total_passes as int) <= u64::MAX as int * usize::MAX as int) by (nonlinear_arith)
                requires 0 <= self.device_size <= u64::MAX, 0 <= total_passes <= usize::MAX;
            assert(u64::MAX as int * usize::MAX as int <= u64::MAX as int * u64::MAX as int) by (nonlinear_arith);
        }
        let total = cap_exec((self.device_size as u128) * (total_passes as u128));
        let sum = (self.result.bytes_wiped as u128) + (pass_bytes as u128);
        let done: u64 = if sum > total as u128 { total } else { sum as u64 };
        let pct: u64 = if total == 0 {
            10000
        } else {
            proof {
                assert((done as int) * 10000 <= u64::MAX as int * 10000) by (nonlinear_arith)
                    requires 0 <= done <= u64::MAX;
            }
            cap_exec((done as u128) * 10000 / (total as u128))
        };
        let started = self.result.started_at;
        let elapsed: i128 = (now as i128) - (started as i128);
        let average: u64 = if elapsed <= 0 {
            0
        } else {
            proof {
                assert((done as int) * 1000000 <= u64::MAX as int * 1000000) by (nonlinear_arith)
                    requires 0 <= done <= u64::MAX;
            }
            cap_exec((done as u128) * 1000000 / (elapsed as u128))
        };
        let eta: Option<u64> = if average == 0 {
            None
        } else {
            let left = (total - done) as u128;
            proof {
                assert((left as int) * 1000000 <= u64::MAX as int * 1000000) by (nonlinear_arith)
                    requires 0 <= left <= u64::MAX;
            }
            Some(cap_exec(left * 1000000 / (average as u128)))
        };
        let current_pass: usize = if self.phase == Phase::Wiping {
            self.result.passes_completed + 1
        } else {
            self.result.passes_completed
        };
        WipeProgress {
            operation_id: self.result.operation_id,
            device_path: self.result.device_path.clone(),
            current_pass,
            total_passes,
            bytes_processed: done,
            total_bytes: total,
            percentage_basis_points: pct,
            current_speed,
            average_speed: average,
            estimated_remaining_us: eta,
            current_pattern,
            status: self.result.status,
            started_at: started,
            last_updated: now,
        }
    }
}

/// Whether every sample looks wiped.
pub fn all_wiped(samples: &[Vec<u8>]) -> (r: bool)
    requires
        forall|i: int| 0 <= i < samples@.len() ==> (#[trigger] samples@[i])@.len() > 0,
    ensures
        r == forall|i: int| 0 <= i < samples@.len() ==> spec_data_wiped((#[trigger] samples@[i])@),
{
    let mut i: usize = 0;
    while i < samples.len()
        invariant
            i <= samples@.len(),
            forall|k: int| 0 <= k < samples@.len() ==> (#[trigger] samples@[k])@.len() > 0,
            forall|k: int| 0 <= k < i ==> spec_data_wiped((#[trigger] samples@[k])@),
        decreases samples.len() - i,
    {
        if !is_data_wiped(samples[i].as_slice()) {
            return false;
        }
        i += 1;
    }
    true
}

} // verus!
