//! Wipe certificates: the record of a wipe, its compliance mapping, and the
//! checks a certificate must pass before it is signed and after it is read.
//! Times are microseconds since the Unix epoch; identifiers are UUIDs held
//! as 128-bit integers.

use vstd::prelude::*;
use vstd::string::StringExecFns;

use crate::algorithms::{self, WipeAlgorithm};
use crate::canonical::{rfc3339_text, time_text};
use crate::cert_error::CertificateError;
use crate::crypto::SignatureInfo;
use crate::text::{decimal, push_decimal};
use crate::verification::{VerificationStatus, VerificationType};

verus! {

/// The certificate layout written by this library.
pub const FORMAT_VERSION: u32 = 1;

/// Security level as a certificate states it.
#[derive(Debug, Clone, Copy, PartialEq, Eq, Structural)]
pub enum SecurityLevel {
    Basic,
    Standard,
    High,
    Maximum,
    Custom,
}

impl SecurityLevel {
    pub open spec fn spec_label(self) -> Seq<char> {
        match self {
            SecurityLevel::Basic => "Basic"@,
            SecurityLevel::Standard => "Standard"@,
            SecurityLevel::High => "High"@,
            SecurityLevel::Maximum => "Maximum"@,
            SecurityLevel::Custom => "Custom"@,
        }
    }

    /// The level's name.
    pub fn label(&self) -> (r: String)
        ensures
            r@ == self.spec_label(),
    {
        match self {
            SecurityLevel::Basic => String::from_str("Basic"),
            SecurityLevel::Standard => String::from_str("Standard"),
            SecurityLevel::High => String::from_str("High"),
            SecurityLevel::Maximum => String::from_str("Maximum"),
            SecurityLevel::Custom => String::from_str("Custom"),
        }
    }
}

/// How far a wipe meets a standard.
#[derive(Debug, Clone, Copy, PartialEq, Eq, Structural)]
pub enum ComplianceLevel {
    FullyCompliant,
    PartiallyCompliant,
    NotCompliant,
    NotApplicable,
}

impl ComplianceLevel {
    pub open spec fn spec_label(self) -> Seq<char> {
        match self {
            ComplianceLevel::FullyCompliant => "Fully Compliant"@,
            ComplianceLevel::PartiallyCompliant => "Partially Compliant"@,
            ComplianceLevel::NotCompliant => "Not Compliant"@,
            ComplianceLevel::NotApplicable => "Not Applicable"@,
        }
    }

    /// The level's name.
    pub fn label(&self) -> (r: String)
        ensures
            r@ == self.spec_label(),
    {
        match self {
            ComplianceLevel::FullyCompliant => String::from_str("Fully Compliant"),
            ComplianceLevel::PartiallyCompliant => String::from_str("Partially Compliant"),
            ComplianceLevel::NotCompliant => String::from_str("Not Compliant"),
            ComplianceLevel::NotApplicable => String::from_str("Not Applicable"),
        }
    }
}

/// The device as a certificate records it.
#[derive(Debug, Clone)]
pub struct DeviceInfo {
    pub path: String,
    pub serial: String,
    pub model: String,
    pub size: u64,
}

/// The wipe as a certificate records it.
#[derive(Debug, Clone)]
pub struct WipeInfo {
    pub algorithm: WipeAlgorithm,
    pub started_at: i64,
    pub completed_at: Option<i64>,
    pub duration_us: Option<u64>,
    pub passes_completed: usize,
    pub verification_passed: Option<bool>,
}

/// The verification as a certificate records it.
#[derive(Debug, Clone, Copy, PartialEq, Eq, Structural)]
pub struct VerificationInfo {
    pub verification_id: u128,
    pub verification_type: VerificationType,
    pub samples_tested: usize,
    pub samples_passed: usize,
    /// The success rate in hundredths of a percent.
    pub success_rate_basis_points: u64,
    pub overall_result: VerificationStatus,
}

/// One standard a wipe is held against.
#[derive(Debug, Clone)]
pub struct ComplianceStandard {
    pub name: String,
    pub version: Option<String>,
    pub description: String,
    pub requirements_met: Vec<String>,
    pub compliance_level: ComplianceLevel,
}

/// The standards a wipe meets.
#[derive(Debug, Clone)]
pub struct ComplianceInfo {
    pub standards_met: Vec<ComplianceStandard>,
    pub security_level: SecurityLevel,
    pub certification_body: Option<String>,
    pub compliance_notes: Vec<String>,
}

/// The organization that had the device wiped.
#[derive(Debug, Clone)]
pub struct OrganizationInfo {
    pub name: String,
    pub address: String,
    pub contact_email: String,
    pub contact_phone: Option<String>,
    pub website: Option<String>,
    pub logo_path: Option<String>,
    pub certification_authority: Option<String>,
}

/// What a certificate attests.
#[derive(Debug, Clone)]
pub struct CertificateData {
    pub certificate_id: u128,
    pub generated_at: i64,
    pub device_info: DeviceInfo,
    pub wipe_info: WipeInfo,
    pub verification_info: Option<VerificationInfo>,
    pub compliance_info: Option<ComplianceInfo>,
    /// Technical details: each value is a JSON text.
    pub technical_details: Option<Vec<(String, String)>>,
    pub organization: Option<OrganizationInfo>,
    pub metadata: Vec<(String, String)>,
}

/// A certificate before signing.
#[derive(Debug, Clone)]
pub struct WipeCertificate {
    pub data: CertificateData,
    pub version: String,
    pub format_version: u32,
}

/// A certificate with its signature.
#[derive(Debug, Clone)]
pub struct SignedCertificate {
    pub certificate: WipeCertificate,
    pub signature_info: SignatureInfo,
    pub signed_at: i64,
}

/// The gist of a certificate.
#[derive(Debug, Clone)]
pub struct CertificateSummary {
    pub certificate_id: u128,
    pub device_model: String,
    pub device_serial: String,
    pub algorithm: WipeAlgorithm,
    pub completed_at: Option<i64>,
    pub verification_passed: Option<bool>,
    pub security_level: SecurityLevel,
}

/// Why a certificate fails its checks.
#[derive(Debug, Clone, Copy, PartialEq, Eq, Structural)]
pub enum Defect {
    NilId,
    MissingSerial,
    MissingModel,
    EndsBeforeStart,
    UnwritableTime,
    PassedExceedsTested,
    RateMismatch,
    DuplicateKey,
    SignedBeforeGenerated,
}

/// Whether every time of the data can be written as RFC 3339 text.
pub open spec fn data_times_ok(d: CertificateData) -> bool {
    &&& rfc3339_text(d.generated_at) is Some
    &&& rfc3339_text(d.wipe_info.started_at) is Some
    &&& d.wipe_info.completed_at matches Some(c) ==> rfc3339_text(c) is Some
}

/// Whether no key is listed twice.
pub open spec fn keys_unique(pairs: Seq<(String, String)>) -> bool {
    forall|i: int, j: int| 0 <= i < j < pairs.len() ==> (#[trigger] pairs[i]).0@ != (#[trigger] pairs[j]).0@
}

/// Whether the metadata, and the technical details where given, list no key
/// twice.
pub open spec fn maps_ok(d: CertificateData) -> bool {
    &&& keys_unique(d.metadata@)
    &&& d.technical_details matches Some(t) ==> keys_unique(t@)
}

/// Whether the stored success rate is more than one hundredth away from
/// `passed / tested`: |passed/tested - rate| > 0.01, over integers.
pub open spec fn rate_mismatch(v: VerificationInfo) -> bool {
    let p = v.samples_passed as int;
    let t = v.samples_tested as int;
    let q = v.success_rate_basis_points as int;
    let diff = p * 10000 - q * t;
    diff > 100 * t || -diff > 100 * t
}

/// The first defect of a certificate's data, in the order checked.
pub open spec fn first_defect(d: CertificateData) -> Option<Defect> {
    if d.certificate_id == 0 {
        Some(Defect::NilId)
    } else if d.device_info.serial@.len() == 0 {
        Some(Defect::MissingSerial)
    } else if d.device_info.model@.len() == 0 {
        Some(Defect::MissingModel)
    } else if d.wipe_info.completed_at matches Some(c) && c < d.wipe_info.started_at {
        Some(Defect::EndsBeforeStart)
    } else if !data_times_ok(d) {
        Some(Defect::UnwritableTime)
    } else if d.verification_info matches Some(v) && v.samples_passed > v.samples_tested {
        Some(Defect::PassedExceedsTested)
    } else if d.verification_info matches Some(v) && rate_mismatch(v) {
        Some(Defect::RateMismatch)
    } else if !maps_ok(d) {
        Some(Defect::DuplicateKey)
    } else {
        None
    }
}

/// The error reported for a defect.
pub open spec fn defect_error(f: Defect, e: CertificateError) -> bool {
    match f {
        Defect::NilId => e matches CertificateError::InvalidCertificateData(m)
            && m@ == "Certificate ID cannot be nil"@,
        Defect::MissingSerial => e matches CertificateError::MissingRequiredField(m)
            && m@ == "Device serial number"@,
        Defect::MissingModel => e matches CertificateError::MissingRequiredField(m) && m@ == "Device model"@,
        Defect::EndsBeforeStart => e matches CertificateError::InvalidTimestamp(m)
            && m@ == "Completion time cannot be before start time"@,
        Defect::PassedExceedsTested => e matches CertificateError::InvalidCertificateData(m)
            && m@ == "Samples passed cannot exceed samples tested"@,
        Defect::RateMismatch => e matches CertificateError::InvalidCertificateData(m)
            && m@ == "Success rate does not match sample counts"@,
        Defect::SignedBeforeGenerated => e matches CertificateError::InvalidTimestamp(m)
            && m@ == "Signature time cannot be before certificate generation time"@,
        Defect::UnwritableTime => e matches CertificateError::InvalidTimestamp(m)
            && m@ == "Time cannot be written as RFC 3339 text"@,
        Defect::DuplicateKey => e matches CertificateError::InvalidCertificateData(m)
            && m@ == "Key listed twice in metadata or technical details"@,
    }
}

/// Whether `r` reports the defect `f`, or success where there is none.
pub open spec fn reports(r: Result<(), CertificateError>, f: Option<Defect>) -> bool {
    match f {
        None => r is Ok,
        Some(d) => r matches Err(e) && defect_error(d, e),
    }
}

/// The first defect of a signed certificate.
pub open spec fn first_signed_defect(s: SignedCertificate) -> Option<Defect> {
    match first_defect(s.certificate.data) {
        Some(d) => Some(d),
        None => if s.signed_at < s.certificate.data.generated_at {
            Some(Defect::SignedBeforeGenerated)
        } else {
            None
        },
    }
}

fn defect_to_error(f: Defect) -> (r: CertificateError)
    ensures
        defect_error(f, r),
{
    match f {
        Defect::NilId => CertificateError::InvalidCertificateData(
            String::from_str("Certificate ID cannot be nil"),
        ),
        Defect::MissingSerial => CertificateError::MissingRequiredField(String::from_str("Device serial number")),
        Defect::MissingModel => CertificateError::MissingRequiredField(String::from_str("Device model")),
        Defect::EndsBeforeStart => CertificateError::InvalidTimestamp(
            String::from_str("Completion time cannot be before start time"),
        ),
        Defect::PassedExceedsTested => CertificateError::InvalidCertificateData(
            String::from_str("Samples passed cannot exceed samples tested"),
        ),
        Defect::RateMismatch => CertificateError::InvalidCertificateData(
            String::from_str("Success rate does not match sample counts"),
        ),
        Defect::SignedBeforeGenerated => CertificateError::InvalidTimestamp(
            String::from_str("Signature time cannot be before certificate generation time"),
        ),
        Defect::UnwritableTime => CertificateError::InvalidTimestamp(
            String::from_str("Time cannot be written as RFC 3339 text"),
        ),
        Defect::DuplicateKey => CertificateError::InvalidCertificateData(
            String::from_str("Key listed twice in metadata or technical details"),
        ),
    }
}

fn time_writable(us: i64) -> (r: bool)
    ensures
        r == rfc3339_text(us) is Some,
{
    time_text(us).is_some()
}

fn keys_unique_exec(pairs: &Vec<(String, String)>) -> (r: bool)
    ensures
        r == keys_unique(pairs@),
{
    let mut i: usize = 0;
    while i < pairs.len()
        invariant
            i <= pairs@.len(),
            forall|a: int, b: int| 0 <= a < i && a < b < pairs@.len() ==> (#[trigger] pairs@[a]).0@ != (#[trigger] pairs@[b]).0@,
        decreases pairs.len() - i,
    {
        let mut j: usize = i + 1;
        while j < pairs.len()
            invariant
                i < pairs@.len(),
                i + 1 <= j <= pairs@.len(),
                forall|a: int, b: int| 0 <= a < i && a < b < pairs@.len() ==> (#[trigger] pairs@[a]).0@ != (#[trigger] pairs@[b]).0@,
                forall|b: int| i < b < j ==> pairs@[i as int].0@ != (#[trigger] pairs@[b]).0@,
            decreases pairs.len() - j,
        {
            if pairs[i].0 == pairs[j].0 {
                return false;
            }
            j += 1;
        }
        i += 1;
    }
    true
}

fn find_defect(d: &CertificateData) -> (r: Option<Defect>)
    ensures
        r == first_defect(*d),
{
    if d.certificate_id == 0 {
        return Some(Defect::NilId);
    }
    if d.device_info.serial.as_str().is_empty() {
        return Some(Defect::MissingSerial);
    }
    if d.device_info.model.as_str().is_empty() {
        return Some(Defect::MissingModel);
    }
    if let Some(c) = d.wipe_info.completed_at {
        if c < d.wipe_info.started_at {
            return Some(Defect::EndsBeforeStart);
        }
    }
    let completed_ok = match d.wipe_info.completed_at {
        Some(c) => time_writable(c),
        None => true,
    };
    if !time_writable(d.generated_at) || !time_writable(d.wipe_info.started_at) || !completed_ok {
        return Some(Defect::UnwritableTime);
    }
    if let Some(v) = d.verification_info {
        if v.samples_passed > v.samples_tested {
            return Some(Defect::PassedExceedsTested);
        }
        let p = v.samples_passed as i128;
        let t = v.samples_tested as i128;
        if t > 0 && v.success_rate_basis_points > 10100 {
            proof {
                let q = v.success_rate_basis_points as int;
                assert(q * t - p * 10000 > 100 * t) by (nonlinear_arith)
                    requires q > 10100, t > 0, 0 <= p <= t;
            }
            return Some(Defect::RateMismatch);
        }
        if t > 0 {
            let q = v.success_rate_basis_points as i128;
            proof {
                assert(q * t <= 10100 * (usize::MAX as int)) by (nonlinear_arith)
                    requires 0 <= q <= 10100, 0 <= t <= usize::MAX;
            }
            let diff = p * 10000 - q * t;
            if diff > 100 * t || -diff > 100 * t {
                return Some(Defect::RateMismatch);
            }
        } else {
            proof {
                let q = v.success_rate_basis_points as int;
                assert(q * (t as int) == 0) by (nonlinear_arith)
                    requires t == 0;
            }
        }
    }
    let details_ok = match &d.technical_details {
        Some(t) => keys_unique_exec(t),
        None => true,
    };
    if !keys_unique_exec(&d.metadata) || !details_ok {
        return Some(Defect::DuplicateKey);
    }
    None
}


/// The certificate's security level for an algorithm's level.
pub open spec fn level_of(l: algorithms::SecurityLevel) -> SecurityLevel {
    match l {
        algorithms::SecurityLevel::Basic => SecurityLevel::Basic,
        algorithms::SecurityLevel::Standard => SecurityLevel::Standard,
        algorithms::SecurityLevel::High => SecurityLevel::High,
        algorithms::SecurityLevel::Maximum => SecurityLevel::Maximum,
    }
}

/// The standard an algorithm's compliance tag stands for: the four known
/// tags ("NIST 800-88", "DoD 5220.22-M", "ATA Standard", "NVMe Standard")
/// give fully compliant entries with fixed texts; any other tag a partially
/// compliant entry of that name.
pub open spec fn standard_for(alg: WipeAlgorithm, s: ComplianceStandard) -> bool {
    let reqs = s.requirements_met@.map_values(|x: String| x@);
    match alg {
        WipeAlgorithm::NIST80088 => {
            &&& s.name@ == "NIST SP 800-88 Rev. 1"@
            &&& s.version matches Some(v) && v@ == "Revision 1"@
            &&& s.description@ == "Guidelines for Media Sanitization"@
            &&& reqs == seq!["Clear sanitization method"@, "Cryptographic erase for SSDs"@]
            &&& s.compliance_level == ComplianceLevel::FullyCompliant
        },
        WipeAlgorithm::DoD522022M => {
            &&& s.name@ == "DoD 5220.22-M"@
            &&& s.version matches Some(v) && v@ == "Change 2"@
            &&& s.description@ == "National Industrial Security Program Operating Manual"@
            &&& reqs == seq!["Three-pass overwrite"@, "Pattern verification"@]
            &&& s.compliance_level == ComplianceLevel::FullyCompliant
        },
        WipeAlgorithm::ATASecureErase => {
            &&& s.name@ == "ATA/ATAPI Command Set"@
            &&& s.version matches Some(v) && v@ == "ACS-4"@
            &&& s.description@ == "Hardware-based secure erase"@
            &&& reqs == seq!["ATA Secure Erase command"@, "Hardware-level sanitization"@]
            &&& s.compliance_level == ComplianceLevel::FullyCompliant
        },
        WipeAlgorithm::NVMeFormat => {
            &&& s.name@ == "NVMe Specification"@
            &&& s.version matches Some(v) && v@ == "1.4"@
            &&& s.description@ == "NVMe Format with Secure Erase"@
            &&& reqs == seq!["NVMe Format command"@, "Cryptographic erase"@]
            &&& s.compliance_level == ComplianceLevel::FullyCompliant
        },
        _ => {
            &&& s.name@ == alg.spec_standard()
            &&& s.version is None
            &&& s.description@ == "Custom or proprietary standard"@
            &&& reqs == seq!["Algorithm-specific requirements"@]
            &&& s.compliance_level == ComplianceLevel::PartiallyCompliant
        },
    }
}

fn strings2(a: &str, b: &str) -> (r: Vec<String>)
    ensures
        r@.map_values(|x: String| x@) == seq![a@, b@],
{
    let r = vec![String::from_str(a), String::from_str(b)];
    assert(r@.map_values(|x: String| x@) =~= seq![a@, b@]);
    r
}

fn standard_of(alg: &WipeAlgorithm, tag: String) -> (r: ComplianceStandard)
    requires
        tag@ == alg.spec_standard(),
    ensures
        standard_for(*alg, r),
{
    match alg {
        WipeAlgorithm::NIST80088 => ComplianceStandard {
            name: String::from_str("NIST SP 800-88 Rev. 1"),
            version: Some(String::from_str("Revision 1")),
            description: String::from_str("Guidelines for Media Sanitization"),
            requirements_met: strings2("Clear sanitization method", "Cryptographic erase for SSDs"),
            compliance_level: ComplianceLevel::FullyCompliant,
        },
        WipeAlgorithm::DoD522022M => ComplianceStandard {
            name: String::from_str("DoD 5220.22-M"),
            version: Some(String::from_str("Change 2")),
            description: String::from_str("National Industrial Security Program Operating Manual"),
            requirements_met: strings2("Three-pass overwrite", "Pattern verification"),
            compliance_level: ComplianceLevel::FullyCompliant,
        },
        WipeAlgorithm::ATASecureErase => ComplianceStandard {
            name: String::from_str("ATA/ATAPI Command Set"),
            version: Some(String::from_str("ACS-4")),
            description: String::from_str("Hardware-based secure erase"),
            requirements_met: strings2("ATA Secure Erase command", "Hardware-level sanitization"),
            compliance_level: ComplianceLevel::FullyCompliant,
        },
        WipeAlgorithm::NVMeFormat => ComplianceStandard {
            name: String::from_str("NVMe Specification"),
            version: Some(String::from_str("1.4")),
            description: String::from_str("NVMe Format with Secure Erase"),
            requirements_met: strings2("NVMe Format command", "Cryptographic erase"),
            compliance_level: ComplianceLevel::FullyCompliant,
        },
        _ => {
            let reqs = vec![String::from_str("Algorithm-specific requirements")];
            assert(reqs@.map_values(|x: String| x@) =~= seq!["Algorithm-specific requirements"@]);
            ComplianceStandard {
                name: tag,
                version: None,
                description: String::from_str("Custom or proprietary standard"),
                requirements_met: reqs,
                compliance_level: ComplianceLevel::PartiallyCompliant,
            }
        },
    }
}

/// The compliance an algorithm gives: the standard of its catalog tag, its
/// security level, the certification body, and notes naming the algorithm,
/// its passes and its level.
pub open spec fn compliance_for(algorithm: WipeAlgorithm, r: ComplianceInfo) -> bool {
    &&& r.standards_met@.len() == 1
    &&& standard_for(algorithm, r.standards_met@[0])
    &&& r.security_level == level_of(algorithm.spec_security_level())
    &&& r.certification_body matches Some(b) && b@ == "SafeErase Certification Authority"@
    &&& r.compliance_notes@.map_values(|x: String| x@) == seq![
        "Algorithm: "@ + algorithm.spec_name(),
        "Passes: "@ + decimal(algorithm.spec_passes()),
        "Security Level: "@ + level_of(algorithm.spec_security_level()).spec_label()
    ]
}

/// The standards of a list that are not met, in order.
pub open spec fn not_met(ss: Seq<ComplianceStandard>) -> Seq<ComplianceStandard>
    decreases ss.len(),
{
    if ss.len() == 0 {
        Seq::empty()
    } else if ss.last().compliance_level == ComplianceLevel::NotCompliant {
        not_met(ss.drop_last()).push(ss.last())
    } else {
        not_met(ss.drop_last())
    }
}

impl ComplianceInfo {
    /// The compliance an algorithm gives: the standard of its catalog tag,
    /// its security level, the certification body, and notes naming the
    /// algorithm, its passes and its level.
    pub fn from_algorithm(algorithm: &WipeAlgorithm) -> (r: ComplianceInfo)
        ensures
            compliance_for(*algorithm, r),
    {
        let info = algorithm.info();
        let mut tags = info.compliance_standards;
        let tag = tags.pop().unwrap();
        let mut standards_met: Vec<ComplianceStandard> = Vec::new();
        standards_met.push(standard_of(algorithm, tag));
        let security_level = match info.security_level {
            algorithms::SecurityLevel::Basic => SecurityLevel::Basic,
            algorithms::SecurityLevel::Standard => SecurityLevel::Standard,
            algorithms::SecurityLevel::High => SecurityLevel::High,
            algorithms::SecurityLevel::Maximum => SecurityLevel::Maximum,
        };
        let mut n1 = String::from_str("Algorithm: ");
        n1.append(info.name.as_str());
        let mut n2 = String::from_str("Passes: ");
        push_decimal(&mut n2, info.passes as u64);
        let mut n3 = String::from_str("Security Level: ");
        let level_text = security_level.label();
        n3.append(level_text.as_str());
        let compliance_notes = vec![n1, n2, n3];
        assert(compliance_notes@.map_values(|x: String| x@) =~= seq![
            "Algorithm: "@ + algorithm.spec_name(),
            "Passes: "@ + decimal(algorithm.spec_passes()),
            "Security Level: "@ + level_of(algorithm.spec_security_level()).spec_label()
        ]);
        ComplianceInfo {
            standards_met,
            security_level,
            certification_body: Some(String::from_str("SafeErase Certification Authority")),
            compliance_notes,
        }
    }

    /// Whether every standard listed is fully met.
    pub fn is_fully_compliant(&self) -> (r: bool)
        ensures
            r == forall|i: int| 0 <= i < self.standards_met@.len()
                ==> (#[trigger] self.standards_met@[i]).compliance_level == ComplianceLevel::FullyCompliant,
    {
        let mut i: usize = 0;
        while i < self.standards_met.len()
            invariant
                i <= self.standards_met@.len(),
                forall|k: int| 0 <= k < i
                    ==> (#[trigger] self.standards_met@[k]).compliance_level == ComplianceLevel::FullyCompliant,
            decreases self.standards_met.len() - i,
        {
            if self.standards_met[i].compliance_level != ComplianceLevel::FullyCompliant {
                return false;
            }
            i += 1;
        }
        true
    }

    /// The standards listed as not met, in order.
    pub fn non_compliant_standards(&self) -> (r: Vec<&ComplianceStandard>)
        ensures
            r@.map_values(|x: &ComplianceStandard| *x) == not_met(self.standards_met@),
    {
        let mut r: Vec<&ComplianceStandard> = Vec::new();
        let mut i: usize = 0;
        while i < self.standards_met.len()
            invariant
                i <= self.standards_met@.len(),
                r@.map_values(|x: &ComplianceStandard| *x) == not_met(self.standards_met@.subrange(0, i as int)),
            decreases self.standards_met.len() - i,
        {
            proof {
                assert(self.standards_met@.subrange(0, i as int + 1).drop_last() =~= self.standards_met@.subrange(0, i as int));
            }
            let s = &self.standards_met[i];
            if s.compliance_level == ComplianceLevel::NotCompliant {
                r.push(s);
            }
            i += 1;
            assert(r@.map_values(|x: &ComplianceStandard| *x) =~= not_met(self.standards_met@.subrange(0, i as int)));
        }
        assert(self.standards_met@.subrange(0, self.standards_met@.len() as int) =~= self.standards_met@);
        r
    }
}

impl WipeCertificate {
    /// A certificate of the given data, in the current layout.
    pub fn new(data: CertificateData) -> (r: WipeCertificate)
        ensures
            r.data == data,
            r.version@ == "0.1.0"@,
            r.format_version == FORMAT_VERSION,
    {
        WipeCertificate { data, version: String::from_str("0.1.0"), format_version: FORMAT_VERSION }
    }

    /// The certificate's identifier.
    pub fn certificate_id(&self) -> (r: u128)
        ensures
            r == self.data.certificate_id,
    {
        self.data.certificate_id
    }

    /// The wiped device's serial number.
    pub fn device_serial(&self) -> (r: &str)
        ensures
            r@ == self.data.device_info.serial@,
    {
        self.data.device_info.serial.as_str()
    }

    /// The algorithm the device was wiped with.
    pub fn wipe_algorithm(&self) -> (r: &WipeAlgorithm)
        ensures
            *r == self.data.wipe_info.algorithm,
    {
        &self.data.wipe_info.algorithm
    }

    /// Whether the wipe was verified and passed.
    pub fn is_verification_passed(&self) -> (r: bool)
        ensures
            r == (self.data.wipe_info.verification_passed == Some(true)),
    {
        match self.data.wipe_info.verification_passed {
            Some(b) => b,
            None => false,
        }
    }

    /// The names of the standards met; none without compliance data.
    pub fn compliance_standards(&self) -> (r: Vec<String>)
        ensures
            match self.data.compliance_info {
                Some(ci) => r@.len() == ci.standards_met@.len() && forall|i: int| 0 <= i < r@.len()
                    ==> (#[trigger] r@[i])@ == ci.standards_met@[i].name@,
                None => r@.len() == 0,
            },
    {
        let mut r: Vec<String> = Vec::new();
        match &self.data.compliance_info {
            Some(ci) => {
                let mut i: usize = 0;
                while i < ci.standards_met.len()
                    invariant
                        i <= ci.standards_met@.len(),
                        r@.len() == i,
                        forall|k: int| 0 <= k < i ==> (#[trigger] r@[k])@ == ci.standards_met@[k].name@,
                    decreases ci.standards_met.len() - i,
                {
                    r.push(ci.standards_met[i].name.clone());
                    i += 1;
                }
            },
            None => {},
        }
        r
    }

    /// Checks the data: a non-nil identifier, a serial number and a model, an
    /// end no earlier than the start, and, where verification is recorded, no
    /// more samples passed than tested and a success rate within one
    /// hundredth of the counts. The first failed check is reported.
    pub fn validate(&self) -> (r: Result<(), CertificateError>)
        ensures
            reports(r, first_defect(self.data)),
    {
        match find_defect(&self.data) {
            Some(f) => Err(defect_to_error(f)),
            None => Ok(()),
        }
    }

    /// The gist of the certificate; the security level is Basic without
    /// compliance data.
    pub fn summary(&self) -> (r: CertificateSummary)
        ensures
            r.certificate_id == self.data.certificate_id,
            r.device_model@ == self.data.device_info.model@,
            r.device_serial@ == self.data.device_info.serial@,
            r.completed_at == self.data.wipe_info.completed_at,
            r.verification_passed == self.data.wipe_info.verification_passed,
            r.security_level == match self.data.compliance_info {
                Some(ci) => ci.security_level,
                None => SecurityLevel::Basic,
            },
    {
        CertificateSummary {
            certificate_id: self.data.certificate_id,
            device_model: self.data.device_info.model.clone(),
            device_serial: self.data.device_info.serial.clone(),
            algorithm: self.data.wipe_info.algorithm.clone(),
            completed_at: self.data.wipe_info.completed_at,
            verification_passed: self.data.wipe_info.verification_passed,
            security_level: match &self.data.compliance_info {
                Some(ci) => ci.security_level,
                None => SecurityLevel::Basic,
            },
        }
    }
}

impl SignedCertificate {
    /// A signed certificate, signed at `signed_at`.
    pub fn new(certificate: WipeCertificate, signature_info: SignatureInfo, signed_at: i64) -> (r: SignedCertificate)
        ensures
            r.certificate == certificate,
            r.signature_info == signature_info,
            r.signed_at == signed_at,
    {
        SignedCertificate { certificate, signature_info, signed_at }
    }

    /// The certificate's identifier.
    pub fn certificate_id(&self) -> (r: u128)
        ensures
            r == self.certificate.data.certificate_id,
    {
        self.certificate.certificate_id()
    }

    /// The signature.
    pub fn signature_info(&self) -> (r: &SignatureInfo)
        ensures
            *r == self.signature_info,
    {
        &self.signature_info
    }

    /// The certificate signed.
    pub fn certificate(&self) -> (r: &WipeCertificate)
        ensures
            *r == self.certificate,
    {
        &self.certificate
    }

    /// Checks the certificate, then that it was not signed before it was made.
    pub fn validate(&self) -> (r: Result<(), CertificateError>)
        ensures
            reports(r, first_signed_defect(*self)),
    {
        self.certificate.validate()?;
        if self.signed_at < self.certificate.data.generated_at {
            return Err(defect_to_error(Defect::SignedBeforeGenerated));
        }
        Ok(())
    }
}

} // verus!
