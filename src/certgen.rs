//! Assembling certificate data from a wipe and its verification, and the
//! address at which a certificate can be checked.

use vstd::prelude::*;
use vstd::string::StringExecFns;

use crate::certificate::{compliance_for, CertificateData, ComplianceInfo, DeviceInfo, OrganizationInfo, VerificationInfo, WipeInfo};
use crate::canonical::{json_str, push_json_str};
use crate::certificate::SignedCertificate;
use crate::digest::{hex_lower, to_hex};
use crate::wipe::WipeResult;

verus! {

/// What a certificate is to hold.
#[derive(Debug, Clone)]
pub struct CertificateOptions {
    /// Whether to produce QR-code data for checking the certificate.
    pub include_qr_code: bool,
    /// Whether to record technical details.
    pub include_technical_details: bool,
    /// Whether to record compliance with standards.
    pub include_compliance_info: bool,
    /// The template of the printed certificate.
    pub template_name: Option<String>,
    pub organization: Option<OrganizationInfo>,
    /// Further key-value pairs to record.
    pub metadata: Vec<(String, String)>,
}

impl Default for CertificateOptions {
    /// Everything included, the default template, no organization and no
    /// further pairs.
    fn default() -> (r: CertificateOptions)
        ensures
            r.include_qr_code,
            r.include_technical_details,
            r.include_compliance_info,
            r.template_name is None,
            r.organization is None,
            r.metadata@.len() == 0,
    {
        CertificateOptions {
            include_qr_code: true,
            include_technical_details: true,
            include_compliance_info: true,
            template_name: None,
            organization: None,
            metadata: Vec::new(),
        }
    }
}

/// The forms a certificate is written in.
#[derive(Debug, Clone, Copy, PartialEq, Eq, Structural)]
pub enum CertificateFormat {
    PDF,
    JSON,
    Both,
}

impl CertificateFormat {
    pub open spec fn spec_label(self) -> Seq<char> {
        match self {
            CertificateFormat::PDF => "PDF"@,
            CertificateFormat::JSON => "JSON"@,
            CertificateFormat::Both => "PDF and JSON"@,
        }
    }

    /// The form's name.
    pub fn label(&self) -> (r: String)
        ensures
            r@ == self.spec_label(),
    {
        match self {
            CertificateFormat::PDF => String::from_str("PDF"),
            CertificateFormat::JSON => String::from_str("JSON"),
            CertificateFormat::Both => String::from_str("PDF and JSON"),
        }
    }
}

/// The certificate data for a wipe: the device as the wipe recorded it
/// (its size being the bytes wiped), the wipe's algorithm, times, passes and
/// verification outcome, the verification given, compliance with the
/// algorithm's standards where the options ask for it, the technical details
/// given where they ask for those, and the options' organization and pairs.
pub fn create_certificate_data(
    certificate_id: u128,
    generated_at: i64,
    wipe_result: WipeResult,
    verification: Option<VerificationInfo>,
    options: CertificateOptions,
    technical_details: Option<Vec<(String, String)>>,
) -> (r: CertificateData)
    ensures
        r.certificate_id == certificate_id,
        r.generated_at == generated_at,
        r.device_info.path == wipe_result.device_path,
        r.device_info.serial == wipe_result.device_serial,
        r.device_info.model == wipe_result.device_model,
        r.device_info.size == wipe_result.bytes_wiped,
        r.wipe_info.algorithm == wipe_result.algorithm,
        r.wipe_info.started_at == wipe_result.started_at,
        r.wipe_info.completed_at == wipe_result.completed_at,
        r.wipe_info.duration_us == wipe_result.duration_us,
        r.wipe_info.passes_completed == wipe_result.passes_completed,
        r.wipe_info.verification_passed == wipe_result.verification_passed,
        r.verification_info == verification,
        options.include_compliance_info <==> r.compliance_info is Some,
        r.compliance_info matches Some(ci) ==> compliance_for(wipe_result.algorithm, ci),
        r.technical_details == if options.include_technical_details { technical_details } else { None },
        r.organization == options.organization,
        r.metadata == options.metadata,
{
    let compliance_info = if options.include_compliance_info {
        Some(ComplianceInfo::from_algorithm(&wipe_result.algorithm))
    } else {
        None
    };
    let details = if options.include_technical_details { technical_details } else { None };
    CertificateData {
        certificate_id,
        generated_at,
        device_info: DeviceInfo {
            path: wipe_result.device_path,
            serial: wipe_result.device_serial,
            model: wipe_result.device_model,
            size: wipe_result.bytes_wiped,
        },
        wipe_info: WipeInfo {
            algorithm: wipe_result.algorithm,
            started_at: wipe_result.started_at,
            completed_at: wipe_result.completed_at,
            duration_us: wipe_result.duration_us,
            passes_completed: wipe_result.passes_completed,
            verification_passed: wipe_result.verification_passed,
        },
        verification_info: verification,
        compliance_info,
        technical_details: details,
        organization: options.organization,
        metadata: options.metadata,
    }
}

/// The sixteen bytes of `x`, most significant first.
pub open spec fn be_bytes(x: u128) -> Seq<u8> {
    Seq::new(16, |i: int| ((x >> ((15 - i) * 8) as u128) & 0xff) as u8)
}

/// The canonical text of a UUID: 32 lowercase hexadecimal digits in groups
/// of 8, 4, 4, 4 and 12, joined by hyphens.
pub open spec fn uuid_text(id: u128) -> Seq<char> {
    let b = be_bytes(id);
    hex_lower(b.subrange(0, 4)) + "-"@ + hex_lower(b.subrange(4, 6)) + "-"@ + hex_lower(b.subrange(6, 8))
        + "-"@ + hex_lower(b.subrange(8, 10)) + "-"@ + hex_lower(b.subrange(10, 16))
}

/// The canonical text of a UUID.
pub fn format_uuid(id: u128) -> (r: String)
    ensures
        r@ == uuid_text(id),
{
    let mut b: Vec<u8> = Vec::new();
    let mut i: usize = 0;
    while i < 16
        invariant
            i <= 16,
            b@ == be_bytes(id).subrange(0, i as int),
        decreases 16 - i,
    {
        let shift: u128 = ((15 - i) * 8) as u128;
        b.push(((id >> shift) & 0xff) as u8);
        i += 1;
        assert(b@ =~= be_bytes(id).subrange(0, i as int));
    }
    assert(b@ =~= be_bytes(id));
    let s = b.as_slice();
    let mut r = to_hex(vstd::slice::slice_subrange(s, 0, 4));
    r.append("-");
    let g2 = to_hex(vstd::slice::slice_subrange(s, 4, 6));
    r.append(g2.as_str());
    r.append("-");
    let g3 = to_hex(vstd::slice::slice_subrange(s, 6, 8));
    r.append(g3.as_str());
    r.append("-");
    let g4 = to_hex(vstd::slice::slice_subrange(s, 8, 10));
    r.append(g4.as_str());
    r.append("-");
    let g5 = to_hex(vstd::slice::slice_subrange(s, 10, 16));
    r.append(g5.as_str());
    r
}

/// The address at which the certificate `certificate_id` can be checked.
pub fn verification_url(certificate_id: u128) -> (r: String)
    ensures
        r@ == "https://verify.safeerase.com/certificate/"@ + uuid_text(certificate_id),
{
    let mut r = String::from_str("https://verify.safeerase.com/certificate/");
    let id = format_uuid(certificate_id);
    r.append(id.as_str());
    r
}

/// The text a certificate's QR code holds: a JSON object with the
/// certificate's identifier, its signature and the address at which it can
/// be checked, keys in ascending order.
pub open spec fn spec_qr_code_data(certificate_id: u128, signature: Seq<char>) -> Seq<char> {
    "{\"certificate_id\":"@ + json_str(uuid_text(certificate_id)) + ",\"signature\":"@ + json_str(signature)
        + ",\"verification_url\":"@ + json_str(
        "https://verify.safeerase.com/certificate/"@ + uuid_text(certificate_id),
    ) + "}"@
}

/// The text of a signed certificate's QR code.
pub fn qr_code_data(certificate: &SignedCertificate) -> (r: String)
    ensures
        r@ == spec_qr_code_data(
            certificate.certificate.data.certificate_id,
            certificate.signature_info.signature@,
        ),
{
    let id = certificate.certificate.data.certificate_id;
    let mut out = String::from_str("{\"certificate_id\":");
    let text = format_uuid(id);
    push_json_str(&mut out, text.as_str());
    out.append(",\"signature\":");
    push_json_str(&mut out, certificate.signature_info.signature.as_str());
    out.append(",\"verification_url\":");
    let url = verification_url(id);
    push_json_str(&mut out, url.as_str());
    out.append("}");
    assert(out@ =~= spec_qr_code_data(id, certificate.signature_info.signature@));
    out
}

} // verus!
