//! Errors of certificate assembly, signing and verification.

use vstd::prelude::*;
use vstd::string::StringExecFns;

verus! {

/// How serious an error is, from least to most.
#[derive(Debug, Clone, Copy, PartialEq, Eq, Structural)]
pub enum ErrorSeverity {
    Low,
    Medium,
    High,
    Critical,
}

impl ErrorSeverity {
    /// The level's name.
    pub fn label(&self) -> (r: String)
        ensures
            r@ == match self {
                ErrorSeverity::Low => "Low"@,
                ErrorSeverity::Medium => "Medium"@,
                ErrorSeverity::High => "High"@,
                ErrorSeverity::Critical => "Critical"@,
            },
    {
        match self {
            ErrorSeverity::Low => String::from_str("Low"),
            ErrorSeverity::Medium => String::from_str("Medium"),
            ErrorSeverity::High => String::from_str("High"),
            ErrorSeverity::Critical => String::from_str("Critical"),
        }
    }
}

/// The area an error belongs to.
#[derive(Debug, Clone, Copy, PartialEq, Eq, Structural)]
pub enum ErrorCategory {
    Cryptographic,
    PdfGeneration,
    JsonProcessing,
    FileSystem,
    Template,
    QrCode,
    Network,
    Validation,
    Configuration,
    Internal,
    Unknown,
}

impl ErrorCategory {
    pub open spec fn spec_label(self) -> Seq<char> {
        match self {
            ErrorCategory::Cryptographic => "Cryptographic"@,
            ErrorCategory::PdfGeneration => "PDF Generation"@,
            ErrorCategory::JsonProcessing => "JSON Processing"@,
            ErrorCategory::FileSystem => "File System"@,
            ErrorCategory::Template => "Template"@,
            ErrorCategory::QrCode => "QR Code"@,
            ErrorCategory::Network => "Network"@,
            ErrorCategory::Validation => "Validation"@,
            ErrorCategory::Configuration => "Configuration"@,
            ErrorCategory::Internal => "Internal"@,
            ErrorCategory::Unknown => "Unknown"@,
        }
    }

    /// The category's name.
    pub fn label(&self) -> (r: String)
        ensures
            r@ == self.spec_label(),
    {
        match self {
            ErrorCategory::Cryptographic => String::from_str("Cryptographic"),
            ErrorCategory::PdfGeneration => String::from_str("PDF Generation"),
            ErrorCategory::JsonProcessing => String::from_str("JSON Processing"),
            ErrorCategory::FileSystem => String::from_str("File System"),
            ErrorCategory::Template => String::from_str("Template"),
            ErrorCategory::QrCode => String::from_str("QR Code"),
            ErrorCategory::Network => String::from_str("Network"),
            ErrorCategory::Validation => String::from_str("Validation"),
            ErrorCategory::Configuration => String::from_str("Configuration"),
            ErrorCategory::Internal => String::from_str("Internal"),
            ErrorCategory::Unknown => String::from_str("Unknown"),
        }
    }
}

/// What can go wrong while building, signing or checking a certificate.
#[derive(Debug, Clone, PartialEq, Eq)]
pub enum CertificateError {
    CryptographicError(String),
    KeyGenerationFailed(String),
    SigningFailed(String),
    SignatureVerificationFailed,
    InvalidCertificateFormat(String),
    PdfGenerationFailed(String),
    PdfTemplateError(String),
    FontLoadingFailed(String),
    JsonSerializationFailed(String),
    JsonDeserializationFailed(String),
    FileOperationFailed(String),
    FileNotFound(String),
    PermissionDenied(String),
    InvalidFileFormat(String),
    TemplateNotFound(String),
    TemplateParsingFailed(String),
    TemplateRenderingFailed(String),
    QrCodeGenerationFailed(String),
    QrCodeDataTooLarge(String),
    CertificateValidationFailed(String),
    InvalidCertificateData(String),
    MissingRequiredField(String),
    InvalidTimestamp(String),
    NetworkError(String),
    VerificationServiceUnavailable,
    CertificateNotFoundInDatabase,
    InvalidConfiguration(String),
    MissingConfiguration(String),
    Internal(String),
    NotSupported(String),
}

impl CertificateError {
    /// The error's text: what it is, then its detail.
    pub open spec fn spec_message(&self) -> Seq<char> {
        match self {
            CertificateError::CryptographicError(d) => "Cryptographic operation failed: "@ + d@,
            CertificateError::KeyGenerationFailed(d) => "Key generation failed: "@ + d@,
            CertificateError::SigningFailed(d) => "Signing failed: "@ + d@,
            CertificateError::SignatureVerificationFailed => "Signature verification failed"@,
            CertificateError::InvalidCertificateFormat(d) => "Invalid certificate format: "@ + d@,
            CertificateError::PdfGenerationFailed(d) => "PDF generation failed: "@ + d@,
            CertificateError::PdfTemplateError(d) => "PDF template error: "@ + d@,
            CertificateError::FontLoadingFailed(d) => "Font loading failed: "@ + d@,
            CertificateError::JsonSerializationFailed(d) => "JSON serialization failed: "@ + d@,
            CertificateError::JsonDeserializationFailed(d) => "JSON deserialization failed: "@ + d@,
            CertificateError::FileOperationFailed(d) => "File operation failed: "@ + d@,
            CertificateError::FileNotFound(d) => "File not found: "@ + d@,
            CertificateError::PermissionDenied(d) => "Permission denied: "@ + d@,
            CertificateError::InvalidFileFormat(d) => "Invalid file format: "@ + d@,
            CertificateError::TemplateNotFound(d) => "Template not found: "@ + d@,
            CertificateError::TemplateParsingFailed(d) => "Template parsing failed: "@ + d@,
            CertificateError::TemplateRenderingFailed(d) => "Template rendering failed: "@ + d@,
            CertificateError::QrCodeGenerationFailed(d) => "QR code generation failed: "@ + d@,
            CertificateError::QrCodeDataTooLarge(d) => "QR code data too large: "@ + d@,
            CertificateError::CertificateValidationFailed(d) => "Certificate validation failed: "@ + d@,
            CertificateError::InvalidCertificateData(d) => "Invalid certificate data: "@ + d@,
            CertificateError::MissingRequiredField(d) => "Missing required field: "@ + d@,
            CertificateError::InvalidTimestamp(d) => "Invalid timestamp: "@ + d@,
            CertificateError::NetworkError(d) => "Network error: "@ + d@,
            CertificateError::VerificationServiceUnavailable => "Verification service unavailable"@,
            CertificateError::CertificateNotFoundInDatabase => "Certificate not found in verification database"@,
            CertificateError::InvalidConfiguration(d) => "Invalid configuration: "@ + d@,
            CertificateError::MissingConfiguration(d) => "Missing configuration: "@ + d@,
            CertificateError::Internal(d) => "Internal error: "@ + d@,
            CertificateError::NotSupported(d) => "Operation not supported: "@ + d@,
        }
    }

    /// The error's text: what it is, then its detail.
    pub fn message(&self) -> (r: String)
        ensures
            r@ == self.spec_message(),
    {
        match self {
            CertificateError::CryptographicError(d) => {
                let mut s = String::from_str("Cryptographic operation failed: ");
                s.append(d.as_str());
                s
            },
            CertificateError::KeyGenerationFailed(d) => {
                let mut s = String::from_str("Key generation failed: ");
                s.append(d.as_str());
                s
            },
            CertificateError::SigningFailed(d) => {
                let mut s = String::from_str("Signing failed: ");
                s.append(d.as_str());
                s
            },
            CertificateError::SignatureVerificationFailed => String::from_str("Signature verification failed"),
            CertificateError::InvalidCertificateFormat(d) => {
                let mut s = String::from_str("Invalid certificate format: ");
                s.append(d.as_str());
                s
            },
            CertificateError::PdfGenerationFailed(d) => {
                let mut s = String::from_str("PDF generation failed: ");
                s.append(d.as_str());
                s
            },
            CertificateError::PdfTemplateError(d) => {
                let mut s = String::from_str("PDF template error: ");
                s.append(d.as_str());
                s
            },
            CertificateError::FontLoadingFailed(d) => {
                let mut s = String::from_str("Font loading failed: ");
                s.append(d.as_str());
                s
            },
            CertificateError::JsonSerializationFailed(d) => {
                let mut s = String::from_str("JSON serialization failed: ");
                s.append(d.as_str());
                s
            },
            CertificateError::JsonDeserializationFailed(d) => {
                let mut s = String::from_str("JSON deserialization failed: ");
                s.append(d.as_str());
                s
            },
            CertificateError::FileOperationFailed(d) => {
                let mut s = String::from_str("File operation failed: ");
                s.append(d.as_str());
                s
            },
            CertificateError::FileNotFound(d) => {
                let mut s = String::from_str("File not found: ");
                s.append(d.as_str());
                s
            },
            CertificateError::PermissionDenied(d) => {
                let mut s = String::from_str("Permission denied: ");
                s.append(d.as_str());
                s
            },
            CertificateError::InvalidFileFormat(d) => {
                let mut s = String::from_str("Invalid file format: ");
                s.append(d.as_str());
                s
            },
            CertificateError::TemplateNotFound(d) => {
                let mut s = String::from_str("Template not found: ");
                s.append(d.as_str());
                s
            },
            CertificateError::TemplateParsingFailed(d) => {
                let mut s = String::from_str("Template parsing failed: ");
                s.append(d.as_str());
                s
            },
            CertificateError::TemplateRenderingFailed(d) => {
                let mut s = String::from_str("Template rendering failed: ");
                s.append(d.as_str());
                s
            },
            CertificateError::QrCodeGenerationFailed(d) => {
                let mut s = String::from_str("QR code generation failed: ");
                s.append(d.as_str());
                s
            },
            CertificateError::QrCodeDataTooLarge(d) => {
                let mut s = String::from_str("QR code data too large: ");
                s.append(d.as_str());
                s
            },
            CertificateError::CertificateValidationFailed(d) => {
                let mut s = String::from_str("Certificate validation failed: ");
                s.append(d.as_str());
                s
            },
            CertificateError::InvalidCertificateData(d) => {
                let mut s = String::from_str("Invalid certificate data: ");
                s.append(d.as_str());
                s
            },
            CertificateError::MissingRequiredField(d) => {
                let mut s = String::from_str("Missing required field: ");
                s.append(d.as_str());
                s
            },
            CertificateError::InvalidTimestamp(d) => {
                let mut s = String::from_str("Invalid timestamp: ");
                s.append(d.as_str());
                s
            },
            CertificateError::NetworkError(d) => {
                let mut s = String::from_str("Network error: ");
                s.append(d.as_str());
                s
            },
            CertificateError::VerificationServiceUnavailable => String::from_str("Verification service unavailable"),
            CertificateError::CertificateNotFoundInDatabase => String::from_str("Certificate not found in verification database"),
            CertificateError::InvalidConfiguration(d) => {
                let mut s = String::from_str("Invalid configuration: ");
                s.append(d.as_str());
                s
            },
            CertificateError::MissingConfiguration(d) => {
                let mut s = String::from_str("Missing configuration: ");
                s.append(d.as_str());
                s
            },
            CertificateError::Internal(d) => {
                let mut s = String::from_str("Internal error: ");
                s.append(d.as_str());
                s
            },
            CertificateError::NotSupported(d) => {
                let mut s = String::from_str("Operation not supported: ");
                s.append(d.as_str());
                s
            },
        }
    }

    pub open spec fn spec_is_recoverable(&self) -> bool {
        self is NetworkError || self is VerificationServiceUnavailable || self is FileOperationFailed
    }

    /// Whether retrying the operation may succeed.
    pub fn is_recoverable(&self) -> (r: bool)
        ensures
            r == self.spec_is_recoverable(),
    {
        match self {
            CertificateError::NetworkError(_) => true,
            CertificateError::VerificationServiceUnavailable => true,
            CertificateError::FileOperationFailed(_) => true,
            _ => false,
        }
    }

    pub open spec fn spec_severity(&self) -> ErrorSeverity {
        match self {
            CertificateError::SignatureVerificationFailed => ErrorSeverity::Critical,
            CertificateError::CryptographicError(_) => ErrorSeverity::Critical,
            CertificateError::KeyGenerationFailed(_) => ErrorSeverity::Critical,
            CertificateError::InvalidCertificateFormat(_) => ErrorSeverity::High,
            CertificateError::CertificateValidationFailed(_) => ErrorSeverity::High,
            CertificateError::PdfGenerationFailed(_) => ErrorSeverity::Medium,
            CertificateError::JsonSerializationFailed(_) => ErrorSeverity::Medium,
            CertificateError::TemplateNotFound(_) => ErrorSeverity::Medium,
            CertificateError::QrCodeGenerationFailed(_) => ErrorSeverity::Low,
            CertificateError::NetworkError(_) => ErrorSeverity::Low,
            _ => ErrorSeverity::Medium,
        }
    }

    /// How serious the error is.
    pub fn severity(&self) -> (r: ErrorSeverity)
        ensures
            r == self.spec_severity(),
    {
        match self {
            CertificateError::SignatureVerificationFailed => ErrorSeverity::Critical,
            CertificateError::CryptographicError(_) => ErrorSeverity::Critical,
            CertificateError::KeyGenerationFailed(_) => ErrorSeverity::Critical,
            CertificateError::InvalidCertificateFormat(_) => ErrorSeverity::High,
            CertificateError::CertificateValidationFailed(_) => ErrorSeverity::High,
            CertificateError::PdfGenerationFailed(_) => ErrorSeverity::Medium,
            CertificateError::JsonSerializationFailed(_) => ErrorSeverity::Medium,
            CertificateError::TemplateNotFound(_) => ErrorSeverity::Medium,
            CertificateError::QrCodeGenerationFailed(_) => ErrorSeverity::Low,
            CertificateError::NetworkError(_) => ErrorSeverity::Low,
            _ => ErrorSeverity::Medium,
        }
    }

    pub open spec fn spec_user_message(&self) -> Seq<char> {
        match self {
            CertificateError::SignatureVerificationFailed => "Certificate signature verification failed. The certificate may have been tampered with."@,
            CertificateError::CryptographicError(_) => "A cryptographic error occurred. Please check your security configuration."@,
            CertificateError::PdfGenerationFailed(_) => "Failed to generate PDF certificate. Please try again or use JSON format."@,
            CertificateError::FileNotFound(d) => "Required file '"@ + d@ + "' was not found. Please check the file path."@,
            CertificateError::PermissionDenied(d) => "Permission denied accessing '"@ + d@ + "'. Please check file permissions."@,
            CertificateError::TemplateNotFound(d) => "Certificate template '"@ + d@ + "' was not found. Please check template configuration."@,
            CertificateError::VerificationServiceUnavailable => "Certificate verification service is currently unavailable. Please try again later."@,
            CertificateError::InvalidCertificateData(d) => "Invalid certificate data: "@ + d@ + ". Please check the input data."@,
            _ => self.spec_message(),
        }
    }

    /// The text shown to a user: advice for the common errors, the error's
    /// own text otherwise.
    pub fn user_message(&self) -> (r: String)
        ensures
            r@ == self.spec_user_message(),
    {
        match self {
            CertificateError::SignatureVerificationFailed => String::from_str("Certificate signature verification failed. The certificate may have been tampered with."),
            CertificateError::CryptographicError(_) => String::from_str("A cryptographic error occurred. Please check your security configuration."),
            CertificateError::PdfGenerationFailed(_) => String::from_str("Failed to generate PDF certificate. Please try again or use JSON format."),
            CertificateError::FileNotFound(d) => {
                let mut s = String::from_str("Required file '");
                s.append(d.as_str());
                s.append("' was not found. Please check the file path.");
                s
            },
            CertificateError::PermissionDenied(d) => {
                let mut s = String::from_str("Permission denied accessing '");
                s.append(d.as_str());
                s.append("'. Please check file permissions.");
                s
            },
            CertificateError::TemplateNotFound(d) => {
                let mut s = String::from_str("Certificate template '");
                s.append(d.as_str());
                s.append("' was not found. Please check template configuration.");
                s
            },
            CertificateError::VerificationServiceUnavailable => String::from_str("Certificate verification service is currently unavailable. Please try again later."),
            CertificateError::InvalidCertificateData(d) => {
                let mut s = String::from_str("Invalid certificate data: ");
                s.append(d.as_str());
                s.append(". Please check the input data.");
                s
            },
            _ => self.message(),
        }
    }

    pub open spec fn spec_category(&self) -> ErrorCategory {
        match self {
            CertificateError::CryptographicError(_) | CertificateError::KeyGenerationFailed(_) | CertificateError::SigningFailed(_) | CertificateError::SignatureVerificationFailed => ErrorCategory::Cryptographic,
            CertificateError::PdfGenerationFailed(_) | CertificateError::PdfTemplateError(_) | CertificateError::FontLoadingFailed(_) => ErrorCategory::PdfGeneration,
            CertificateError::JsonSerializationFailed(_) | CertificateError::JsonDeserializationFailed(_) => ErrorCategory::JsonProcessing,
            CertificateError::FileOperationFailed(_) | CertificateError::FileNotFound(_) | CertificateError::PermissionDenied(_) | CertificateError::InvalidFileFormat(_) => ErrorCategory::FileSystem,
            CertificateError::TemplateNotFound(_) | CertificateError::TemplateParsingFailed(_) | CertificateError::TemplateRenderingFailed(_) => ErrorCategory::Template,
            CertificateError::QrCodeGenerationFailed(_) | CertificateError::QrCodeDataTooLarge(_) => ErrorCategory::QrCode,
            CertificateError::NetworkError(_) | CertificateError::VerificationServiceUnavailable | CertificateError::CertificateNotFoundInDatabase => ErrorCategory::Network,
            CertificateError::CertificateValidationFailed(_) | CertificateError::InvalidCertificateData(_) | CertificateError::MissingRequiredField(_) | CertificateError::InvalidTimestamp(_) => ErrorCategory::Validation,
            CertificateError::InvalidConfiguration(_) | CertificateError::MissingConfiguration(_) => ErrorCategory::Configuration,
            CertificateError::Internal(_) | CertificateError::NotSupported(_) => ErrorCategory::Internal,
            _ => ErrorCategory::Unknown,
        }
    }

    /// The area the error belongs to, for logs and metrics.
    pub fn category(&self) -> (r: ErrorCategory)
        ensures
            r == self.spec_category(),
    {
        match self {
            CertificateError::CryptographicError(_) | CertificateError::KeyGenerationFailed(_) | CertificateError::SigningFailed(_) | CertificateError::SignatureVerificationFailed => ErrorCategory::Cryptographic,
            CertificateError::PdfGenerationFailed(_) | CertificateError::PdfTemplateError(_) | CertificateError::FontLoadingFailed(_) => ErrorCategory::PdfGeneration,
            CertificateError::JsonSerializationFailed(_) | CertificateError::JsonDeserializationFailed(_) => ErrorCategory::JsonProcessing,
            CertificateError::FileOperationFailed(_) | CertificateError::FileNotFound(_) | CertificateError::PermissionDenied(_) | CertificateError::InvalidFileFormat(_) => ErrorCategory::FileSystem,
            CertificateError::TemplateNotFound(_) | CertificateError::TemplateParsingFailed(_) | CertificateError::TemplateRenderingFailed(_) => ErrorCategory::Template,
            CertificateError::QrCodeGenerationFailed(_) | CertificateError::QrCodeDataTooLarge(_) => ErrorCategory::QrCode,
            CertificateError::NetworkError(_) | CertificateError::VerificationServiceUnavailable | CertificateError::CertificateNotFoundInDatabase => ErrorCategory::Network,
            CertificateError::CertificateValidationFailed(_) | CertificateError::InvalidCertificateData(_) | CertificateError::MissingRequiredField(_) | CertificateError::InvalidTimestamp(_) => ErrorCategory::Validation,
            CertificateError::InvalidConfiguration(_) | CertificateError::MissingConfiguration(_) => ErrorCategory::Configuration,
            CertificateError::Internal(_) | CertificateError::NotSupported(_) => ErrorCategory::Internal,
            _ => ErrorCategory::Unknown,
        }
    }

}

} // verus!
