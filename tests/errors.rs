use safe_erase::cert_error::{self, CertificateError, ErrorCategory};
use safe_erase::error::{ErrorSeverity, SafeEraseError};

#[test]
fn test_error_severity() {
    assert_eq!(SafeEraseError::InsufficientPrivileges.severity(), ErrorSeverity::Critical);
    assert_eq!(SafeEraseError::VerificationFailed.severity(), ErrorSeverity::High);
    assert_eq!(SafeEraseError::DeviceBusy("test".to_string()).severity(), ErrorSeverity::Low);
}

#[test]
fn test_error_recoverability() {
    assert!(SafeEraseError::DeviceBusy("test".to_string()).is_recoverable());
    assert!(!SafeEraseError::InsufficientPrivileges.is_recoverable());
}

#[test]
fn test_user_messages() {
    let error = SafeEraseError::DeviceNotFound("sda".to_string());
    let message = error.user_message();
    assert!(message.contains("sda"));
    assert!(message.contains("could not be found"));
}

#[test]
fn error_test_error_severity() {
    assert_eq!(CertificateError::SignatureVerificationFailed.severity(), cert_error::ErrorSeverity::Critical);
    assert_eq!(
        CertificateError::PdfGenerationFailed("test".to_string()).severity(),
        cert_error::ErrorSeverity::Medium
    );
    assert_eq!(
        CertificateError::QrCodeGenerationFailed("test".to_string()).severity(),
        cert_error::ErrorSeverity::Low
    );
}

#[test]
fn test_error_category() {
    assert_eq!(CertificateError::CryptographicError("test".to_string()).category(), ErrorCategory::Cryptographic);
    assert_eq!(CertificateError::PdfGenerationFailed("test".to_string()).category(), ErrorCategory::PdfGeneration);
    assert_eq!(CertificateError::NetworkError("test".to_string()).category(), ErrorCategory::Network);
}

#[test]
fn error_test_error_recoverability() {
    assert!(CertificateError::NetworkError("test".to_string()).is_recoverable());
    assert!(!CertificateError::SignatureVerificationFailed.is_recoverable());
    assert!(!CertificateError::PermissionDenied("test".to_string()).is_recoverable());
}

#[test]
fn error_test_user_messages() {
    let error = CertificateError::FileNotFound("test.pdf".to_string());
    let message = error.user_message();
    assert!(message.contains("test.pdf"));
    assert!(message.contains("not found"));
}

#[test]
fn error_messages_are_exact() {
    assert_eq!(SafeEraseError::Timeout("5s".to_string()).message(), "Operation timeout: 5s");
    assert_eq!(SafeEraseError::WipeCancelled.message(), "Wipe operation was cancelled");
    assert_eq!(
        SafeEraseError::DeviceBusy("sdb".to_string()).user_message(),
        "Device 'sdb' is currently busy. Please close any applications using it."
    );
    assert_eq!(
        SafeEraseError::Internal("x".to_string()).user_message(),
        "Internal error: x"
    );
    assert_eq!(
        CertificateError::InvalidCertificateData("bad".to_string()).user_message(),
        "Invalid certificate data: bad. Please check the input data."
    );
    assert_eq!(CertificateError::Internal("z".to_string()).category(), ErrorCategory::Internal);
    assert_eq!(CertificateError::InvalidTimestamp("t".to_string()).category(), ErrorCategory::Validation);
    assert_eq!(ErrorSeverity::High.label(), "High");
}

#[test]
fn io_errors_are_recoverable() {
    assert!(SafeEraseError::DeviceIoError("read".to_string()).is_recoverable());
    assert!(SafeEraseError::Timeout("t".to_string()).is_recoverable());
    assert!(!SafeEraseError::PermissionDenied("p".to_string()).is_recoverable());
    assert!(!CertificateError::InvalidCertificateFormat("f".to_string()).is_recoverable());
    assert!(CertificateError::FileOperationFailed("f".to_string()).is_recoverable());
}
