//! Errors of device access and wipe operations.

use vstd::prelude::*;
use vstd::string::StringExecFns;

verus! {

/// How serious an error is, from least to most.
#[derive(Debug, Clone, Copy, PartialEq, Eq, Structural)]
pub enum ErrorSeverity {
    Low,
    Medium,
    High,
    Critical,
}

impl ErrorSeverity {
    /// The level's name.
    pub fn label(&self) -> (r: String)
        ensures
            r@ == match self {
                ErrorSeverity::Low => "Low"@,
                ErrorSeverity::Medium => "Medium"@,
                ErrorSeverity::High => "High"@,
                ErrorSeverity::Critical => "Critical"@,
            },
    {
        match self {
            ErrorSeverity::Low => String::from_str("Low"),
            ErrorSeverity::Medium => String::from_str("Medium"),
            ErrorSeverity::High => String::from_str("High"),
            ErrorSeverity::Critical => String::from_str("Critical"),
        }
    }
}

/// What can go wrong while opening, wiping or verifying a device.
#[derive(Debug, Clone, PartialEq, Eq)]
pub enum SafeEraseError {
    DeviceNotFound(String),
    DeviceAccessDenied(String),
    DeviceBusy(String),
    DeviceIoError(String),
    UnsupportedDevice(String),
    WipeFailed(String),
    WipeCancelled,
    VerificationFailed,
    UnsupportedAlgorithm(String),
    InsufficientPrivileges,
    SystemCommandFailed(String),
    UnsupportedPlatform(String),
    CertificateError(String),
    CryptographicError(String),
    SignatureVerificationFailed,
    InvalidConfiguration(String),
    InvalidParameter(String),
    Timeout(String),
    FileSystemError(String),
    PermissionDenied(String),
    NetworkError(String),
    CommunicationTimeout,
    Internal(String),
    Unknown(String),
}

impl SafeEraseError {
    /// The error's text: what it is, then its detail.
    pub open spec fn spec_message(&self) -> Seq<char> {
        match self {
            SafeEraseError::DeviceNotFound(d) => "Device not found: "@ + d@,
            SafeEraseError::DeviceAccessDenied(d) => "Device access denied: "@ + d@,
            SafeEraseError::DeviceBusy(d) => "Device is busy or locked: "@ + d@,
            SafeEraseError::DeviceIoError(d) => "Device I/O error: "@ + d@,
            SafeEraseError::UnsupportedDevice(d) => "Unsupported device type: "@ + d@,
            SafeEraseError::WipeFailed(d) => "Wipe operation failed: "@ + d@,
            SafeEraseError::WipeCancelled => "Wipe operation was cancelled"@,
            SafeEraseError::VerificationFailed => "Wipe verification failed"@,
            SafeEraseError::UnsupportedAlgorithm(d) => "Unsupported wipe algorithm: "@ + d@,
            SafeEraseError::InsufficientPrivileges => "Insufficient privileges - administrator/root access required"@,
            SafeEraseError::SystemCommandFailed(d) => "System command failed: "@ + d@,
            SafeEraseError::UnsupportedPlatform(d) => "Platform not supported: "@ + d@,
            SafeEraseError::CertificateError(d) => "Certificate generation failed: "@ + d@,
            SafeEraseError::CryptographicError(d) => "Cryptographic operation failed: "@ + d@,
            SafeEraseError::SignatureVerificationFailed => "Digital signature verification failed"@,
            SafeEraseError::InvalidConfiguration(d) => "Invalid configuration: "@ + d@,
            SafeEraseError::InvalidParameter(d) => "Invalid parameter: "@ + d@,
            SafeEraseError::Timeout(d) => "Operation timeout: "@ + d@,
            SafeEraseError::FileSystemError(d) => "File system error: "@ + d@,
            SafeEraseError::PermissionDenied(d) => "Permission denied: "@ + d@,
            SafeEraseError::NetworkError(d) => "Network error: "@ + d@,
            SafeEraseError::CommunicationTimeout => "Communication timeout"@,
            SafeEraseError::Internal(d) => "Internal error: "@ + d@,
            SafeEraseError::Unknown(d) => "Unknown error: "@ + d@,
        }
    }

    /// The error's text: what it is, then its detail.
    pub fn message(&self) -> (r: String)
        ensures
            r@ == self.spec_message(),
    {
        match self {
            SafeEraseError::DeviceNotFound(d) => {
                let mut s = String::from_str("Device not found: ");
                s.append(d.as_str());
                s
            },
            SafeEraseError::DeviceAccessDenied(d) => {
                let mut s = String::from_str("Device access denied: ");
                s.append(d.as_str());
                s
            },
            SafeEraseError::DeviceBusy(d) => {
                let mut s = String::from_str("Device is busy or locked: ");
                s.append(d.as_str());
                s
            },
            SafeEraseError::DeviceIoError(d) => {
                let mut s = String::from_str("Device I/O error: ");
                s.append(d.as_str());
                s
            },
            SafeEraseError::UnsupportedDevice(d) => {
                let mut s = String::from_str("Unsupported device type: ");
                s.append(d.as_str());
                s
            },
            SafeEraseError::WipeFailed(d) => {
                let mut s = String::from_str("Wipe operation failed: ");
                s.append(d.as_str());
                s
            },
            SafeEraseError::WipeCancelled => String::from_str("Wipe operation was cancelled"),
            SafeEraseError::VerificationFailed => String::from_str("Wipe verification failed"),
            SafeEraseError::UnsupportedAlgorithm(d) => {
                let mut s = String::from_str("Unsupported wipe algorithm: ");
                s.append(d.as_str());
                s
            },
            SafeEraseError::InsufficientPrivileges => String::from_str("Insufficient privileges - administrator/root access required"),
            SafeEraseError::SystemCommandFailed(d) => {
                let mut s = String::from_str("System command failed: ");
                s.append(d.as_str());
                s
            },
            SafeEraseError::UnsupportedPlatform(d) => {
                let mut s = String::from_str("Platform not supported: ");
                s.append(d.as_str());
                s
            },
            SafeEraseError::CertificateError(d) => {
                let mut s = String::from_str("Certificate generation failed: ");
                s.append(d.as_str());
                s
            },
            SafeEraseError::CryptographicError(d) => {
                let mut s = String::from_str("Cryptographic operation failed: ");
                s.append(d.as_str());
                s
            },
            SafeEraseError::SignatureVerificationFailed => String::from_str("Digital signature verification failed"),
            SafeEraseError::InvalidConfiguration(d) => {
                let mut s = String::from_str("Invalid configuration: ");
                s.append(d.as_str());
                s
            },
            SafeEraseError::InvalidParameter(d) => {
                let mut s = String::from_str("Invalid parameter: ");
                s.append(d.as_str());
                s
            },
            SafeEraseError::Timeout(d) => {
                let mut s = String::from_str("Operation timeout: ");
                s.append(d.as_str());
                s
            },
            SafeEraseError::FileSystemError(d) => {
                let mut s = String::from_str("File system error: ");
                s.append(d.as_str());
                s
            },
            SafeEraseError::PermissionDenied(d) => {
                let mut s = String::from_str("Permission denied: ");
                s.append(d.as_str());
                s
            },
            SafeEraseError::NetworkError(d) => {
                let mut s = String::from_str("Network error: ");
                s.append(d.as_str());
                s
            },
            SafeEraseError::CommunicationTimeout => String::from_str("Communication timeout"),
            SafeEraseError::Internal(d) => {
                let mut s = String::from_str("Internal error: ");
                s.append(d.as_str());
                s
            },
            SafeEraseError::Unknown(d) => {
                let mut s = String::from_str("Unknown error: ");
                s.append(d.as_str());
                s
            },
        }
    }

    pub open spec fn spec_is_recoverable(&self) -> bool {
        self is DeviceBusy || self is CommunicationTimeout || self is NetworkError || self is Timeout
            || self is DeviceIoError
    }

    /// Whether retrying the operation may succeed: a busy device, a timeout,
    /// a network failure or an I/O error.
    pub fn is_recoverable(&self) -> (r: bool)
        ensures
            r == self.spec_is_recoverable(),
    {
        match self {
            SafeEraseError::DeviceBusy(_) => true,
            SafeEraseError::CommunicationTimeout => true,
            SafeEraseError::NetworkError(_) => true,
            SafeEraseError::Timeout(_) => true,
            SafeEraseError::DeviceIoError(_) => true,
            _ => false,
        }
    }

    pub open spec fn spec_severity(&self) -> ErrorSeverity {
        match self {
            SafeEraseError::InsufficientPrivileges => ErrorSeverity::Critical,
            SafeEraseError::UnsupportedPlatform(_) => ErrorSeverity::Critical,
            SafeEraseError::VerificationFailed => ErrorSeverity::High,
            SafeEraseError::WipeFailed(_) => ErrorSeverity::High,
            SafeEraseError::CertificateError(_) => ErrorSeverity::High,
            SafeEraseError::DeviceNotFound(_) => ErrorSeverity::Medium,
            SafeEraseError::DeviceAccessDenied(_) => ErrorSeverity::Medium,
            SafeEraseError::InvalidConfiguration(_) => ErrorSeverity::Medium,
            SafeEraseError::DeviceBusy(_) => ErrorSeverity::Low,
            SafeEraseError::WipeCancelled => ErrorSeverity::Low,
            _ => ErrorSeverity::Medium,
        }
    }

    /// How serious the error is.
    pub fn severity(&self) -> (r: ErrorSeverity)
        ensures
            r == self.spec_severity(),
    {
        match self {
            SafeEraseError::InsufficientPrivileges => ErrorSeverity::Critical,
            SafeEraseError::UnsupportedPlatform(_) => ErrorSeverity::Critical,
            SafeEraseError::VerificationFailed => ErrorSeverity::High,
            SafeEraseError::WipeFailed(_) => ErrorSeverity::High,
            SafeEraseError::CertificateError(_) => ErrorSeverity::High,
            SafeEraseError::DeviceNotFound(_) => ErrorSeverity::Medium,
            SafeEraseError::DeviceAccessDenied(_) => ErrorSeverity::Medium,
            SafeEraseError::InvalidConfiguration(_) => ErrorSeverity::Medium,
            SafeEraseError::DeviceBusy(_) => ErrorSeverity::Low,
            SafeEraseError::WipeCancelled => ErrorSeverity::Low,
            _ => ErrorSeverity::Medium,
        }
    }

    pub open spec fn spec_user_message(&self) -> Seq<char> {
        match self {
            SafeEraseError::InsufficientPrivileges => "Administrator or root privileges are required to access storage devices."@,
            SafeEraseError::DeviceNotFound(d) => "The device '"@ + d@ + "' could not be found. Please check if it's connected."@,
            SafeEraseError::DeviceAccessDenied(d) => "Access to device '"@ + d@ + "' was denied. Please check permissions."@,
            SafeEraseError::DeviceBusy(d) => "Device '"@ + d@ + "' is currently busy. Please close any applications using it."@,
            SafeEraseError::VerificationFailed => "Wipe verification failed. The data may not have been completely erased."@,
            SafeEraseError::WipeFailed(d) => "The wipe operation failed: "@ + d@,
            SafeEraseError::UnsupportedDevice(d) => "Device type '"@ + d@ + "' is not supported for secure wiping."@,
            _ => self.spec_message(),
        }
    }

    /// The text shown to a user: advice for the common errors, the error's
    /// own text otherwise.
    pub fn user_message(&self) -> (r: String)
        ensures
            r@ == self.spec_user_message(),
    {
        match self {
            SafeEraseError::InsufficientPrivileges => String::from_str("Administrator or root privileges are required to access storage devices."),
            SafeEraseError::DeviceNotFound(d) => {
                let mut s = String::from_str("The device '");
                s.append(d.as_str());
                s.append("' could not be found. Please check if it's connected.");
                s
            },
            SafeEraseError::DeviceAccessDenied(d) => {
                let mut s = String::from_str("Access to device '");
                s.append(d.as_str());
                s.append("' was denied. Please check permissions.");
                s
            },
            SafeEraseError::DeviceBusy(d) => {
                let mut s = String::from_str("Device '");
                s.append(d.as_str());
                s.append("' is currently busy. Please close any applications using it.");
                s
            },
            SafeEraseError::VerificationFailed => String::from_str("Wipe verification failed. The data may not have been completely erased."),
            SafeEraseError::WipeFailed(d) => {
                let mut s = String::from_str("The wipe operation failed: ");
                s.append(d.as_str());
                s
            },
            SafeEraseError::UnsupportedDevice(d) => {
                let mut s = String::from_str("Device type '");
                s.append(d.as_str());
                s.append("' is not supported for secure wiping.");
                s
            },
            _ => self.message(),
        }
    }


}

} // verus!
