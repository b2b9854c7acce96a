//! Secure erasure of block storage: wipe algorithms and pattern generation,
//! the wipe-operation state machine, statistical verification of wiped media,
//! and signed wipe certificates.

pub mod algorithms;
pub mod device;
pub mod platform;
pub mod wipe;
pub mod registry;
pub mod verification;
pub mod certificate;
pub mod canonical;
pub mod crypto;
pub mod certgen;
pub mod error;
pub mod cert_error;
pub mod digest;
pub mod text;
