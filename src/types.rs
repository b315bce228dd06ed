use vstd::prelude::*;

verus! {

/// Erasure standard chosen by the caller.
#[derive(Clone, Copy, Debug, PartialEq, Eq, Structural)]
pub enum Algorithm {
    Zero,
    Random,
    DoD5220,
    Gutmann,
}

/// The content policy that is actually realised for a pattern buffer.
///
/// Every multi-pass standard is currently collapsed onto a single pass of
/// secure random data.
#[derive(Clone, Copy, Debug, PartialEq, Eq, Structural)]
pub enum WipeAlgorithm {
    Zeros,
    Random,
}

/// The family a device belongs to, as reported by the classifier.
#[derive(Clone, Copy, Debug, PartialEq, Eq, Structural)]
pub enum DriveType {
    HDD,
    SSD,
    NVMe,
    SMR,
    Optane,
    HybridSSHD,
    EMMC,
    UFS,
    RAID,
    USB,
    Unknown,
}

#[derive(Clone, Copy, Debug, PartialEq, Eq, Structural)]
pub enum EncryptionStatus {
    Unencrypted,
    Hardware,
    Software,
}

/// Capability flags of a device.
#[derive(Clone, Copy, Debug, PartialEq, Eq, Structural)]
pub struct DriveCapabilities {
    pub trim_support: bool,
    pub secure_erase: bool,
    pub crypto_erase: bool,
}

impl Default for DriveCapabilities {
    fn default() -> (r: Self)
        ensures
            !r.trim_support,
            !r.secure_erase,
            !r.crypto_erase,
    {
        DriveCapabilities { trim_support: false, secure_erase: false, crypto_erase: false }
    }
}

/// The device under operation; read-only for the whole session.
#[derive(Clone, Debug)]
pub struct DriveInfo {
    pub device_path: String,
    pub model: String,
    pub serial: String,
    pub size: u64,
    pub drive_type: DriveType,
    pub encryption_status: EncryptionStatus,
    pub capabilities: DriveCapabilities,
    pub health_status: Option<String>,
    pub temperature_celsius: Option<u32>,
}

/// Caller intent: which standard to apply, whether array-breaking destructive
/// actions are authorised, and how many failed attempts an action may have.
#[derive(Clone, Copy, Debug)]
pub struct WipeConfig {
    pub algorithm: Algorithm,
    pub force: bool,
    pub max_retries: u32,
}

pub const DEFAULT_MAX_RETRIES: u32 = 3;

impl Default for WipeConfig {
    fn default() -> (r: Self)
        ensures
            r.algorithm == Algorithm::Random,
            !r.force,
            r.max_retries == DEFAULT_MAX_RETRIES,
    {
        WipeConfig { algorithm: Algorithm::Random, force: false, max_retries: DEFAULT_MAX_RETRIES }
    }
}

/// Why a request was refused as unsupported.
#[derive(Clone, Copy, Debug, PartialEq, Eq, Structural)]
pub enum UnsupportedReason {
    /// No strategy exists for this drive type.
    DriveType(DriveType),
    /// Wiping an array member breaks the array and needs explicit authorisation.
    RaidNotAuthorized,
}

/// Externally visible failure of a wipe operation.
#[derive(Clone, Debug)]
pub enum DriveError {
    Unsupported(UnsupportedReason),
    HardwareCommandFailed(String),
    IoError(String),
}

} // verus!
