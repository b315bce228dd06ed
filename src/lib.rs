//! Secure erasure of storage devices: dispatch by drive type, checkpointed
//! retry supervision of destructive actions, and a post-wipe audit.
//!
//! Everything here is decision logic over plain values. Device I/O, external
//! drivers, hardware commands and the floating-point entropy estimate are
//! performed by the caller, which feeds their results back in.

pub mod orchestrator;
mod random;
pub mod recovery;
pub mod types;
pub mod verification;

pub use types::{
    Algorithm, DriveCapabilities, DriveError, DriveInfo, DriveType, EncryptionStatus,
    UnsupportedReason, WipeAlgorithm, WipeConfig,
};
pub use recovery::{
    backoff_delay_ms, Checkpoint, Decision, FailureKind, Operation, Outcome, RecoveryCoordinator,
    RecoveryError, RecoveryErrorKind, Verdict,
};
pub use verification::{
    RecoveryTest, ENTROPY_SAMPLE_MAX, MAX_TEST_SECTORS, SECTOR_SIZE, WINDOW_SIZE,
};
pub use orchestrator::{
    contains_slice, detection_failed, wrap_recovery_error, DriverKind, DriverRequest, HostCommand, WipeOrchestrator, WipeStep,
    ASSUMED_DEVICE_SIZE,
};
