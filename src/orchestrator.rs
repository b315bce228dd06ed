use crate::random::fill_secure_random;
use crate::recovery::{
    after_outcome, operation_name, backoff_ms, bumped, is_exhausted, prior_retries, verdict_of, Decision,
    Checkpoint, CheckpointView, Operation, Outcome, RecoveryCoordinator, RecoveryError, RecoveryModel,
};
use crate::types::{
    Algorithm, DriveCapabilities, DriveError, DriveInfo, DriveType, EncryptionStatus,
    UnsupportedReason, WipeAlgorithm, WipeConfig,
};
use vstd::prelude::*;
use vstd::string::StringExecFns;
use vstd::utf8::encode_utf8;

verus! {

/// Size assumed for a device whose size has not been probed: 100 GiB.
pub const ASSUMED_DEVICE_SIZE: u64 = 107374182400;

/// `pat` occurs in `s` as a contiguous run.
pub open spec fn contains_bytes(s: Seq<u8>, pat: Seq<u8>) -> bool {
    exists|i: int| 0 <= i && i + pat.len() <= s.len() && #[trigger] s.subrange(i, i + pat.len()) == pat
}

/// The bytes of "nvme".
pub open spec fn nvme_marker() -> Seq<u8> {
    seq![0x6eu8, 0x76u8, 0x6du8, 0x65u8]
}

/// The bytes of "mmcblk".
pub open spec fn mmc_marker() -> Seq<u8> {
    seq![0x6du8, 0x6du8, 0x63u8, 0x62u8, 0x6cu8, 0x6bu8]
}

/// Drive type guessed from a device path: NVMe when it names "nvme", eMMC
/// when it names "mmcblk", a rotational disk otherwise.
pub open spec fn path_drive_type(path: Seq<u8>) -> DriveType {
    if contains_bytes(path, nvme_marker()) {
        DriveType::NVMe
    } else if contains_bytes(path, mmc_marker()) {
        DriveType::EMMC
    } else {
        DriveType::HDD
    }
}

/// The description of the device at `path` built from the path alone: its
/// type is guessed from the path, its size is assumed, and every other
/// detail is unknown.
pub open spec fn is_basic_drive_info(info: DriveInfo, path: Seq<char>) -> bool {
    &&& info.device_path@ == path
    &&& info.model@ == "Unknown"@
    &&& info.serial@ == "Unknown"@
    &&& info.size == ASSUMED_DEVICE_SIZE
    &&& info.drive_type == path_drive_type(encode_utf8(path))
    &&& info.encryption_status == EncryptionStatus::Unencrypted
    &&& info.capabilities == (DriveCapabilities {
        trim_support: false,
        secure_erase: false,
        crypto_erase: false,
    })
    &&& info.health_status is None
    &&& info.temperature_celsius is None
}

/// The behaviour realised for a standard: zero fill for `Zero`, one pass of
/// secure random data for every other standard.
pub open spec fn realized_algorithm(a: Algorithm) -> WipeAlgorithm {
    match a {
        Algorithm::Zero => WipeAlgorithm::Zeros,
        _ => WipeAlgorithm::Random,
    }
}

/// External driver families that the orchestrator delegates to.
#[derive(Clone, Copy, Debug, PartialEq, Eq, Structural)]
pub enum DriverKind {
    Smr,
    Optane,
    Hybrid,
    Emmc,
    NvmeAdvanced,
    RaidArray,
}

/// The words that open the error of a failed configuration probe of
/// `driver`.
pub open spec fn detection_label(driver: DriverKind) -> Seq<char> {
    match driver {
        DriverKind::Smr => "SMR detection failed"@,
        DriverKind::Optane => "Optane detection failed"@,
        DriverKind::Hybrid => "Hybrid detection failed"@,
        DriverKind::Emmc => "eMMC detection failed"@,
        DriverKind::NvmeAdvanced => "NVMe advanced detection failed"@,
        DriverKind::RaidArray => "RAID detection failed"@,
    }
}

impl DriverKind {
    pub fn detection_label(self) -> (r: &'static str)
        ensures
            r@ == detection_label(self),
    {
        match self {
            DriverKind::Smr => "SMR detection failed",
            DriverKind::Optane => "Optane detection failed",
            DriverKind::Hybrid => "Hybrid detection failed",
            DriverKind::Emmc => "eMMC detection failed",
            DriverKind::NvmeAdvanced => "NVMe advanced detection failed",
            DriverKind::RaidArray => "RAID detection failed",
        }
    }
}

/// The hardware-command error for a failed configuration probe of `driver`:
/// the driver's detection label, then the probe's message.
pub fn detection_failed(driver: DriverKind, message: String) -> (r: DriveError)
    ensures
        r matches DriveError::HardwareCommandFailed(n) && n@ == detection_label(driver) + ": "@
            + message@,
{
    let mut text = String::from_str(driver.detection_label());
    text.append(": ");
    text.append(message.as_str());
    DriveError::HardwareCommandFailed(text)
}

/// Host-level hardware commands that the orchestrator issues itself.
#[derive(Clone, Copy, Debug, PartialEq, Eq, Structural)]
pub enum HostCommand {
    /// PURGE of a universal flash storage device.
    UfsPurge,
    /// Cryptographic sanitize of an NVMe device.
    NvmeSanitize,
}

/// What a driver is asked to do.
#[derive(Clone, Copy, Debug, PartialEq, Eq, Structural)]
pub struct DriverRequest {
    pub driver: DriverKind,
    /// Content policy for drivers that write a pattern.
    pub algorithm: WipeAlgorithm,
    /// Use the device's own erase command (instant secure erase, eMMC
    /// erase, NVMe format); the driver falls back to software otherwise.
    pub hardware_erase: bool,
    /// Also erase the array metadata of a RAID member.
    pub erase_metadata: bool,
}

/// The request for `driver`: Optane uses instant secure erase when the
/// device reports it, eMMC and advanced NVMe prefer hardware erase, and a
/// RAID member has its array metadata erased too.
pub open spec fn requested_options(
    driver: DriverKind,
    algorithm: WipeAlgorithm,
    reported_hardware_erase: bool,
) -> DriverRequest {
    DriverRequest {
        driver,
        algorithm,
        hardware_erase: match driver {
            DriverKind::Optane => reported_hardware_erase,
            DriverKind::Emmc => true,
            DriverKind::NvmeAdvanced => true,
            _ => false,
        },
        erase_metadata: driver == DriverKind::RaidArray,
    }
}

/// The next thing to do for the session's device.
#[derive(Clone, Copy, Debug, PartialEq, Eq, Structural)]
pub enum WipeStep {
    /// Probe the driver's configuration and pass the result to
    /// `WipeOrchestrator::driver_request`, then run the driver under
    /// `operation`.
    Delegate { driver: DriverKind, operation: Operation },
    /// Issue the command under `operation`; a failed exit is an I/O failure.
    Command { command: HostCommand, operation: Operation },
    /// Probe the device for advanced NVMe features and pass the result to
    /// `WipeOrchestrator::nvme_step`.
    ProbeNvme,
    /// Overwrite `length` bytes at `offset` with one pattern, flush, and then,
    /// if `discard`, issue a best-effort discard whose failure is ignored.
    Overwrite { offset: u64, length: u64, discard: bool, operation: Operation },
}

/// The step for a device of the given type, size and discard support, or
/// the reason it is refused.
pub open spec fn planned_step(
    drive_type: DriveType,
    size: u64,
    trim_support: bool,
    force: bool,
) -> Result<WipeStep, UnsupportedReason> {
    match drive_type {
        DriveType::SMR => Ok(WipeStep::Delegate { driver: DriverKind::Smr, operation: Operation::WipeSmr }),
        DriveType::Optane => Ok(
            WipeStep::Delegate { driver: DriverKind::Optane, operation: Operation::WipeOptane },
        ),
        DriveType::HybridSSHD => Ok(
            WipeStep::Delegate { driver: DriverKind::Hybrid, operation: Operation::WipeHybrid },
        ),
        DriveType::EMMC => Ok(
            WipeStep::Delegate { driver: DriverKind::Emmc, operation: Operation::WipeEmmc },
        ),
        DriveType::UFS => Ok(
            WipeStep::Command { command: HostCommand::UfsPurge, operation: Operation::WipeUfs },
        ),
        DriveType::NVMe => Ok(WipeStep::ProbeNvme),
        DriveType::SSD => Ok(
            WipeStep::Overwrite {
                offset: 0,
                length: size,
                discard: trim_support,
                operation: Operation::WipeSsd,
            },
        ),
        DriveType::HDD => Ok(
            WipeStep::Overwrite { offset: 0, length: size, discard: false, operation: Operation::WipeHdd },
        ),
        DriveType::RAID => if force {
            Ok(
                WipeStep::Delegate {
                    driver: DriverKind::RaidArray,
                    operation: Operation::WipeRaidMember,
                },
            )
        } else {
            Err(UnsupportedReason::RaidNotAuthorized)
        },
        _ => Err(UnsupportedReason::DriveType(drive_type)),
    }
}

/// `s` holds `pat` at position `at`.
fn occurs_at(s: &[u8], pat: &[u8], at: usize) -> (r: bool)
    requires
        at + pat@.len() <= s@.len(),
    ensures
        r == (s@.subrange(at as int, at + pat@.len()) == pat@),
{
    let n = s.len();
    let mut j: usize = 0;
    while j < pat.len()
        invariant
            n == s@.len(),
            j <= pat@.len(),
            at + pat@.len() <= s@.len(),
            forall|k: int| 0 <= k < j ==> s@[at + k] == pat@[k],
        decreases pat@.len() - j,
    {
        assert(at + j < s@.len());
        if s[at + j] != pat[j] {
            assert(s@.subrange(at as int, at + pat@.len())[j as int] != pat@[j as int]);
            return false;
        }
        j = j + 1;
    }
    assert(s@.subrange(at as int, at + pat@.len()) =~= pat@);
    true
}

/// Whether `pat` occurs in `s`.
pub fn contains_slice(s: &[u8], pat: &[u8]) -> (r: bool)
    ensures
        r == contains_bytes(s@, pat@),
{
    if pat.len() > s.len() {
        return false;
    }
    if pat.len() == 0 {
        assert(s@.subrange(0int, 0int + pat@.len()) =~= pat@);
        return true;
    }
    let last = s.len() - pat.len();
    let mut i: usize = 0;
    while i < last + 1
        invariant
            s@.len() <= usize::MAX,
            last + pat@.len() == s@.len(),
            pat@.len() > 0,
            i <= last + 1,
            forall|k: int| 0 <= k < i ==> #[trigger] s@.subrange(k, k + pat@.len()) != pat@,
        decreases last + 1 - i,
    {
        if occurs_at(s, pat, i) {
            return true;
        }
        i = i + 1;
    }
    false
}

/// Routes one device to its erasure strategy, and holds the coordinator that
/// supervises every destructive attempt on it.
pub struct WipeOrchestrator {
    config: WipeConfig,
    drive_info: DriveInfo,
    recovery_coordinator: RecoveryCoordinator,
}

impl WipeOrchestrator {
    pub closed spec fn path(&self) -> Seq<char> {
        self.recovery_coordinator@.device
    }

    pub closed spec fn configuration(&self) -> WipeConfig {
        self.config
    }

    pub closed spec fn info(&self) -> DriveInfo {
        self.drive_info
    }

    /// The state of the coordinator that supervises this device.
    pub closed spec fn recovery(&self) -> RecoveryModel {
        self.recovery_coordinator@
    }

    /// An orchestrator for a device whose description is already known, with
    /// an empty checkpoint store.
    pub fn with_drive_info(device_path: String, config: WipeConfig, drive_info: DriveInfo) -> (r: Self)
        ensures
            r.path() == device_path@,
            r.configuration() == config,
            r.info() == drive_info,
            r.recovery().max_retries == config.max_retries,
            r.recovery().store == Map::<Operation, CheckpointView>::empty(),
    {
        let recovery_coordinator = RecoveryCoordinator::new(device_path, config.max_retries);
        WipeOrchestrator { config, drive_info, recovery_coordinator }
    }

    /// An orchestrator for the device at `device_path`, described from its
    /// path alone; see `create_basic_drive_info`.
    pub fn new(device_path: String, config: WipeConfig) -> (r: Result<Self, DriveError>)
        ensures
            r matches Ok(o) && {
                &&& o.path() == device_path@
                &&& o.configuration() == config
                &&& is_basic_drive_info(o.info(), device_path@)
                &&& o.recovery().max_retries == config.max_retries
                &&& o.recovery().store == Map::<Operation, CheckpointView>::empty()
            },
    {
        let drive_info = Self::create_basic_drive_info(device_path.as_str());
        Ok(Self::with_drive_info(device_path, config, drive_info))
    }
    /// A description of the device at `device_path` built from the path
    /// alone: its type is guessed from the path, its size is assumed, and
    /// every other detail is unknown.
    pub fn create_basic_drive_info(device_path: &str) -> (r: DriveInfo)
        ensures
            is_basic_drive_info(r, device_path@),
    {
        let bytes = device_path.as_bytes();
        let nvme: Vec<u8> = vec![0x6e, 0x76, 0x6d, 0x65];
        let mmc: Vec<u8> = vec![0x6d, 0x6d, 0x63, 0x62, 0x6c, 0x6b];
        assert(nvme@ =~= nvme_marker());
        assert(mmc@ =~= mmc_marker());
        let drive_type = if contains_slice(bytes, nvme.as_slice()) {
            DriveType::NVMe
        } else if contains_slice(bytes, mmc.as_slice()) {
            DriveType::EMMC
        } else {
            DriveType::HDD
        };
        DriveInfo {
            device_path: device_path.to_owned(),
            model: "Unknown".to_owned(),
            serial: "Unknown".to_owned(),
            size: ASSUMED_DEVICE_SIZE,
            drive_type,
            encryption_status: EncryptionStatus::Unencrypted,
            capabilities: DriveCapabilities::default(),
            health_status: None,
            temperature_celsius: None,
        }
    }

    pub fn device_path(&self) -> (r: &String)
        ensures
            r@ == self.path(),
    {
        self.recovery_coordinator.device_id()
    }

    pub fn config(&self) -> (r: &WipeConfig)
        ensures
            *r == self.configuration(),
    {
        &self.config
    }

    pub fn drive_info(&self) -> (r: &DriveInfo)
        ensures
            *r == self.info(),
    {
        &self.drive_info
    }

    /// The content policy realised for the configured standard.
    pub fn convert_to_wipe_algorithm(&self) -> (r: WipeAlgorithm)
        ensures
            r == realized_algorithm(self.configuration().algorithm),
    {
        match self.config.algorithm {
            Algorithm::Zero => WipeAlgorithm::Zeros,
            Algorithm::Random => WipeAlgorithm::Random,
            Algorithm::DoD5220 => WipeAlgorithm::Random,
            Algorithm::Gutmann => WipeAlgorithm::Random,
        }
    }

    /// A fresh `size`-byte pattern for the configured standard: all zeros, or
    /// bytes from the secure random source. Only the random source can fail,
    /// with an I/O error.
    pub fn generate_pattern(&self, size: usize) -> (r: Result<Vec<u8>, DriveError>)
        ensures
            realized_algorithm(self.configuration().algorithm) == WipeAlgorithm::Zeros ==> (r
                matches Ok(v) && v@ == Seq::new(size as nat, |i: int| 0u8)),
            r matches Ok(v) ==> v@.len() == size,
            r matches Err(e) ==> realized_algorithm(self.configuration().algorithm)
                == WipeAlgorithm::Random && e is IoError,
    {
        let mut data: Vec<u8> = Vec::new();
        let mut i: usize = 0;
        while i < size
            invariant
                i <= size,
                data@ == Seq::new(i as nat, |k: int| 0u8),
            decreases size - i,
        {
            data.push(0);
            i = i + 1;
            assert(data@ =~= Seq::new(i as nat, |k: int| 0u8));
        }
        match self.convert_to_wipe_algorithm() {
            WipeAlgorithm::Zeros => Ok(data),
            WipeAlgorithm::Random => match fill_secure_random(&mut data) {
                Ok(()) => Ok(data),
                Err(_) => Err(DriveError::IoError("secure random source unavailable".to_owned())),
            },
        }
    }

    /// The step that the device's type calls for. A RAID member without
    /// authorisation, and any type without a strategy, are refused as
    /// unsupported before anything touches the device.
    pub fn plan(&self) -> (r: Result<WipeStep, DriveError>)
        ensures
            match planned_step(
                self.info().drive_type,
                self.info().size,
                self.info().capabilities.trim_support,
                self.configuration().force,
            ) {
                Ok(step) => r == Ok::<WipeStep, DriveError>(step),
                Err(reason) => r == Err::<WipeStep, DriveError>(DriveError::Unsupported(reason)),
            },
            self.info().drive_type == DriveType::RAID && !self.configuration().force ==> r
                == Err::<WipeStep, DriveError>(
                DriveError::Unsupported(UnsupportedReason::RaidNotAuthorized),
            ),
    {
        let info = &self.drive_info;
        let step = match info.drive_type {
            DriveType::SMR => WipeStep::Delegate { driver: DriverKind::Smr, operation: Operation::WipeSmr },
            DriveType::Optane => WipeStep::Delegate {
                driver: DriverKind::Optane,
                operation: Operation::WipeOptane,
            },
            DriveType::HybridSSHD => WipeStep::Delegate {
                driver: DriverKind::Hybrid,
                operation: Operation::WipeHybrid,
            },
            DriveType::EMMC => WipeStep::Delegate {
                driver: DriverKind::Emmc,
                operation: Operation::WipeEmmc,
            },
            DriveType::UFS => WipeStep::Command {
                command: HostCommand::UfsPurge,
                operation: Operation::WipeUfs,
            },
            DriveType::NVMe => WipeStep::ProbeNvme,
            DriveType::SSD => WipeStep::Overwrite {
                offset: 0,
                length: info.size,
                discard: info.capabilities.trim_support,
                operation: Operation::WipeSsd,
            },
            DriveType::HDD => WipeStep::Overwrite {
                offset: 0,
                length: info.size,
                discard: false,
                operation: Operation::WipeHdd,
            },
            DriveType::RAID => {
                if !self.config.force {
                    return Err(DriveError::Unsupported(UnsupportedReason::RaidNotAuthorized));
                }
                WipeStep::Delegate { driver: DriverKind::RaidArray, operation: Operation::WipeRaidMember }
            },
            other => {
                return Err(DriveError::Unsupported(UnsupportedReason::DriveType(other)));
            },
        };
        Ok(step)
    }

    /// The step for an NVMe device once the probe for advanced features
    /// (multiple or zoned namespaces) has answered. A failed probe is a
    /// hardware-command error, labelled as the advanced NVMe driver's
    /// detection failure, and is not retried.
    pub fn nvme_step(probe: Result<bool, String>) -> (r: Result<WipeStep, DriveError>)
        ensures
            probe == Ok::<bool, String>(true) ==> r == Ok::<WipeStep, DriveError>(
                WipeStep::Delegate {
                    driver: DriverKind::NvmeAdvanced,
                    operation: Operation::WipeNvmeAdvanced,
                },
            ),
            probe == Ok::<bool, String>(false) ==> r == Ok::<WipeStep, DriveError>(
                WipeStep::Command {
                    command: HostCommand::NvmeSanitize,
                    operation: Operation::WipeNvmeBasic,
                },
            ),
            probe matches Err(m) ==> (r matches Err(DriveError::HardwareCommandFailed(n))
                && n@ == detection_label(DriverKind::NvmeAdvanced) + ": "@ + m@),
    {
        match probe {
            Ok(true) => Ok(
                WipeStep::Delegate {
                    driver: DriverKind::NvmeAdvanced,
                    operation: Operation::WipeNvmeAdvanced,
                },
            ),
            Ok(false) => Ok(
                WipeStep::Command {
                    command: HostCommand::NvmeSanitize,
                    operation: Operation::WipeNvmeBasic,
                },
            ),
            Err(m) => Err(detection_failed(DriverKind::NvmeAdvanced, m)),
        }
    }

    /// What to ask of `driver` once its configuration probe has answered,
    /// `probe` carrying whether the device reports a hardware erase. A failed
    /// probe is a hardware-command error that names the driver's detection
    /// failure and keeps the probe's message; it is not retried.
    pub fn driver_request(&self, driver: DriverKind, probe: Result<bool, String>) -> (r: Result<
        DriverRequest,
        DriveError,
    >)
        ensures
            probe matches Ok(reported) ==> r == Ok::<DriverRequest, DriveError>(
                requested_options(driver, realized_algorithm(self.configuration().algorithm), reported),
            ),
            probe matches Err(m) ==> (r matches Err(DriveError::HardwareCommandFailed(n))
                && n@ == detection_label(driver) + ": "@ + m@),
    {
        match probe {
            Ok(reported) => {
                let algorithm = self.convert_to_wipe_algorithm();
                let hardware_erase = match driver {
                    DriverKind::Optane => reported,
                    DriverKind::Emmc => true,
                    DriverKind::NvmeAdvanced => true,
                    _ => false,
                };
                let erase_metadata = match driver {
                    DriverKind::RaidArray => true,
                    _ => false,
                };
                Ok(DriverRequest { driver, algorithm, hardware_erase, erase_metadata })
            },
            Err(m) => Err(detection_failed(driver, m)),
        }
    }

    /// Checked before a direct overwrite opens the device: a region that
    /// reaches past the end of the device is refused with an I/O error, so no
    /// partial write happens.
    pub fn check_region(&self, offset: u64, length: u64) -> (r: Result<(), DriveError>)
        ensures
            r is Ok <==> offset + length <= self.info().size,
            r matches Err(e) ==> e is IoError,
    {
        if offset > self.drive_info.size || length > self.drive_info.size - offset {
            Err(DriveError::IoError("region lies beyond the end of the device".to_owned()))
        } else {
            Ok(())
        }
    }

    /// Asked before each attempt of `op`: an operation whose retry budget is
    /// used up is refused with an I/O error that carries the last failure's
    /// message.
    pub fn begin(&self, op: Operation) -> (r: Result<(), DriveError>)
        ensures
            r is Err <==> is_exhausted(self.recovery(), op),
            r matches Err(e) ==> (e matches DriveError::IoError(m) && m@ == operation_name(op)
                + " on "@ + self.path() + ": "@ + self.recovery().store[op].message),
    {
        match self.recovery_coordinator.begin(op) {
            Ok(()) => Ok(()),
            Err(e) => Err(wrap_recovery_error(e)),
        }
    }

    /// The checkpoint recorded for `op` on this device, if any.
    pub fn checkpoint(&self, op: Operation) -> (r: Option<&Checkpoint>)
        ensures
            r is Some <==> self.recovery().store.contains_key(op),
            r matches Some(c) ==> c@ == self.recovery().store[op],
    {
        self.recovery_coordinator.checkpoint(op)
    }

    /// Reinstates a persisted checkpoint of `op`; see
    /// `RecoveryCoordinator::restore`.
    pub fn restore(&mut self, op: Operation, checkpoint: Checkpoint)
        ensures
            final(self).path() == old(self).path(),
            final(self).configuration() == old(self).configuration(),
            final(self).info() == old(self).info(),
            final(self).recovery().max_retries == old(self).recovery().max_retries,
            final(self).recovery().store == old(self).recovery().store.insert(op, checkpoint@),
    {
        self.recovery_coordinator.restore(op, checkpoint)
    }

    /// Records the outcome of an attempt of `op` made at time `now`; see
    /// `RecoveryCoordinator::record`.
    pub fn record(&mut self, op: Operation, outcome: Outcome, now: u64) -> (r: Decision)
        ensures
            final(self).path() == old(self).path(),
            final(self).configuration() == old(self).configuration(),
            final(self).info() == old(self).info(),
            final(self).recovery() == after_outcome(old(self).recovery(), op, outcome@, now),
            r.verdict() == verdict_of(old(self).recovery(), op, outcome@),
            r matches Decision::RetryAfter(delay) ==> delay as nat == backoff_ms(
                bumped(prior_retries(old(self).recovery(), op), old(self).recovery().max_retries) as nat,
            ),
            r matches Decision::Abort(e) ==> {
                &&& e.operation == op
                &&& e.device@ == old(self).path()
                &&& (outcome@ matches crate::recovery::OutcomeView::Failed(_, message) && e.message@ == message)
            },
    {
        self.recovery_coordinator.record(op, outcome, now)
    }
}

/// The message of a terminal failure: the operation, the device, and the
/// last error seen.
pub open spec fn recovery_message(e: RecoveryError) -> Seq<char> {
    operation_name(e.operation) + " on "@ + e.device@ + ": "@ + e.message@
}

/// The orchestrator's error for a terminal failure of the coordinator: an I/O
/// error whose message names the operation and the device and keeps the
/// coordinator's message.
pub fn wrap_recovery_error(e: RecoveryError) -> (r: DriveError)
    ensures
        r matches DriveError::IoError(m) && m@ == recovery_message(e),
{
    let mut message = String::from_str(e.operation.name());
    message.append(" on ");
    message.append(e.device.as_str());
    message.append(": ");
    message.append(e.message.as_str());
    DriveError::IoError(message)
}

} // verus!
