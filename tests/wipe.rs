use drive_wipe::{
    backoff_delay_ms, contains_slice, wrap_recovery_error, Algorithm, Decision, DriveCapabilities,
    DriveError, DriveInfo, DriveType, DriverKind, DriverRequest, EncryptionStatus, FailureKind, HostCommand,
    Operation, Outcome, RecoveryCoordinator, RecoveryError, RecoveryErrorKind, RecoveryTest,
    UnsupportedReason, WipeAlgorithm, WipeConfig, WipeOrchestrator, WipeStep,
    ASSUMED_DEVICE_SIZE, ENTROPY_SAMPLE_MAX,
};

fn drive(drive_type: DriveType, size: u64, trim_support: bool) -> DriveInfo {
    DriveInfo {
        device_path: "/dev/test".to_string(),
        model: "Test".to_string(),
        serial: "TEST123".to_string(),
        size,
        drive_type,
        encryption_status: EncryptionStatus::Unencrypted,
        capabilities: DriveCapabilities { trim_support, ..Default::default() },
        health_status: None,
        temperature_celsius: None,
    }
}

fn orchestrator(algorithm: Algorithm, force: bool, info: DriveInfo) -> WipeOrchestrator {
    let config = WipeConfig { algorithm, force, ..Default::default() };
    WipeOrchestrator::with_drive_info("/dev/test".to_string(), config, info)
}

fn entropy(histogram: &[u64]) -> f64 {
    let total: u64 = histogram.iter().sum();
    let mut h = 0.0;
    for &c in histogram {
        if c > 0 {
            let p = c as f64 / total as f64;
            h -= p * p.log2();
        }
    }
    h
}

#[test]
fn test_orchestrator_creation() {
    let config = WipeConfig::default();
    let result = WipeOrchestrator::new("/dev/null".to_string(), config);
    let _ = result;
}

#[test]
fn test_pattern_generation() {
    let config = WipeConfig { algorithm: Algorithm::Zero, ..Default::default() };
    let orchestrator = WipeOrchestrator::with_drive_info(
        "/dev/null".to_string(),
        config,
        DriveInfo {
            device_path: "/dev/null".to_string(),
            model: "Test".to_string(),
            serial: "TEST123".to_string(),
            size: 1024 * 1024 * 1024,
            drive_type: DriveType::HDD,
            encryption_status: EncryptionStatus::Unencrypted,
            capabilities: Default::default(),
            health_status: None,
            temperature_celsius: None,
        },
    );
    let pattern = orchestrator.generate_pattern(1024).unwrap();
    assert_eq!(pattern.len(), 1024);
    assert!(pattern.iter().all(|&b| b == 0));
}

#[test]
fn new_describes_device_from_path() {
    let o = WipeOrchestrator::new("/dev/nvme0n1".to_string(), WipeConfig::default()).unwrap();
    assert_eq!(o.drive_info().drive_type, DriveType::NVMe);
    assert_eq!(o.drive_info().size, ASSUMED_DEVICE_SIZE);
    assert_eq!(o.drive_info().size, 100 * 1024 * 1024 * 1024);
    assert_eq!(o.device_path(), "/dev/nvme0n1");
    assert_eq!(o.drive_info().model, "Unknown");
}

#[test]
fn basic_drive_info_guesses_type_from_path() {
    assert_eq!(WipeOrchestrator::create_basic_drive_info("/dev/nvme1n1").drive_type, DriveType::NVMe);
    assert_eq!(WipeOrchestrator::create_basic_drive_info("/dev/mmcblk0").drive_type, DriveType::EMMC);
    assert_eq!(WipeOrchestrator::create_basic_drive_info("/dev/sda").drive_type, DriveType::HDD);
    assert_eq!(WipeOrchestrator::create_basic_drive_info("").drive_type, DriveType::HDD);
    assert_eq!(WipeOrchestrator::create_basic_drive_info("/dev/nvm").drive_type, DriveType::HDD);
    let info = WipeOrchestrator::create_basic_drive_info("/dev/sdb");
    assert_eq!(info.device_path, "/dev/sdb");
    assert_eq!(info.serial, "Unknown");
    assert_eq!(info.model, "Unknown");
    assert_eq!(info.size, ASSUMED_DEVICE_SIZE);
    assert_eq!(info.encryption_status, EncryptionStatus::Unencrypted);
    assert_eq!(info.capabilities, DriveCapabilities::default());
    assert!(!info.capabilities.trim_support);
    assert!(info.health_status.is_none());
    assert!(info.temperature_celsius.is_none());
}

#[test]
fn substring_search() {
    assert!(contains_slice(b"/dev/nvme0", b"nvme"));
    assert!(contains_slice(b"nvme", b"nvme"));
    assert!(contains_slice(b"abc", b""));
    assert!(!contains_slice(b"nvm", b"nvme"));
    assert!(!contains_slice(b"/dev/sda", b"nvme"));
}

#[test]
fn zero_pattern_is_all_zero_for_every_length() {
    let o = orchestrator(Algorithm::Zero, false, drive(DriveType::HDD, 4096, false));
    for n in [0usize, 1, 511, 4096] {
        let p = o.generate_pattern(n).unwrap();
        assert_eq!(p.len(), n);
        assert!(p.iter().all(|&b| b == 0));
    }
}

#[test]
fn random_patterns_differ_and_have_requested_length() {
    let o = orchestrator(Algorithm::Random, false, drive(DriveType::HDD, 4096, false));
    let a = o.generate_pattern(1024).unwrap();
    let b = o.generate_pattern(1024).unwrap();
    assert_eq!(a.len(), 1024);
    assert_eq!(b.len(), 1024);
    assert_ne!(a, b);
    assert!(a.iter().any(|&x| x != 0));
}

#[test]
fn multi_pass_standards_use_random_fill() {
    for alg in [Algorithm::Random, Algorithm::DoD5220, Algorithm::Gutmann] {
        let o = orchestrator(alg, false, drive(DriveType::HDD, 4096, false));
        assert_eq!(o.convert_to_wipe_algorithm(), WipeAlgorithm::Random);
        let p = o.generate_pattern(256).unwrap();
        assert_eq!(p.len(), 256);
        assert!(p.iter().any(|&x| x != 0));
    }
    let o = orchestrator(Algorithm::Zero, false, drive(DriveType::HDD, 4096, false));
    assert_eq!(o.convert_to_wipe_algorithm(), WipeAlgorithm::Zeros);
}

#[test]
fn overwrite_beyond_device_is_io_error() {
    let o = orchestrator(Algorithm::Zero, false, drive(DriveType::HDD, 4096, false));
    assert!(o.check_region(0, 4096).is_ok());
    assert!(o.check_region(4000, 96).is_ok());
    assert!(matches!(o.check_region(4000, 97), Err(DriveError::IoError(_))));
    assert!(matches!(o.check_region(5000, 0), Err(DriveError::IoError(_))));
    assert!(matches!(o.check_region(u64::MAX, u64::MAX), Err(DriveError::IoError(_))));
}

#[test]
fn raid_without_authorization_is_refused() {
    let o = orchestrator(Algorithm::Random, false, drive(DriveType::RAID, 4096, false));
    assert!(matches!(
        o.plan(),
        Err(DriveError::Unsupported(UnsupportedReason::RaidNotAuthorized))
    ));
    let o = orchestrator(Algorithm::Random, true, drive(DriveType::RAID, 4096, false));
    assert_eq!(
        o.plan().unwrap(),
        WipeStep::Delegate { driver: DriverKind::RaidArray, operation: Operation::WipeRaidMember }
    );
}

#[test]
fn dispatch_by_drive_type() {
    let step = |t: DriveType, trim: bool| {
        orchestrator(Algorithm::Random, false, drive(t, 8192, trim)).plan()
    };
    assert_eq!(
        step(DriveType::SMR, false).unwrap(),
        WipeStep::Delegate { driver: DriverKind::Smr, operation: Operation::WipeSmr }
    );
    assert_eq!(
        step(DriveType::Optane, false).unwrap(),
        WipeStep::Delegate { driver: DriverKind::Optane, operation: Operation::WipeOptane }
    );
    assert_eq!(
        step(DriveType::HybridSSHD, false).unwrap(),
        WipeStep::Delegate { driver: DriverKind::Hybrid, operation: Operation::WipeHybrid }
    );
    assert_eq!(
        step(DriveType::EMMC, false).unwrap(),
        WipeStep::Delegate { driver: DriverKind::Emmc, operation: Operation::WipeEmmc }
    );
    assert_eq!(
        step(DriveType::UFS, false).unwrap(),
        WipeStep::Command { command: HostCommand::UfsPurge, operation: Operation::WipeUfs }
    );
    assert_eq!(step(DriveType::NVMe, false).unwrap(), WipeStep::ProbeNvme);
    assert_eq!(
        step(DriveType::SSD, true).unwrap(),
        WipeStep::Overwrite { offset: 0, length: 8192, discard: true, operation: Operation::WipeSsd }
    );
    assert_eq!(
        step(DriveType::HDD, true).unwrap(),
        WipeStep::Overwrite { offset: 0, length: 8192, discard: false, operation: Operation::WipeHdd }
    );
    assert!(matches!(
        step(DriveType::USB, false),
        Err(DriveError::Unsupported(UnsupportedReason::DriveType(DriveType::USB)))
    ));
    assert!(matches!(
        step(DriveType::Unknown, false),
        Err(DriveError::Unsupported(UnsupportedReason::DriveType(DriveType::Unknown)))
    ));
}

#[test]
fn nvme_step_follows_probe() {
    assert_eq!(
        WipeOrchestrator::nvme_step(Ok(true)).unwrap(),
        WipeStep::Delegate { driver: DriverKind::NvmeAdvanced, operation: Operation::WipeNvmeAdvanced }
    );
    assert_eq!(
        WipeOrchestrator::nvme_step(Ok(false)).unwrap(),
        WipeStep::Command { command: HostCommand::NvmeSanitize, operation: Operation::WipeNvmeBasic }
    );
    assert!(matches!(
        WipeOrchestrator::nvme_step(Err("no controller".to_string())),
        Err(DriveError::HardwareCommandFailed(m)) if m == "NVMe advanced detection failed: no controller"
    ));
}

#[test]
fn driver_requests_carry_options() {
    let o = orchestrator(Algorithm::Zero, true, drive(DriveType::SMR, 8192, false));
    assert_eq!(
        o.driver_request(DriverKind::Smr, Ok(true)).unwrap(),
        DriverRequest {
            driver: DriverKind::Smr,
            algorithm: WipeAlgorithm::Zeros,
            hardware_erase: false,
            erase_metadata: false,
        }
    );
    let o = orchestrator(Algorithm::Gutmann, true, drive(DriveType::Optane, 8192, false));
    assert!(o.driver_request(DriverKind::Optane, Ok(true)).unwrap().hardware_erase);
    assert!(!o.driver_request(DriverKind::Optane, Ok(false)).unwrap().hardware_erase);
    assert_eq!(
        o.driver_request(DriverKind::Optane, Ok(false)).unwrap().algorithm,
        WipeAlgorithm::Random
    );
    assert!(o.driver_request(DriverKind::Emmc, Ok(false)).unwrap().hardware_erase);
    assert!(o.driver_request(DriverKind::NvmeAdvanced, Ok(false)).unwrap().hardware_erase);
    let raid = o.driver_request(DriverKind::RaidArray, Ok(false)).unwrap();
    assert!(raid.erase_metadata);
    assert!(!raid.hardware_erase);
    assert!(!o.driver_request(DriverKind::Hybrid, Ok(true)).unwrap().erase_metadata);
    assert!(matches!(
        o.driver_request(DriverKind::Hybrid, Err("SMART read failed".to_string())),
        Err(DriveError::HardwareCommandFailed(m)) if m == "Hybrid detection failed: SMART read failed"
    ));
    assert!(matches!(
        o.driver_request(DriverKind::RaidArray, Err("no array".to_string())),
        Err(DriveError::HardwareCommandFailed(m)) if m == "RAID detection failed: no array"
    ));
    assert!(matches!(
        o.driver_request(DriverKind::Smr, Err("x".to_string())),
        Err(DriveError::HardwareCommandFailed(m)) if m == "SMR detection failed: x"
    ));
}

fn transient(msg: &str) -> Outcome {
    Outcome::Failed(FailureKind::Transient, msg.to_string())
}

#[test]
fn transient_failures_then_success_leave_no_checkpoint() {
    let mut c = RecoveryCoordinator::new("/dev/sda".to_string(), 3);
    let op = Operation::WipeHdd;
    assert!(c.begin(op).is_ok());
    assert!(matches!(c.record(op, transient("busy"), 10), Decision::RetryAfter(100)));
    assert_eq!(c.checkpoint(op).unwrap().retry_count, 1);
    assert!(c.begin(op).is_ok());
    assert!(matches!(c.record(op, transient("timeout"), 11), Decision::RetryAfter(200)));
    let cp = c.checkpoint(op).unwrap();
    assert_eq!(cp.retry_count, 2);
    assert_eq!(cp.message, "timeout");
    assert_eq!(cp.timestamp, 11);
    assert_eq!(cp.last_error, FailureKind::Transient);
    assert!(c.begin(op).is_ok());
    assert!(matches!(c.record(op, Outcome::Succeeded, 12), Decision::Finished));
    assert!(c.checkpoint(op).is_none());
}

#[test]
fn always_failing_action_exhausts_budget() {
    let mut c = RecoveryCoordinator::new("/dev/sda".to_string(), 3);
    let op = Operation::WipeSsd;
    let mut attempts = 0;
    let err = loop {
        if let Err(e) = c.begin(op) {
            break e;
        }
        attempts += 1;
        match c.record(op, transient("busy"), attempts) {
            Decision::RetryAfter(_) => {}
            Decision::Abort(e) => break e,
            Decision::Finished => panic!("a failing action cannot finish"),
        }
    };
    assert_eq!(attempts, 3);
    assert_eq!(err.kind, RecoveryErrorKind::Exhausted);
    assert_eq!(err.retries, 3);
    assert_eq!(err.operation, op);
    assert_eq!(err.device, "/dev/sda");
    assert_eq!(err.message, "busy");
    assert_eq!(c.checkpoint(op).unwrap().retry_count, 3);
    let again = c.begin(op).unwrap_err();
    assert_eq!(again.kind, RecoveryErrorKind::Exhausted);
    assert_eq!(again.retries, 3);
}

#[test]
fn permanent_failure_stops_at_once() {
    let mut c = RecoveryCoordinator::new("/dev/sdc".to_string(), 5);
    let op = Operation::WipeUfs;
    match c.record(op, Outcome::Failed(FailureKind::Permanent, "unsupported".to_string()), 7) {
        Decision::Abort(e) => {
            assert_eq!(e.kind, RecoveryErrorKind::Permanent);
            assert_eq!(e.retries, 1);
            assert_eq!(e.message, "unsupported");
        }
        other => panic!("unexpected decision {:?}", other),
    }
    let cp = c.checkpoint(op).unwrap();
    assert_eq!(cp.last_error, FailureKind::Permanent);
    assert!(c.begin(op).is_ok());
    assert!(c.checkpoint(Operation::WipeHdd).is_none());
}

#[test]
fn zero_retry_budget_exhausts_on_first_failure() {
    let mut c = RecoveryCoordinator::new("/dev/sdd".to_string(), 0);
    let op = Operation::WipeSmr;
    assert!(c.begin(op).is_ok());
    match c.record(op, transient("busy"), 1) {
        Decision::Abort(e) => assert_eq!(e.kind, RecoveryErrorKind::Exhausted),
        other => panic!("unexpected decision {:?}", other),
    }
    assert_eq!(c.checkpoint(op).unwrap().retry_count, 0);
    assert!(c.begin(op).is_err());
}

#[test]
fn backoff_doubles_up_to_cap() {
    assert_eq!(backoff_delay_ms(0), 100);
    assert_eq!(backoff_delay_ms(1), 100);
    assert_eq!(backoff_delay_ms(2), 200);
    assert_eq!(backoff_delay_ms(3), 400);
    assert_eq!(backoff_delay_ms(7), 6400);
    assert_eq!(backoff_delay_ms(8), 10000);
    assert_eq!(backoff_delay_ms(u32::MAX), 10000);
}

#[test]
fn orchestrator_wraps_recovery_errors_as_io() {
    let mut o = orchestrator(Algorithm::Zero, false, drive(DriveType::HDD, 4096, false));
    let op = Operation::WipeHdd;
    for t in 0..3 {
        assert!(o.begin(op).is_ok());
        o.record(op, transient("device busy"), t);
    }
    match o.begin(op) {
        Err(DriveError::IoError(m)) => assert_eq!(m, "wipe_hdd_drive on /dev/test: device busy"),
        other => panic!("unexpected {:?}", other),
    }
    let e = RecoveryError {
        operation: op,
        device: "/dev/x".to_string(),
        kind: RecoveryErrorKind::Permanent,
        retries: 1,
        message: "denied".to_string(),
    };
    assert!(matches!(
        wrap_recovery_error(e),
        DriveError::IoError(m) if m == "wipe_hdd_drive on /dev/x: denied"
    ));
    assert_eq!(Operation::WipeRaidMember.name(), "wipe_raid_member");
    assert_eq!(Operation::WipeNvmeBasic.name(), "wipe_nvme_basic");
}

#[test]
fn zero_filled_device_fails_entropy() {
    let sample = vec![0u8; 1 << 20];
    let h = RecoveryTest::byte_histogram(&sample);
    assert_eq!(h.len(), 256);
    assert_eq!(h[0], 1 << 20);
    assert!(h[1..].iter().all(|&c| c == 0));
    let e = entropy(&h);
    assert!(e < 7.5);
    assert_eq!(e, 0.0);
    assert!(!RecoveryTest::verify_sector_wiped(&sample[..4096]));
}

#[test]
fn uniform_device_passes_entropy() {
    let sample: Vec<u8> = (0..1usize << 20).map(|i| (i.wrapping_mul(167) % 256) as u8).collect();
    let h = RecoveryTest::byte_histogram(&sample);
    assert!(h.iter().all(|&c| c == 4096));
    let e = entropy(&h);
    assert!(e > 7.9);
    assert!((e - 8.0).abs() < 1e-9);
    assert!(RecoveryTest::verify_sector_wiped(&sample[..4096]));
}

#[test]
fn mostly_zero_window_is_suspicious() {
    let mut window: Vec<u8> = (0..4096usize).map(|i| (i % 251) as u8 | 1).collect();
    assert!(RecoveryTest::verify_sector_wiped(&window));
    for b in window.iter_mut().take(3300) {
        *b = 0;
    }
    assert!(!RecoveryTest::verify_sector_wiped(&window));
}

#[test]
fn suspicious_threshold_is_strictly_above_eighty_percent() {
    let window = |count: usize, value: u8| {
        let mut w = vec![0x5Au8; 4096];
        for b in w.iter_mut().take(count) {
            *b = value;
        }
        w
    };
    assert!(RecoveryTest::verify_sector_wiped(&window(3276, 0x00)));
    assert!(!RecoveryTest::verify_sector_wiped(&window(3277, 0x00)));
    assert!(RecoveryTest::verify_sector_wiped(&window(3276, 0xFF)));
    assert!(!RecoveryTest::verify_sector_wiped(&window(3277, 0xFF)));
    assert!(RecoveryTest::verify_sector_wiped(&vec![0xAAu8; 4096]));
    assert!(!RecoveryTest::verify_sector_wiped(&vec![0xFFu8; 4096]));
    assert!(RecoveryTest::verify_sector_wiped(&[]));
}

#[test]
fn histogram_ignores_order() {
    let a: Vec<u8> = vec![3, 1, 4, 1, 5, 9, 2, 6, 5, 3, 5];
    let mut b = a.clone();
    b.reverse();
    let mut c = a.clone();
    c.sort();
    let ha = RecoveryTest::byte_histogram(&a);
    assert_eq!(ha, RecoveryTest::byte_histogram(&b));
    assert_eq!(ha, RecoveryTest::byte_histogram(&c));
    assert_eq!(ha[5], 3);
    assert_eq!(ha[1], 2);
    assert_eq!(ha[7], 0);
    assert_eq!(entropy(&ha), entropy(&RecoveryTest::byte_histogram(&b)));
}

#[test]
fn test_sectors_are_aligned_and_in_range() {
    assert!(RecoveryTest::generate_test_sectors(0).unwrap().is_empty());
    assert!(RecoveryTest::generate_test_sectors(4095).unwrap().is_empty());
    assert_eq!(RecoveryTest::generate_test_sectors(4096).unwrap(), vec![0]);
    assert_eq!(RecoveryTest::generate_test_sectors(4607).unwrap(), vec![0]);
    let s = RecoveryTest::generate_test_sectors(512 * 10).unwrap();
    assert_eq!(s.len(), 3);
    assert!(s.iter().all(|&o| o % 512 == 0 && o + 4096 <= 5120));
    let s = RecoveryTest::generate_test_sectors(1 << 40).unwrap();
    assert_eq!(s.len(), 1000);
    assert!(s.iter().all(|&o| o % 512 == 0 && o + 4096 <= 1 << 40));
    assert!(s.iter().any(|&o| o != s[0]));
}

#[test]
fn sector_offset_is_exact() {
    assert_eq!(RecoveryTest::sector_offset(1234567, 100), 67 * 512);
    assert_eq!(RecoveryTest::sector_offset(99, 100), 99 * 512);
    assert_eq!(RecoveryTest::sector_offset(u64::MAX, 1), 0);
}

#[test]
fn entropy_sample_is_bounded() {
    assert_eq!(RecoveryTest::entropy_sample_len(4096), 4096);
    assert_eq!(RecoveryTest::entropy_sample_len(1 << 40), ENTROPY_SAMPLE_MAX);
    assert_eq!(ENTROPY_SAMPLE_MAX, 100 * 1024 * 1024);
}

#[test]
fn restored_checkpoint_is_honoured_after_restart() {
    let mut c = RecoveryCoordinator::new("/dev/sde".to_string(), 3);
    let op = Operation::WipeEmmc;
    c.restore(
        op,
        drive_wipe::Checkpoint {
            retry_count: 2,
            last_error: FailureKind::Transient,
            message: "busy".to_string(),
            timestamp: 40,
        },
    );
    assert!(c.begin(op).is_ok());
    match c.record(op, transient("busy"), 41) {
        Decision::Abort(e) => {
            assert_eq!(e.kind, RecoveryErrorKind::Exhausted);
            assert_eq!(e.retries, 3);
        }
        other => panic!("unexpected decision {:?}", other),
    }
    let mut o = orchestrator(Algorithm::Zero, false, drive(DriveType::HDD, 4096, false));
    o.restore(
        Operation::WipeHdd,
        drive_wipe::Checkpoint {
            retry_count: 9,
            last_error: FailureKind::Permanent,
            message: "denied".to_string(),
            timestamp: 1,
        },
    );
    assert!(matches!(
        o.begin(Operation::WipeHdd),
        Err(DriveError::IoError(m)) if m == "wipe_hdd_drive on /dev/test: denied"
    ));
    assert!(o.begin(Operation::WipeSsd).is_ok());
}
