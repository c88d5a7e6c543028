use std::path::PathBuf;
use tari_universe::config_mining::ConfigMiningContent;
use tari_universe::gpu::{
    GpuCommonInformation, GpuConnectionType, GpuMinerAlgorithm, GpuMinerStatus, GpuMinerType,
    MiningError,
};
use tari_universe::miner::{ProcessOutput, TariMinerGpuMiner};
use tari_universe::monitor::{
    HandleUnhealthyResult, HealthStatus, MinerFallback, TariMinerGpuMinerStatusMonitor,
    UnhealthyAction,
};
use tari_universe::speed::{
    parse_speed_line, TariMinerSpeedTracker, SPEED_SAMPLE_STALE_AFTER_NANOS,
};
use tari_universe::tariminer::{
    parse_nvidia_smi_devices, publish_selected_backend, select_device, selected_backend,
    split_worker_name, SelectedBackend, TariMinerBackend, TariMinerDevice,
};

const REPORT: &str = "speed 4.21 g/s | graphs=42 cycles=1 submitted=1 accepted=1 rejected=0";

fn device(device_id: u32, backend: TariMinerBackend) -> TariMinerDevice {
    TariMinerDevice {
        common: GpuCommonInformation {
            name: format!("GPU {device_id}"),
            device_id,
        },
        backend,
    }
}

fn rate(line: &str) -> Option<f64> {
    parse_speed_line(line).and_then(|rate| rate.parse::<f64>().ok())
}

fn strings(texts: &[&str]) -> Vec<String> {
    texts.iter().map(|text| text.to_string()).collect()
}

fn pool_miner() -> TariMinerGpuMiner {
    let mut miner = TariMinerGpuMiner::new();
    miner.gpu_devices = vec![
        device(3, TariMinerBackend::Sm86),
        device(11, TariMinerBackend::Sm120),
    ];
    miner.load_tari_address("wallet");
    miner.load_connection_type(GpuConnectionType::Pool {
        pool_url: "pool:1".to_string(),
    });
    miner
}

fn spawn_args(miner: &TariMinerGpuMiner) -> Result<Vec<String>, MiningError> {
    miner
        .spawn_inner(
            PathBuf::from("base"),
            PathBuf::from("config"),
            PathBuf::from("log"),
            PathBuf::from("binary"),
            false,
        )
        .map(|(process, _)| process.args)
}

#[test]
fn backend_is_resolved_from_the_compute_capability() {
    assert_eq!(
        TariMinerBackend::from_compute_capability("8.6"),
        Some(TariMinerBackend::Sm86)
    );
    assert_eq!(
        TariMinerBackend::from_compute_capability(" 8.9 "),
        Some(TariMinerBackend::Sm89)
    );
    assert_eq!(
        TariMinerBackend::from_compute_capability("12.0"),
        Some(TariMinerBackend::Sm120)
    );
    assert_eq!(TariMinerBackend::from_compute_capability("7.5"), None);
}

#[test]
fn nvidia_smi_output_is_parsed_and_unsupported_devices_are_dropped() {
    let output = "0, 8.9, NVIDIA GeForce RTX 4090\n1, 7.5, NVIDIA GeForce GTX 1660\n2, 12.0, NVIDIA GeForce RTX 5090\n";

    let devices = parse_nvidia_smi_devices(output);

    assert_eq!(devices.len(), 2);
    assert_eq!(devices[0].common.device_id, 0);
    assert_eq!(devices[0].common.name, "NVIDIA GeForce RTX 4090");
    assert_eq!(devices[0].backend, TariMinerBackend::Sm89);
    assert_eq!(devices[1].common.device_id, 2);
    assert_eq!(devices[1].backend, TariMinerBackend::Sm120);
}

#[test]
fn malformed_nvidia_smi_lines_are_ignored() {
    let output = "\nnot a device row\n0, 8.6, NVIDIA GeForce RTX 3080\nx, 8.6, Broken index\n";

    let devices = parse_nvidia_smi_devices(output);

    assert_eq!(
        devices,
        vec![TariMinerDevice {
            common: GpuCommonInformation {
                name: "NVIDIA GeForce RTX 3080".to_string(),
                device_id: 0,
            },
            backend: TariMinerBackend::Sm86,
        }]
    );
}

#[test]
fn rows_are_read_one_by_one() {
    let rows = ["+7,8.6 , a ,ignored\r", "8,8.9", "4294967296, 8.6, big", "9,12.0,"];
    let mut expected = Vec::new();
    for row in rows {
        expected.extend(parse_nvidia_smi_devices(row));
    }
    assert_eq!(parse_nvidia_smi_devices(&rows.join("\n")), expected);
    assert_eq!(expected.len(), 2);
    assert_eq!(expected[0].common.device_id, 7);
    assert_eq!(expected[0].common.name, "a");
    assert_eq!(expected[1].common.name, "");
}

#[test]
fn the_first_device_that_is_not_excluded_is_selected() {
    let devices = vec![
        device(0, TariMinerBackend::Sm86),
        device(1, TariMinerBackend::Sm120),
    ];

    assert_eq!(select_device(&devices, &[]).ok(), Some(&devices[0]));
    assert_eq!(select_device(&devices, &[0]).ok(), Some(&devices[1]));
}

#[test]
fn selecting_a_device_fails_when_all_of_them_are_excluded() {
    let devices = vec![device(0, TariMinerBackend::Sm86)];

    let error = select_device(&devices, &[0]).expect_err("all devices are excluded");

    assert!(matches!(error, MiningError::AllDevicesExcluded));
    assert!(select_device(&[], &[]).is_err());
}

#[test]
fn without_devices_there_is_nothing_to_exclude() {
    assert_eq!(
        select_device(&[], &[0]).err(),
        Some(MiningError::NoCompatibleDevices)
    );
}

#[test]
fn the_login_separator_is_split_off_the_worker_name() {
    assert_eq!(
        split_worker_name(".Tari-universe"),
        (Some("."), "Tari-universe")
    );
    assert_eq!(
        split_worker_name("/Tari-universe"),
        (Some("/"), "Tari-universe")
    );
    assert_eq!(split_worker_name("Tari-universe"), (None, "Tari-universe"));
    assert_eq!(split_worker_name(""), (None, ""));
}

#[test]
fn a_worker_name_is_split_without_loss() {
    for name in [".", "/", "./x", "\u{e9}.x", "x.y", ".\u{1F600}"] {
        let (separator, worker) = split_worker_name(name);
        assert_eq!(format!("{}{}", separator.unwrap_or(""), worker), name);
    }
    assert_eq!(split_worker_name("."), (Some("."), ""));
    assert_eq!(split_worker_name("\u{e9}.x"), (None, "\u{e9}.x"));
}

#[test]
fn the_graph_rate_is_read_from_the_periodic_speed_report() {
    assert_eq!(
        rate("speed 4.21 g/s | graphs=42 cycles=1 submitted=1 accepted=1 rejected=0"),
        Some(4.21)
    );
    assert_eq!(
        rate("graphs=42 elapsed=10.00s speed=4.215 g/s cycles=1 submitted=1 verify_failures=0"),
        Some(4.215)
    );
    assert_eq!(rate("share accepted (3 total)"), None);
}

#[test]
fn only_complete_reports_are_read() {
    assert_eq!(parse_speed_line("speed=7g/s").as_deref(), Some("7"));
    assert_eq!(
        parse_speed_line("xspeed 007.50\u{a0}\t\n g/s!").as_deref(),
        Some("007.50")
    );
    assert_eq!(
        parse_speed_line("speed 1 h/s speed 2 g/s speed 3 g/s").as_deref(),
        Some("2")
    );
    assert_eq!(
        parse_speed_line("speed 1.speed 2.5 g/s").as_deref(),
        Some("2.5")
    );
    for line in [
        "",
        "speed",
        "speed  4 g/s",
        "speed 4. g/s",
        "speed .4 g/s",
        "speed 1.2.3 g/s",
        "speed -4 g/s",
        "speed 4 G/s",
        "Speed 4 g/s",
        "speed \u{0664} g/s",
    ] {
        assert_eq!(parse_speed_line(line), None, "{line}");
    }
}

#[test]
fn a_recorded_speed_is_reported_and_a_missing_one_is_not() {
    let mut tracker = TariMinerSpeedTracker::default();
    assert_eq!(tracker.latest_speed(0), None);

    tracker.record_line("share accepted (3 total)", 0);
    assert_eq!(tracker.latest_speed(0), None);

    tracker.record_line(
        "speed 4.21 g/s | graphs=42 cycles=1 submitted=1 accepted=1 rejected=0",
        0,
    );
    assert_eq!(
        tracker.latest_speed(0).and_then(|speed| speed.parse::<f64>().ok()),
        Some(4.21)
    );
}

#[test]
fn a_recorded_speed_is_reported_until_it_is_stale() {
    let mut tracker = TariMinerSpeedTracker::default();
    tracker.record_line(REPORT, 1000);
    tracker.record_line("share accepted (3 total)", 5000);
    let last = 1000 + SPEED_SAMPLE_STALE_AFTER_NANOS;
    assert_eq!(SPEED_SAMPLE_STALE_AFTER_NANOS, 120 * 1_000_000_000);
    assert_eq!(tracker.latest_speed(0).as_deref(), Some("4.21"));
    assert_eq!(tracker.latest_speed(last).as_deref(), Some("4.21"));
    assert_eq!(tracker.latest_speed(last + 1), None);
    tracker.record_line("speed=5 g/s", last + 1);
    assert_eq!(tracker.latest_speed(last + 1).as_deref(), Some("5"));
}

#[test]
fn every_backend_resolves_to_a_binary_inside_the_archive() {
    assert_eq!(
        TariMinerBackend::Sm120.relative_binary_path(),
        PathBuf::from("bin").join("tari_c29_pool_miner_sm_120")
    );
}

#[test]
fn backends_have_different_binaries() {
    assert_eq!(TariMinerBackend::Sm86.file_stem(), "tari_c29_pool_miner_sm_86");
    assert_eq!(TariMinerBackend::Sm89.file_stem(), "tari_c29_pool_miner_sm_89");
    assert_ne!(
        TariMinerBackend::Sm86.relative_binary_path(),
        TariMinerBackend::Sm89.relative_binary_path()
    );
}

#[test]
fn the_published_backend_is_selected() {
    assert_eq!(selected_backend(None), TariMinerBackend::Sm86);
    let mut selected = SelectedBackend::default();
    assert_eq!(selected_backend(Some(&selected)), TariMinerBackend::Sm86);
    publish_selected_backend(&mut selected, TariMinerBackend::Sm120);
    assert_eq!(selected_backend(Some(&selected)), TariMinerBackend::Sm120);
}

#[test]
fn the_published_backend_follows_the_device() {
    let mut selected = SelectedBackend::default();
    let mut miner = pool_miner();
    miner.load_excluded_devices(vec![3], &mut selected);
    assert_eq!(selected_backend(Some(&selected)), TariMinerBackend::Sm120);
    miner.load_excluded_devices(vec![3, 11], &mut selected);
    assert_eq!(selected_backend(Some(&selected)), TariMinerBackend::Sm120);
    miner.load_excluded_devices(vec![11], &mut selected);
    assert_eq!(selected_backend(Some(&selected)), TariMinerBackend::Sm86);
}

#[test]
fn the_miner_is_started_with_what_was_loaded() {
    let mut miner = pool_miner();
    assert_eq!(
        spawn_args(&miner),
        Ok(strings(&["--device", "3", "--pool", "pool:1", "--wallet", "wallet"]))
    );
    miner.excluded_devices = vec![3];
    miner.load_worker_name(Some(".Tari-universe"));
    miner.load_intensity_percentage(0);
    assert_eq!(
        spawn_args(&miner),
        Ok(strings(&[
            "--device",
            "11",
            "--pool",
            "pool:1",
            "--wallet",
            "wallet",
            "--worker",
            "Tari-universe",
            "--login-separator",
            ".",
            "--intensity",
            "1",
        ]))
    );
    miner.load_worker_name(Some("rig"));
    miner.load_intensity_percentage(250);
    assert_eq!(
        spawn_args(&miner).map(|args| args[6..].to_vec()),
        Ok(strings(&["--worker", "rig", "--intensity", "100"]))
    );
    miner.load_worker_name(None);
    miner.load_intensity_percentage(64);
    assert_eq!(
        spawn_args(&miner).map(|args| args[6..].to_vec()),
        Ok(strings(&["--intensity", "64"]))
    );
}

#[test]
fn the_process_is_described_for_its_launcher() {
    let (process, monitor) = pool_miner()
        .spawn_inner(
            PathBuf::from("base"),
            PathBuf::from("config"),
            PathBuf::from("log"),
            PathBuf::from("binary"),
            true,
        )
        .expect("everything is loaded");
    assert_eq!(process.file_path, PathBuf::from("binary"));
    assert_eq!(process.data_dir, PathBuf::from("base"));
    assert!(process.envs.is_none());
    assert_eq!(process.name, "tariminer");
    assert_eq!(process.pid_file_name, "tariminer_pid");
    assert_eq!(monitor.speed_tracker.latest_speed(0), None);
}

#[test]
fn the_miner_is_not_started_while_something_is_missing() {
    let mut miner = pool_miner();
    miner.tari_address = None;
    assert_eq!(spawn_args(&miner), Err(MiningError::TariAddressNotSet));
    miner.connection_type = None;
    assert_eq!(spawn_args(&miner), Err(MiningError::ConnectionTypeNotSet));
    miner.load_connection_type(GpuConnectionType::Node {
        node_grpc_address: "node:1".to_string(),
    });
    assert_eq!(spawn_args(&miner), Err(MiningError::NodeMiningNotSupported));
    miner.excluded_devices = vec![11, 3];
    assert_eq!(spawn_args(&miner), Err(MiningError::AllDevicesExcluded));
    assert_eq!(
        spawn_args(&TariMinerGpuMiner::default()),
        Err(MiningError::NoCompatibleDevices)
    );
}

#[test]
fn errors_say_what_is_wrong() {
    assert_eq!(
        MiningError::NoCompatibleDevices.message(),
        "No TARI.Miner compatible GPU devices found"
    );
    assert_eq!(
        MiningError::NodeMiningNotSupported.message(),
        "TARI.Miner does not support node mining"
    );
    assert_eq!(
        MiningError::ConnectionTypeNotSet.message(),
        "Connection type must be set before starting the TariMinerGpuMiner"
    );
    assert_eq!(
        MiningError::TariAddressNotSet.message(),
        "Tari address must be set before starting the TariMinerGpuMiner"
    );
    assert_eq!(
        MiningError::EnumerationFailed {
            error_output: "no driver".to_string()
        }
        .message(),
        "nvidia-smi could not enumerate NVIDIA GPUs: no driver"
    );
}

#[test]
fn nvidia_smi_is_asked_for_index_capability_and_name() {
    assert_eq!(
        TariMinerGpuMiner::enumeration_args(),
        strings(&[
            "--query-gpu=index,compute_cap,name",
            "--format=csv,noheader,nounits"
        ])
    );
}

#[test]
fn detected_devices_are_taken_over_and_made_known() {
    let mut miner = pool_miner();
    let mut selected = SelectedBackend::default();
    let output = ProcessOutput {
        success: true,
        stdout: b"5, 8.9, Card \xff\n6, 7.0, Old\n8, 8.6, Other\n".to_vec(),
        stderr: Vec::new(),
    };
    let detected = miner
        .detect_devices(&output, &mut selected)
        .expect("there are devices");
    assert_eq!(
        detected.common_devices,
        vec![
            GpuCommonInformation {
                name: "Card \u{fffd}".to_string(),
                device_id: 5
            },
            GpuCommonInformation {
                name: "Other".to_string(),
                device_id: 8
            },
        ]
    );
    assert_eq!(detected.device_settings, (GpuMinerType::TariMiner, vec![5, 8]));
    assert_eq!(miner.gpu_devices.len(), 2);
    assert_eq!(miner.gpu_devices[0].backend, TariMinerBackend::Sm89);
    assert_eq!(selected_backend(Some(&selected)), TariMinerBackend::Sm89);
}

#[test]
fn a_failed_enumeration_changes_nothing() {
    let mut miner = pool_miner();
    let mut selected = SelectedBackend::default();
    publish_selected_backend(&mut selected, TariMinerBackend::Sm120);
    let mut output = ProcessOutput {
        success: false,
        stdout: b"5, 8.9, Card\n".to_vec(),
        stderr: " no \u{fc} driver \r\n".as_bytes().to_vec(),
    };
    assert_eq!(
        miner.detect_devices(&output, &mut selected).err(),
        Some(MiningError::EnumerationFailed {
            error_output: "no \u{fc} driver".to_string()
        })
    );
    output.success = true;
    output.stdout = b"5, 7.5, Card\n".to_vec();
    assert_eq!(
        miner.detect_devices(&output, &mut selected).err(),
        Some(MiningError::NoCompatibleDevices)
    );
    assert_eq!(miner.gpu_devices, pool_miner().gpu_devices);
    assert_eq!(selected_backend(Some(&selected)), TariMinerBackend::Sm120);
}

#[test]
fn a_miner_is_healthy_while_it_reports_a_speed() {
    let mut monitor = TariMinerGpuMinerStatusMonitor::new();
    let idle = GpuMinerStatus::default_with_algorithm(GpuMinerAlgorithm::C29);
    assert_eq!(monitor.status(0), idle);
    assert!(!idle.is_mining);
    assert_eq!(monitor.check_health(0), (idle, HealthStatus::Unhealthy));
    monitor.speed_tracker.record_line(REPORT, 7);
    let (status, health) = monitor.check_health(8);
    assert_eq!(health, HealthStatus::Healthy);
    assert_eq!(
        status,
        GpuMinerStatus {
            is_mining: true,
            hash_rate: "4.21".to_string(),
            estimated_earnings: 0,
            algorithm: GpuMinerAlgorithm::C29,
        }
    );
    assert!(TariMinerGpuMinerStatusMonitor::needs_healthy_mark(health, false));
    assert!(!TariMinerGpuMinerStatusMonitor::needs_healthy_mark(health, true));
    assert!(!TariMinerGpuMinerStatusMonitor::needs_healthy_mark(
        HealthStatus::Unhealthy,
        false
    ));
}

#[test]
fn the_fallback_happens_once() {
    let monitor = TariMinerGpuMinerStatusMonitor::new();
    let mut fallback = MinerFallback::default();
    assert_eq!(
        monitor.handle_unhealthy(&fallback, 180),
        UnhealthyAction::KeepWatching
    );
    assert_eq!(
        monitor.handle_unhealthy(&fallback, 181),
        UnhealthyAction::FallBack
    );
    assert_eq!(
        fallback.fallback_tried(false),
        HandleUnhealthyResult::Continue
    );
    assert_eq!(
        monitor.handle_unhealthy(&fallback, 500),
        UnhealthyAction::FallBack
    );
    assert_eq!(fallback.fallback_tried(true), HandleUnhealthyResult::Stop);
    assert_eq!(
        monitor.handle_unhealthy(&fallback, u64::MAX),
        UnhealthyAction::KeepWatching
    );
    for outcome in [false, true, false] {
        fallback.fallback_tried(outcome);
        assert_eq!(
            monitor.handle_unhealthy(&fallback, u64::MAX),
            UnhealthyAction::KeepWatching
        );
    }
}

#[test]
fn watching_stops_only_after_a_fallback() {
    let monitor = TariMinerGpuMinerStatusMonitor::new();
    let mut fallback = MinerFallback::default();
    let action = monitor.handle_unhealthy(&fallback, 10);
    assert_eq!(
        fallback.conclude(action, None),
        HandleUnhealthyResult::Continue
    );
    assert_eq!(
        fallback.conclude(UnhealthyAction::KeepWatching, Some(true)),
        HandleUnhealthyResult::Continue
    );
    let action = monitor.handle_unhealthy(&fallback, 181);
    assert_eq!(action, UnhealthyAction::FallBack);
    assert_eq!(
        fallback.conclude(action, None),
        HandleUnhealthyResult::Continue
    );
    assert_eq!(
        fallback.conclude(action, Some(false)),
        HandleUnhealthyResult::Continue
    );
    assert_eq!(
        monitor.handle_unhealthy(&fallback, 181),
        UnhealthyAction::FallBack
    );
    assert_eq!(
        fallback.conclude(action, Some(true)),
        HandleUnhealthyResult::Stop
    );
    assert_eq!(
        monitor.handle_unhealthy(&fallback, 181),
        UnhealthyAction::KeepWatching
    );
}

#[test]
fn the_firewall_rule_is_named_after_the_binary() {
    assert_eq!(
        TariMinerBackend::Sm89.firewall_rule_name(),
        "tari_c29_pool_miner_sm_89.exe"
    );
}

#[test]
fn the_last_report_decides() {
    let mut tracker = TariMinerSpeedTracker::default();
    for (line, at) in [
        ("noise", 0),
        ("speed 1 g/s", 10),
        ("speed 2.5 g/s", 20),
        ("noise", 30),
        ("speed", 40),
    ] {
        tracker.record_line(line, at);
    }
    assert_eq!(tracker.latest_speed(50).as_deref(), Some("2.5"));
    let last = 20 + SPEED_SAMPLE_STALE_AFTER_NANOS;
    assert_eq!(tracker.latest_speed(last).as_deref(), Some("2.5"));
    assert_eq!(tracker.latest_speed(last + 1), None);
}

#[test]
fn parts_of_an_output_are_read_one_by_one() {
    let parts = ["", "0, 8.6, a\r", "1, 8.9, b\nx\n", "\n2, 12.0, c, d\r", "3, 8.6\r"];
    for first in parts {
        for rest in parts {
            let mut expected = parse_nvidia_smi_devices(first);
            expected.extend(parse_nvidia_smi_devices(rest));
            assert_eq!(parse_nvidia_smi_devices(&format!("{first}\n{rest}")), expected);
        }
    }
}

#[test]
fn exclusions_of_another_miner_do_not_carry_over_to_the_start() {
    let mut content = ConfigMiningContent::default();
    content
        .populate_gpu_devices_settings((GpuMinerType::LolMiner, vec![3]))
        .enable_gpu_device_exclusion(3);
    let mut selected = SelectedBackend::default();
    let mut miner = pool_miner();
    miner.load_excluded_devices(content.get_excluded_devices(), &mut selected);
    assert_eq!(spawn_args(&miner).map(|args| args[1].clone()), Ok("11".to_string()));

    let output = ProcessOutput {
        success: true,
        stdout: b"3, 8.6, Card\n11, 12.0, Other\n".to_vec(),
        stderr: Vec::new(),
    };
    let detected = miner
        .detect_devices(&output, &mut selected)
        .expect("there are devices");
    content.populate_gpu_devices_settings(detected.device_settings);
    assert!(content.gpu_devices_settings().0.contains_key(&3));
    assert!(content.gpu_devices_settings().0.contains_key(&11));
    miner.load_excluded_devices(content.get_excluded_devices(), &mut selected);
    assert_eq!(spawn_args(&miner).map(|args| args[1].clone()), Ok("3".to_string()));

    content.enable_gpu_device_exclusion(3);
    content.enable_gpu_device_exclusion(11);
    miner.load_excluded_devices(content.get_excluded_devices(), &mut selected);
    assert_eq!(spawn_args(&miner), Err(MiningError::AllDevicesExcluded));
}
