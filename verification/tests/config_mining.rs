use serde_json::Value;
use std::time::SystemTime;
use tari_universe::config_mining::{
    deserialize_gpu_miner_type, deserialize_optional_gpu_miner_type, ConfigMining,
    ConfigMiningContent, PauseOnBatteryModeState,
};
use tari_universe::device_settings::{GpuDeviceSettings, GpuDevicesSettings};
use tari_universe::gpu::GpuMinerType;
use tari_universe::modes::{MiningMode, MiningModeType, MiningTime};
use tari_universe::name_table::NameTable;

/// Reads settings from JSON: what is missing keeps its default.
fn load(json: &str) -> Option<ConfigMiningContent> {
    let stored: Value = serde_json::from_str(json).ok()?;
    let mut content = ConfigMiningContent::default();
    if let Some(mode) = stored.get("selected_mining_mode") {
        content.set_selected_mining_mode(mode.as_str()?.to_string());
    }
    if let Some(enabled) = stored.get("cpu_mining_enabled") {
        content.set_cpu_mining_enabled(enabled.as_bool()?);
    }
    if let Some(miner) = stored.get("gpu_miner_type") {
        content.set_gpu_miner_type(deserialize_gpu_miner_type(miner.as_str()?));
    }
    if let Some(miner) = stored.get("gpu_devices_settings_source") {
        content.set_gpu_devices_settings_source(deserialize_optional_gpu_miner_type(
            miner.as_str(),
        ));
    }
    if let Some(devices) = stored.get("gpu_devices_settings") {
        let mut settings = GpuDevicesSettings::new();
        for (id, device) in devices.as_object()? {
            settings.0.insert(
                id.parse().ok()?,
                GpuDeviceSettings {
                    device_id: device.get("device_id")?.as_u64()? as u32,
                    is_excluded: device.get("is_excluded")?.as_bool()?,
                },
            );
        }
        content.set_gpu_devices_settings(settings);
    }
    Some(content)
}

/// Writes the selected miner as JSON.
fn store(content: &ConfigMiningContent) -> Option<String> {
    let mut stored = serde_json::Map::new();
    stored.insert(
        "gpu_miner_type".to_string(),
        Value::from(content.gpu_miner_type().name()),
    );
    serde_json::to_string(&Value::Object(stored)).ok()
}

fn sorted(mut ids: Vec<u32>) -> Vec<u32> {
    ids.sort();
    ids
}

fn mode(mode_type: MiningModeType, cpu: u32, gpu: u32) -> MiningMode {
    MiningMode {
        mode_type,
        mode_name: mode_type.to_string(),
        cpu_usage_percentage: cpu,
        gpu_usage_percentage: gpu,
    }
}

#[test]
fn a_config_without_a_gpu_miner_keeps_the_default_one() {
    let content = load(r#"{"selected_mining_mode":"Eco"}"#).expect("valid mining config");

    assert_eq!(*content.gpu_miner_type(), GpuMinerType::LolMiner);
    assert_eq!(content.selected_mining_mode(), "Eco");
}

#[test]
fn a_saved_gpu_miner_is_restored() {
    let content = load(r#"{"gpu_miner_type":"TariMiner"}"#).expect("valid mining config");

    assert_eq!(*content.gpu_miner_type(), GpuMinerType::TariMiner);
}

#[test]
fn a_removed_gpu_miner_falls_back_to_the_default_one_instead_of_failing_the_load() {
    let content = load(r#"{"gpu_miner_type":"Graxil","cpu_mining_enabled":false}"#)
        .expect("legacy mining configs still load");

    assert_eq!(*content.gpu_miner_type(), GpuMinerType::LolMiner);
    assert!(!content.cpu_mining_enabled());
}

#[test]
fn device_settings_from_the_same_miner_are_kept() {
    let mut content = ConfigMiningContent::default();

    content.populate_gpu_devices_settings((GpuMinerType::LolMiner, vec![0, 1]));
    content.enable_gpu_device_exclusion(1);
    content.populate_gpu_devices_settings((GpuMinerType::LolMiner, vec![0, 1]));

    assert_eq!(content.get_excluded_devices(), vec![1]);
}

#[test]
fn device_settings_are_dropped_when_another_miner_takes_over_the_numbering() {
    let mut content = ConfigMiningContent::default();

    // Under lolMiner's enumeration device 0 might be an AMD card the user turned off.
    content.populate_gpu_devices_settings((GpuMinerType::LolMiner, vec![0, 1]));
    content.enable_gpu_device_exclusion(0);
    assert_eq!(content.get_excluded_devices(), vec![0]);

    // TARI.Miner numbers from nvidia-smi, where device 0 is a completely different card, so
    // carrying the exclusion over would silently skip the card the user wants to mine with.
    content.populate_gpu_devices_settings((GpuMinerType::TariMiner, vec![0]));

    assert!(content.get_excluded_devices().is_empty());
    assert_eq!(
        *content.gpu_devices_settings_source(),
        Some(GpuMinerType::TariMiner)
    );
}

#[test]
fn device_settings_written_before_the_source_was_tracked_are_dropped_once() {
    // Configs from before this field existed carry device ids with no miner attached, so the
    // first miner to detect devices has to start from a clean slate.
    let mut content =
        load(r#"{"gpu_devices_settings":{"0":{"device_id":0,"is_excluded":true}}}"#)
            .expect("valid mining config");
    assert_eq!(content.get_excluded_devices(), vec![0]);
    assert_eq!(*content.gpu_devices_settings_source(), None);

    content.populate_gpu_devices_settings((GpuMinerType::LolMiner, vec![0, 1]));

    assert!(content.get_excluded_devices().is_empty());
}

#[test]
fn the_selected_gpu_miner_round_trips_through_serialization() {
    let mut content = ConfigMiningContent::default();
    content.set_gpu_miner_type(GpuMinerType::TariMiner);

    let serialized = store(&content).expect("serializable mining config");
    let deserialized = load(&serialized).expect("valid mining config");

    assert_eq!(*deserialized.gpu_miner_type(), GpuMinerType::TariMiner);
}

#[test]
fn detecting_again_changes_nothing_and_only_adds_new_devices() {
    let mut content = ConfigMiningContent::default();
    content
        .populate_gpu_devices_settings((GpuMinerType::TariMiner, vec![4, 4, 2]))
        .enable_gpu_device_exclusion(4)
        .enable_gpu_device_exclusion(9)
        .populate_gpu_devices_settings((GpuMinerType::TariMiner, vec![2, 9]))
        .enable_gpu_device_exclusion(2);
    assert_eq!(sorted(content.get_excluded_devices()), vec![2, 4]);
    assert_eq!(content.gpu_devices_settings().0.len(), 3);
    content.populate_gpu_devices_settings((GpuMinerType::TariMiner, vec![9, 2, 9, 4]));
    assert_eq!(sorted(content.get_excluded_devices()), vec![2, 4]);
    assert_eq!(content.gpu_devices_settings().0.len(), 3);
    content.disable_gpu_device_exclusion(4);
    assert_eq!(content.get_excluded_devices(), vec![2]);
    for (id, settings) in &content.gpu_devices_settings().0 {
        assert_eq!(*id, settings.device_id);
    }
}

#[test]
fn a_known_device_is_not_added_again() {
    let mut settings = GpuDevicesSettings::new();
    settings.add(5);
    settings.set_excluded(5, true);
    settings.set_excluded(6, true);
    settings.add(5);
    assert_eq!(settings.excluded_ids(), vec![5]);
    assert_eq!(
        GpuDeviceSettings::default(),
        GpuDeviceSettings {
            device_id: 0,
            is_excluded: false
        }
    );
}

#[test]
fn a_miner_name_that_is_not_known_owns_no_numbering() {
    assert_eq!(deserialize_optional_gpu_miner_type(None), None);
    assert_eq!(deserialize_optional_gpu_miner_type(Some("Graxil")), None);
    for miner in [GpuMinerType::LolMiner, GpuMinerType::TariMiner] {
        assert_eq!(
            deserialize_optional_gpu_miner_type(Some(miner.name())),
            Some(miner)
        );
        assert_eq!(deserialize_gpu_miner_type(miner.name()), miner);
    }
    assert_eq!(GpuMinerType::default(), GpuMinerType::LolMiner);
}

#[test]
fn new_settings_are_as_documented() {
    let before = SystemTime::now();
    let content = ConfigMiningContent::default();
    assert!(*content.created_at() >= before);
    assert_eq!(*content.version_counter(), 2);
    assert_eq!(content.selected_mining_mode(), "Eco");
    assert_eq!(content.mining_modes().entries().len(), 4);
    assert_eq!(
        content.mining_modes().get("Eco"),
        Some(&mode(MiningModeType::Eco, 1, 1))
    );
    assert_eq!(
        content.mining_modes().get("Turbo"),
        Some(&mode(MiningModeType::Turbo, 10, 10))
    );
    assert_eq!(
        content.mining_modes().get("Ludicrous"),
        Some(&mode(MiningModeType::Ludicrous, 85, 95))
    );
    assert_eq!(
        content.mining_modes().get("Custom"),
        Some(&mode(MiningModeType::Custom, 75, 75))
    );
    assert!(*content.mine_on_app_start());
    assert!(*content.gpu_mining_enabled());
    assert!(*content.cpu_mining_enabled());
    assert!(content.gpu_devices_settings().0.is_empty());
    assert_eq!(*content.squad_override(), None);
    assert!(content.pause_on_battery_mode().is_enabled());
    assert!(!*content.is_lolminer_tested());
    assert!(*content.is_gpu_mining_recommended());
    assert!(*content.eco_alert_needed());
    assert_eq!(
        content.mode_mining_times().entries(),
        &vec![("Eco".to_string(), MiningTime { secs: 0, nanos: 0 })]
    );
}

#[test]
fn the_battery_mode_tells_its_state() {
    assert!(PauseOnBatteryModeState::NotSupported.is_not_supported());
    assert!(!PauseOnBatteryModeState::Disabled.is_not_supported());
    assert!(!PauseOnBatteryModeState::Enabled.is_not_supported());
    assert!(!PauseOnBatteryModeState::Disabled.is_enabled());
    assert!(!PauseOnBatteryModeState::NotSupported.is_enabled());
}

#[test]
fn custom_usage_concerns_the_custom_mode_only() {
    let mut content = ConfigMiningContent::default();
    content
        .update_custom_mode_cpu_usage(33)
        .update_custom_mode_gpu_usage(44);
    assert_eq!(content.get_selected_cpu_usage_percentage(), 1);
    assert_eq!(content.get_selected_gpu_usage_percentage(), 1);
    content.set_selected_mining_mode("Custom".to_string());
    assert_eq!(content.get_selected_cpu_usage_percentage(), 33);
    assert_eq!(content.get_selected_gpu_usage_percentage(), 44);
    assert_eq!(
        content.mining_modes().get("Turbo"),
        Some(&mode(MiningModeType::Turbo, 10, 10))
    );
    content.set_selected_mining_mode("custom".to_string());
    assert_eq!(content.get_selected_cpu_usage_percentage(), 0);
    assert_eq!(content.get_selected_gpu_usage_percentage(), 0);
    content.set_mining_modes(NameTable::new());
    content.update_custom_mode_cpu_usage(5);
    assert!(content.mining_modes().entries().is_empty());
}

#[test]
fn mode_names_are_read_in_any_case() {
    for mode in [
        MiningModeType::Eco,
        MiningModeType::Turbo,
        MiningModeType::Ludicrous,
        MiningModeType::Custom,
        MiningModeType::User,
    ] {
        let name = mode.to_string();
        assert_eq!(MiningModeType::from(name.as_str()), mode);
        assert_eq!(MiningModeType::from(name.to_uppercase()), mode);
        assert_eq!(MiningModeType::from(name.to_lowercase()), mode);
    }
    assert_eq!(MiningModeType::from("tUrBo"), MiningModeType::Turbo);
    assert_eq!(MiningModeType::from("turbo "), MiningModeType::Eco);
    assert_eq!(MiningModeType::from("T\u{dc}RBO"), MiningModeType::Eco);
    assert_eq!(MiningModeType::from_lowercase("user"), MiningModeType::User);
    assert_eq!(MiningModeType::from_lowercase("User"), MiningModeType::Eco);
    assert_eq!(MiningModeType::default(), MiningModeType::Eco);
    assert_eq!(MiningModeType::Ludicrous.to_string(), "Ludicrous");
}

#[test]
fn settings_without_turbo_are_migrated_to_it() {
    let mut modes = NameTable::new();
    modes.insert("Eco".to_string(), mode(MiningModeType::Eco, 30, 2));
    modes.insert("Custom".to_string(), mode(MiningModeType::Custom, 50, 60));
    let mut content = ConfigMiningContent::default();
    content.set_version_counter(0).set_mining_modes(modes);
    let mut config = ConfigMining::new(content);
    assert!(config._check_for_migration());
    let content = config._get_content();
    assert_eq!(*content.version_counter(), 2);
    assert_eq!(content.selected_mining_mode(), "Turbo");
    assert_eq!(
        content.mining_modes().entries(),
        &vec![
            ("Eco".to_string(), mode(MiningModeType::Eco, 1, 1)),
            ("Custom".to_string(), mode(MiningModeType::Custom, 50, 60)),
            ("Turbo".to_string(), mode(MiningModeType::Turbo, 10, 10)),
        ]
    );
    config._get_content_mut().set_selected_mining_mode("Eco".to_string());
    assert!(!config._check_for_migration());
    assert_eq!(config._get_content().selected_mining_mode(), "Eco");
}

#[test]
fn a_migration_keeps_what_it_need_not_change() {
    let mut content = ConfigMiningContent::default();
    content.set_version_counter(0);
    let mut config = ConfigMining::new(content);
    config._migrate();
    assert_eq!(config._get_content().selected_mining_mode(), "Eco");
    assert_eq!(*config._get_content().version_counter(), 0);

    let mut content = ConfigMiningContent::default();
    content.set_version_counter(1).set_mining_modes(NameTable::new());
    let mut config = ConfigMining::new(content);
    assert!(config._check_for_migration());
    assert!(config._get_content().mining_modes().entries().is_empty());
    assert_eq!(*config._get_content().version_counter(), 2);

    let mut content = ConfigMiningContent::default();
    content.set_version_counter(3);
    let mut config = ConfigMining::new(content);
    assert!(!config._check_for_migration());
    assert_eq!(*config._get_content().version_counter(), 3);
    assert_eq!(ConfigMining::_get_name(), "config_mining");
}

#[test]
fn mining_times_add_up_and_the_eco_alert_is_due_after_twelve_hours() {
    let mut config = ConfigMining::new(ConfigMiningContent::default());
    assert!(!config.update_mining_times(MiningModeType::Eco, 43_000));
    assert!(!config.update_mining_times(MiningModeType::Turbo, 1_000_000));
    assert!(!config.update_mining_times(MiningModeType::Eco, 199));
    assert!(config.update_mining_times(MiningModeType::Eco, 1));
    assert!(config.update_mining_times(MiningModeType::Eco, 0));
    assert_eq!(
        config._get_content().mode_mining_times().entries(),
        &vec![("Eco".to_string(), MiningTime { secs: 43_200, nanos: 0 })]
    );
    config._get_content_mut().set_eco_alert_needed(false);
    assert!(!config.update_mining_times(MiningModeType::Eco, 1));
}

#[test]
fn fractions_of_a_second_are_not_counted_on() {
    let mut times = NameTable::new();
    times.insert("User".to_string(), MiningTime { secs: 5, nanos: 7 });
    let mut content = ConfigMiningContent::default();
    content.set_mode_mining_times(times);
    let mut config = ConfigMining::new(content);
    assert!(!config.update_mining_times(MiningModeType::Eco, 50_000));
    assert!(!config.update_mining_times(MiningModeType::User, 50_000));
    assert_eq!(
        config._get_content().mode_mining_times().entries(),
        &vec![("User".to_string(), MiningTime { secs: 50_005, nanos: 0 })]
    );
}

#[test]
fn a_copy_of_the_settings_is_independent() {
    let mut content = ConfigMiningContent::default();
    content
        .set_squad_override(Some("squad".to_string()))
        .set_pause_on_battery_mode(PauseOnBatteryModeState::Disabled)
        .populate_gpu_devices_settings((GpuMinerType::LolMiner, vec![1]))
        .enable_gpu_device_exclusion(1);
    let copy = content.clone();
    content
        .disable_gpu_device_exclusion(1)
        .update_custom_mode_cpu_usage(2)
        .set_squad_override(None);
    assert_eq!(copy.get_excluded_devices(), vec![1]);
    assert_eq!(copy.squad_override().as_deref(), Some("squad"));
    assert_eq!(
        *copy.pause_on_battery_mode(),
        PauseOnBatteryModeState::Disabled
    );
    assert_eq!(
        copy.mining_modes().get("Custom"),
        Some(&mode(MiningModeType::Custom, 75, 75))
    );
    assert!(content.get_excluded_devices().is_empty());
}
