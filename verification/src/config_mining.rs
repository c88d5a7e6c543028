//! The mining settings: modes, devices, the selected miner and how long was mined.
pub mod accessors;
pub mod model;

use crate::device_settings::{excludes, with_devices, GpuDevicesSettings};
use crate::gpu::GpuMinerType;
use crate::modes::{MiningMode, MiningModeType, MiningModeView, MiningTime};
use crate::name_table::NameTable;
use crate::platform::current_time;
use crate::text::{optional_text, same_text};
use model::{
    initial_settings, mode_contents, stored_miner, stored_numbering, usual_mode,
    ConfigMiningContentView, ECO_ALERT_AFTER_SECS, MINING_CONFIG_VERSION,
};
use std::time::SystemTime;
use vstd::prelude::*;

verus! {

/// Whether mining pauses while the machine runs on battery power.
#[derive(Debug, Clone, Copy, PartialEq, Eq, Structural)]
pub enum PauseOnBatteryModeState {
    Enabled,
    Disabled,
    NotSupported,
}

impl PauseOnBatteryModeState {
    /// Whether the machine has no battery mode.
    pub fn is_not_supported(&self) -> (r: bool)
        ensures
            r == (*self == PauseOnBatteryModeState::NotSupported),
    {
        matches!(self, PauseOnBatteryModeState::NotSupported)
    }

    /// Whether mining pauses on battery power.
    pub fn is_enabled(&self) -> (r: bool)
        ensures
            r == (*self == PauseOnBatteryModeState::Enabled),
    {
        matches!(self, PauseOnBatteryModeState::Enabled)
    }
}

/// The mining settings.
#[derive(Debug)]
pub struct ConfigMiningContent {
    version_counter: u32,
    created_at: SystemTime,
    selected_mining_mode: String,
    mining_modes: NameTable<MiningMode>,
    mine_on_app_start: bool,
    gpu_mining_enabled: bool,
    cpu_mining_enabled: bool,
    gpu_devices_settings: GpuDevicesSettings,
    /// The miner whose device numbering `gpu_devices_settings` is expressed in.
    /// Miners enumerate devices differently (lolMiner walks CUDA and OpenCL, TARI.Miner uses the
    /// nvidia-smi index), so a device id only means something together with the miner that
    /// produced it. `None` marks settings written before this field existed.
    gpu_devices_settings_source: Option<GpuMinerType>,
    gpu_miner_type: GpuMinerType,
    squad_override: Option<String>,
    pause_on_battery_mode: PauseOnBatteryModeState,
    is_lolminer_tested: bool,
    is_gpu_mining_recommended: bool,
    eco_alert_needed: bool,
    /// Only Eco is counted in new settings; other modes are counted once they are in here.
    mode_mining_times: NameTable<MiningTime>,
}

impl View for ConfigMiningContent {
    type V = ConfigMiningContentView;

    closed spec fn view(&self) -> ConfigMiningContentView {
        ConfigMiningContentView {
            version_counter: self.version_counter,
            created_at: self.created_at,
            selected_mining_mode: self.selected_mining_mode@,
            mining_modes: mode_contents(self.mining_modes@),
            mine_on_app_start: self.mine_on_app_start,
            gpu_mining_enabled: self.gpu_mining_enabled,
            cpu_mining_enabled: self.cpu_mining_enabled,
            gpu_devices_settings: self.gpu_devices_settings@,
            gpu_devices_settings_source: self.gpu_devices_settings_source,
            gpu_miner_type: self.gpu_miner_type,
            squad_override: optional_text(self.squad_override),
            pause_on_battery_mode: self.pause_on_battery_mode,
            is_lolminer_tested: self.is_lolminer_tested,
            is_gpu_mining_recommended: self.is_gpu_mining_recommended,
            eco_alert_needed: self.eco_alert_needed,
            mode_mining_times: self.mode_mining_times@,
        }
    }
}

proof fn lemma_mode_inserted(modes: Map<Seq<char>, MiningMode>, name: Seq<char>, mode: MiningMode)
    ensures
        mode_contents(modes.insert(name, mode)) == mode_contents(modes).insert(name, mode@),
{
    assert(mode_contents(modes.insert(name, mode)) =~= mode_contents(modes).insert(name, mode@));
}

/// A mining mode with that usage, named after its type.
fn new_mode(mode_type: MiningModeType, cpu_usage_percentage: u32, gpu_usage_percentage: u32) -> (mode:
    MiningMode)
    ensures
        mode@ == usual_mode(mode_type, cpu_usage_percentage, gpu_usage_percentage),
{
    MiningMode {
        mode_type,
        mode_name: mode_type.to_string(),
        cpu_usage_percentage,
        gpu_usage_percentage,
    }
}

/// Puts a mode into a table of modes.
fn put_mode(modes: &mut NameTable<MiningMode>, name: &str, mode: MiningMode)
    ensures
        mode_contents(final(modes)@) == mode_contents(old(modes)@).insert(name@, mode@),
{
    proof {
        lemma_mode_inserted(modes@, name@, mode);
    }
    modes.insert(name.to_owned(), mode);
}

/// The GPU miner of a stored name. Settings of older versions can still hold a miner that no
/// longer exists, and those must not make the whole mining config fail to load.
pub fn deserialize_gpu_miner_type(raw_miner_type: &str) -> (miner: GpuMinerType)
    ensures
        miner == stored_miner(raw_miner_type@),
{
    match GpuMinerType::from_name(raw_miner_type) {
        Some(miner) => miner,
        None => GpuMinerType::default(),
    }
}

/// The miner that owns the stored device numbering. A miner name we no longer know means the
/// stored numbering is not ours, which is exactly what `None` says.
pub fn deserialize_optional_gpu_miner_type(raw_miner_type: Option<&str>) -> (miner: Option<
    GpuMinerType,
>)
    ensures
        miner == stored_numbering(
            match raw_miner_type {
                Some(name) => Some(name@),
                None => None,
            },
        ),
{
    match raw_miner_type {
        Some(name) => GpuMinerType::from_name(name),
        None => None,
    }
}

impl ConfigMiningContent {
    /// New settings, created at that time.
    pub fn created(created_at: SystemTime) -> (settings: Self)
        ensures
            settings@ == initial_settings(created_at),
    {
        let mut mining_modes: NameTable<MiningMode> = NameTable::new();
        assert(mode_contents(mining_modes@) =~= Map::<Seq<char>, MiningModeView>::empty());
        put_mode(&mut mining_modes, "Eco", new_mode(MiningModeType::Eco, 1, 1));
        put_mode(&mut mining_modes, "Turbo", new_mode(MiningModeType::Turbo, 10, 10));
        put_mode(&mut mining_modes, "Ludicrous", new_mode(MiningModeType::Ludicrous, 85, 95));
        put_mode(&mut mining_modes, "Custom", new_mode(MiningModeType::Custom, 75, 75));
        let mut mode_mining_times: NameTable<MiningTime> = NameTable::new();
        mode_mining_times.insert("Eco".to_owned(), MiningTime { secs: 0, nanos: 0 });
        ConfigMiningContent {
            version_counter: MINING_CONFIG_VERSION,
            created_at,
            selected_mining_mode: "Eco".to_owned(),
            mining_modes,
            mine_on_app_start: true,
            gpu_mining_enabled: true,
            cpu_mining_enabled: true,
            gpu_devices_settings: GpuDevicesSettings::new(),
            gpu_devices_settings_source: None,
            gpu_miner_type: GpuMinerType::default(),
            squad_override: None,
            pause_on_battery_mode: PauseOnBatteryModeState::Enabled,
            is_lolminer_tested: false,
            is_gpu_mining_recommended: true,
            eco_alert_needed: true,
            mode_mining_times,
        }
    }

    /// Sets the CPU usage of the mode Custom, if there is one.
    pub fn update_custom_mode_cpu_usage(&mut self, cpu_usage_percentage: u32) -> (settings:
        &mut Self)
        ensures
            settings@ == old(self)@.with_custom_cpu_usage(cpu_usage_percentage),
            *final(self) == *final(settings),
    {
        let changed: Option<MiningMode> = match self.mining_modes.get("Custom") {
            Some(mode) => Some(
                MiningMode {
                    mode_type: mode.mode_type,
                    mode_name: mode.mode_name.clone(),
                    cpu_usage_percentage,
                    gpu_usage_percentage: mode.gpu_usage_percentage,
                },
            ),
            None => None,
        };
        match changed {
            Some(mode) => put_mode(&mut self.mining_modes, "Custom", mode),
            None => {},
        }
        self
    }

    /// Sets the GPU usage of the mode Custom, if there is one.
    pub fn update_custom_mode_gpu_usage(&mut self, gpu_usage_percentage: u32) -> (settings:
        &mut Self)
        ensures
            settings@ == old(self)@.with_custom_gpu_usage(gpu_usage_percentage),
            *final(self) == *final(settings),
    {
        let changed: Option<MiningMode> = match self.mining_modes.get("Custom") {
            Some(mode) => Some(
                MiningMode {
                    mode_type: mode.mode_type,
                    mode_name: mode.mode_name.clone(),
                    cpu_usage_percentage: mode.cpu_usage_percentage,
                    gpu_usage_percentage,
                },
            ),
            None => None,
        };
        match changed {
            Some(mode) => put_mode(&mut self.mining_modes, "Custom", mode),
            None => {},
        }
        self
    }

    /// Populate the GPU devices settings with the device IDs a miner detected.
    /// If a device ID already exists for that same miner, it will not be added again.
    ///
    /// Device ids are only comparable within one miner's enumeration, so settings left behind by a
    /// different miner are dropped rather than merged. Merging them would silently apply an
    /// exclusion to whichever device happens to share the id under the new miner, which can mean
    /// mining the wrong card or refusing to mine at all.
    pub fn populate_gpu_devices_settings(&mut self, detected: (GpuMinerType, Vec<u32>)) -> (settings:
        &mut Self)
        ensures
            settings@ == old(self)@.with_detected_devices(detected.0, detected.1@),
            *final(self) == *final(settings),
    {
        let (miner_type, device_ids) = detected;
        let is_same_miner = match self.gpu_devices_settings_source {
            Some(source) => source == miner_type,
            None => false,
        };
        if !is_same_miner {
            self.gpu_devices_settings = GpuDevicesSettings::new();
            self.gpu_devices_settings_source = Some(miner_type);
        }
        let ghost start = *self;
        let mut at: usize = 0;
        while at < device_ids.len()
            invariant
                at <= device_ids.len(),
                self@ == (ConfigMiningContentView {
                    gpu_devices_settings: with_devices(
                        start@.gpu_devices_settings,
                        device_ids@.take(at as int),
                    ),
                    ..start@
                }),
            decreases device_ids.len() - at,
        {
            self.gpu_devices_settings.add(device_ids[at]);
            proof {
                let now = device_ids@.take(at + 1);
                assert(now.drop_last() == device_ids@.take(at as int));
            }
            at = at + 1;
        }
        assert(device_ids@.take(at as int) == device_ids@);
        self
    }

    /// Excludes a known device from mining.
    pub fn enable_gpu_device_exclusion(&mut self, device_id: u32) -> (settings: &mut Self)
        ensures
            settings@ == old(self)@.with_device_exclusion(device_id, true),
            *final(self) == *final(settings),
    {
        self.gpu_devices_settings.set_excluded(device_id, true);
        self
    }

    /// Lifts the exclusion of a device.
    pub fn disable_gpu_device_exclusion(&mut self, device_id: u32) -> (settings: &mut Self)
        ensures
            settings@ == old(self)@.with_device_exclusion(device_id, false),
            *final(self) == *final(settings),
    {
        self.gpu_devices_settings.set_excluded(device_id, false);
        self
    }

    /// The CPU usage of the selected mode, zero where there is no such mode.
    pub fn get_selected_cpu_usage_percentage(&self) -> (percentage: u32)
        ensures
            percentage == self@.selected_cpu_usage(),
            percentage == if self@.mining_modes.contains_key(self@.selected_mining_mode) {
                self@.mining_modes[self@.selected_mining_mode].cpu_usage_percentage
            } else {
                0
            },
    {
        match self.mining_modes.get(self.selected_mining_mode.as_str()) {
            Some(mode) => mode.cpu_usage_percentage,
            None => 0,
        }
    }

    /// The ids of the devices that are excluded from mining, each once and in no particular order.
    pub fn get_excluded_devices(&self) -> (device_ids: Vec<u32>)
        ensures
            device_ids@.no_duplicates(),
            forall|id: u32| #[trigger]
                device_ids@.contains(id) <==> excludes(self@.gpu_devices_settings, id),
            forall|id: u32| #[trigger]
                device_ids@.contains(id) <==> self@.gpu_devices_settings.contains_key(id)
                    && self@.gpu_devices_settings[id].is_excluded,
    {
        self.gpu_devices_settings.excluded_ids()
    }

    /// The GPU usage of the selected mode, zero where there is no such mode.
    pub fn get_selected_gpu_usage_percentage(&self) -> (percentage: u32)
        ensures
            percentage == self@.selected_gpu_usage(),
            percentage == if self@.mining_modes.contains_key(self@.selected_mining_mode) {
                self@.mining_modes[self@.selected_mining_mode].gpu_usage_percentage
            } else {
                0
            },
    {
        match self.mining_modes.get(self.selected_mining_mode.as_str()) {
            Some(mode) => mode.gpu_usage_percentage,
            None => 0,
        }
    }
}

impl Default for ConfigMiningContent {
    fn default() -> (settings: Self)
        ensures
            settings@ == initial_settings(settings@.created_at),
    {
        ConfigMiningContent::created(current_time())
    }
}

impl Clone for ConfigMiningContent {
    fn clone(&self) -> (copy: Self)
        ensures
            copy@ == self@,
    {
        let copy = ConfigMiningContent {
            version_counter: self.version_counter,
            created_at: self.created_at,
            selected_mining_mode: self.selected_mining_mode.clone(),
            mining_modes: self.mining_modes.clone(),
            mine_on_app_start: self.mine_on_app_start,
            gpu_mining_enabled: self.gpu_mining_enabled,
            cpu_mining_enabled: self.cpu_mining_enabled,
            gpu_devices_settings: self.gpu_devices_settings.clone(),
            gpu_devices_settings_source: self.gpu_devices_settings_source,
            gpu_miner_type: self.gpu_miner_type,
            squad_override: self.squad_override.clone(),
            pause_on_battery_mode: self.pause_on_battery_mode,
            is_lolminer_tested: self.is_lolminer_tested,
            is_gpu_mining_recommended: self.is_gpu_mining_recommended,
            eco_alert_needed: self.eco_alert_needed,
            mode_mining_times: self.mode_mining_times.clone(),
        };
        assert(copy.mining_modes@ =~= self.mining_modes@);
        assert(copy.mode_mining_times@ =~= self.mode_mining_times@);
        copy
    }
}

/// The mining settings in use.
#[derive(Debug)]
pub struct ConfigMining {
    content: ConfigMiningContent,
}

impl View for ConfigMining {
    type V = ConfigMiningContentView;

    closed spec fn view(&self) -> ConfigMiningContentView {
        self.content@
    }
}

impl ConfigMining {
    /// Takes settings into use.
    pub fn new(content: ConfigMiningContent) -> (config: Self)
        ensures
            config@ == content@,
    {
        ConfigMining { content }
    }

    /// The name under which the settings are stored.
    pub fn _get_name() -> (name: String)
        ensures
            name@ == "config_mining"@,
    {
        "config_mining".to_owned()
    }

    /// The settings.
    pub fn _get_content(&self) -> (content: &ConfigMiningContent)
        ensures
            content@ == self@,
    {
        &self.content
    }

    /// The settings, for changing them.
    pub fn _get_content_mut(&mut self) -> (content: &mut ConfigMiningContent)
        ensures
            content@ == old(self)@,
            final(self)@ == final(content)@,
    {
        &mut self.content
    }

    /// Counts the seconds that a mode has mined, and says whether to show the Eco alert.
    pub fn update_mining_times(&mut self, mode: MiningModeType, duration: u64) -> (show_eco_alert:
        bool)
        requires
            old(self)@.can_count(mode, duration as int),
        ensures
            final(self)@ == old(self)@.after_mining(mode, duration as int),
            show_eco_alert == final(self)@.eco_alert_due(mode),
    {
        let name = mode.to_string();
        let counted: Option<u64> = match self.content.mode_mining_times.get(name.as_str()) {
            Some(time) => Some(time.secs + duration),
            None => None,
        };
        match counted {
            Some(secs) => {
                self.content.mode_mining_times.insert(name, MiningTime { secs, nanos: 0 });
            },
            None => {},
        }
        if mode == MiningModeType::Eco && self.content.eco_alert_needed {
            match self.content.mode_mining_times.get("Eco") {
                Some(time) => time.secs >= ECO_ALERT_AFTER_SECS,
                None => false,
            }
        } else {
            false
        }
    }

    /// Brings the mining modes of the first settings to those of the next version.
    pub fn _migrate(&mut self)
        ensures
            final(self)@ == old(self)@.migrated(),
            final(self)@.selected_mining_mode == if old(self)@.version_counter < 1
                && !old(self)@.mining_modes.contains_key("Turbo"@)
                && old(self)@.selected_mining_mode == "Eco"@ {
                "Turbo"@
            } else {
                old(self)@.selected_mining_mode
            },
    {
        if self.content.version_counter < 1 {
            let has_turbo = match self.content.mining_modes.get("Turbo") {
                Some(_) => true,
                None => false,
            };
            let should_update_selected = !has_turbo && same_text(
                self.content.selected_mining_mode.as_str(),
                "Eco",
            );
            let eco: Option<MiningMode> = match self.content.mining_modes.get("Eco") {
                Some(mode) => Some(
                    MiningMode {
                        mode_type: mode.mode_type,
                        mode_name: mode.mode_name.clone(),
                        cpu_usage_percentage: 1,
                        gpu_usage_percentage: 1,
                    },
                ),
                None => None,
            };
            match eco {
                Some(mode) => put_mode(&mut self.content.mining_modes, "Eco", mode),
                None => {},
            }
            if !has_turbo {
                put_mode(
                    &mut self.content.mining_modes,
                    "Turbo",
                    new_mode(MiningModeType::Turbo, 10, 10),
                );
            }
            if should_update_selected {
                self.content.selected_mining_mode = "Turbo".to_owned();
            }
        }
    }

    /// Brings the settings to the current version, and says whether they were older.
    pub fn _check_for_migration(&mut self) -> (migrated: bool)
        ensures
            final(self)@ == old(self)@.up_to_date(),
            migrated == (old(self)@.version_counter < MINING_CONFIG_VERSION),
    {
        if self.content.version_counter < MINING_CONFIG_VERSION {
            self._migrate();
            self.content.version_counter = MINING_CONFIG_VERSION;
            true
        } else {
            false
        }
    }
}

} // verus!
