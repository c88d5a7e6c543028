//! Reading and setting single mining settings.
use super::model::{mode_contents, ConfigMiningContentView};
use super::{ConfigMiningContent, PauseOnBatteryModeState};
use crate::device_settings::GpuDevicesSettings;
use crate::gpu::GpuMinerType;
use crate::modes::{MiningMode, MiningTime};
use crate::name_table::NameTable;
use crate::text::optional_text;
use std::time::SystemTime;
use vstd::prelude::*;

verus! {

impl ConfigMiningContent {
    /// Returns the version of the settings.
    pub fn version_counter(&self) -> (value: &u32)
        ensures
            *value == self@.version_counter,
    {
        &self.version_counter
    }

    /// Sets the version of the settings.
    pub fn set_version_counter(&mut self, value: u32) -> (settings: &mut Self)
        ensures
            settings@ == (ConfigMiningContentView { version_counter: value, ..old(self)@ }),
            *final(self) == *final(settings),
    {
        self.version_counter = value;
        self
    }

    /// Returns when the settings were created.
    pub fn created_at(&self) -> (value: &SystemTime)
        ensures
            *value == self@.created_at,
    {
        &self.created_at
    }

    /// Sets when the settings were created.
    pub fn set_created_at(&mut self, value: SystemTime) -> (settings: &mut Self)
        ensures
            settings@ == (ConfigMiningContentView { created_at: value, ..old(self)@ }),
            *final(self) == *final(settings),
    {
        self.created_at = value;
        self
    }

    /// Returns the name of the selected mining mode.
    pub fn selected_mining_mode(&self) -> (value: &String)
        ensures
            value@ == self@.selected_mining_mode,
    {
        &self.selected_mining_mode
    }

    /// Sets the name of the selected mining mode.
    pub fn set_selected_mining_mode(&mut self, value: String) -> (settings: &mut Self)
        ensures
            settings@ == (ConfigMiningContentView { selected_mining_mode: value@, ..old(self)@ }),
            *final(self) == *final(settings),
    {
        self.selected_mining_mode = value;
        self
    }

    /// Returns the mining modes by name.
    pub fn mining_modes(&self) -> (value: &NameTable<MiningMode>)
        ensures
            mode_contents(value@) == self@.mining_modes,
    {
        &self.mining_modes
    }

    /// Sets the mining modes by name.
    pub fn set_mining_modes(&mut self, value: NameTable<MiningMode>) -> (settings: &mut Self)
        ensures
            settings@ == (ConfigMiningContentView { mining_modes: mode_contents(value@), ..old(self)@ }),
            *final(self) == *final(settings),
    {
        self.mining_modes = value;
        self
    }

    /// Returns whether mining starts with the application.
    pub fn mine_on_app_start(&self) -> (value: &bool)
        ensures
            *value == self@.mine_on_app_start,
    {
        &self.mine_on_app_start
    }

    /// Sets whether mining starts with the application.
    pub fn set_mine_on_app_start(&mut self, value: bool) -> (settings: &mut Self)
        ensures
            settings@ == (ConfigMiningContentView { mine_on_app_start: value, ..old(self)@ }),
            *final(self) == *final(settings),
    {
        self.mine_on_app_start = value;
        self
    }

    /// Returns whether the GPU may mine.
    pub fn gpu_mining_enabled(&self) -> (value: &bool)
        ensures
            *value == self@.gpu_mining_enabled,
    {
        &self.gpu_mining_enabled
    }

    /// Sets whether the GPU may mine.
    pub fn set_gpu_mining_enabled(&mut self, value: bool) -> (settings: &mut Self)
        ensures
            settings@ == (ConfigMiningContentView { gpu_mining_enabled: value, ..old(self)@ }),
            *final(self) == *final(settings),
    {
        self.gpu_mining_enabled = value;
        self
    }

    /// Returns whether the CPU may mine.
    pub fn cpu_mining_enabled(&self) -> (value: &bool)
        ensures
            *value == self@.cpu_mining_enabled,
    {
        &self.cpu_mining_enabled
    }

    /// Sets whether the CPU may mine.
    pub fn set_cpu_mining_enabled(&mut self, value: bool) -> (settings: &mut Self)
        ensures
            settings@ == (ConfigMiningContentView { cpu_mining_enabled: value, ..old(self)@ }),
            *final(self) == *final(settings),
    {
        self.cpu_mining_enabled = value;
        self
    }

    /// Returns the settings of the GPU devices.
    pub fn gpu_devices_settings(&self) -> (value: &GpuDevicesSettings)
        ensures
            value@ == self@.gpu_devices_settings,
    {
        &self.gpu_devices_settings
    }

    /// Sets the settings of the GPU devices.
    pub fn set_gpu_devices_settings(&mut self, value: GpuDevicesSettings) -> (settings: &mut Self)
        ensures
            settings@ == (ConfigMiningContentView { gpu_devices_settings: value@, ..old(self)@ }),
            *final(self) == *final(settings),
    {
        self.gpu_devices_settings = value;
        self
    }

    /// Returns the miner whose device numbering the device settings are expressed in.
    pub fn gpu_devices_settings_source(&self) -> (value: &Option<GpuMinerType>)
        ensures
            *value == self@.gpu_devices_settings_source,
    {
        &self.gpu_devices_settings_source
    }

    /// Sets the miner whose device numbering the device settings are expressed in.
    pub fn set_gpu_devices_settings_source(&mut self, value: Option<GpuMinerType>) -> (settings: &mut Self)
        ensures
            settings@ == (ConfigMiningContentView { gpu_devices_settings_source: value, ..old(self)@ }),
            *final(self) == *final(settings),
    {
        self.gpu_devices_settings_source = value;
        self
    }

    /// Returns the selected GPU miner.
    pub fn gpu_miner_type(&self) -> (value: &GpuMinerType)
        ensures
            *value == self@.gpu_miner_type,
    {
        &self.gpu_miner_type
    }

    /// Sets the selected GPU miner.
    pub fn set_gpu_miner_type(&mut self, value: GpuMinerType) -> (settings: &mut Self)
        ensures
            settings@ == (ConfigMiningContentView { gpu_miner_type: value, ..old(self)@ }),
            *final(self) == *final(settings),
    {
        self.gpu_miner_type = value;
        self
    }

    /// Returns the squad override.
    pub fn squad_override(&self) -> (value: &Option<String>)
        ensures
            optional_text(*value) == self@.squad_override,
    {
        &self.squad_override
    }

    /// Sets the squad override.
    pub fn set_squad_override(&mut self, value: Option<String>) -> (settings: &mut Self)
        ensures
            settings@ == (ConfigMiningContentView { squad_override: optional_text(value), ..old(self)@ }),
            *final(self) == *final(settings),
    {
        self.squad_override = value;
        self
    }

    /// Returns whether mining pauses on battery power.
    pub fn pause_on_battery_mode(&self) -> (value: &PauseOnBatteryModeState)
        ensures
            *value == self@.pause_on_battery_mode,
    {
        &self.pause_on_battery_mode
    }

    /// Sets whether mining pauses on battery power.
    pub fn set_pause_on_battery_mode(&mut self, value: PauseOnBatteryModeState) -> (settings: &mut Self)
        ensures
            settings@ == (ConfigMiningContentView { pause_on_battery_mode: value, ..old(self)@ }),
            *final(self) == *final(settings),
    {
        self.pause_on_battery_mode = value;
        self
    }

    /// Returns whether lolMiner was tested.
    pub fn is_lolminer_tested(&self) -> (value: &bool)
        ensures
            *value == self@.is_lolminer_tested,
    {
        &self.is_lolminer_tested
    }

    /// Sets whether lolMiner was tested.
    pub fn set_is_lolminer_tested(&mut self, value: bool) -> (settings: &mut Self)
        ensures
            settings@ == (ConfigMiningContentView { is_lolminer_tested: value, ..old(self)@ }),
            *final(self) == *final(settings),
    {
        self.is_lolminer_tested = value;
        self
    }

    /// Returns whether GPU mining is recommended.
    pub fn is_gpu_mining_recommended(&self) -> (value: &bool)
        ensures
            *value == self@.is_gpu_mining_recommended,
    {
        &self.is_gpu_mining_recommended
    }

    /// Sets whether GPU mining is recommended.
    pub fn set_is_gpu_mining_recommended(&mut self, value: bool) -> (settings: &mut Self)
        ensures
            settings@ == (ConfigMiningContentView { is_gpu_mining_recommended: value, ..old(self)@ }),
            *final(self) == *final(settings),
    {
        self.is_gpu_mining_recommended = value;
        self
    }

    /// Returns whether the Eco alert is still to be shown.
    pub fn eco_alert_needed(&self) -> (value: &bool)
        ensures
            *value == self@.eco_alert_needed,
    {
        &self.eco_alert_needed
    }

    /// Sets whether the Eco alert is still to be shown.
    pub fn set_eco_alert_needed(&mut self, value: bool) -> (settings: &mut Self)
        ensures
            settings@ == (ConfigMiningContentView { eco_alert_needed: value, ..old(self)@ }),
            *final(self) == *final(settings),
    {
        self.eco_alert_needed = value;
        self
    }

    /// Returns how long each mode has mined, by name.
    pub fn mode_mining_times(&self) -> (value: &NameTable<MiningTime>)
        ensures
            value@ == self@.mode_mining_times,
    {
        &self.mode_mining_times
    }

    /// Sets how long each mode has mined, by name.
    pub fn set_mode_mining_times(&mut self, value: NameTable<MiningTime>) -> (settings: &mut Self)
        ensures
            settings@ == (ConfigMiningContentView { mode_mining_times: value@, ..old(self)@ }),
            *final(self) == *final(settings),
    {
        self.mode_mining_times = value;
        self
    }
}

} // verus!
