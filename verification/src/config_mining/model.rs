//! The mining settings as mathematical values, and what holds of every change to them.
use super::PauseOnBatteryModeState;
use crate::device_settings::{
    excludes, law_adding_devices_again_changes_nothing, law_devices_are_added,
    law_order_of_devices_does_not_matter, with_devices, with_exclusion, GpuDeviceSettings,
};
use crate::gpu::{law_miner_is_found_by_its_name, GpuMinerType};
use crate::modes::{
    law_mode_names_differ, MiningMode, MiningModeType, MiningModeView, MiningTime,
};
use std::time::SystemTime;
use vstd::prelude::*;

verus! {

/// The version that the settings are migrated to.
pub const MINING_CONFIG_VERSION: u32 = 2;

/// How long Eco mines until the alert is shown: twelve hours.
pub const ECO_ALERT_AFTER_SECS: u64 = 43200;

/// The contents of the mining settings.
pub ghost struct ConfigMiningContentView {
    pub version_counter: u32,
    pub created_at: SystemTime,
    pub selected_mining_mode: Seq<char>,
    pub mining_modes: Map<Seq<char>, MiningModeView>,
    pub mine_on_app_start: bool,
    pub gpu_mining_enabled: bool,
    pub cpu_mining_enabled: bool,
    pub gpu_devices_settings: Map<u32, GpuDeviceSettings>,
    pub gpu_devices_settings_source: Option<GpuMinerType>,
    pub gpu_miner_type: GpuMinerType,
    pub squad_override: Option<Seq<char>>,
    pub pause_on_battery_mode: PauseOnBatteryModeState,
    pub is_lolminer_tested: bool,
    pub is_gpu_mining_recommended: bool,
    pub eco_alert_needed: bool,
    pub mode_mining_times: Map<Seq<char>, MiningTime>,
}

/// The contents of mining modes.
pub open spec fn mode_contents(modes: Map<Seq<char>, MiningMode>) -> Map<Seq<char>, MiningModeView> {
    modes.map_values(|mode: MiningMode| mode@)
}

/// A mining mode with that usage, named after its type.
pub open spec fn usual_mode(mode_type: MiningModeType, cpu: u32, gpu: u32) -> MiningModeView {
    MiningModeView {
        mode_type,
        mode_name: mode_type.spec_name(),
        cpu_usage_percentage: cpu,
        gpu_usage_percentage: gpu,
    }
}

/// The mining modes of new settings.
pub open spec fn initial_modes() -> Map<Seq<char>, MiningModeView> {
    Map::<Seq<char>, MiningModeView>::empty().insert(
        "Eco"@,
        usual_mode(MiningModeType::Eco, 1, 1),
    ).insert("Turbo"@, usual_mode(MiningModeType::Turbo, 10, 10)).insert(
        "Ludicrous"@,
        usual_mode(MiningModeType::Ludicrous, 85, 95),
    ).insert("Custom"@, usual_mode(MiningModeType::Custom, 75, 75))
}

/// New settings, created at that time.
pub open spec fn initial_settings(created_at: SystemTime) -> ConfigMiningContentView {
    ConfigMiningContentView {
        version_counter: MINING_CONFIG_VERSION,
        created_at,
        selected_mining_mode: "Eco"@,
        mining_modes: initial_modes(),
        mine_on_app_start: true,
        gpu_mining_enabled: true,
        cpu_mining_enabled: true,
        gpu_devices_settings: Map::empty(),
        gpu_devices_settings_source: None,
        gpu_miner_type: GpuMinerType::LolMiner,
        squad_override: None,
        pause_on_battery_mode: PauseOnBatteryModeState::Enabled,
        is_lolminer_tested: false,
        is_gpu_mining_recommended: true,
        eco_alert_needed: true,
        mode_mining_times: Map::<Seq<char>, MiningTime>::empty().insert(
            "Eco"@,
            MiningTime { secs: 0, nanos: 0 },
        ),
    }
}

/// The GPU miner of a stored name. Settings of older versions can still hold a miner that no
/// longer exists; it stands for the default one.
pub open spec fn stored_miner(name: Seq<char>) -> GpuMinerType {
    match GpuMinerType::spec_from_name(name) {
        Some(miner) => miner,
        None => GpuMinerType::LolMiner,
    }
}

/// The miner that owns a stored device numbering. A name that is no longer known means that the
/// stored numbering is not ours.
pub open spec fn stored_numbering(name: Option<Seq<char>>) -> Option<GpuMinerType> {
    match name {
        Some(name) => GpuMinerType::spec_from_name(name),
        None => None,
    }
}

impl ConfigMiningContentView {
    /// The settings with another CPU usage of the mode Custom, if there is one.
    pub open spec fn with_custom_cpu_usage(self, percentage: u32) -> ConfigMiningContentView {
        if self.mining_modes.contains_key("Custom"@) {
            ConfigMiningContentView {
                mining_modes: self.mining_modes.insert(
                    "Custom"@,
                    MiningModeView {
                        cpu_usage_percentage: percentage,
                        ..self.mining_modes["Custom"@]
                    },
                ),
                ..self
            }
        } else {
            self
        }
    }

    /// The settings with another GPU usage of the mode Custom, if there is one.
    pub open spec fn with_custom_gpu_usage(self, percentage: u32) -> ConfigMiningContentView {
        if self.mining_modes.contains_key("Custom"@) {
            ConfigMiningContentView {
                mining_modes: self.mining_modes.insert(
                    "Custom"@,
                    MiningModeView {
                        gpu_usage_percentage: percentage,
                        ..self.mining_modes["Custom"@]
                    },
                ),
                ..self
            }
        } else {
            self
        }
    }

    /// The settings once a miner detected these devices. Device ids are only comparable within one
    /// miner's enumeration, so settings left behind by a different miner are dropped.
    pub open spec fn with_detected_devices(
        self,
        miner: GpuMinerType,
        device_ids: Seq<u32>,
    ) -> ConfigMiningContentView {
        let known = if self.gpu_devices_settings_source == Some(miner) {
            self.gpu_devices_settings
        } else {
            Map::empty()
        };
        ConfigMiningContentView {
            gpu_devices_settings: with_devices(known, device_ids),
            gpu_devices_settings_source: Some(miner),
            ..self
        }
    }

    /// The settings with a known device excluded or not.
    pub open spec fn with_device_exclusion(
        self,
        device_id: u32,
        is_excluded: bool,
    ) -> ConfigMiningContentView {
        ConfigMiningContentView {
            gpu_devices_settings: with_exclusion(
                self.gpu_devices_settings,
                device_id,
                is_excluded,
            ),
            ..self
        }
    }

    /// The CPU usage of the selected mode, zero where there is no such mode.
    pub open spec fn selected_cpu_usage(self) -> u32 {
        if self.mining_modes.contains_key(self.selected_mining_mode) {
            self.mining_modes[self.selected_mining_mode].cpu_usage_percentage
        } else {
            0
        }
    }

    /// The GPU usage of the selected mode, zero where there is no such mode.
    pub open spec fn selected_gpu_usage(self) -> u32 {
        if self.mining_modes.contains_key(self.selected_mining_mode) {
            self.mining_modes[self.selected_mining_mode].gpu_usage_percentage
        } else {
            0
        }
    }

    /// The modes with Eco at its lowest usage, if there is one, and with a mode Turbo.
    pub open spec fn migrated_modes(self) -> Map<Seq<char>, MiningModeView> {
        let modes = if self.mining_modes.contains_key("Eco"@) {
            self.mining_modes.insert(
                "Eco"@,
                MiningModeView {
                    cpu_usage_percentage: 1,
                    gpu_usage_percentage: 1,
                    ..self.mining_modes["Eco"@]
                },
            )
        } else {
            self.mining_modes
        };
        if modes.contains_key("Turbo"@) {
            modes
        } else {
            modes.insert("Turbo"@, usual_mode(MiningModeType::Turbo, 10, 10))
        }
    }

    /// The settings with the modes of the first version. Who mined in Eco before there was a mode
    /// Turbo goes on in Turbo.
    pub open spec fn migrated(self) -> ConfigMiningContentView {
        if self.version_counter < 1 {
            ConfigMiningContentView {
                mining_modes: self.migrated_modes(),
                selected_mining_mode: if !self.mining_modes.contains_key("Turbo"@)
                    && self.selected_mining_mode == "Eco"@ {
                    "Turbo"@
                } else {
                    self.selected_mining_mode
                },
                ..self
            }
        } else {
            self
        }
    }

    /// The settings brought to the current version, if they are older.
    pub open spec fn up_to_date(self) -> ConfigMiningContentView {
        if self.version_counter < MINING_CONFIG_VERSION {
            ConfigMiningContentView { version_counter: MINING_CONFIG_VERSION, ..self.migrated() }
        } else {
            self
        }
    }

    /// The settings after a mode mined for that many seconds. Only modes whose time is kept are
    /// counted, in whole seconds.
    pub open spec fn after_mining(self, mode: MiningModeType, secs: int) -> ConfigMiningContentView {
        let times = self.mode_mining_times;
        if times.contains_key(mode.spec_name()) {
            ConfigMiningContentView {
                mode_mining_times: times.insert(
                    mode.spec_name(),
                    MiningTime { secs: (times[mode.spec_name()].secs + secs) as u64, nanos: 0 },
                ),
                ..self
            }
        } else {
            self
        }
    }

    /// Whether the alert is due after a mode mined: Eco, for long enough, and still to be shown.
    pub open spec fn eco_alert_due(self, mode: MiningModeType) -> bool {
        &&& mode == MiningModeType::Eco
        &&& self.eco_alert_needed
        &&& self.mode_mining_times.contains_key("Eco"@)
        &&& self.mode_mining_times["Eco"@].secs >= ECO_ALERT_AFTER_SECS
    }

    /// Whether the time of a mode can be counted on by that many seconds.
    pub open spec fn can_count(self, mode: MiningModeType, secs: int) -> bool {
        self.mode_mining_times.contains_key(mode.spec_name())
            ==> self.mode_mining_times[mode.spec_name()].secs + secs <= u64::MAX
    }
}

/// Device settings of the same miner are kept: a device that was known keeps its exclusion, and a
/// new one is not excluded.
pub proof fn law_settings_of_the_same_miner_are_kept(
    settings: ConfigMiningContentView,
    miner: GpuMinerType,
    device_ids: Seq<u32>,
    device_id: u32,
)
    requires
        settings.gpu_devices_settings_source == Some(miner),
    ensures
        settings.gpu_devices_settings.contains_key(device_id)
            ==> settings.with_detected_devices(miner, device_ids).gpu_devices_settings[device_id]
            == settings.gpu_devices_settings[device_id],
        excludes(
            settings.with_detected_devices(miner, device_ids).gpu_devices_settings,
            device_id,
        ) == excludes(settings.gpu_devices_settings, device_id),
{
    law_devices_are_added(settings.gpu_devices_settings, device_ids);
    let after = settings.with_detected_devices(miner, device_ids).gpu_devices_settings;
    assert(after.contains_key(device_id) <==> settings.gpu_devices_settings.contains_key(device_id)
        || device_ids.contains(device_id));
}

/// Device settings of another miner, or of no known one, are dropped: the devices are those just
/// detected, none of them is excluded, and the numbering belongs to the new miner.
pub proof fn law_settings_of_another_miner_are_dropped(
    settings: ConfigMiningContentView,
    miner: GpuMinerType,
    device_ids: Seq<u32>,
    device_id: u32,
)
    requires
        settings.gpu_devices_settings_source != Some(miner),
    ensures
        settings.with_detected_devices(miner, device_ids).gpu_devices_settings.contains_key(
            device_id,
        ) <==> device_ids.contains(device_id),
        !excludes(
            settings.with_detected_devices(miner, device_ids).gpu_devices_settings,
            device_id,
        ),
        settings.with_detected_devices(miner, device_ids).gpu_devices_settings_source == Some(
            miner,
        ),
{
    let none = Map::<u32, GpuDeviceSettings>::empty();
    law_devices_are_added(none, device_ids);
    let after = settings.with_detected_devices(miner, device_ids).gpu_devices_settings;
    assert(after.contains_key(device_id) <==> none.contains_key(device_id) || device_ids.contains(
        device_id,
    ));
}

/// Detecting devices again that the same miner just detected changes nothing, whatever their order
/// and however often each is listed: the settings of another miner are dropped once.
pub proof fn law_detecting_again_changes_nothing(
    settings: ConfigMiningContentView,
    miner: GpuMinerType,
    device_ids: Seq<u32>,
    again: Seq<u32>,
)
    requires
        forall|id: u32| #[trigger] again.contains(id) ==> device_ids.contains(id),
    ensures
        settings.with_detected_devices(miner, device_ids).with_detected_devices(miner, again)
            == settings.with_detected_devices(miner, device_ids),
{
    let known = if settings.gpu_devices_settings_source == Some(miner) {
        settings.gpu_devices_settings
    } else {
        Map::empty()
    };
    law_adding_devices_again_changes_nothing(known, device_ids, again);
}

/// Of detected devices only the set of ids matters.
pub proof fn law_order_of_detection_does_not_matter(
    settings: ConfigMiningContentView,
    miner: GpuMinerType,
    a: Seq<u32>,
    b: Seq<u32>,
)
    requires
        forall|id: u32| a.contains(id) <==> b.contains(id),
    ensures
        settings.with_detected_devices(miner, a) == settings.with_detected_devices(miner, b),
{
    let known = if settings.gpu_devices_settings_source == Some(miner) {
        settings.gpu_devices_settings
    } else {
        Map::empty()
    };
    law_order_of_devices_does_not_matter(known, a, b);
}

/// What is set for the mode Custom concerns no other mode and nothing else of it, and it is what
/// the selected usage says while Custom is selected.
pub proof fn law_custom_usage_concerns_custom_only(
    settings: ConfigMiningContentView,
    cpu: u32,
    gpu: u32,
    name: Seq<char>,
)
    requires
        name != "Custom"@,
    ensures
        settings.with_custom_cpu_usage(cpu).mining_modes.contains_key(name)
            == settings.mining_modes.contains_key(name),
        settings.with_custom_gpu_usage(gpu).mining_modes.contains_key(name)
            == settings.mining_modes.contains_key(name),
        settings.with_custom_cpu_usage(cpu).mining_modes[name] == settings.mining_modes[name],
        settings.with_custom_gpu_usage(gpu).mining_modes[name] == settings.mining_modes[name],
        settings.with_custom_cpu_usage(cpu).with_custom_gpu_usage(gpu)
            == settings.with_custom_gpu_usage(gpu).with_custom_cpu_usage(cpu),
        settings.selected_mining_mode == "Custom"@ && settings.mining_modes.contains_key(
            "Custom"@,
        ) ==> {
            let changed = settings.with_custom_cpu_usage(cpu).with_custom_gpu_usage(gpu);
            changed.selected_cpu_usage() == cpu && changed.selected_gpu_usage() == gpu
        },
{
    assert(settings.with_custom_cpu_usage(cpu).with_custom_gpu_usage(gpu).mining_modes
        =~= settings.with_custom_gpu_usage(gpu).with_custom_cpu_usage(cpu).mining_modes);
}

/// A stored miner is restored, and a name that is no longer known stands for the default miner and
/// for no device numbering.
pub proof fn law_stored_miner_is_restored(miner: GpuMinerType, name: Seq<char>)
    ensures
        stored_miner(miner.spec_name()) == miner,
        stored_numbering(Some(miner.spec_name())) == Some(miner),
        stored_numbering(None) is None,
        (forall|known: GpuMinerType| known.spec_name() != name) ==> stored_miner(name)
            == GpuMinerType::LolMiner && stored_numbering(Some(name)) is None,
{
    law_miner_is_found_by_its_name(miner);
}

/// Bringing settings up to date a second time changes nothing, and settings that are not older are
/// left alone.
pub proof fn law_migration_is_done_once(settings: ConfigMiningContentView)
    ensures
        settings.up_to_date().version_counter >= MINING_CONFIG_VERSION,
        settings.up_to_date().up_to_date() == settings.up_to_date(),
        settings.version_counter >= MINING_CONFIG_VERSION ==> settings.up_to_date() == settings,
{
}

/// Migrated settings have a mode Turbo and lose no mode. Eco is at its lowest usage, the other
/// modes are as they were, and where the selected mode existed before, the selected mode exists
/// now.
pub proof fn law_migration_keeps_the_modes(settings: ConfigMiningContentView, name: Seq<char>)
    requires
        settings.version_counter < 1,
    ensures
        settings.up_to_date().mining_modes.contains_key("Turbo"@),
        settings.mining_modes.contains_key(name) ==> settings.up_to_date().mining_modes.contains_key(
            name,
        ),
        settings.mining_modes.contains_key(name) && name != "Eco"@
            ==> settings.up_to_date().mining_modes[name] == settings.mining_modes[name],
        settings.mining_modes.contains_key("Eco"@)
            ==> settings.up_to_date().mining_modes["Eco"@].cpu_usage_percentage == 1
            && settings.up_to_date().mining_modes["Eco"@].gpu_usage_percentage == 1,
        settings.mining_modes.contains_key(settings.selected_mining_mode)
            ==> settings.up_to_date().mining_modes.contains_key(
            settings.up_to_date().selected_mining_mode,
        ),
{
    law_mode_names_differ(MiningModeType::Eco, MiningModeType::Turbo);
}

/// The seconds of several stretches of mining together.
pub open spec fn total_secs(stretches: Seq<u64>) -> int
    decreases stretches.len(),
{
    if stretches.len() == 0 {
        0
    } else {
        total_secs(stretches.drop_last()) + stretches.last()
    }
}

/// The settings after a mode mined for several stretches.
pub open spec fn after_mining_all(
    settings: ConfigMiningContentView,
    mode: MiningModeType,
    stretches: Seq<u64>,
) -> ConfigMiningContentView
    decreases stretches.len(),
{
    if stretches.len() == 0 {
        settings
    } else {
        after_mining_all(settings, mode, stretches.drop_last()).after_mining(
            mode,
            stretches.last() as int,
        )
    }
}

/// Mining times add up: mining for any number of stretches counts as mining once for as long
/// together, and can be counted at each stretch where it can be counted in the end.
pub proof fn law_mining_times_add_up(
    settings: ConfigMiningContentView,
    mode: MiningModeType,
    stretches: Seq<u64>,
)
    requires
        stretches.len() > 0,
        settings.can_count(mode, total_secs(stretches)),
    ensures
        after_mining_all(settings, mode, stretches) == settings.after_mining(
            mode,
            total_secs(stretches),
        ),
        after_mining_all(settings, mode, stretches.drop_last()).can_count(
            mode,
            stretches.last() as int,
        ),
    decreases stretches.len(),
{
    let front = stretches.drop_last();
    lemma_total_secs(front);
    if front.len() > 0 {
        law_mining_times_add_up(settings, mode, front);
        assert(settings.after_mining(mode, total_secs(front)).after_mining(
            mode,
            stretches.last() as int,
        ).mode_mining_times =~= settings.after_mining(
            mode,
            total_secs(stretches),
        ).mode_mining_times);
    }
}

proof fn lemma_total_secs(stretches: Seq<u64>)
    ensures
        total_secs(stretches) >= 0,
    decreases stretches.len(),
{
    if stretches.len() > 0 {
        lemma_total_secs(stretches.drop_last());
    }
}

/// Mining in one mode leaves the times of the others alone, and starts to keep no new time.
pub proof fn law_mining_time_concerns_its_mode(
    settings: ConfigMiningContentView,
    mode: MiningModeType,
    secs: u64,
    other: Seq<char>,
)
    requires
        other != mode.spec_name(),
    ensures
        settings.after_mining(mode, secs as int).mode_mining_times.dom()
            == settings.mode_mining_times.dom(),
        settings.after_mining(mode, secs as int).mode_mining_times[other]
            == settings.mode_mining_times[other],
{
    assert(settings.after_mining(mode, secs as int).mode_mining_times.dom()
        =~= settings.mode_mining_times.dom());
}

/// Once the alert is due for Eco it stays due while Eco mines on, until it is no longer needed; it
/// is never due for another mode.
pub proof fn law_eco_alert_stays_due(
    settings: ConfigMiningContentView,
    mode: MiningModeType,
    secs: u64,
)
    requires
        settings.can_count(MiningModeType::Eco, secs as int),
    ensures
        settings.eco_alert_due(MiningModeType::Eco) ==> settings.after_mining(
            MiningModeType::Eco,
            secs as int,
        ).eco_alert_due(MiningModeType::Eco),
        mode != MiningModeType::Eco ==> !settings.eco_alert_due(mode),
{
}

/// New settings are up to date, exclude no device, and select a mode that exists.
pub proof fn law_initial_settings(created_at: SystemTime, device_id: u32)
    ensures
        initial_settings(created_at).up_to_date() == initial_settings(created_at),
        !excludes(initial_settings(created_at).gpu_devices_settings, device_id),
        initial_settings(created_at).mining_modes.contains_key("Eco"@),
        initial_settings(created_at).selected_cpu_usage() == 1,
        initial_settings(created_at).selected_gpu_usage() == 1,
{
    law_mode_names_differ(MiningModeType::Eco, MiningModeType::Turbo);
    law_mode_names_differ(MiningModeType::Eco, MiningModeType::Ludicrous);
    law_mode_names_differ(MiningModeType::Eco, MiningModeType::Custom);
}

} // verus!
