//! What the operations on the mining settings change, and what they leave alone.
use crate::config_mining::model::{
    initial_settings, mode_contents, stored_miner, stored_numbering, ConfigMiningContentView,
};
use crate::config_mining::PauseOnBatteryModeState;
use crate::device_settings::{
    excludes, law_devices_are_added, with_device, with_exclusion, GpuDeviceSettings,
};
use crate::gpu::GpuMinerType;
use crate::modes::{
    lowercase_of, mode_of_lowercase, mode_of_name, MiningMode, MiningModeType, MiningModeView,
    MiningTime,
};
use std::time::SystemTime;
use vstd::prelude::*;
use vstd::utf8::*;

verus! {

proof fn lemma_mode_names()
    ensures
        "Eco"@ == seq!['E', 'c', 'o'],
        "Turbo"@ == seq!['T', 'u', 'r', 'b', 'o'],
        "Ludicrous"@ == seq!['L', 'u', 'd', 'i', 'c', 'r', 'o', 'u', 's'],
        "Custom"@ == seq!['C', 'u', 's', 't', 'o', 'm'],
        "User"@ == seq!['U', 's', 'e', 'r'],
        "Eco"@.len() == 3,
        "Turbo"@.len() == 5,
        "Ludicrous"@.len() == 9,
        "Custom"@.len() == 6,
        "User"@.len() == 4,
{
    reveal_strlit("Eco");
    reveal_strlit("Turbo");
    reveal_strlit("Ludicrous");
    reveal_strlit("Custom");
    reveal_strlit("User");
    assert("Eco"@ =~= seq!['E', 'c', 'o']);
    assert("Turbo"@ =~= seq!['T', 'u', 'r', 'b', 'o']);
    assert("Ludicrous"@ =~= seq!['L', 'u', 'd', 'i', 'c', 'r', 'o', 'u', 's']);
    assert("Custom"@ =~= seq!['C', 'u', 's', 't', 'o', 'm']);
    assert("User"@ =~= seq!['U', 's', 'e', 'r']);
}

/// Whatever mode is selected, its CPU usage is the selected CPU usage and its GPU usage the
/// selected GPU usage, whatever else the settings hold. Both are zero where no mode has the
/// selected name.
pub proof fn law_selected_usage_is_that_of_the_mode(
    settings: ConfigMiningContentView,
    name: Seq<char>,
    mode: MiningModeView,
)
    ensures
        ({
            let with_mode = ConfigMiningContentView {
                selected_mining_mode: name,
                mining_modes: settings.mining_modes.insert(name, mode),
                ..settings
            };
            &&& with_mode.selected_cpu_usage() == mode.cpu_usage_percentage
            &&& with_mode.selected_gpu_usage() == mode.gpu_usage_percentage
        }),
        ({
            let without_mode = ConfigMiningContentView {
                selected_mining_mode: name,
                mining_modes: settings.mining_modes.remove(name),
                ..settings
            };
            &&& without_mode.selected_cpu_usage() == 0
            &&& without_mode.selected_gpu_usage() == 0
        }),
        settings.mining_modes.contains_key(settings.selected_mining_mode) ==> {
            let selected = settings.mining_modes[settings.selected_mining_mode];
            &&& settings.selected_cpu_usage() == selected.cpu_usage_percentage
            &&& settings.selected_gpu_usage() == selected.gpu_usage_percentage
        },
{
}

/// New settings have the modes Eco, Turbo, Ludicrous and Custom and no other one, each under its
/// own name. Selecting one of them uses the CPU and the GPU by the percentages of that mode.
pub proof fn law_new_settings_have_four_modes(created_at: SystemTime, name: Seq<char>)
    ensures
        ({
            let settings = initial_settings(created_at);
            let selecting = ConfigMiningContentView { selected_mining_mode: name, ..settings };
            let usage = (selecting.selected_cpu_usage(), selecting.selected_gpu_usage());
            &&& settings.mining_modes.contains_key(name) <==> name == "Eco"@ || name == "Turbo"@
                || name == "Ludicrous"@ || name == "Custom"@
            &&& settings.mining_modes.contains_key(name) ==> settings.mining_modes[name].mode_name
                == name
            &&& name == "Eco"@ ==> usage == (1u32, 1u32) && settings.mining_modes[name].mode_type
                == MiningModeType::Eco
            &&& name == "Turbo"@ ==> usage == (10u32, 10u32)
                && settings.mining_modes[name].mode_type == MiningModeType::Turbo
            &&& name == "Ludicrous"@ ==> usage == (85u32, 95u32)
                && settings.mining_modes[name].mode_type == MiningModeType::Ludicrous
            &&& name == "Custom"@ ==> usage == (75u32, 75u32)
                && settings.mining_modes[name].mode_type == MiningModeType::Custom
        }),
{
    lemma_mode_names();
}

/// New settings mine in Eco on everything there is, know no device, and count the time of Eco
/// from zero.
pub proof fn law_new_settings_mine_in_eco(created_at: SystemTime)
    ensures
        ({
            let settings = initial_settings(created_at);
            &&& settings.version_counter == 2
            &&& settings.created_at == created_at
            &&& settings.selected_mining_mode == "Eco"@
            &&& settings.mine_on_app_start && settings.gpu_mining_enabled
                && settings.cpu_mining_enabled
            &&& forall|id: u32| !settings.gpu_devices_settings.contains_key(id)
            &&& settings.gpu_devices_settings_source is None
            &&& settings.gpu_miner_type == GpuMinerType::LolMiner
            &&& settings.squad_override is None
            &&& settings.pause_on_battery_mode == PauseOnBatteryModeState::Enabled
            &&& !settings.is_lolminer_tested
            &&& settings.is_gpu_mining_recommended && settings.eco_alert_needed
            &&& forall|name: Seq<char>|
                settings.mode_mining_times.contains_key(name) <==> name == "Eco"@
            &&& settings.mode_mining_times["Eco"@] == (MiningTime { secs: 0, nanos: 0 })
        }),
{
}

/// The selected mode changes only where settings older than the first version had no mode Turbo
/// and Eco was selected, and then to Turbo. In every other case it is the one that was selected
/// before.
pub proof fn law_only_eco_without_turbo_is_selected_anew(settings: ConfigMiningContentView)
    ensures
        settings.version_counter < 1 && !settings.mining_modes.contains_key("Turbo"@)
            && settings.selected_mining_mode == "Eco"@ ==> settings.migrated().selected_mining_mode
            == "Turbo"@ && settings.up_to_date().selected_mining_mode == "Turbo"@,
        settings.version_counter >= 1 || settings.mining_modes.contains_key("Turbo"@)
            || settings.selected_mining_mode != "Eco"@ ==> settings.migrated().selected_mining_mode
            == settings.selected_mining_mode && settings.up_to_date().selected_mining_mode
            == settings.selected_mining_mode,
{
}

/// Only settings older than the first version have their modes changed: Eco, where there is one,
/// to one percent of CPU and GPU, and a missing Turbo is added with ten percent of both. Every
/// other mode, and what else Eco and Turbo hold, stays.
pub proof fn law_migration_touches_eco_and_turbo_only(
    settings: ConfigMiningContentView,
    name: Seq<char>,
)
    ensures
        settings.up_to_date().mining_modes == settings.migrated().mining_modes,
        settings.version_counter >= 1 ==> settings.migrated().mining_modes == settings.mining_modes,
        settings.version_counter < 1 ==> {
            let before = settings.mining_modes;
            let after = settings.migrated().mining_modes;
            &&& after.contains_key(name) <==> before.contains_key(name) || name == "Turbo"@
            &&& before.contains_key(name) && name != "Eco"@ ==> after[name] == before[name]
            &&& before.contains_key("Eco"@) ==> {
                &&& after["Eco"@].mode_type == before["Eco"@].mode_type
                &&& after["Eco"@].mode_name == before["Eco"@].mode_name
                &&& after["Eco"@].cpu_usage_percentage == 1
                &&& after["Eco"@].gpu_usage_percentage == 1
            }
            &&& !before.contains_key("Turbo"@) ==> {
                &&& after["Turbo"@].mode_type == MiningModeType::Turbo
                &&& after["Turbo"@].mode_name == "Turbo"@
                &&& after["Turbo"@].cpu_usage_percentage == 10
                &&& after["Turbo"@].gpu_usage_percentage == 10
            }
        },
{
    lemma_mode_names();
}

/// A migration changes nothing but the modes, the selected mode and the version, which is 2 for
/// older settings and stays for others.
pub proof fn law_migration_leaves_other_settings_alone(settings: ConfigMiningContentView)
    ensures
        settings.migrated() == (ConfigMiningContentView {
            mining_modes: settings.migrated().mining_modes,
            selected_mining_mode: settings.migrated().selected_mining_mode,
            ..settings
        }),
        settings.version_counter < 2 ==> settings.up_to_date() == (ConfigMiningContentView {
            version_counter: 2,
            ..settings.migrated()
        }),
        settings.version_counter >= 2 ==> settings.up_to_date() == settings,
{
}

/// Setting a usage of the mode Custom changes that percentage and nothing else. Without a mode
/// Custom it changes nothing.
pub proof fn law_custom_usage_changes_one_percentage(
    settings: ConfigMiningContentView,
    percentage: u32,
    name: Seq<char>,
)
    ensures
        ({
            let cpu = settings.with_custom_cpu_usage(percentage);
            let gpu = settings.with_custom_gpu_usage(percentage);
            &&& cpu == (ConfigMiningContentView { mining_modes: cpu.mining_modes, ..settings })
            &&& gpu == (ConfigMiningContentView { mining_modes: gpu.mining_modes, ..settings })
            &&& cpu.mining_modes.contains_key(name) <==> settings.mining_modes.contains_key(name)
            &&& gpu.mining_modes.contains_key(name) <==> settings.mining_modes.contains_key(name)
            &&& settings.mining_modes.contains_key(name) ==> {
                let before = settings.mining_modes[name];
                &&& cpu.mining_modes[name].mode_type == before.mode_type
                &&& gpu.mining_modes[name].mode_type == before.mode_type
                &&& cpu.mining_modes[name].mode_name == before.mode_name
                &&& gpu.mining_modes[name].mode_name == before.mode_name
                &&& gpu.mining_modes[name].cpu_usage_percentage == before.cpu_usage_percentage
                &&& cpu.mining_modes[name].gpu_usage_percentage == before.gpu_usage_percentage
                &&& cpu.mining_modes[name].cpu_usage_percentage == if name == "Custom"@ {
                    percentage
                } else {
                    before.cpu_usage_percentage
                }
                &&& gpu.mining_modes[name].gpu_usage_percentage == if name == "Custom"@ {
                    percentage
                } else {
                    before.gpu_usage_percentage
                }
            }
            &&& !settings.mining_modes.contains_key("Custom"@) ==> cpu == settings && gpu
                == settings
        }),
{
}

/// Detected devices are known afterwards, next to those that the same miner had before. A device
/// of the same miner that was known keeps its settings, every other one is not excluded, and
/// nothing else changes but whose numbering it is.
pub proof fn law_detection_makes_devices_known(
    settings: ConfigMiningContentView,
    miner: GpuMinerType,
    device_ids: Seq<u32>,
    id: u32,
)
    ensures
        ({
            let after = settings.with_detected_devices(miner, device_ids);
            let was_known = settings.gpu_devices_settings_source == Some(miner)
                && settings.gpu_devices_settings.contains_key(id);
            &&& after == (ConfigMiningContentView {
                gpu_devices_settings: after.gpu_devices_settings,
                gpu_devices_settings_source: Some(miner),
                ..settings
            })
            &&& after.gpu_devices_settings.contains_key(id) <==> was_known || device_ids.contains(
                id,
            )
            &&& was_known ==> after.gpu_devices_settings[id] == settings.gpu_devices_settings[id]
            &&& device_ids.contains(id) && !was_known ==> after.gpu_devices_settings[id] == (
            GpuDeviceSettings { device_id: id, is_excluded: false })
        }),
{
    let known = if settings.gpu_devices_settings_source == Some(miner) {
        settings.gpu_devices_settings
    } else {
        Map::<u32, GpuDeviceSettings>::empty()
    };
    law_devices_are_added(known, device_ids);
    let after = settings.with_detected_devices(miner, device_ids).gpu_devices_settings;
    assert(after.contains_key(id) <==> known.contains_key(id) || device_ids.contains(id));
}

/// Adding one device makes it known without an exclusion. One that is known keeps its settings,
/// and so does every other device.
pub proof fn law_added_device_is_known(settings: Map<u32, GpuDeviceSettings>, device_id: u32, id: u32)
    ensures
        with_device(settings, device_id).contains_key(id) <==> settings.contains_key(id) || id
            == device_id,
        settings.contains_key(id) ==> with_device(settings, device_id)[id] == settings[id],
        !settings.contains_key(device_id) ==> with_device(settings, device_id)[device_id] == (
        GpuDeviceSettings { device_id, is_excluded: false }),
{
}

/// Setting an exclusion sets just that for just that device where it is known, makes no device
/// known or unknown, and changes nothing else of the settings.
pub proof fn law_exclusion_changes_one_device(
    settings: ConfigMiningContentView,
    device_id: u32,
    is_excluded: bool,
    id: u32,
)
    ensures
        ({
            let after = settings.with_device_exclusion(device_id, is_excluded);
            let devices = settings.gpu_devices_settings;
            &&& after == (ConfigMiningContentView {
                gpu_devices_settings: after.gpu_devices_settings,
                ..settings
            })
            &&& after.gpu_devices_settings == with_exclusion(devices, device_id, is_excluded)
            &&& after.gpu_devices_settings.contains_key(id) <==> devices.contains_key(id)
            &&& devices.contains_key(id) ==> {
                &&& after.gpu_devices_settings[id].device_id == devices[id].device_id
                &&& after.gpu_devices_settings[id].is_excluded == if id == device_id {
                    is_excluded
                } else {
                    devices[id].is_excluded
                }
            }
            &&& excludes(after.gpu_devices_settings, id) <==> {
                &&& devices.contains_key(id)
                &&& id == device_id ==> is_excluded
                &&& id != device_id ==> devices[id].is_excluded
            }
        }),
{
}

/// Mining adds its seconds to the time of its mode, where that time is kept, and drops what was
/// beyond whole seconds. No other time and no other setting changes.
pub proof fn law_mining_adds_its_seconds(
    settings: ConfigMiningContentView,
    mode: MiningModeType,
    secs: u64,
    name: Seq<char>,
)
    requires
        settings.can_count(mode, secs as int),
    ensures
        ({
            let after = settings.after_mining(mode, secs as int);
            let times = settings.mode_mining_times;
            &&& after == (ConfigMiningContentView {
                mode_mining_times: after.mode_mining_times,
                ..settings
            })
            &&& after.mode_mining_times.contains_key(name) <==> times.contains_key(name)
            &&& times.contains_key(name) ==> if name == mode.spec_name() {
                &&& after.mode_mining_times[name].secs == times[name].secs + secs
                &&& after.mode_mining_times[name].nanos == 0
            } else {
                after.mode_mining_times[name] == times[name]
            }
        }),
{
}

/// The time of a mode can be counted on as long as it fits 64 bits, and always where it is not
/// kept.
pub proof fn law_times_count_up_to_their_limit(
    settings: ConfigMiningContentView,
    mode: MiningModeType,
    secs: int,
)
    ensures
        settings.can_count(mode, secs) <==> !settings.mode_mining_times.contains_key(
            mode.spec_name(),
        ) || settings.mode_mining_times[mode.spec_name()].secs + secs <= 0xffff_ffff_ffff_ffff,
{
}

/// The alert is due exactly where Eco mines, the alert is still needed, and Eco has mined for
/// twelve hours or longer.
pub proof fn law_eco_alert_is_due_after_twelve_hours(
    settings: ConfigMiningContentView,
    mode: MiningModeType,
)
    ensures
        settings.eco_alert_due(mode) <==> {
            &&& mode == MiningModeType::Eco
            &&& settings.eco_alert_needed
            &&& settings.mode_mining_times.contains_key("Eco"@)
            &&& settings.mode_mining_times["Eco"@].secs >= 12 * 60 * 60
        },
{
}

/// Only the names `LolMiner` and `TariMiner` stand for miners, each for its own. Any other stored
/// name stands for lolMiner, and for no device numbering.
pub proof fn law_stored_names_are_those_of_the_miners(name: Seq<char>)
    ensures
        stored_miner(name) == GpuMinerType::TariMiner <==> name == "TariMiner"@,
        stored_numbering(Some(name)) == Some(GpuMinerType::TariMiner) <==> name == "TariMiner"@,
        stored_numbering(Some(name)) == Some(GpuMinerType::LolMiner) <==> name == "LolMiner"@,
        stored_numbering(None) is None,
        GpuMinerType::LolMiner.spec_name() == "LolMiner"@,
        GpuMinerType::TariMiner.spec_name() == "TariMiner"@,
{
    reveal_strlit("LolMiner");
    reveal_strlit("TariMiner");
    assert("LolMiner"@.len() != "TariMiner"@.len());
}

/// A mode other than Eco has one name only, up to letter case; every other name stands for Eco.
/// Of ASCII texts the lower case differs in the letters `A` to `Z` only.
pub proof fn law_names_of_modes(name: Seq<char>)
    ensures
        mode_of_name(name) == mode_of_lowercase(lowercase_of(name)),
        mode_of_lowercase(name) == MiningModeType::Turbo <==> name == seq!['t', 'u', 'r', 'b', 'o'],
        mode_of_lowercase(name) == MiningModeType::Ludicrous <==> name == seq![
            'l',
            'u',
            'd',
            'i',
            'c',
            'r',
            'o',
            'u',
            's',
        ],
        mode_of_lowercase(name) == MiningModeType::Custom <==> name == seq![
            'c',
            'u',
            's',
            't',
            'o',
            'm',
        ],
        mode_of_lowercase(name) == MiningModeType::User <==> name == seq!['u', 's', 'e', 'r'],
        is_ascii_chars(name) ==> lowercase_of(name).len() == name.len() && forall|i: int|
            0 <= i < name.len() ==> #[trigger] lowercase_of(name)[i] as int == name[i] as int + if 65
                <= name[i] as int <= 90 {
                32int
            } else {
                0
            },
        MiningModeType::Eco.spec_name() == seq!['E', 'c', 'o'],
        MiningModeType::Turbo.spec_name() == seq!['T', 'u', 'r', 'b', 'o'],
        MiningModeType::Ludicrous.spec_name() == seq!['L', 'u', 'd', 'i', 'c', 'r', 'o', 'u', 's'],
        MiningModeType::Custom.spec_name() == seq!['C', 'u', 's', 't', 'o', 'm'],
        MiningModeType::User.spec_name() == seq!['U', 's', 'e', 'r'],
{
    lemma_mode_names();
    reveal_strlit("eco");
    reveal_strlit("turbo");
    reveal_strlit("ludicrous");
    reveal_strlit("custom");
    reveal_strlit("user");
    assert("turbo"@ =~= seq!['t', 'u', 'r', 'b', 'o']);
    assert("ludicrous"@ =~= seq!['l', 'u', 'd', 'i', 'c', 'r', 'o', 'u', 's']);
    assert("custom"@ =~= seq!['c', 'u', 's', 't', 'o', 'm']);
    assert("user"@ =~= seq!['u', 's', 'e', 'r']);
    assert("eco"@.len() == 3 && "turbo"@.len() == 5 && "ludicrous"@.len() == 9 && "custom"@.len()
        == 6 && "user"@.len() == 4);
}

/// The contents of modes are the modes' own, each under its name.
pub proof fn law_mode_contents_are_those_of_the_modes(
    modes: Map<Seq<char>, MiningMode>,
    name: Seq<char>,
)
    ensures
        mode_contents(modes).contains_key(name) <==> modes.contains_key(name),
        modes.contains_key(name) ==> {
            &&& mode_contents(modes)[name].mode_type == modes[name].mode_type
            &&& mode_contents(modes)[name].mode_name == modes[name].mode_name@
            &&& mode_contents(modes)[name].cpu_usage_percentage == modes[name].cpu_usage_percentage
            &&& mode_contents(modes)[name].gpu_usage_percentage == modes[name].gpu_usage_percentage
        },
{
}

} // verus!
