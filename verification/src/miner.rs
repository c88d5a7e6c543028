//! The TARI.Miner adapter: what it is loaded with, what it detects and how it is started.
use crate::config_mining::model::{
    law_settings_of_another_miner_are_dropped, ConfigMiningContentView,
};
use crate::device_settings::{excludes, law_devices_are_added, GpuDeviceSettings};
use crate::gpu::{
    GpuCommonInformation, GpuCommonInformationView, GpuConnectionType, GpuConnectionTypeView,
    GpuMinerType, MiningError,
};
use crate::monitor::TariMinerGpuMinerStatusMonitor;
use crate::name_table::NameTable;
use crate::platform::{decode_lossy, output_text};
use crate::tariminer::{
    device_contents, device_selection, devices_in_output, first_allowed,
    law_first_allowed_device_is_selected, login_separator, parse_nvidia_smi_devices,
    publish_selected_backend, resolved_backend, select_device, split_worker_name,
    worker_without_separator, SelectedBackend, TariMinerBackend, TariMinerDevice,
    TariMinerDeviceView,
};
use crate::text::{
    decimal_text, law_decimal_text_is_read_back, optional_text, string_contents, trim, trimmed, u32_to_string,
    unsigned_number,
};
use std::path::PathBuf;
use vstd::prelude::*;

verus! {

/// What TARI.Miner is started with.
#[derive(Debug)]
pub struct TariMinerGpuMiner {
    pub tari_address: Option<String>,
    pub intensity_percentage: Option<u32>,
    pub worker_name: Option<String>,
    pub connection_type: Option<GpuConnectionType>,
    pub gpu_devices: Vec<TariMinerDevice>,
    pub excluded_devices: Vec<u32>,
}

/// The contents of a [`TariMinerGpuMiner`].
pub ghost struct TariMinerGpuMinerView {
    pub tari_address: Option<Seq<char>>,
    pub intensity_percentage: Option<u32>,
    pub worker_name: Option<Seq<char>>,
    pub connection_type: Option<GpuConnectionTypeView>,
    pub gpu_devices: Seq<TariMinerDeviceView>,
    pub excluded_devices: Seq<u32>,
}

impl View for TariMinerGpuMiner {
    type V = TariMinerGpuMinerView;

    open spec fn view(&self) -> TariMinerGpuMinerView {
        TariMinerGpuMinerView {
            tari_address: optional_text(self.tari_address),
            intensity_percentage: self.intensity_percentage,
            worker_name: optional_text(self.worker_name),
            connection_type: match self.connection_type {
                Some(connection_type) => Some(connection_type@),
                None => None,
            },
            gpu_devices: device_contents(self.gpu_devices@),
            excluded_devices: self.excluded_devices@,
        }
    }
}

/// What `nvidia-smi` left behind when it ended.
#[derive(Debug)]
pub struct ProcessOutput {
    pub success: bool,
    pub stdout: Vec<u8>,
    pub stderr: Vec<u8>,
}

/// What is made known of detected devices: the devices, and their ids as TARI.Miner numbers them.
#[derive(Debug)]
pub struct DetectedDevices {
    pub common_devices: Vec<GpuCommonInformation>,
    pub device_settings: (GpuMinerType, Vec<u32>),
}

/// How the miner process is started.
#[derive(Debug)]
pub struct ProcessStartupSpec {
    pub file_path: PathBuf,
    /// What is set in the environment of the process, if anything.
    pub envs: Option<NameTable<String>>,
    pub args: Vec<String>,
    pub data_dir: PathBuf,
    pub pid_file_name: String,
    pub name: String,
}

/// An intensity within the percentages that the miner takes.
pub open spec fn clamped_intensity(intensity: u32) -> u32 {
    if intensity < 1 {
        1
    } else if intensity > 100 {
        100
    } else {
        intensity
    }
}

/// The arguments for a worker name.
pub open spec fn worker_args(worker_name: Option<Seq<char>>) -> Seq<Seq<char>> {
    match worker_name {
        Some(name) => seq!["--worker"@, worker_without_separator(name)] + match login_separator(
            name,
        ) {
            Some(separator) => seq!["--login-separator"@, separator],
            None => seq![],
        },
        None => seq![],
    }
}

/// The arguments for an intensity.
pub open spec fn intensity_args(intensity: Option<u32>) -> Seq<Seq<char>> {
    match intensity {
        Some(percentage) => seq![
            "--intensity"@,
            decimal_text(clamped_intensity(percentage) as nat),
        ],
        None => seq![],
    }
}

/// The arguments of the miner process, or why it cannot be started.
pub open spec fn startup_args(miner: TariMinerGpuMinerView) -> Result<Seq<Seq<char>>, MiningError> {
    match device_selection(miner.gpu_devices, miner.excluded_devices) {
        Err(error) => Err(error),
        Ok(device) => match miner.connection_type {
            Some(GpuConnectionTypeView::Node { .. }) => Err(MiningError::NodeMiningNotSupported),
            None => Err(MiningError::ConnectionTypeNotSet),
            Some(GpuConnectionTypeView::Pool { pool_url }) => match miner.tari_address {
                None => Err(MiningError::TariAddressNotSet),
                Some(tari_address) => Ok(
                    seq![
                        "--device"@,
                        decimal_text(device.common.device_id as nat),
                        "--pool"@,
                        pool_url,
                        "--wallet"@,
                        tari_address,
                    ] + worker_args(miner.worker_name) + intensity_args(
                        miner.intensity_percentage,
                    ),
                ),
            },
        },
    }
}

/// The published backend once it is brought in line with the device to mine with. It stays as it
/// is where there is no such device.
pub open spec fn refreshed_backend(
    miner: TariMinerGpuMinerView,
    published: TariMinerBackend,
) -> TariMinerBackend {
    match device_selection(miner.gpu_devices, miner.excluded_devices) {
        Ok(device) => device.backend,
        Err(_) => published,
    }
}

/// The ids of devices.
pub open spec fn device_ids(devices: Seq<TariMinerDeviceView>) -> Seq<u32> {
    devices.map_values(|device: TariMinerDeviceView| device.common.device_id)
}

/// What the devices are to the outside.
pub open spec fn common_information(devices: Seq<TariMinerDeviceView>) -> Seq<
    GpuCommonInformationView,
> {
    devices.map_values(|device: TariMinerDeviceView| device.common)
}

/// The contents of a list of device descriptions.
pub open spec fn common_contents(devices: Seq<GpuCommonInformation>) -> Seq<
    GpuCommonInformationView,
> {
    devices.map_values(|device: GpuCommonInformation| device@)
}

/// Whether an enumeration with that output gives devices to mine with.
pub open spec fn enumeration_succeeded(success: bool, stdout: Seq<char>) -> bool {
    success && devices_in_output(stdout).len() > 0
}

/// Whether an enumeration failed for that reason: `nvidia-smi` itself failed, and the reason is
/// its error output, or it listed no device with a backend.
pub open spec fn enumeration_failed(
    success: bool,
    stdout: Seq<char>,
    stderr: Seq<char>,
    error: MiningError,
) -> bool {
    if !success {
        error matches MiningError::EnumerationFailed { error_output } && error_output@ == trimmed(
            stderr,
        )
    } else {
        devices_in_output(stdout).len() == 0 && error == MiningError::NoCompatibleDevices
    }
}

/// Whether detected devices are made known as they were listed.
pub open spec fn announces(
    detected: DetectedDevices,
    devices: Seq<TariMinerDeviceView>,
) -> bool {
    &&& common_contents(detected.common_devices@) == common_information(devices)
    &&& detected.device_settings.0 == GpuMinerType::TariMiner
    &&& detected.device_settings.1@ == device_ids(devices)
}

/// Adds an option with its value to the arguments of a process.
fn push_option(args: &mut Vec<String>, option: &str, value: &str)
    ensures
        string_contents(final(args)@) == string_contents(old(args)@) + seq![option@, value@],
{
    args.push(option.to_string());
    args.push(value.to_string());
    assert(string_contents(args@) =~= string_contents(old(args)@) + seq![option@, value@]);
}

impl TariMinerGpuMiner {
    /// A miner that nothing was loaded into yet.
    pub fn new() -> (miner: Self)
        ensures
            miner@ == (TariMinerGpuMinerView {
                tari_address: None,
                intensity_percentage: None,
                worker_name: None,
                connection_type: None,
                gpu_devices: seq![],
                excluded_devices: seq![],
            }),
    {
        let miner = TariMinerGpuMiner {
            tari_address: None,
            intensity_percentage: None,
            worker_name: None,
            connection_type: None,
            gpu_devices: Vec::new(),
            excluded_devices: Vec::new(),
        };
        assert(miner@.gpu_devices =~= seq![]);
        assert(miner@.excluded_devices =~= seq![]);
        miner
    }

    /// Keeps the published backend in sync with the device we would mine with.
    pub fn refresh_selected_backend(&self, selected: &mut SelectedBackend)
        ensures
            final(selected)@ == refreshed_backend(self@, old(selected)@),
    {
        match select_device(self.gpu_devices.as_slice(), self.excluded_devices.as_slice()) {
            Ok(device) => publish_selected_backend(selected, device.backend),
            Err(_) => {},
        }
    }

    /// Sets the wallet to mine for.
    pub fn load_tari_address(&mut self, tari_address: &str)
        ensures
            final(self)@ == (TariMinerGpuMinerView {
                tari_address: Some(tari_address@),
                ..old(self)@
            }),
    {
        self.tari_address = Some(tari_address.to_string());
    }

    /// Sets or clears the worker name.
    pub fn load_worker_name(&mut self, worker_name: Option<&str>)
        ensures
            final(self)@ == (TariMinerGpuMinerView {
                worker_name: match worker_name {
                    Some(name) => Some(name@),
                    None => None,
                },
                ..old(self)@
            }),
    {
        self.worker_name =
        match worker_name {
            Some(name) => Some(name.to_string()),
            None => None,
        };
    }

    /// Sets the intensity.
    pub fn load_intensity_percentage(&mut self, intensity_percentage: u32)
        ensures
            final(self)@ == (TariMinerGpuMinerView {
                intensity_percentage: Some(intensity_percentage),
                ..old(self)@
            }),
    {
        self.intensity_percentage = Some(intensity_percentage);
    }

    /// Sets where the work comes from.
    pub fn load_connection_type(&mut self, connection_type: GpuConnectionType)
        ensures
            final(self)@ == (TariMinerGpuMinerView {
                connection_type: Some(connection_type@),
                ..old(self)@
            }),
    {
        self.connection_type = Some(connection_type);
    }

    /// Sets the devices not to mine with, and publishes the backend of the device that is left.
    pub fn load_excluded_devices(
        &mut self,
        excluded_devices: Vec<u32>,
        selected: &mut SelectedBackend,
    )
        ensures
            final(self)@ == (TariMinerGpuMinerView {
                excluded_devices: excluded_devices@,
                ..old(self)@
            }),
            final(selected)@ == refreshed_backend(final(self)@, old(selected)@),
    {
        self.excluded_devices = excluded_devices;
        self.refresh_selected_backend(selected);
    }

    /// How `nvidia-smi` is asked for the devices: TARI.Miner has no device listing of its own.
    pub fn enumeration_args() -> (args: Vec<String>)
        ensures
            string_contents(args@) == seq![
                "--query-gpu=index,compute_cap,name"@,
                "--format=csv,noheader,nounits"@,
            ],
    {
        let mut args: Vec<String> = Vec::new();
        push_option(
            &mut args,
            "--query-gpu=index,compute_cap,name",
            "--format=csv,noheader,nounits",
        );
        assert(string_contents(args@) =~= seq![
            "--query-gpu=index,compute_cap,name"@,
            "--format=csv,noheader,nounits"@,
        ]);
        args
    }

    /// Takes over the devices of an enumeration whose output was read as text.
    pub fn take_enumeration(
        &mut self,
        success: bool,
        stdout: &str,
        stderr: &str,
        selected: &mut SelectedBackend,
    ) -> (detected: Result<DetectedDevices, MiningError>)
        ensures
            match detected {
                Ok(announced) => {
                    &&& enumeration_succeeded(success, stdout@)
                    &&& announces(announced, devices_in_output(stdout@))
                    &&& final(self)@ == (TariMinerGpuMinerView {
                        gpu_devices: devices_in_output(stdout@),
                        ..old(self)@
                    })
                    &&& final(selected)@ == refreshed_backend(final(self)@, old(selected)@)
                },
                Err(error) => {
                    &&& !enumeration_succeeded(success, stdout@)
                    &&& enumeration_failed(success, stdout@, stderr@, error)
                    &&& final(self)@ == old(self)@
                    &&& final(selected)@ == old(selected)@
                },
            },
    {
        if !success {
            return Err(
                MiningError::EnumerationFailed { error_output: trim(stderr).to_string() },
            );
        }
        let gpu_devices = parse_nvidia_smi_devices(stdout);
        let ghost listed = devices_in_output(stdout@);
        assert(listed.len() == gpu_devices@.len());
        if gpu_devices.len() == 0 {
            return Err(MiningError::NoCompatibleDevices);
        }
        let mut common_devices: Vec<GpuCommonInformation> = Vec::new();
        let mut devices_indexes: Vec<u32> = Vec::new();
        let mut at: usize = 0;
        while at < gpu_devices.len()
            invariant
                at <= gpu_devices.len(),
                listed == device_contents(gpu_devices@),
                common_contents(common_devices@) == common_information(listed.take(at as int)),
                devices_indexes@ == device_ids(listed.take(at as int)),
            decreases gpu_devices.len() - at,
        {
            let ghost devices_before = common_devices@;
            let device = &gpu_devices[at];
            common_devices.push(device.common.clone());
            devices_indexes.push(device.common.device_id);
            proof {
                let taken = listed.take(at as int);
                let now = listed.take(at + 1);
                assert(now == taken.push(device@));
                assert(common_information(now) == common_information(taken).push(device@.common));
                assert(common_contents(common_devices@) == common_contents(devices_before).push(
                    device@.common,
                ));
                assert(device_ids(now) == device_ids(taken).push(device@.common.device_id));
            }
            at = at + 1;
        }
        assert(listed.take(at as int) == listed);
        self.gpu_devices = gpu_devices;
        self.refresh_selected_backend(selected);
        Ok(
            DetectedDevices {
                common_devices,
                device_settings: (GpuMinerType::TariMiner, devices_indexes),
            },
        )
    }

    /// Takes over the devices that `nvidia-smi` listed. TARI.Miner enumerates NVIDIA GPUs with it.
    pub fn detect_devices(
        &mut self,
        output: &ProcessOutput,
        selected: &mut SelectedBackend,
    ) -> (detected: Result<DetectedDevices, MiningError>)
        ensures
            match detected {
                Ok(announced) => {
                    &&& enumeration_succeeded(output.success, output_text(output.stdout@))
                    &&& announces(announced, devices_in_output(output_text(output.stdout@)))
                    &&& final(self)@ == (TariMinerGpuMinerView {
                        gpu_devices: devices_in_output(output_text(output.stdout@)),
                        ..old(self)@
                    })
                    &&& final(selected)@ == refreshed_backend(final(self)@, old(selected)@)
                },
                Err(error) => {
                    &&& !enumeration_succeeded(output.success, output_text(output.stdout@))
                    &&& enumeration_failed(
                        output.success,
                        output_text(output.stdout@),
                        output_text(output.stderr@),
                        error,
                    )
                    &&& final(self)@ == old(self)@
                    &&& final(selected)@ == old(selected)@
                },
            },
    {
        let stdout = decode_lossy(output.stdout.as_slice());
        let stderr = decode_lossy(output.stderr.as_slice());
        self.take_enumeration(output.success, stdout.as_str(), stderr.as_str(), selected)
    }

    /// How the miner is started on the selected device, with the monitor that watches it.
    pub fn spawn_inner(
        &self,
        base_folder: PathBuf,
        _config_folder: PathBuf,
        _log_folder: PathBuf,
        binary_version_path: PathBuf,
        _is_first_start: bool,
    ) -> (startup: Result<(ProcessStartupSpec, TariMinerGpuMinerStatusMonitor), MiningError>)
        ensures
            match startup {
                Ok((process, monitor)) => {
                    &&& startup_args(self@) == Ok::<Seq<Seq<char>>, MiningError>(
                        string_contents(process.args@),
                    )
                    &&& process.file_path == binary_version_path
                    &&& process.envs is None
                    &&& process.data_dir == base_folder
                    &&& process.pid_file_name@ == "tariminer_pid"@
                    &&& process.name@ == "tariminer"@
                    &&& monitor.speed_tracker@ is None
                },
                Err(error) => startup_args(self@) == Err::<Seq<Seq<char>>, MiningError>(error),
            },
    {
        let device = match select_device(
            self.gpu_devices.as_slice(),
            self.excluded_devices.as_slice(),
        ) {
            Ok(device) => device,
            Err(error) => {
                return Err(error);
            },
        };
        let mut args: Vec<String> = Vec::new();
        push_option(&mut args, "--device", u32_to_string(device.common.device_id).as_str());
        match &self.connection_type {
            Some(GpuConnectionType::Node { .. }) => {
                return Err(MiningError::NodeMiningNotSupported);
            },
            Some(GpuConnectionType::Pool { pool_url }) => {
                push_option(&mut args, "--pool", pool_url.as_str());
            },
            None => {
                return Err(MiningError::ConnectionTypeNotSet);
            },
        }
        match &self.tari_address {
            Some(tari_address) => {
                push_option(&mut args, "--wallet", tari_address.as_str());
            },
            None => {
                return Err(MiningError::TariAddressNotSet);
            },
        }
        let ghost base = string_contents(args@);
        assert(base =~= seq![
            "--device"@,
            decimal_text(device@.common.device_id as nat),
            "--pool"@,
            self@.connection_type->0->pool_url,
            "--wallet"@,
            self@.tari_address->0,
        ]);
        match &self.worker_name {
            Some(worker_name) => {
                let (login_separator, worker) = split_worker_name(worker_name.as_str());
                push_option(&mut args, "--worker", worker);
                match login_separator {
                    Some(login_separator) => {
                        push_option(&mut args, "--login-separator", login_separator);
                    },
                    None => {},
                }
            },
            None => {},
        }
        assert(string_contents(args@) =~= base + worker_args(self@.worker_name));
        let ghost with_worker = string_contents(args@);
        match self.intensity_percentage {
            Some(intensity) => {
                let percentage: u32 = if intensity < 1 {
                    1
                } else if intensity > 100 {
                    100
                } else {
                    intensity
                };
                push_option(&mut args, "--intensity", u32_to_string(percentage).as_str());
            },
            None => {},
        }
        assert(string_contents(args@) =~= with_worker + intensity_args(
            self@.intensity_percentage,
        ));
        Ok(
            (
                ProcessStartupSpec {
                    file_path: binary_version_path,
                    envs: None,
                    args,
                    data_dir: base_folder,
                    pid_file_name: self.pid_file_name().to_string(),
                    name: self.name().to_string(),
                },
                TariMinerGpuMinerStatusMonitor::new(),
            ),
        )
    }

    /// The name of the miner process.
    pub fn name(&self) -> (name: &'static str)
        ensures
            name@ == "tariminer"@,
    {
        "tariminer"
    }

    /// The file that keeps the id of the miner process.
    pub fn pid_file_name(&self) -> (name: &'static str)
        ensures
            name@ == "tariminer_pid"@,
    {
        "tariminer_pid"
    }
}

impl Default for TariMinerGpuMiner {
    fn default() -> (miner: Self)
        ensures
            miner@ == (TariMinerGpuMinerView {
                tari_address: None,
                intensity_percentage: None,
                worker_name: None,
                connection_type: None,
                gpu_devices: seq![],
                excluded_devices: seq![],
            }),
    {
        TariMinerGpuMiner::new()
    }
}

/// The miner is only ever started for a pool, with a wallet, on one of its devices that the user
/// did not exclude, and the device argument reads back as the id of that device.
pub proof fn law_started_device_is_allowed(miner: TariMinerGpuMinerView)
    requires
        startup_args(miner) is Ok,
    ensures
        first_allowed(miner.gpu_devices, miner.excluded_devices) matches Some(device) && {
            &&& miner.gpu_devices.contains(device)
            &&& !miner.excluded_devices.contains(device.common.device_id)
            &&& unsigned_number(startup_args(miner)->Ok_0[1]) == Some(device.common.device_id)
        },
        miner.connection_type matches Some(GpuConnectionTypeView::Pool { pool_url })
            && startup_args(miner)->Ok_0[3] == pool_url,
        miner.tari_address == Some(startup_args(miner)->Ok_0[5]),
{
    law_first_allowed_device_is_selected(miner.gpu_devices, miner.excluded_devices);
    let device = first_allowed(miner.gpu_devices, miner.excluded_devices)->0;
    law_decimal_text_is_read_back(device.common.device_id);
}

/// The intensity argument is a percentage from 1 to 100, and the loaded one where that is such a
/// percentage.
pub proof fn law_intensity_is_a_percentage(intensity: u32)
    ensures
        unsigned_number(intensity_args(Some(intensity))[1]) == Some(clamped_intensity(intensity)),
        1 <= clamped_intensity(intensity) <= 100,
        1 <= intensity <= 100 ==> clamped_intensity(intensity) == intensity,
{
    law_decimal_text_is_read_back(clamped_intensity(intensity));
}

/// Once the published backend is refreshed, the backend that is resolved is that of the device to
/// mine with; where there is no such device it is the one that was resolved before.
pub proof fn law_resolved_backend_follows_the_device(
    miner: TariMinerGpuMinerView,
    published: TariMinerBackend,
)
    ensures
        match device_selection(miner.gpu_devices, miner.excluded_devices) {
            Ok(device) => resolved_backend(Some(refreshed_backend(miner, published)))
                == device.backend,
            Err(_) => resolved_backend(Some(refreshed_backend(miner, published)))
                == resolved_backend(Some(published)),
        },
{
}

/// Whether a list of device ids is that of the devices that the settings exclude.
pub open spec fn lists_excluded(device_ids: Seq<u32>, settings: ConfigMiningContentView) -> bool {
    forall|id: u32| #[trigger]
        device_ids.contains(id) <==> excludes(settings.gpu_devices_settings, id)
}

/// A miner that was loaded with the devices that the settings exclude is not started on one of
/// them, and while all its devices are excluded it is not started at all.
pub proof fn law_device_excluded_in_the_settings_is_not_started(
    settings: ConfigMiningContentView,
    miner: TariMinerGpuMinerView,
)
    requires
        lists_excluded(miner.excluded_devices, settings),
    ensures
        device_selection(miner.gpu_devices, miner.excluded_devices) matches Ok(device)
            ==> !excludes(settings.gpu_devices_settings, device.common.device_id),
        miner.gpu_devices.len() > 0 && (forall|i: int|
            0 <= i < miner.gpu_devices.len() ==> excludes(
                settings.gpu_devices_settings,
                (#[trigger] miner.gpu_devices[i]).common.device_id,
            )) ==> startup_args(miner) == Err::<Seq<Seq<char>>, MiningError>(
            MiningError::AllDevicesExcluded,
        ),
{
    law_first_allowed_device_is_selected(miner.gpu_devices, miner.excluded_devices);
}

/// Once detected devices are made known, the settings know every one of them.
pub proof fn law_detected_devices_become_known(
    settings: ConfigMiningContentView,
    devices: Seq<TariMinerDeviceView>,
    at: int,
)
    requires
        0 <= at < devices.len(),
    ensures
        settings.with_detected_devices(
            GpuMinerType::TariMiner,
            device_ids(devices),
        ).gpu_devices_settings.contains_key(devices[at].common.device_id),
{
    let ids = device_ids(devices);
    let id = devices[at].common.device_id;
    assert(ids[at] == id);
    let known = if settings.gpu_devices_settings_source == Some(GpuMinerType::TariMiner) {
        settings.gpu_devices_settings
    } else {
        Map::<u32, GpuDeviceSettings>::empty()
    };
    law_devices_are_added(known, ids);
    assert(ids.contains(id));
}

/// Exclusions that another miner's device numbering left behind do not carry over: the first
/// detected device is the one to mine with.
pub proof fn law_no_exclusion_carries_over(
    settings: ConfigMiningContentView,
    devices: Seq<TariMinerDeviceView>,
    excluded: Seq<u32>,
)
    requires
        settings.gpu_devices_settings_source != Some(GpuMinerType::TariMiner),
        devices.len() > 0,
        lists_excluded(
            excluded,
            settings.with_detected_devices(GpuMinerType::TariMiner, device_ids(devices)),
        ),
    ensures
        device_selection(devices, excluded) == Ok::<TariMinerDeviceView, MiningError>(devices[0]),
{
    law_settings_of_another_miner_are_dropped(
        settings,
        GpuMinerType::TariMiner,
        device_ids(devices),
        devices[0].common.device_id,
    );
}

} // verus!
