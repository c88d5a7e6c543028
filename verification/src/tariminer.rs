//! TARI.Miner's backends, the devices that it can mine with, and its worker names.
use crate::gpu::{GpuCommonInformation, GpuCommonInformationView, MiningError};
use crate::platform::{join_path, path_components};
use crate::text::{
    contents, fields, fields_of, law_lines_are_read_one_by_one, lemma_position_is,
    lemma_position_of, lines, lines_of, parse_u32, position_of, same_text, trim, trimmed,
    unsigned_number, white_space, without_carriage_return, without_leading_space,
    without_trailing_space,
};
use std::path::PathBuf;
use vstd::prelude::*;
use vstd::string::*;

verus! {

/// Sub folder of the extracted release archive that holds the per architecture backends.
pub const BACKENDS_FOLDER: &'static str = "bin";

/// The CUDA backend that TARI.Miner ships one binary for per supported compute capability.
/// The upstream starter script picks the backend the same way, from
/// `nvidia-smi --query-gpu=compute_cap`.
#[derive(Debug, Clone, Copy, PartialEq, Eq, Structural)]
pub enum TariMinerBackend {
    /// RTX 30 series
    Sm86,
    /// RTX 40 series
    Sm89,
    /// RTX 50 series
    Sm120,
}

impl Default for TariMinerBackend {
    fn default() -> (backend: Self)
        ensures
            backend == TariMinerBackend::Sm86,
    {
        TariMinerBackend::Sm86
    }
}

/// The backend for a compute capability, whatever white space surrounds it.
pub open spec fn backend_for(compute_capability: Seq<char>) -> Option<TariMinerBackend> {
    let capability = trimmed(compute_capability);
    if capability == "8.6"@ {
        Some(TariMinerBackend::Sm86)
    } else if capability == "8.9"@ {
        Some(TariMinerBackend::Sm89)
    } else if capability == "12.0"@ {
        Some(TariMinerBackend::Sm120)
    } else {
        None
    }
}

impl TariMinerBackend {
    /// The name of the backend's binary.
    pub open spec fn spec_file_stem(self) -> Seq<char> {
        match self {
            TariMinerBackend::Sm86 => "tari_c29_pool_miner_sm_86"@,
            TariMinerBackend::Sm89 => "tari_c29_pool_miner_sm_89"@,
            TariMinerBackend::Sm120 => "tari_c29_pool_miner_sm_120"@,
        }
    }

    /// The backend for a compute capability.
    pub fn from_compute_capability(compute_capability: &str) -> (backend: Option<Self>)
        ensures
            backend == backend_for(compute_capability@),
            backend == Some(TariMinerBackend::Sm86) <==> trimmed(compute_capability@) == "8.6"@,
            backend == Some(TariMinerBackend::Sm89) <==> trimmed(compute_capability@) == "8.9"@,
            backend == Some(TariMinerBackend::Sm120) <==> trimmed(compute_capability@) == "12.0"@,
    {
        proof {
            reveal_strlit("8.6");
            reveal_strlit("8.9");
            reveal_strlit("12.0");
            assert("8.6"@[2] != "8.9"@[2]);
            assert("12.0"@.len() == 4);
        }
        let capability = trim(compute_capability);
        if same_text(capability, "8.6") {
            Some(TariMinerBackend::Sm86)
        } else if same_text(capability, "8.9") {
            Some(TariMinerBackend::Sm89)
        } else if same_text(capability, "12.0") {
            Some(TariMinerBackend::Sm120)
        } else {
            None
        }
    }

    /// The name of the backend's binary.
    pub fn file_stem(self) -> (stem: &'static str)
        ensures
            stem@ == self.spec_file_stem(),
    {
        match self {
            TariMinerBackend::Sm86 => "tari_c29_pool_miner_sm_86",
            TariMinerBackend::Sm89 => "tari_c29_pool_miner_sm_89",
            TariMinerBackend::Sm120 => "tari_c29_pool_miner_sm_120",
        }
    }

    /// The name of the firewall rule for the backend's binary on Windows.
    pub fn firewall_rule_name(self) -> (name: String)
        ensures
            name@ == self.spec_file_stem() + ".exe"@,
    {
        self.file_stem().to_string().concat(".exe")
    }

    /// Path of the backend inside the extracted release archive.
    pub fn relative_binary_path(self) -> (path: PathBuf)
        ensures
            path_components(path) == seq![BACKENDS_FOLDER@, self.spec_file_stem()],
    {
        proof {
            reveal_strlit("bin");
            reveal_strlit("tari_c29_pool_miner_sm_86");
            reveal_strlit("tari_c29_pool_miner_sm_89");
            reveal_strlit("tari_c29_pool_miner_sm_120");
        }
        join_path(BACKENDS_FOLDER, self.file_stem())
    }
}

/// No two backends share a binary.
pub proof fn law_backends_have_different_binaries(a: TariMinerBackend, b: TariMinerBackend)
    requires
        a != b,
    ensures
        a.spec_file_stem() != b.spec_file_stem(),
{
    reveal_strlit("tari_c29_pool_miner_sm_86");
    reveal_strlit("tari_c29_pool_miner_sm_89");
    reveal_strlit("tari_c29_pool_miner_sm_120");
    assert("tari_c29_pool_miner_sm_86"@[24] != "tari_c29_pool_miner_sm_89"@[24]);
    assert("tari_c29_pool_miner_sm_120"@.len() == 26);
}

/// The archive ships every backend, but the binary resolver and the process watcher both need a
/// single path. Device detection publishes the backend that matches the GPU we are going to mine
/// with here so that both agree on which one to resolve, set permissions on and spawn.
#[derive(Debug, Clone, Copy)]
pub struct SelectedBackend {
    backend: TariMinerBackend,
}

impl View for SelectedBackend {
    type V = TariMinerBackend;

    closed spec fn view(&self) -> TariMinerBackend {
        self.backend
    }
}

impl Default for SelectedBackend {
    fn default() -> (selected: Self)
        ensures
            selected@ == TariMinerBackend::Sm86,
    {
        SelectedBackend { backend: TariMinerBackend::Sm86 }
    }
}

/// The backend to resolve: the published one, or the default where none can be read.
pub open spec fn resolved_backend(published: Option<TariMinerBackend>) -> TariMinerBackend {
    match published {
        Some(backend) => backend,
        None => TariMinerBackend::Sm86,
    }
}

/// Returns the backend that matches the GPU TARI.Miner will be started on.
/// Falls back to the default backend where nothing can be read; every backend is present in the
/// archive, so resolving the binary path stays valid either way.
pub fn selected_backend(published: Option<&SelectedBackend>) -> (backend: TariMinerBackend)
    ensures
        backend == resolved_backend(
            match published {
                Some(selected) => Some(selected@),
                None => None,
            },
        ),
{
    match published {
        Some(selected) => selected.backend,
        None => TariMinerBackend::default(),
    }
}

/// Publishes the backend of the device to mine with.
pub fn publish_selected_backend(selected: &mut SelectedBackend, backend: TariMinerBackend)
    ensures
        final(selected)@ == backend,
{
    selected.backend = backend;
}

/// An NVIDIA device that TARI.Miner has a backend for.
#[derive(Debug, PartialEq, Eq)]
pub struct TariMinerDevice {
    pub common: GpuCommonInformation,
    pub backend: TariMinerBackend,
}

/// The contents of a [`TariMinerDevice`].
pub ghost struct TariMinerDeviceView {
    pub common: GpuCommonInformationView,
    pub backend: TariMinerBackend,
}

impl View for TariMinerDevice {
    type V = TariMinerDeviceView;

    open spec fn view(&self) -> TariMinerDeviceView {
        TariMinerDeviceView { common: self.common@, backend: self.backend }
    }
}

impl Clone for TariMinerDevice {
    fn clone(&self) -> (copy: Self)
        ensures
            copy == *self,
    {
        TariMinerDevice { common: self.common.clone(), backend: self.backend }
    }
}

/// The contents of a list of devices.
pub open spec fn device_contents(devices: Seq<TariMinerDevice>) -> Seq<TariMinerDeviceView> {
    devices.map_values(|device: TariMinerDevice| device@)
}

/// The device that a row of `nvidia-smi` describes: an index, a compute capability with a backend
/// and a name, separated by commas. What follows a third comma is ignored.
pub open spec fn device_in_row(row: Seq<char>) -> Option<TariMinerDeviceView> {
    let columns = fields_of(row, ',');
    if columns.len() < 3 {
        None
    } else {
        match (unsigned_number(trimmed(columns[0])), backend_for(columns[1])) {
            (Some(device_id), Some(backend)) => Some(
                TariMinerDeviceView {
                    common: GpuCommonInformationView { name: trimmed(columns[2]), device_id },
                    backend,
                },
            ),
            _ => None,
        }
    }
}

/// A list of the one device of a row, or an empty list.
pub open spec fn devices_in_row(row: Seq<char>) -> Seq<TariMinerDeviceView> {
    match device_in_row(row) {
        Some(device) => seq![device],
        None => seq![],
    }
}

/// The devices that rows describe, in the order of the rows.
pub open spec fn devices_in_rows(rows: Seq<Seq<char>>) -> Seq<TariMinerDeviceView>
    decreases rows.len(),
{
    if rows.len() == 0 {
        seq![]
    } else {
        devices_in_row(rows[0]) + devices_in_rows(rows.skip(1))
    }
}

/// The devices that an output of `nvidia-smi` lists.
pub open spec fn devices_in_output(output: Seq<char>) -> Seq<TariMinerDeviceView> {
    devices_in_rows(lines_of(output))
}

/// Each row counts on its own: a row with a supported device gives that device, and any other row
/// leaves no trace.
pub proof fn law_rows_are_read_one_by_one(row: Seq<char>, rest: Seq<char>)
    requires
        forall|i: int| 0 <= i < row.len() ==> row[i] != '\n',
    ensures
        devices_in_output(row.push('\n') + rest) == devices_in_row(without_carriage_return(row))
            + devices_in_output(rest),
{
    law_lines_are_read_one_by_one(row, rest);
    let rows = lines_of(row.push('\n') + rest);
    assert(rows.skip(1) == lines_of(rest));
}

/// A carriage return at the end of a text makes no difference once it is trimmed.
proof fn lemma_trimmed_ignores_carriage_return(s: Seq<char>)
    ensures
        trimmed(s.push('\r')) == trimmed(s),
    decreases s.len(),
{
    reveal_with_fuel(without_leading_space, 2);
    reveal_with_fuel(without_trailing_space, 2);
    let t = s.push('\r');
    if s.len() > 0 && white_space(s[0]) {
        assert(t.skip(1) == s.skip(1).push('\r'));
        lemma_trimmed_ignores_carriage_return(s.skip(1));
    } else if s.len() > 0 {
        assert(t.drop_last() == s);
    } else {
        assert(t.skip(1) == Seq::<char>::empty());
        assert(s == Seq::<char>::empty());
    }
}

/// A carriage return at the end of a text belongs to its last field.
proof fn lemma_last_field_takes_carriage_return(s: Seq<char>)
    ensures
        fields_of(s, ',').len() > 0,
        fields_of(s.push('\r'), ',') == fields_of(s, ',').drop_last().push(
            fields_of(s, ',').last().push('\r'),
        ),
    decreases s.len(),
{
    let t = s.push('\r');
    let end = position_of(s, ',');
    lemma_position_of(s, ',');
    if end < s.len() {
        lemma_position_is(t, ',', end);
        assert(t.take(end) == s.take(end));
        assert(t.skip(end + 1) == s.skip(end + 1).push('\r'));
        lemma_last_field_takes_carriage_return(s.skip(end + 1));
        let rest = fields_of(s.skip(end + 1), ',');
        assert(fields_of(s, ',').last() == rest.last());
        assert(fields_of(t, ',') =~= fields_of(s, ',').drop_last().push(rest.last().push('\r')));
    } else {
        lemma_position_is(t, ',', t.len() as int);
        assert(fields_of(t, ',') =~= fields_of(s, ',').drop_last().push(t));
    }
}

/// A row describes the same device with and without the carriage return of its line ending.
pub proof fn law_row_ignores_carriage_return(row: Seq<char>)
    ensures
        device_in_row(without_carriage_return(row)) == device_in_row(row),
{
    if row.len() > 0 && row.last() == '\r' {
        let bare = row.drop_last();
        assert(bare.push('\r') == row);
        lemma_last_field_takes_carriage_return(bare);
        let columns = fields_of(bare, ',');
        lemma_trimmed_ignores_carriage_return(columns.last());
    }
}

/// An output counts part by part: the devices of two parts joined by a line ending are those of
/// the first part and then those of the second. A part may hold any number of rows, and may end
/// in the carriage return of the line ending.
pub proof fn law_parts_are_read_one_by_one(first: Seq<char>, rest: Seq<char>)
    ensures
        devices_in_output(first.push('\n') + rest) == devices_in_output(first)
            + devices_in_output(rest),
    decreases first.len(),
{
    let end = position_of(first, '\n');
    lemma_position_of(first, '\n');
    if end < first.len() {
        let row = first.take(end);
        let tail = first.skip(end + 1);
        assert(first == row.push('\n') + tail);
        assert(first.push('\n') + rest == row.push('\n') + (tail.push('\n') + rest));
        law_rows_are_read_one_by_one(row, tail.push('\n') + rest);
        law_rows_are_read_one_by_one(row, tail);
        law_parts_are_read_one_by_one(tail, rest);
        assert(devices_in_output(first.push('\n') + rest) =~= devices_in_output(first)
            + devices_in_output(rest));
    } else {
        law_rows_are_read_one_by_one(first, rest);
        law_row_ignores_carriage_return(first);
        if first.len() > 0 {
            reveal_with_fuel(devices_in_rows, 2);
            let rows = lines_of(first);
            assert(rows.skip(1) == Seq::<Seq<char>>::empty());
            assert(devices_in_output(first) =~= devices_in_row(first));
        } else {
            assert(devices_in_row(first) == Seq::<TariMinerDeviceView>::empty());
            assert(devices_in_output(first) == Seq::<TariMinerDeviceView>::empty());
        }
    }
}

/// The device of one row.
fn parse_row(row: &str) -> (device: Option<TariMinerDevice>)
    ensures
        match device {
            Some(d) => device_in_row(row@) == Some(d@),
            None => device_in_row(row@) is None,
        },
{
    let columns = fields(row, ',');
    assert(contents(columns@).len() == columns@.len());
    if columns.len() < 3 {
        return None;
    }
    assert(contents(columns@)[0] == columns@[0]@);
    assert(contents(columns@)[1] == columns@[1]@);
    assert(contents(columns@)[2] == columns@[2]@);
    let device_id = match parse_u32(trim(columns[0])) {
        Some(device_id) => device_id,
        None => {
            return None;
        },
    };
    let backend = match TariMinerBackend::from_compute_capability(columns[1]) {
        Some(backend) => backend,
        None => {
            return None;
        },
    };
    Some(
        TariMinerDevice {
            common: GpuCommonInformation { name: trim(columns[2]).to_string(), device_id },
            backend,
        },
    )
}

/// Parses `nvidia-smi --query-gpu=index,compute_cap,name --format=csv,noheader,nounits`.
/// Devices with a compute capability that has no backend in the release archive are dropped,
/// mirroring what the upstream starter script does.
pub fn parse_nvidia_smi_devices(output: &str) -> (devices: Vec<TariMinerDevice>)
    ensures
        device_contents(devices@) == devices_in_output(output@),
{
    let rows = lines(output);
    let ghost all = contents(rows@);
    let mut devices: Vec<TariMinerDevice> = Vec::new();
    let mut at: usize = 0;
    proof {
        assert(all.skip(0) == all);
        assert(device_contents(devices@) + devices_in_rows(all) == devices_in_rows(all));
    }
    while at < rows.len()
        invariant
            at <= rows.len(),
            all == contents(rows@),
            device_contents(devices@) + devices_in_rows(all.skip(at as int)) == devices_in_rows(
                all,
            ),
        decreases rows.len() - at,
    {
        let ghost before = devices@;
        let ghost rest = all.skip(at as int);
        let parsed = parse_row(rows[at]);
        proof {
            assert(rest[0] == rows@[at as int]@);
            assert(rest.skip(1) == all.skip(at + 1));
        }
        match parsed {
            Some(device) => {
                devices.push(device);
                assert(device_contents(devices@) == device_contents(before).push(device@));
            },
            None => {},
        }
        assert(device_contents(devices@) == device_contents(before) + devices_in_row(rest[0]));
        assert(device_contents(devices@) + devices_in_rows(all.skip(at + 1)) == device_contents(
            before,
        ) + devices_in_rows(rest));
        at = at + 1;
    }
    assert(all.skip(at as int) == Seq::<Seq<char>>::empty());
    assert(device_contents(devices@) + devices_in_rows(all.skip(at as int)) == device_contents(
        devices@,
    ));
    devices
}

/// The first device whose id is not excluded.
pub open spec fn first_allowed(
    devices: Seq<TariMinerDeviceView>,
    excluded: Seq<u32>,
) -> Option<TariMinerDeviceView>
    decreases devices.len(),
{
    if devices.len() == 0 {
        None
    } else if !excluded.contains(devices[0].common.device_id) {
        Some(devices[0])
    } else {
        first_allowed(devices.skip(1), excluded)
    }
}

/// The device to mine with.
pub open spec fn device_selection(
    devices: Seq<TariMinerDeviceView>,
    excluded: Seq<u32>,
) -> Result<TariMinerDeviceView, MiningError> {
    if devices.len() == 0 {
        Err(MiningError::NoCompatibleDevices)
    } else {
        match first_allowed(devices, excluded) {
            Some(device) => Ok(device),
            None => Err(MiningError::AllDevicesExcluded),
        }
    }
}

/// The selected device is one of the devices and not excluded, and every device before it is
/// excluded. There is none only where every device is excluded.
pub proof fn law_first_allowed_device_is_selected(
    devices: Seq<TariMinerDeviceView>,
    excluded: Seq<u32>,
)
    ensures
        match first_allowed(devices, excluded) {
            Some(device) => exists|i: int|
                {
                    &&& 0 <= i < devices.len()
                    &&& #[trigger] devices[i] == device
                    &&& !excluded.contains(device.common.device_id)
                    &&& forall|j: int|
                        0 <= j < i ==> excluded.contains((#[trigger] devices[j]).common.device_id)
                },
            None => forall|j: int|
                0 <= j < devices.len() ==> excluded.contains(
                    (#[trigger] devices[j]).common.device_id,
                ),
        },
    decreases devices.len(),
{
    if devices.len() > 0 {
        let rest = devices.skip(1);
        law_first_allowed_device_is_selected(rest, excluded);
        if excluded.contains(devices[0].common.device_id) {
            match first_allowed(rest, excluded) {
                Some(device) => {
                    let i = choose|i: int|
                        {
                            &&& 0 <= i < rest.len()
                            &&& #[trigger] rest[i] == device
                            &&& !excluded.contains(device.common.device_id)
                            &&& forall|j: int|
                                0 <= j < i ==> excluded.contains(
                                    (#[trigger] rest[j]).common.device_id,
                                )
                        };
                    assert(devices[i + 1] == device);
                    assert forall|j: int| 0 <= j < i + 1 implies excluded.contains(
                        (#[trigger] devices[j]).common.device_id,
                    ) by {
                        if j > 0 {
                            assert(rest[j - 1] == devices[j]);
                        }
                    }
                },
                None => {
                    assert forall|j: int| 0 <= j < devices.len() implies excluded.contains(
                        (#[trigger] devices[j]).common.device_id,
                    ) by {
                        if j > 0 {
                            assert(rest[j - 1] == devices[j]);
                        }
                    }
                },
            }
        } else {
            assert(devices[0] == first_allowed(devices, excluded)->0);
        }
    }
}

/// Whether a device id is among the excluded ones.
fn is_excluded(excluded_devices: &[u32], device_id: u32) -> (r: bool)
    ensures
        r == excluded_devices@.contains(device_id),
{
    let mut at: usize = 0;
    while at < excluded_devices.len()
        invariant
            at <= excluded_devices.len(),
            forall|i: int| 0 <= i < at ==> excluded_devices@[i] != device_id,
        decreases excluded_devices.len() - at,
    {
        if excluded_devices[at] == device_id {
            return true;
        }
        at = at + 1;
    }
    false
}

/// TARI.Miner drives a single GPU per process, so we mine with the first device the user did not
/// exclude.
pub fn select_device<'a>(devices: &'a [TariMinerDevice], excluded_devices: &[u32]) -> (selection:
    Result<&'a TariMinerDevice, MiningError>)
    ensures
        match selection {
            Ok(device) => {
                &&& device_selection(device_contents(devices@), excluded_devices@) == Ok::<
                    TariMinerDeviceView,
                    MiningError,
                >(device@)
                &&& devices@.contains(*device)
                &&& !excluded_devices@.contains(device.common.device_id)
                &&& exists|i: int|
                    {
                        &&& 0 <= i < devices@.len()
                        &&& #[trigger] devices@[i] == *device
                        &&& forall|j: int|
                            0 <= j < i ==> excluded_devices@.contains(
                                (#[trigger] devices@[j]).common.device_id,
                            )
                    }
            },
            Err(error) => {
                &&& device_selection(device_contents(devices@), excluded_devices@) == Err::<
                    TariMinerDeviceView,
                    MiningError,
                >(error)
                &&& forall|j: int|
                    0 <= j < devices@.len() ==> excluded_devices@.contains(
                        (#[trigger] devices@[j]).common.device_id,
                    )
                &&& error == if devices@.len() == 0 {
                    MiningError::NoCompatibleDevices
                } else {
                    MiningError::AllDevicesExcluded
                }
            },
        },
{
    let ghost all = device_contents(devices@);
    if devices.len() == 0 {
        return Err(MiningError::NoCompatibleDevices);
    }
    let mut at: usize = 0;
    assert(all.skip(0) == all);
    while at < devices.len()
        invariant
            at <= devices.len(),
            devices.len() > 0,
            all == device_contents(devices@),
            forall|j: int|
                0 <= j < at ==> excluded_devices@.contains(
                    (#[trigger] devices@[j]).common.device_id,
                ),
            first_allowed(all.skip(at as int), excluded_devices@) == first_allowed(
                all,
                excluded_devices@,
            ),
        decreases devices.len() - at,
    {
        let ghost rest = all.skip(at as int);
        proof {
            assert(rest[0] == devices@[at as int]@);
            assert(rest.skip(1) == all.skip(at + 1));
        }
        if !is_excluded(excluded_devices, devices[at].common.device_id) {
            assert(devices@.contains(devices@[at as int]));
            return Ok(&devices[at]);
        }
        at = at + 1;
    }
    Err(MiningError::AllDevicesExcluded)
}

/// The login separator that a worker name starts with.
pub open spec fn login_separator(worker_name: Seq<char>) -> Option<Seq<char>> {
    if worker_name.len() > 0 && (worker_name[0] == '.' || worker_name[0] == '/') {
        Some(worker_name.take(1))
    } else {
        None
    }
}

/// A worker name without its login separator.
pub open spec fn worker_without_separator(worker_name: Seq<char>) -> Seq<char> {
    if login_separator(worker_name) is Some {
        worker_name.skip(1)
    } else {
        worker_name
    }
}

/// The separator and the worker together are the name that was split.
pub proof fn law_worker_name_is_split_without_loss(worker_name: Seq<char>)
    ensures
        match login_separator(worker_name) {
            Some(separator) => separator + worker_without_separator(worker_name) == worker_name,
            None => worker_without_separator(worker_name) == worker_name,
        },
{
    assert(worker_name.len() > 0 ==> worker_name.take(1) + worker_name.skip(1) == worker_name);
}

/// The manager hands us the pool specific worker name with its login separator prefixed
/// (`.Tari-universe` for LuckyPool, `/Tari-universe` for Kryptex). TARI.Miner takes the two apart,
/// so we split them back up here. A worker name without a leading separator keeps the miner's
/// own default.
pub fn split_worker_name<'a>(worker_name: &'a str) -> (parts: (Option<&'a str>, &'a str))
    ensures
        match parts.0 {
            Some(separator) => login_separator(worker_name@) == Some(separator@),
            None => login_separator(worker_name@) is None,
        },
        parts.1@ == worker_without_separator(worker_name@),
{
    let length = worker_name.unicode_len();
    if length > 0 {
        let first = worker_name.get_char(0);
        if first == '.' || first == '/' {
            return (
                Some(worker_name.substring_char(0, 1)),
                worker_name.substring_char(1, length),
            );
        }
    }
    (None, worker_name)
}

} // verus!
