//! When TARI.Miner is started, and with which arguments.
use crate::gpu::{GpuConnectionType, GpuConnectionTypeView, GpuMinerType, MiningError};
use crate::laws::devices::law_first_allowed_device_is_mined_with;
use crate::laws::text::law_numbers_are_written_in_digits;
use crate::miner::{
    announces, common_contents, common_information, device_ids, enumeration_failed,
    enumeration_succeeded, intensity_args, refreshed_backend, startup_args, worker_args,
    DetectedDevices, TariMinerGpuMiner, TariMinerGpuMinerView,
};
use crate::platform::{output_text, utf8_lossy};
use crate::tariminer::{
    device_selection, devices_in_output, TariMinerBackend, TariMinerDeviceView,
};
use crate::text::{decimal_text, trimmed, unsigned_number};
use vstd::prelude::*;
use vstd::utf8::*;

verus! {

/// The miner is started exactly where one of its devices is not excluded, it works for a pool and
/// it has a wallet. Otherwise what is missing first is the error: a device, one that is not
/// excluded, a pool, a wallet.
pub proof fn law_miner_starts_with_device_pool_and_wallet(miner: TariMinerGpuMinerView)
    ensures
        startup_args(miner) is Ok <==> {
            &&& exists|i: int|
                0 <= i < miner.gpu_devices.len() && !miner.excluded_devices.contains(
                    (#[trigger] miner.gpu_devices[i]).common.device_id,
                )
            &&& miner.connection_type matches Some(GpuConnectionTypeView::Pool { .. })
            &&& miner.tari_address is Some
        },
        miner.gpu_devices.len() == 0 <==> startup_args(miner) == Err::<Seq<Seq<char>>, MiningError>(
            MiningError::NoCompatibleDevices,
        ),
        miner.gpu_devices.len() > 0 && (forall|i: int|
            0 <= i < miner.gpu_devices.len() ==> miner.excluded_devices.contains(
                (#[trigger] miner.gpu_devices[i]).common.device_id,
            )) <==> startup_args(miner) == Err::<Seq<Seq<char>>, MiningError>(
            MiningError::AllDevicesExcluded,
        ),
        forall|i: int|
            0 <= i < miner.gpu_devices.len() && !miner.excluded_devices.contains(
                (#[trigger] miner.gpu_devices[i]).common.device_id,
            ) ==> match miner.connection_type {
                None => startup_args(miner) == Err::<Seq<Seq<char>>, MiningError>(
                    MiningError::ConnectionTypeNotSet,
                ),
                Some(GpuConnectionTypeView::Node { .. }) => startup_args(miner) == Err::<
                    Seq<Seq<char>>,
                    MiningError,
                >(MiningError::NodeMiningNotSupported),
                Some(GpuConnectionTypeView::Pool { .. }) => miner.tari_address is None
                    <==> startup_args(miner) == Err::<Seq<Seq<char>>, MiningError>(
                    MiningError::TariAddressNotSet,
                ),
            },
{
    lemma_selection_outcome(miner.gpu_devices, miner.excluded_devices);
}

proof fn lemma_selection_outcome(devices: Seq<TariMinerDeviceView>, excluded: Seq<u32>)
    ensures
        devices.len() == 0 <==> device_selection(devices, excluded) == Err::<
            TariMinerDeviceView,
            MiningError,
        >(MiningError::NoCompatibleDevices),
        devices.len() > 0 && (forall|j: int|
            0 <= j < devices.len() ==> excluded.contains((#[trigger] devices[j]).common.device_id))
            <==> device_selection(devices, excluded) == Err::<TariMinerDeviceView, MiningError>(
            MiningError::AllDevicesExcluded,
        ),
        device_selection(devices, excluded) is Ok <==> exists|i: int|
            0 <= i < devices.len() && !excluded.contains(
                (#[trigger] devices[i]).common.device_id,
            ),
{
    law_first_allowed_device_is_mined_with(devices, excluded);
}

/// The arguments start with the id of the first device that is not excluded, the pool and the
/// wallet.
pub proof fn law_device_pool_and_wallet_reach_the_miner(miner: TariMinerGpuMinerView, at: int)
    requires
        startup_args(miner) is Ok,
        0 <= at < miner.gpu_devices.len(),
        !miner.excluded_devices.contains(miner.gpu_devices[at].common.device_id),
        forall|i: int|
            0 <= i < at ==> miner.excluded_devices.contains(
                (#[trigger] miner.gpu_devices[i]).common.device_id,
            ),
    ensures
        ({
            let args = startup_args(miner)->Ok_0;
            &&& args.len() >= 6
            &&& args[0] == "--device"@
            &&& unsigned_number(args[1]) == Some(miner.gpu_devices[at].common.device_id)
            &&& args[1] == decimal_text(miner.gpu_devices[at].common.device_id as nat)
            &&& args[2] == "--pool"@
            &&& miner.connection_type == Some(GpuConnectionTypeView::Pool { pool_url: args[3] })
            &&& args[4] == "--wallet"@
            &&& miner.tari_address == Some(args[5])
        }),
{
    law_first_allowed_device_is_mined_with(miner.gpu_devices, miner.excluded_devices);
    law_numbers_are_written_in_digits(miner.gpu_devices[at].common.device_id);
}

proof fn lemma_argument_parts(miner: TariMinerGpuMinerView)
    requires
        startup_args(miner) is Ok,
    ensures
        ({
            let args = startup_args(miner)->Ok_0;
            let worker = worker_args(miner.worker_name);
            let intensity = intensity_args(miner.intensity_percentage);
            &&& args.len() == 6 + worker.len() + intensity.len()
            &&& args[0] == "--device"@ && args[2] == "--pool"@ && args[4] == "--wallet"@
            &&& forall|k: int| 6 <= k < 6 + worker.len() ==> args[k] == worker[k - 6]
            &&& forall|k: int|
                6 + worker.len() <= k < args.len() ==> args[k] == intensity[k - 6 - worker.len()]
        }),
{
}

/// A worker name that starts with a dot or a slash reaches the miner as its first character, the
/// login separator, and the rest, which together are the name. Any other worker name reaches it
/// whole and without a separator, and without a worker name there is neither option.
pub proof fn law_worker_name_reaches_the_miner(miner: TariMinerGpuMinerView)
    requires
        startup_args(miner) is Ok,
    ensures
        ({
            let args = startup_args(miner)->Ok_0;
            let last: int = if miner.intensity_percentage is Some {
                args.len() - 2
            } else {
                args.len() as int
            };
            match miner.worker_name {
                Some(name) => if name.len() > 0 && (name[0] == '.' || name[0] == '/') {
                    &&& last == 10
                    &&& args[6] == "--worker"@
                    &&& args[8] == "--login-separator"@
                    &&& args[9].len() == 1
                    &&& args[9] + args[7] == name
                } else {
                    &&& last == 8
                    &&& args[6] == "--worker"@
                    &&& args[7] == name
                    &&& forall|k: int|
                        0 <= k < args.len() && k % 2 == 0 ==> #[trigger] args[k]
                            != "--login-separator"@
                },
                None => {
                    &&& last == 6
                    &&& forall|k: int|
                        0 <= k < args.len() && k % 2 == 0 ==> #[trigger] args[k] != "--worker"@
                            && args[k] != "--login-separator"@
                },
            }
        }),
{
    reveal_strlit("--device");
    reveal_strlit("--pool");
    reveal_strlit("--wallet");
    reveal_strlit("--worker");
    reveal_strlit("--login-separator");
    reveal_strlit("--intensity");
    lemma_argument_parts(miner);
    assert("--device"@[2] != "--worker"@[2]);
    assert("--wallet"@[3] != "--worker"@[3]);
    assert("--pool"@.len() == 6 && "--intensity"@.len() == 11 && "--login-separator"@.len() == 17);
    match miner.worker_name {
        Some(name) => {
            if name.len() > 0 && (name[0] == '.' || name[0] == '/') {
                assert(name.take(1) + name.skip(1) == name);
            }
        },
        None => {},
    }
}

/// An intensity is the last argument, as a percentage from 1 to 100: the loaded one where it is
/// one of these, and otherwise the nearest. Where none was loaded, none is given.
pub proof fn law_intensity_reaches_the_miner(miner: TariMinerGpuMinerView)
    requires
        startup_args(miner) is Ok,
    ensures
        ({
            let args = startup_args(miner)->Ok_0;
            match miner.intensity_percentage {
                Some(intensity) => {
                    &&& args[args.len() - 2] == "--intensity"@
                    &&& intensity == 0 ==> args[args.len() - 1] == decimal_text(1)
                    &&& 1 <= intensity <= 100 ==> args[args.len() - 1] == decimal_text(
                        intensity as nat,
                    )
                    &&& intensity > 100 ==> args[args.len() - 1] == decimal_text(100)
                },
                None => forall|k: int|
                    0 <= k < args.len() && k % 2 == 0 ==> #[trigger] args[k] != "--intensity"@,
            }
        }),
{
    reveal_strlit("--device");
    reveal_strlit("--pool");
    reveal_strlit("--wallet");
    reveal_strlit("--worker");
    reveal_strlit("--login-separator");
    reveal_strlit("--intensity");
    lemma_argument_parts(miner);
    assert("--intensity"@.len() == 11);
}

/// The published backend is that of the first device that is not excluded. Where there is no such
/// device it stays as it was.
pub proof fn law_backend_of_the_first_allowed_device_is_published(
    miner: TariMinerGpuMinerView,
    published: TariMinerBackend,
)
    ensures
        forall|i: int|
            #![trigger miner.gpu_devices[i]]
            0 <= i < miner.gpu_devices.len() && !miner.excluded_devices.contains(
                miner.gpu_devices[i].common.device_id,
            ) && (forall|j: int|
                0 <= j < i ==> miner.excluded_devices.contains(
                    (#[trigger] miner.gpu_devices[j]).common.device_id,
                )) ==> refreshed_backend(miner, published) == miner.gpu_devices[i].backend,
        (forall|j: int|
            0 <= j < miner.gpu_devices.len() ==> miner.excluded_devices.contains(
                (#[trigger] miner.gpu_devices[j]).common.device_id,
            )) ==> refreshed_backend(miner, published) == published,
{
    law_first_allowed_device_is_mined_with(miner.gpu_devices, miner.excluded_devices);
}

/// Devices are made known one by one and in their order, each with its name and its id, as
/// devices of TARI.Miner.
pub proof fn law_devices_are_announced_as_listed(
    detected: DetectedDevices,
    devices: Seq<TariMinerDeviceView>,
)
    requires
        announces(detected, devices),
    ensures
        detected.device_settings.0 == GpuMinerType::TariMiner,
        detected.common_devices@.len() == devices.len(),
        detected.device_settings.1@.len() == devices.len(),
        forall|i: int|
            #![trigger devices[i]]
            0 <= i < devices.len() ==> {
                &&& detected.common_devices@[i].name@ == devices[i].common.name
                &&& detected.common_devices@[i].device_id == devices[i].common.device_id
                &&& detected.device_settings.1@[i] == devices[i].common.device_id
            },
        device_ids(devices) == detected.device_settings.1@,
{
    let listed = common_information(devices);
    let known = common_contents(detected.common_devices@);
    assert(known.len() == detected.common_devices@.len());
    assert(listed.len() == devices.len());
    assert(device_ids(devices).len() == devices.len());
    assert forall|i: int| #![trigger devices[i]] 0 <= i < devices.len() implies {
        &&& detected.common_devices@[i].name@ == devices[i].common.name
        &&& detected.common_devices@[i].device_id == devices[i].common.device_id
        &&& detected.device_settings.1@[i] == devices[i].common.device_id
    } by {
        assert(known[i] == detected.common_devices@[i]@);
        assert(listed[i] == devices[i].common);
        assert(device_ids(devices)[i] == devices[i].common.device_id);
    }
}

/// An enumeration gives devices exactly where `nvidia-smi` succeeded and listed one. Where it
/// failed, the reason is its error output without the white space around it.
pub proof fn law_enumeration_fails_for_its_reason(
    success: bool,
    stdout: Seq<char>,
    stderr: Seq<char>,
    error: MiningError,
)
    ensures
        enumeration_succeeded(success, stdout) <==> success && devices_in_output(stdout).len() != 0,
        enumeration_failed(success, stdout, stderr, error) ==> {
            &&& success ==> error == MiningError::NoCompatibleDevices
            &&& !success ==> (error matches MiningError::EnumerationFailed { error_output }
                && error_output@ == trimmed(stderr))
        },
{
}

/// Valid UTF-8 is read as the text that it encodes.
pub proof fn law_output_is_read_as_its_text(bytes: Seq<u8>)
    ensures
        valid_utf8(bytes) ==> output_text(bytes) == decode_utf8(bytes),
        !valid_utf8(bytes) ==> output_text(bytes) == utf8_lossy(bytes),
{
}

/// A miner's contents are what was loaded into it.
pub proof fn law_miner_contents_are_what_it_holds(miner: TariMinerGpuMiner)
    ensures
        miner@.tari_address is Some <==> miner.tari_address is Some,
        miner.tari_address matches Some(text) ==> miner@.tari_address == Some(text@),
        miner@.worker_name is Some <==> miner.worker_name is Some,
        miner.worker_name matches Some(text) ==> miner@.worker_name == Some(text@),
        miner@.intensity_percentage == miner.intensity_percentage,
        miner@.connection_type is Some <==> miner.connection_type is Some,
        miner.connection_type matches Some(GpuConnectionType::Pool { pool_url })
            ==> miner@.connection_type == Some(GpuConnectionTypeView::Pool { pool_url: pool_url@ }),
        miner.connection_type matches Some(GpuConnectionType::Node { node_grpc_address })
            ==> miner@.connection_type == Some(
            GpuConnectionTypeView::Node { node_grpc_address: node_grpc_address@ },
        ),
        miner@.excluded_devices == miner.excluded_devices@,
        miner@.gpu_devices.len() == miner.gpu_devices@.len(),
        forall|i: int|
            0 <= i < miner.gpu_devices@.len() ==> #[trigger] miner@.gpu_devices[i]
                == miner.gpu_devices@[i]@,
{
}

} // verus!
