//! Which devices are found and which of them is mined with.
use crate::gpu::MiningError;
use crate::laws::text::law_fields_end_at_separators;
use crate::tariminer::{
    backend_for, device_contents, device_in_row, device_selection, devices_in_output,
    devices_in_rows, first_allowed, law_first_allowed_device_is_selected,
    law_row_ignores_carriage_return, law_rows_are_read_one_by_one, login_separator,
    resolved_backend, worker_without_separator, TariMinerBackend, TariMinerDevice,
    TariMinerDeviceView, BACKENDS_FOLDER,
};
use crate::text::{fields_of, lemma_position_is, lines_of, trimmed, unsigned_number};
use vstd::prelude::*;

verus! {

/// A compute capability has a backend exactly where it is `8.6`, `8.9` or `12.0` up to the white
/// space around it, and then its own one.
pub proof fn law_backend_needs_its_capability(capability: Seq<char>)
    ensures
        backend_for(capability) == Some(TariMinerBackend::Sm86) <==> trimmed(capability) == seq![
            '8',
            '.',
            '6',
        ],
        backend_for(capability) == Some(TariMinerBackend::Sm89) <==> trimmed(capability) == seq![
            '8',
            '.',
            '9',
        ],
        backend_for(capability) == Some(TariMinerBackend::Sm120) <==> trimmed(capability) == seq![
            '1',
            '2',
            '.',
            '0',
        ],
{
    reveal_strlit("8.6");
    reveal_strlit("8.9");
    reveal_strlit("12.0");
    assert("8.6"@ =~= seq!['8', '.', '6']);
    assert("8.9"@ =~= seq!['8', '.', '9']);
    assert("12.0"@ =~= seq!['1', '2', '.', '0']);
    assert("8.6"@[2] != "8.9"@[2]);
    assert("12.0"@.len() != "8.6"@.len());
    assert("12.0"@.len() != "8.9"@.len());
}

/// The binary of a backend is named after the compute capability that it is for, without the dot.
pub proof fn law_binary_is_named_after_the_capability(
    capability: Seq<char>,
    major: Seq<char>,
    minor: Seq<char>,
    backend: TariMinerBackend,
)
    requires
        backend_for(capability) == Some(backend),
        trimmed(capability) == major.push('.') + minor,
    ensures
        backend.spec_file_stem() == "tari_c29_pool_miner_sm_"@ + (major + minor),
        BACKENDS_FOLDER@ == "bin"@,
{
    reveal_strlit("tari_c29_pool_miner_sm_");
    reveal_strlit("tari_c29_pool_miner_sm_86");
    reveal_strlit("tari_c29_pool_miner_sm_89");
    reveal_strlit("tari_c29_pool_miner_sm_120");
    law_backend_needs_its_capability(capability);
    let text = trimmed(capability);
    let at = major.len() as int;
    assert(text[at] == '.');
    assert(major =~= text.take(at));
    assert(minor =~= text.skip(at + 1));
    assert(backend.spec_file_stem() =~= "tari_c29_pool_miner_sm_"@ + (major + minor));
}

/// A row gives a device exactly where its first column is a number and its second one a compute
/// capability with a backend. The device has that number, that backend and the third column as its
/// name; further columns do not matter.
pub proof fn law_row_gives_its_device(
    index: Seq<char>,
    capability: Seq<char>,
    name: Seq<char>,
    more: Seq<char>,
)
    requires
        forall|i: int| 0 <= i < index.len() ==> index[i] != ',',
        forall|i: int| 0 <= i < capability.len() ==> capability[i] != ',',
        forall|i: int| 0 <= i < name.len() ==> name[i] != ',',
        more.len() == 0 || more[0] == ',',
    ensures
        ({
            let device = device_in_row(
                index.push(',') + (capability.push(',') + (name + more)),
            );
            let number = unsigned_number(trimmed(index));
            let backend = if trimmed(capability) == seq!['8', '.', '6'] {
                Some(TariMinerBackend::Sm86)
            } else if trimmed(capability) == seq!['8', '.', '9'] {
                Some(TariMinerBackend::Sm89)
            } else if trimmed(capability) == seq!['1', '2', '.', '0'] {
                Some(TariMinerBackend::Sm120)
            } else {
                None
            };
            &&& device is Some <==> number is Some && backend is Some
            &&& device matches Some(d) ==> {
                &&& number == Some(d.common.device_id)
                &&& backend == Some(d.backend)
                &&& d.common.name == trimmed(name)
            }
        }),
{
    let last = name + more;
    law_fields_end_at_separators(index, ',', capability.push(',') + last);
    law_fields_end_at_separators(capability, ',', last);
    if more.len() == 0 {
        assert(last == name);
        law_fields_end_at_separators(name, ',', name);
    } else {
        assert(last == name.push(',') + more.skip(1));
        law_fields_end_at_separators(name, ',', more.skip(1));
    }
    let columns = fields_of(index.push(',') + (capability.push(',') + last), ',');
    assert(fields_of(last, ',').len() >= 1 && fields_of(last, ',')[0] == name);
    assert(columns[0] == index);
    assert(columns[1] == capability);
    assert(columns[2] == name);
    law_backend_needs_its_capability(capability);
}

/// A row with fewer than three columns gives no device.
pub proof fn law_short_row_gives_no_device(first: Seq<char>, second: Seq<char>)
    requires
        forall|i: int| 0 <= i < first.len() ==> first[i] != ',',
        forall|i: int| 0 <= i < second.len() ==> second[i] != ',',
    ensures
        device_in_row(first) is None,
        device_in_row(first.push(',') + second) is None,
{
    law_fields_end_at_separators(first, ',', second);
    law_fields_end_at_separators(second, ',', second);
    assert(fields_of(first.push(',') + second, ',').len() == 2);
}

/// An output gives the devices of its rows and no others, in the order of the rows.
pub proof fn law_output_gives_the_devices_of_its_rows(row: Seq<char>, rest: Seq<char>)
    requires
        forall|i: int| 0 <= i < row.len() ==> row[i] != '\n',
    ensures
        devices_in_output(Seq::<char>::empty()) == Seq::<TariMinerDeviceView>::empty(),
        match device_in_row(row) {
            Some(device) => {
                &&& devices_in_output(row) == seq![device]
                &&& devices_in_output(row.push('\n') + rest) == seq![device] + devices_in_output(
                    rest,
                )
            },
            None => {
                &&& devices_in_output(row) == Seq::<TariMinerDeviceView>::empty()
                &&& devices_in_output(row.push('\n') + rest) == devices_in_output(rest)
            },
        },
{
    reveal_with_fuel(devices_in_rows, 2);
    law_rows_are_read_one_by_one(row, rest);
    law_row_ignores_carriage_return(row);
    lemma_position_is(row, '\n', row.len() as int);
    let none = Seq::<TariMinerDeviceView>::empty();
    assert(none + devices_in_output(rest) =~= devices_in_output(rest));
    if row.len() > 0 {
        assert(lines_of(row).skip(1) == Seq::<Seq<char>>::empty());
        assert(match device_in_row(row) {
            Some(device) => seq![device] + none =~= seq![device],
            None => none + none =~= none,
        });
    } else {
        law_short_row_gives_no_device(row, row);
    }
}

/// The device to mine with is the first one whose id is not excluded. There is an error only where
/// there are no devices, or every one of them is excluded.
pub proof fn law_first_allowed_device_is_mined_with(
    devices: Seq<TariMinerDeviceView>,
    excluded: Seq<u32>,
)
    ensures
        devices.len() == 0 <==> device_selection(devices, excluded) == Err::<
            TariMinerDeviceView,
            MiningError,
        >(MiningError::NoCompatibleDevices),
        devices.len() > 0 && (forall|j: int|
            0 <= j < devices.len() ==> excluded.contains((#[trigger] devices[j]).common.device_id))
            <==> device_selection(devices, excluded) == Err::<TariMinerDeviceView, MiningError>(
            MiningError::AllDevicesExcluded,
        ),
        forall|i: int|
            #![trigger devices[i]]
            0 <= i < devices.len() && !excluded.contains(devices[i].common.device_id) && (forall|
                j: int,
            |
                0 <= j < i ==> excluded.contains((#[trigger] devices[j]).common.device_id))
                ==> device_selection(devices, excluded) == Ok::<TariMinerDeviceView, MiningError>(
                devices[i],
            ),
        device_selection(devices, excluded) is Ok <==> exists|i: int|
            0 <= i < devices.len() && !excluded.contains(
                (#[trigger] devices[i]).common.device_id,
            ),
{
    law_first_allowed_device_is_selected(devices, excluded);
    assert forall|i: int|
        #![trigger devices[i]]
        0 <= i < devices.len() && !excluded.contains(devices[i].common.device_id) && (forall|j: int|
            0 <= j < i ==> excluded.contains(
                (#[trigger] devices[j]).common.device_id,
            )) implies device_selection(devices, excluded) == Ok::<TariMinerDeviceView, MiningError>(
        devices[i],
    ) by {
        let device = first_allowed(devices, excluded)->0;
        assert(first_allowed(devices, excluded) is Some);
        let k = choose|k: int|
            {
                &&& 0 <= k < devices.len()
                &&& #[trigger] devices[k] == device
                &&& !excluded.contains(device.common.device_id)
                &&& forall|j: int|
                    0 <= j < k ==> excluded.contains((#[trigger] devices[j]).common.device_id)
            };
        if k < i {
            assert(excluded.contains(devices[k].common.device_id));
        } else if i < k {
            assert(excluded.contains(devices[i].common.device_id));
        }
    }
}

/// A worker name is split after its first character exactly where that is a dot or a slash, and
/// the parts are the name.
pub proof fn law_separator_is_a_leading_dot_or_slash(name: Seq<char>)
    ensures
        login_separator(name) is Some <==> name.len() > 0 && (name[0] == '.' || name[0] == '/'),
        match login_separator(name) {
            Some(separator) => separator == seq![name[0]] && separator + worker_without_separator(
                name,
            ) == name,
            None => worker_without_separator(name) == name,
        },
{
    if name.len() > 0 {
        assert(name.take(1) == seq![name[0]]);
        assert(name.take(1) + name.skip(1) == name);
    }
}

/// What is resolved is what was published, and the backend of the RTX 30 series where nothing can
/// be read.
pub proof fn law_published_backend_is_resolved(backend: TariMinerBackend)
    ensures
        resolved_backend(Some(backend)) == backend,
        resolved_backend(None) == TariMinerBackend::Sm86,
{
}

/// The contents of devices are the devices' own, one by one and in order.
pub proof fn law_device_contents_are_those_of_the_devices(devices: Seq<TariMinerDevice>, i: int)
    requires
        0 <= i < devices.len(),
    ensures
        device_contents(devices).len() == devices.len(),
        device_contents(devices)[i].common.name == devices[i].common.name@,
        device_contents(devices)[i].common.device_id == devices[i].common.device_id,
        device_contents(devices)[i].backend == devices[i].backend,
{
}

} // verus!
