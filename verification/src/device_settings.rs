//! Which GPU devices the user excluded from mining.
use std::collections::HashMap;
use vstd::prelude::*;
use vstd::std_specs::hash::*;

verus! {

broadcast use vstd::std_specs::hash::group_hash_axioms;

/// The settings of one device.
#[derive(Debug, Clone, Copy, PartialEq, Eq, Structural)]
pub struct GpuDeviceSettings {
    pub device_id: u32,
    pub is_excluded: bool,
}

impl Default for GpuDeviceSettings {
    fn default() -> (settings: Self)
        ensures
            settings == (GpuDeviceSettings { device_id: 0, is_excluded: false }),
    {
        GpuDeviceSettings { device_id: 0, is_excluded: false }
    }
}

/// The settings of the devices, by device id.
#[derive(Debug)]
pub struct GpuDevicesSettings(pub HashMap<u32, GpuDeviceSettings>);

impl View for GpuDevicesSettings {
    type V = Map<u32, GpuDeviceSettings>;

    open spec fn view(&self) -> Map<u32, GpuDeviceSettings> {
        self.0@
    }
}

/// Settings in which a device is known. One that is known already keeps its settings.
pub open spec fn with_device(
    settings: Map<u32, GpuDeviceSettings>,
    device_id: u32,
) -> Map<u32, GpuDeviceSettings> {
    if settings.contains_key(device_id) {
        settings
    } else {
        settings.insert(device_id, GpuDeviceSettings { device_id, is_excluded: false })
    }
}

/// Settings in which all the devices are known.
pub open spec fn with_devices(
    settings: Map<u32, GpuDeviceSettings>,
    device_ids: Seq<u32>,
) -> Map<u32, GpuDeviceSettings>
    decreases device_ids.len(),
{
    if device_ids.len() == 0 {
        settings
    } else {
        with_device(with_devices(settings, device_ids.drop_last()), device_ids.last())
    }
}

/// Settings in which a known device is excluded or not. A device that is not known stays unknown.
pub open spec fn with_exclusion(
    settings: Map<u32, GpuDeviceSettings>,
    device_id: u32,
    is_excluded: bool,
) -> Map<u32, GpuDeviceSettings> {
    if settings.contains_key(device_id) {
        settings.insert(device_id, GpuDeviceSettings { is_excluded, ..settings[device_id] })
    } else {
        settings
    }
}

/// Whether a device is known and excluded.
pub open spec fn excludes(settings: Map<u32, GpuDeviceSettings>, device_id: u32) -> bool {
    settings.contains_key(device_id) && settings[device_id].is_excluded
}

/// Whether every device is kept under its own id.
pub open spec fn kept_by_id(settings: Map<u32, GpuDeviceSettings>) -> bool {
    forall|id: u32| #[trigger]
        settings.contains_key(id) ==> settings[id].device_id == id
}

/// Adding devices makes exactly these known in addition: a device that was known keeps its
/// settings, and a new one is not excluded.
pub proof fn law_devices_are_added(settings: Map<u32, GpuDeviceSettings>, device_ids: Seq<u32>)
    ensures
        forall|id: u32|
            #![trigger with_devices(settings, device_ids).contains_key(id)]
            with_devices(settings, device_ids).contains_key(id) <==> settings.contains_key(id)
                || device_ids.contains(id),
        forall|id: u32| #[trigger]
            settings.contains_key(id) ==> with_devices(settings, device_ids)[id] == settings[id],
        forall|id: u32| #[trigger]
            device_ids.contains(id) && !settings.contains_key(id) ==> with_devices(
                settings,
                device_ids,
            )[id] == (GpuDeviceSettings { device_id: id, is_excluded: false }),
    decreases device_ids.len(),
{
    if device_ids.len() > 0 {
        let front = device_ids.drop_last();
        let last = device_ids.last();
        law_devices_are_added(settings, front);
        assert(device_ids == front.push(last));
        assert forall|id: u32| device_ids.contains(id) == (front.contains(id) || id == last) by {
            if front.contains(id) {
                let i = choose|i: int| 0 <= i < front.len() && front[i] == id;
                assert(device_ids[i] == id);
            }
            if id == last {
                assert(device_ids[device_ids.len() - 1] == id);
            }
            if device_ids.contains(id) && id != last {
                let i = choose|i: int| 0 <= i < device_ids.len() && device_ids[i] == id;
                assert(front[i] == id);
            }
        }
        assert(with_devices(settings, front).contains_key(last) <==> settings.contains_key(last)
            || front.contains(last));
    }
}

/// Adding devices again that were just added changes nothing, whatever their order and however
/// often each is listed.
pub proof fn law_adding_devices_again_changes_nothing(
    settings: Map<u32, GpuDeviceSettings>,
    device_ids: Seq<u32>,
    again: Seq<u32>,
)
    requires
        forall|id: u32| #[trigger] again.contains(id) ==> device_ids.contains(id),
    ensures
        with_devices(with_devices(settings, device_ids), again) == with_devices(
            settings,
            device_ids,
        ),
{
    let once = with_devices(settings, device_ids);
    let twice = with_devices(once, again);
    law_devices_are_added(settings, device_ids);
    law_devices_are_added(once, again);
    assert forall|id: u32| #[trigger] twice.contains_key(id) <==> once.contains_key(id) by {
        if again.contains(id) {
            assert(device_ids.contains(id));
        }
    }
    assert(twice =~= once);
}

/// Only which devices are listed matters: neither their order nor how often each is listed.
pub proof fn law_order_of_devices_does_not_matter(
    settings: Map<u32, GpuDeviceSettings>,
    a: Seq<u32>,
    b: Seq<u32>,
)
    requires
        forall|id: u32| a.contains(id) <==> b.contains(id),
    ensures
        with_devices(settings, a) == with_devices(settings, b),
{
    let left = with_devices(settings, a);
    let right = with_devices(settings, b);
    law_devices_are_added(settings, a);
    law_devices_are_added(settings, b);
    assert forall|id: u32| #[trigger] left.contains_key(id) <==> right.contains_key(id) by {
        assert(a.contains(id) <==> b.contains(id));
    }
    assert forall|id: u32| #[trigger] left.contains_key(id) implies left[id] == right[id] by {
        if !settings.contains_key(id) {
            assert(a.contains(id) && b.contains(id));
        }
    }
    assert(left =~= right);
}

/// An exclusion is undone by lifting it, and setting it concerns no other device.
pub proof fn law_exclusion_concerns_one_device(
    settings: Map<u32, GpuDeviceSettings>,
    device_id: u32,
    other: u32,
    is_excluded: bool,
)
    requires
        other != device_id,
    ensures
        excludes(with_exclusion(settings, device_id, is_excluded), device_id) == (
        settings.contains_key(device_id) && is_excluded),
        excludes(with_exclusion(settings, device_id, is_excluded), other) == excludes(
            settings,
            other,
        ),
        with_exclusion(with_exclusion(settings, device_id, true), device_id, false)
            == with_exclusion(settings, device_id, false),
{
    assert(with_exclusion(with_exclusion(settings, device_id, true), device_id, false)
        =~= with_exclusion(settings, device_id, false));
}

/// Every operation keeps each device under its own id.
pub proof fn law_devices_stay_under_their_ids(
    settings: Map<u32, GpuDeviceSettings>,
    device_ids: Seq<u32>,
    device_id: u32,
    is_excluded: bool,
)
    requires
        kept_by_id(settings),
    ensures
        kept_by_id(with_devices(settings, device_ids)),
        kept_by_id(with_exclusion(settings, device_id, is_excluded)),
        kept_by_id(Map::<u32, GpuDeviceSettings>::empty()),
{
    law_devices_are_added(settings, device_ids);
    let after = with_devices(settings, device_ids);
    assert forall|id: u32| #[trigger] after.contains_key(id) implies after[id].device_id == id by {
        if !settings.contains_key(id) {
            assert(device_ids.contains(id));
        }
    }
}

impl GpuDevicesSettings {
    /// Settings that know no device.
    pub fn new() -> (settings: Self)
        ensures
            settings@ == Map::<u32, GpuDeviceSettings>::empty(),
    {
        GpuDevicesSettings(HashMap::new())
    }

    /// Makes a device known. One that is known already keeps its settings.
    pub fn add(&mut self, device_id: u32)
        ensures
            final(self)@ == with_device(old(self)@, device_id),
    {
        self.0.entry(device_id).or_insert(GpuDeviceSettings { device_id, is_excluded: false });
        assert(self@ =~= with_device(old(self)@, device_id));
    }

    /// Excludes a known device, or lifts its exclusion.
    pub fn set_excluded(&mut self, device_id: u32, is_excluded: bool)
        ensures
            final(self)@ == with_exclusion(old(self)@, device_id, is_excluded),
    {
        let known: Option<GpuDeviceSettings> = match self.0.get(&device_id) {
            Some(settings) => Some(*settings),
            None => None,
        };
        match known {
            Some(settings) => {
                self.0.insert(
                    device_id,
                    GpuDeviceSettings { device_id: settings.device_id, is_excluded },
                );
            },
            None => {},
        }
    }

    /// The ids of the excluded devices, each once.
    pub fn excluded_ids(&self) -> (ids: Vec<u32>)
        ensures
            ids@.no_duplicates(),
            forall|id: u32| #[trigger] ids@.contains(id) <==> excludes(self@, id),
    {
        let mut ids: Vec<u32> = Vec::new();
        let ghost mut seen: Seq<u32> = seq![];
        let ghost keys = vstd::std_specs::iter::IteratorSpec::remaining(&spec_keys_iter(&self.0)).unref();
        for device_id in it: self.0.keys()
            invariant
                it.seq().no_duplicates(),
                it.seq().unref() == keys,
                it.seq().len() == keys.len(),
                keys.to_set() == self@.dom(),
                seen.len() == it.index(),
                forall|i: int| 0 <= i < seen.len() ==> seen[i] == *it.seq()[i],
                ids@.no_duplicates(),
                forall|id: u32| #[trigger]
                    ids@.contains(id) <==> excludes(self@, id) && seen.contains(id),
        {
            let ghost before = ids@;
            proof {
                assert(keys.contains(keys[it.index() as int]));
                assert(self@.dom().contains(*device_id));
                assert(!seen.contains(*device_id));
                assert(!before.contains(*device_id));
            }
            let excluded = match self.0.get(device_id) {
                Some(settings) => settings.is_excluded,
                None => false,
            };
            if excluded {
                ids.push(*device_id);
            }
            proof {
                let now = seen.push(*device_id);
                assert forall|id: u32| #[trigger] now.contains(id) <==> seen.contains(id) || id
                    == *device_id by {
                    if seen.contains(id) {
                        let i = choose|i: int| 0 <= i < seen.len() && seen[i] == id;
                        assert(now[i] == id);
                    }
                    assert(now[seen.len() as int] == *device_id);
                }
                assert forall|id: u32| #[trigger] ids@.contains(id) <==> excludes(self@, id)
                    && now.contains(id) by {
                    assert(before.contains(id) <==> excludes(self@, id) && seen.contains(id));
                    if before.contains(id) {
                        let i = choose|i: int| 0 <= i < before.len() && before[i] == id;
                        assert(ids@[i] == id);
                    }
                    if excluded {
                        assert(ids@[before.len() as int] == *device_id);
                    }
                }
                seen = now;
            }
        }
        assert forall|id: u32| #[trigger] ids@.contains(id) <==> excludes(self@, id) by {
            if excludes(self@, id) {
                assert(self@.dom().contains(id));
                let i = choose|i: int| 0 <= i < keys.len() && keys[i] == id;
                assert(seen[i] == id);
            }
        }
        ids
    }
}

impl Clone for GpuDevicesSettings {
    fn clone(&self) -> (copy: Self)
        ensures
            copy@ == self@,
    {
        GpuDevicesSettings(self.0.clone())
    }
}

} // verus!
