//! Read-only catalogue of sound presets and audio output devices.
//!
//! Presets are known by name, in the order in which they were loaded. Devices
//! are a snapshot of what the audio host reported; a device is addressed by
//! its reported name in lower case.

use vstd::prelude::*;
use crate::text::{lowercase, to_lowercase};

verus! {

/// An audio output of the system, as listed in a snapshot.
#[derive(Clone, Debug, PartialEq, Eq)]
pub struct OutputDevice {
    /// The name as the host reported it, shown to the user.
    pub label: String,
    /// The name by which the device is selected: `label` in lower case.
    pub name: String,
}

/// Mathematical value of an [`OutputDevice`].
pub struct OutputDeviceView {
    pub label: Seq<char>,
    pub name: Seq<char>,
}

impl View for OutputDevice {
    type V = OutputDeviceView;

    open spec fn view(&self) -> OutputDeviceView {
        OutputDeviceView { label: self.label@, name: self.name@ }
    }
}

/// The texts of a list of strings.
pub open spec fn texts(names: Seq<String>) -> Seq<Seq<char>> {
    names.map_values(|name: String| name@)
}

/// The values of a list of devices.
pub open spec fn device_views(devices: Seq<OutputDevice>) -> Seq<OutputDeviceView> {
    devices.map_values(|device: OutputDevice| device@)
}

/// Name of the device to fall back on when the host reports no default output.
pub open spec fn fallback_device_name() -> Seq<char> {
    "default"@
}

/// Whether some device of the snapshot is selected by `name`.
pub open spec fn device_listed(devices: Seq<OutputDeviceView>, name: Seq<char>) -> bool {
    exists|i: int| 0 <= i < devices.len() && (#[trigger] devices[i]).name == name
}

/// Position of the first preset called `name`, if there is one.
pub fn find_preset(presets: &Vec<String>, name: &str) -> (found: Option<usize>)
    ensures
        match found {
            Some(i) => {
                &&& i < presets.len()
                &&& presets[i as int]@ == name@
                &&& forall|j: int| 0 <= j < i ==> presets[j]@ != name@
                &&& texts(presets@).index_of_first(name@) == Some(i as int)
            },
            None => {
                &&& forall|j: int| 0 <= j < presets.len() ==> presets[j]@ != name@
                &&& texts(presets@).index_of_first(name@) == None::<int>
            },
        },
{
    let wanted = name.to_owned();
    let mut i: usize = 0;
    while i < presets.len()
        invariant
            i <= presets.len(),
            wanted@ == name@,
            forall|j: int| 0 <= j < i ==> texts(presets@)[j] != name@,
        decreases presets.len() - i,
    {
        if presets[i] == wanted {
            proof {
                assert(texts(presets@)[i as int] == name@);
                texts(presets@).index_of_first_ensures(name@);
                assert forall|j: int| 0 <= j < i implies presets[j]@ != name@ by {
                    assert(texts(presets@)[j] != name@);
                }
            }
            return Some(i);
        }
        i += 1;
    }
    proof {
        texts(presets@).index_of_first_ensures(name@);
        assert forall|j: int| 0 <= j < presets.len() implies presets[j]@ != name@ by {
            assert(texts(presets@)[j] != name@);
        }
    }
    None
}

/// The device that the host reports under the name `reported`: shown under
/// that name, selected by it in lower case.
pub open spec fn device_of(reported: Seq<char>) -> OutputDeviceView {
    OutputDeviceView { label: reported, name: lowercase(reported) }
}

/// The devices among `names` whose name could be read, in the same order.
pub open spec fn readable_devices(names: Seq<Option<String>>) -> Seq<OutputDeviceView>
    decreases names.len(),
{
    if names.len() == 0 {
        Seq::empty()
    } else {
        match names.last() {
            Some(name) => readable_devices(names.drop_last()).push(device_of(name@)),
            None => readable_devices(names.drop_last()),
        }
    }
}

/// The snapshot that a report of the host amounts to: no device where the
/// host could not list its outputs, else the outputs whose name could be
/// read.
pub open spec fn snapshot_of(reported: Option<Vec<Option<String>>>) -> Seq<OutputDeviceView> {
    match reported {
        Some(names) => readable_devices(names@),
        None => Seq::empty(),
    }
}

/// The snapshot of the devices that the host reported. `reported` is nothing
/// where the host could not list its outputs, and else holds, for each
/// output in the host's order, its name or nothing where the name could not
/// be read. An output without a name is left out, since nothing can select
/// it; a host that cannot list has no devices.
pub fn list_devices(reported: Option<Vec<Option<String>>>) -> (devices: Vec<OutputDevice>)
    ensures
        device_views(devices@) == snapshot_of(reported),
{
    let mut devices: Vec<OutputDevice> = Vec::new();
    match &reported {
        None => {
            assert(device_views(devices@) =~= Seq::<OutputDeviceView>::empty());
        },
        Some(names) => {
            let mut i: usize = 0;
            assert(names@.take(0) =~= Seq::<Option<String>>::empty());
            assert(device_views(devices@) =~= readable_devices(names@.take(0)));
            while i < names.len()
                invariant
                    i <= names.len(),
                    device_views(devices@) == readable_devices(names@.take(i as int)),
                decreases names.len() - i,
            {
                proof {
                    assert(names@.take(i + 1).drop_last() =~= names@.take(i as int));
                    assert(names@.take(i + 1).last() == names@[i as int]);
                }
                let ghost before = devices@;
                match &names[i] {
                    Some(name) => {
                        let label = name.clone();
                        let selected = to_lowercase(name.as_str());
                        devices.push(OutputDevice { label, name: selected });
                        assert(device_views(devices@) =~= device_views(before).push(
                            device_of(name@),
                        ));
                    },
                    None => {},
                }
                i += 1;
            }
            assert(names@.take(names.len() as int) =~= names@);
        },
    }
    devices
}

/// Whether the snapshot holds a device that is selected by `device_name`.
pub fn device_exists(devices: &Vec<OutputDevice>, device_name: &str) -> (exists_now: bool)
    ensures
        exists_now == device_listed(device_views(devices@), device_name@),
{
    let wanted = device_name.to_owned();
    let mut i: usize = 0;
    while i < devices.len()
        invariant
            i <= devices.len(),
            wanted@ == device_name@,
            forall|j: int| 0 <= j < i ==> (#[trigger] device_views(devices@)[j]).name != device_name@,
        decreases devices.len() - i,
    {
        if devices[i].name == wanted {
            assert(device_views(devices@)[i as int].name == device_name@);
            return true;
        }
        i += 1;
    }
    false
}

/// The device name to use where none was chosen: `selected`, the selecting
/// name of the host's default output, or `"default"` without one.
pub fn default_device_or_fallback(selected: Option<String>) -> (name: String)
    ensures
        name@ == (match selected {
            Some(reported) => reported@,
            None => fallback_device_name(),
        }),
{
    match selected {
        Some(reported) => reported,
        None => "default".to_owned(),
    }
}

/// Name of the current default output device. `default_device` is nothing
/// where the host has no default output, and else holds its name or nothing
/// where the name could not be read. The name is taken in lower case; without
/// an output or without a name it is `"default"`.
pub fn resolve_default_device_name(default_device: Option<Option<String>>) -> (name: String)
    ensures
        name@ == (match default_device {
            Some(Some(reported)) => lowercase(reported@),
            _ => fallback_device_name(),
        }),
{
    match default_device {
        Some(Some(reported)) => default_device_or_fallback(Some(to_lowercase(reported.as_str()))),
        _ => default_device_or_fallback(None),
    }
}

} // verus!
