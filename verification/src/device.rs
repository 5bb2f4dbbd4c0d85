//! Device descriptors and the pure decisions of device enumeration.
//!
//! The backend enumerates the hardware; the core only decides: which
//! devices take part, which one is the default, and where an identifier
//! lands in a list.

use vstd::prelude::*;

verus! {

/// Which direction a backend device carries audio in.
///
/// Loopback capture listens on an output device's monitor, so a session may
/// select either kind; a device that offers both directions is `Both`.
#[derive(Debug, Clone, Copy, PartialEq, Eq, Structural)]
pub enum DeviceSource {
    Input,
    Output,
    Both,
}

/// An audio device as the session sees it: a human-readable name and the
/// backend's stable numeric identifier for the device.
///
/// The backend enumerates devices and hands the core one `Device` per entry;
/// the core never talks to the hardware itself.
#[derive(Debug, Clone)]
pub struct Device {
    name: String,
    index: u32,
}

impl Device {
    /// The device's name, as spoken of in contracts.
    pub closed spec fn spec_name(&self) -> Seq<char> {
        self.name@
    }

    /// The backend's identifier, as spoken of in contracts.
    pub closed spec fn spec_index(&self) -> u32 {
        self.index
    }

    pub fn new(name: String, index: u32) -> (d: Device)
        ensures
            d.spec_name() == name@,
            d.spec_index() == index,
    {
        Device { name, index }
    }

    /// Gets the device's name.
    pub fn name(&self) -> (r: &str)
        ensures
            r@ == self.spec_name(),
    {
        self.name.as_str()
    }

    /// An owned copy of the device's name.
    pub fn name_owned(&self) -> (r: String)
        ensures
            r@ == self.spec_name(),
    {
        self.name.clone()
    }

    /// The backend's identifier for this device.
    pub fn index(&self) -> (r: u32)
        ensures
            r == self.spec_index(),
    {
        self.index
    }
}

/// True when a list of devices carries no backend identifier twice. Backend
/// identifiers are stable per enumeration, so a well-formed enumeration
/// satisfies this.
pub open spec fn indices_distinct(devices: Seq<Device>) -> bool {
    forall|i: int, j: int|
        0 <= i < j < devices.len() ==> devices[i].spec_index() != devices[j].spec_index()
}

/// The decision made for each enumerated device: only devices whose default
/// configuration carries two channels of 32-bit float samples take part in
/// the tap.
pub fn device_accepted(channels: u16, sample_format_is_float: bool) -> (r: bool)
    ensures
        r == (channels == 2 && sample_format_is_float),
{
    channels == 2 && sample_format_is_float
}

/// Classifies a device by the configuration that was found for it: a device
/// with a default input configuration is a capture source, any other accepted
/// device is an output tapped through its monitor.
pub fn classify_source(has_input_config: bool) -> (r: DeviceSource)
    ensures
        r == (if has_input_config {
            DeviceSource::Input
        } else {
            DeviceSource::Output
        }),
{
    if has_input_config {
        DeviceSource::Input
    } else {
        DeviceSource::Output
    }
}

/// Moves the default device to the front of an enumeration, so that position
/// zero always names the device a fresh session starts on. An out-of-range
/// default leaves the list as it was.
pub fn order_devices(devices: Vec<Device>, default_index: Option<usize>) -> (r: Vec<Device>)
    ensures
        match default_index {
            Some(j) if j < devices@.len() => r@ == devices@.update(0, devices@[j as int]).update(
                j as int,
                devices@[0],
            ),
            _ => r@ == devices@,
        },
{
    let ghost orig = devices@;
    let mut devices = devices;
    match default_index {
        Some(j) => {
            if j < devices.len() {
                let first = devices.remove(0);
                if j == 0 {
                    devices.insert(0, first);
                    assert(devices@ =~= orig.update(0, orig[0]).update(0, orig[0]));
                } else {
                    let chosen = devices.remove(j - 1);
                    devices.insert(j - 1, first);
                    devices.insert(0, chosen);
                    assert(devices@ =~= orig.update(0, orig[j as int]).update(j as int, orig[0]));
                }
            }
        },
        None => {},
    }
    devices
}

/// The first position at which a device carries the given backend
/// identifier, or `-1` when none does.
pub open spec fn device_position(devices: Seq<Device>, index: u32) -> int
    decreases devices.len(),
{
    if devices.len() == 0 {
        -1
    } else if devices[0].spec_index() == index {
        0
    } else {
        let rest = device_position(devices.drop_first(), index);
        if rest == -1 {
            -1
        } else {
            rest + 1
        }
    }
}

/// What `device_position` finds is a position, carries the identifier, and is
/// the first to do so; `-1` means no position carries it.
pub proof fn lemma_device_position(devices: Seq<Device>, index: u32)
    ensures
        device_position(devices, index) == -1 ==> forall|k: int|
            0 <= k < devices.len() ==> devices[k].spec_index() != index,
        device_position(devices, index) != -1 ==> {
            &&& 0 <= device_position(devices, index) < devices.len()
            &&& devices[device_position(devices, index)].spec_index() == index
            &&& forall|k: int|
                0 <= k < device_position(devices, index) ==> devices[k].spec_index() != index
        },
    decreases devices.len(),
{
    if devices.len() > 0 && devices[0].spec_index() != index {
        lemma_device_position(devices.drop_first(), index);
        assert(forall|k: int|
            1 <= k < devices.len() ==> devices[k] == devices.drop_first()[k - 1]);
    }
}

/// The exact lookup: the first position holding the given backend
/// identifier, with no fallback.
pub fn position_of_index(devices: &Vec<Device>, index: u32) -> (r: Option<usize>)
    ensures
        match r {
            Some(i) => i == device_position(devices@, index),
            None => device_position(devices@, index) == -1,
        },
{
    proof {
        lemma_device_position(devices@, index);
    }
    let n = devices.len();
    let mut i: usize = 0;
    while i < n
        invariant
            n == devices@.len(),
            i <= n,
            forall|k: int| 0 <= k < i ==> devices@[k].spec_index() != index,
        decreases n - i,
    {
        if devices[i].index() == index {
            proof {
                lemma_position_from_witness(devices@, index, i as int);
            }
            return Some(i);
        }
        i += 1;
    }
    None
}

/// A found witness pins `device_position` down.
pub proof fn lemma_position_from_witness(devices: Seq<Device>, index: u32, i: int)
    requires
        0 <= i < devices.len(),
        devices[i].spec_index() == index,
        forall|k: int| 0 <= k < i ==> devices[k].spec_index() != index,
    ensures
        device_position(devices, index) == i,
    decreases devices.len(),
{
    if i > 0 {
        assert(devices.drop_first()[i - 1] == devices[i]);
        assert(forall|k: int|
            0 <= k < i - 1 ==> devices.drop_first()[k] == devices[k + 1]);
        lemma_position_from_witness(devices.drop_first(), index, i - 1);
    }
}

/// Resolves a backend identifier to a position in the device list, falling
/// back to the first device when the identifier is unknown but devices
/// exist. `None` only when the list is empty and nothing can be selected.
pub fn find_device_index(devices: &Vec<Device>, index: u32) -> (r: Option<usize>)
    ensures
        match r {
            Some(i) => devices@.len() > 0 && ({
                if device_position(devices@, index) != -1 {
                    i == device_position(devices@, index)
                } else {
                    i == 0
                }
            }),
            None => devices@.len() == 0,
        },
{
    match position_of_index(devices, index) {
        Some(i) => {
            proof {
                lemma_device_position(devices@, index);
            }
            Some(i)
        },
        None => {
            if devices.len() > 0 {
                Some(0)
            } else {
                None
            }
        },
    }
}

} // verus!
