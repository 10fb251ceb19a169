//! Audio output devices.
use crate::text;
use vstd::prelude::*;

verus! {

/// What kind of device it is.
#[derive(Clone, Copy, Debug, PartialEq, Eq, Structural)]
pub enum DeviceType {
    Speaker,
    Microphone,
    Headphones,
    Headset,
    Earpiece,
    Handset,
    HearingAid,
    Dock,
    Tuner,
    Virtual,
    Unknown,
}

/// How a device is connected.
#[derive(Clone, Copy, Debug, PartialEq, Eq, Structural)]
pub enum InterfaceType {
    BuiltIn,
    Usb,
    Bluetooth,
    Pci,
    FireWire,
    Thunderbolt,
    Hdmi,
    Line,
    Spdif,
    Network,
    Virtual,
    DisplayPort,
    Aggregate,
    Unknown,
}

/// Which way sound goes through a device.
#[derive(Clone, Copy, Debug, PartialEq, Eq, Structural)]
pub enum DeviceDirection {
    Input,
    Output,
    Duplex,
    Unknown,
}

/// What a device says of itself.
#[derive(Debug)]
pub struct DeviceDescription {
    pub name: String,
    pub manufacturer: Option<String>,
    pub driver: Option<String>,
    pub device_type: DeviceType,
    pub interface_type: InterfaceType,
    pub direction: DeviceDirection,
    pub address: Option<String>,
    /// Further details, written as one text.
    pub extended: String,
}

/// A device of the sound system, found there by its `id`. A device that cannot
/// be asked for its description has the text of the error in its place.
#[derive(Debug)]
pub struct Device {
    pub id: usize,
    pub description: Result<DeviceDescription, String>,
}

/// The text, if there is one.
pub open spec fn text_view(s: Option<String>) -> Option<Seq<char>> {
    match s {
        Some(s) => Some(s@),
        None => None,
    }
}

fn same_optional_text(a: &Option<String>, b: &Option<String>) -> (r: bool)
    ensures
        r == (text_view(*a) == text_view(*b)),
{
    match (a, b) {
        (Some(a), Some(b)) => text::same_text(a.as_str(), b.as_str()),
        (None, None) => true,
        _ => false,
    }
}

fn copy_optional_text(s: &Option<String>) -> (r: Option<String>)
    ensures
        r == *s,
{
    match s {
        Some(s) => Some(s.clone()),
        None => None,
    }
}

/// Two descriptions say the same.
pub open spec fn same_description(a: DeviceDescription, b: DeviceDescription) -> bool {
    &&& a.name@ == b.name@
    &&& text_view(a.manufacturer) == text_view(b.manufacturer)
    &&& text_view(a.driver) == text_view(b.driver)
    &&& a.device_type == b.device_type
    &&& a.interface_type == b.interface_type
    &&& a.direction == b.direction
    &&& text_view(a.address) == text_view(b.address)
    &&& a.extended@ == b.extended@
}

/// Two devices are described alike.
pub open spec fn described_alike(a: Device, b: Device) -> bool {
    match (a.description, b.description) {
        (Ok(a), Ok(b)) => same_description(a, b),
        (Err(a), Err(b)) => a@ == b@,
        _ => false,
    }
}

impl Device {
    /// Whether two devices are described alike.
    pub fn is_described_like(&self, other: &Device) -> (r: bool)
        ensures
            r == described_alike(*self, *other),
    {
        match (&self.description, &other.description) {
            (Ok(a), Ok(b)) => {
                text::same_text(a.name.as_str(), b.name.as_str()) && same_optional_text(
                    &a.manufacturer,
                    &b.manufacturer,
                ) && same_optional_text(&a.driver, &b.driver) && a.device_type == b.device_type
                    && a.interface_type == b.interface_type && a.direction == b.direction
                    && same_optional_text(&a.address, &b.address) && text::same_text(
                    a.extended.as_str(),
                    b.extended.as_str(),
                )
            },
            (Err(a), Err(b)) => text::same_text(a.as_str(), b.as_str()),
            _ => false,
        }
    }
}

impl Clone for Device {
    fn clone(&self) -> (r: Self)
        ensures
            r == *self,
    {
        let description = match &self.description {
            Ok(d) => Ok(
                DeviceDescription {
                    name: d.name.clone(),
                    manufacturer: copy_optional_text(&d.manufacturer),
                    driver: copy_optional_text(&d.driver),
                    device_type: d.device_type,
                    interface_type: d.interface_type,
                    direction: d.direction,
                    address: copy_optional_text(&d.address),
                    extended: d.extended.clone(),
                },
            ),
            Err(e) => Err(e.clone()),
        };
        Device { id: self.id, description }
    }
}

/// A device that the sound system lists, and whether it can play sound.
#[derive(Debug)]
pub struct ListedDevice {
    pub device: Device,
    pub supports_output: bool,
}

/// The devices to choose from, the one in use, and the names to show.
#[derive(Debug)]
pub struct AvailableDevices {
    pub output_devices: Vec<Device>,
    pub current_device: usize,
    pub names: Vec<String>,
}

/// The name to show for the device at place `i`. The first one is the default.
pub open spec fn shown_name(i: int, device: Device) -> Seq<char> {
    match device.description {
        Ok(description) => if i == 0 {
            "Default Device"@
        } else {
            description.name@
        },
        Err(_) => "Unknown"@,
    }
}

/// The listed devices that can play sound.
pub open spec fn able_to_play(listed: Seq<ListedDevice>) -> Seq<Device> {
    listed.filter(|l: ListedDevice| l.supports_output).map_values(|l: ListedDevice| l.device)
}

/// The default device, if there is one, and then the listed devices that can
/// play sound.
pub open spec fn choices(default_device: Option<Device>, listed: Seq<ListedDevice>) -> Seq<Device> {
    match default_device {
        Some(device) => seq![device] + able_to_play(listed),
        None => able_to_play(listed),
    }
}

impl AvailableDevices {
    /// A name is there for each device.
    pub open spec fn well_formed(self) -> bool {
        &&& self.names@.len() == self.output_devices@.len()
        &&& forall|i: int|
            0 <= i < self.names@.len() ==> (#[trigger] self.names@[i])@ == shown_name(
                i,
                self.output_devices@[i],
            )
    }

    /// The devices with their names, the first one in use.
    pub fn new(output_devices: Vec<Device>) -> (r: AvailableDevices)
        ensures
            r.output_devices == output_devices,
            r.current_device == 0,
            r.well_formed(),
    {
        let names = AvailableDevices::names(&output_devices);
        AvailableDevices { output_devices, current_device: 0, names }
    }

    pub fn is_empty(&self) -> (r: bool)
        ensures
            r == (self.output_devices@.len() == 0),
    {
        self.output_devices.len() == 0
    }

    /// The names to show for devices.
    pub fn names(output_devices: &Vec<Device>) -> (names: Vec<String>)
        ensures
            names@.len() == output_devices@.len(),
            forall|i: int|
                0 <= i < names@.len() ==> (#[trigger] names@[i])@ == shown_name(
                    i,
                    output_devices@[i],
                ),
    {
        let mut names: Vec<String> = Vec::new();
        let mut i: usize = 0;
        while i < output_devices.len()
            invariant
                i <= output_devices@.len(),
                names@.len() == i,
                forall|j: int|
                    0 <= j < i ==> (#[trigger] names@[j])@ == shown_name(j, output_devices@[j]),
            decreases output_devices@.len() - i,
        {
            match &output_devices[i].description {
                Ok(description) => {
                    if i == 0 {
                        names.push("Default Device".to_owned());
                    } else {
                        names.push(description.name.clone());
                    }
                },
                Err(_) => names.push("Unknown".to_owned()),
            }
            i = i + 1;
        }
        names
    }

    /// The devices that sound can be played on: the default device, if there is
    /// one, and then the listed ones that can play.
    pub fn get_devices(default_device: Option<Device>, listed: Vec<ListedDevice>) -> (r:
        AvailableDevices)
        ensures
            r.output_devices@ == choices(default_device, listed@),
            r.current_device == 0,
            r.well_formed(),
    {
        let mut devices: Vec<Device> = Vec::new();
        let ghost first = choices(default_device, Seq::empty());
        if let Some(device) = default_device {
            devices.push(device);
        }
        let mut i: usize = 0;
        proof {
            assert(listed@.take(0) =~= Seq::empty());
            assert(able_to_play(Seq::empty()) =~= Seq::empty());
            assert(devices@ =~= first + able_to_play(listed@.take(0)));
        }
        while i < listed.len()
            invariant
                i <= listed@.len(),
                devices@ == first + able_to_play(listed@.take(i as int)),
            decreases listed@.len() - i,
        {
            if listed[i].supports_output {
                devices.push(listed[i].device.clone());
            }
            proof {
                let before = listed@.take(i as int);
                let after = listed@.take(i + 1);
                assert(after.drop_last() =~= before);
                reveal(Seq::filter);
                let able = |l: ListedDevice| l.supports_output;
                if listed@[i as int].supports_output {
                    assert(after.filter(able) == before.filter(able).push(listed@[i as int]));
                    assert(able_to_play(after) =~= able_to_play(before).push(
                        listed@[i as int].device,
                    ));
                }
                assert(devices@ =~= first + able_to_play(after));
            }
            i = i + 1;
        }
        proof {
            assert(listed@.take(i as int) =~= listed@);
            assert(devices@ =~= choices(default_device, listed@));
        }
        AvailableDevices::new(devices)
    }

    /// `i` is the place of the first device that is described like `device`, or 0
    /// if there is none.
    pub open spec fn is_place_of(self, device: Device, i: int) -> bool {
        let devices = self.output_devices@;
        ||| {
            &&& 0 <= i < devices.len()
            &&& described_alike(devices[i], device)
            &&& forall|j: int| 0 <= j < i ==> !described_alike(#[trigger] devices[j], device)
        }
        ||| {
            &&& i == 0
            &&& forall|j: int| 0 <= j < devices.len() ==> !described_alike(
                #[trigger] devices[j],
                device,
            )
        }
    }

    /// The place of the first device that is described like `device`, or 0 if
    /// there is none.
    pub fn place_of(&self, device: &Device) -> (r: usize)
        ensures
            self.is_place_of(*device, r as int),
    {
        let mut i: usize = 0;
        while i < self.output_devices.len()
            invariant
                i <= self.output_devices@.len(),
                forall|j: int|
                    0 <= j < i ==> !described_alike(
                        #[trigger] self.output_devices@[j],
                        *device,
                    ),
            decreases self.output_devices@.len() - i,
        {
            if self.output_devices[i].is_described_like(device) {
                return i;
            }
            i = i + 1;
        }
        0
    }
}

} // verus!
