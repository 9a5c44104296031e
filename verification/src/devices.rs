//! Names of audio devices, and finding a device by its name.
use crate::config::texts;
use vstd::prelude::*;

verus! {

/// What the audio system tells about a device.
#[derive(Debug, PartialEq, Eq)]
pub struct DeviceDescription {
    /// The name of the device's role, such as "Microphone"; many devices may share it.
    pub name: String,
    /// Further lines; the first is the name that the user knows the device by.
    pub extended: Vec<String>,
}

/// The name a device is shown and looked up by: the user's name for it, or that of
/// its role where there is none.
pub open spec fn display_name(description: DeviceDescription) -> Seq<char> {
    if description.extended@.len() > 0 {
        description.extended@[0]@
    } else {
        description.name@
    }
}

/// The name a device is shown and looked up by.
pub fn device_display_name(description: &DeviceDescription) -> (name: String)
    ensures
        name@ == display_name(*description),
{
    if description.extended.len() > 0 {
        description.extended[0].clone()
    } else {
        description.name.clone()
    }
}

/// The names of the devices that could be described, in order.
pub open spec fn described_names(devices: Seq<Option<DeviceDescription>>) -> Seq<Seq<char>>
    decreases devices.len(),
{
    if devices.len() == 0 {
        Seq::empty()
    } else {
        let front = described_names(devices.drop_last());
        match devices.last() {
            Some(description) => front.push(display_name(description)),
            None => front,
        }
    }
}

/// The names of the devices that could be described. A device whose description
/// could not be had is left out.
pub fn device_names(devices: &Vec<Option<DeviceDescription>>) -> (names: Vec<String>)
    ensures
        texts(names@) == described_names(devices@),
{
    let mut names: Vec<String> = Vec::new();
    let mut i: usize = 0;
    assert(texts(names@) =~= described_names(devices@.take(0)));
    while i < devices.len()
        invariant
            i <= devices.len(),
            texts(names@) == described_names(devices@.take(i as int)),
        decreases devices.len() - i,
    {
        let ghost before: Seq<String> = names@;
        match &devices[i] {
            Some(description) => {
                names.push(device_display_name(description));
                assert(texts(names@) =~= texts(before).push(names@.last()@));
            },
            None => {},
        }
        assert(devices@.take(i + 1).drop_last() =~= devices@.take(i as int));
        i += 1;
    }
    assert(devices@.take(devices@.len() as int) =~= devices@);
    names
}

/// Whether a device goes by a name. One that could not be described goes by none.
pub open spec fn goes_by(device: Option<DeviceDescription>, name: Seq<char>) -> bool {
    device matches Some(description) && display_name(description) == name
}

/// Whether any device goes by a name.
pub open spec fn any_goes_by(devices: Seq<Option<DeviceDescription>>, name: Seq<char>) -> bool {
    exists|i: int| 0 <= i < devices.len() && goes_by(#[trigger] devices[i], name)
}

/// Finds the first device that goes by exactly the given name.
pub fn find_device(devices: &Vec<Option<DeviceDescription>>, name: &String) -> (found: Option<
    usize,
>)
    ensures
        match found {
            Some(at) => {
                &&& at < devices@.len()
                &&& goes_by(devices@[at as int], name@)
                &&& forall|i: int| 0 <= i < at ==> !goes_by(#[trigger] devices@[i], name@)
            },
            None => forall|i: int|
                0 <= i < devices@.len() ==> !goes_by(#[trigger] devices@[i], name@),
        },
        found is Some == any_goes_by(devices@, name@),
{
    let mut i: usize = 0;
    while i < devices.len()
        invariant
            i <= devices.len(),
            forall|j: int| 0 <= j < i ==> !goes_by(#[trigger] devices@[j], name@),
        decreases devices.len() - i,
    {
        match &devices[i] {
            Some(description) => {
                if device_display_name(description) == *name {
                    return Some(i);
                }
            },
            None => {},
        }
        i += 1;
    }
    None
}

/// A device can be found by a name exactly where the list of names holds it.
pub proof fn law_listed_names_can_be_found(
    devices: Seq<Option<DeviceDescription>>,
    name: Seq<char>,
)
    ensures
        described_names(devices).contains(name) <==> exists|i: int|
            0 <= i < devices.len() && goes_by(#[trigger] devices[i], name),
    decreases devices.len(),
{
    if devices.len() > 0 {
        let front = devices.drop_last();
        law_listed_names_can_be_found(front, name);
        assert forall|i: int| 0 <= i < front.len() implies #[trigger] front[i] == devices[i] by {}
        let names = described_names(front);
        if described_names(devices).contains(name) {
            if names.contains(name) {
                let i = choose|i: int| 0 <= i < front.len() && goes_by(#[trigger] front[i], name);
                assert(goes_by(devices[i], name));
            } else {
                assert(goes_by(devices[devices.len() - 1], name));
            }
        }
        if exists|i: int| 0 <= i < devices.len() && goes_by(#[trigger] devices[i], name) {
            let i = choose|i: int| 0 <= i < devices.len() && goes_by(#[trigger] devices[i], name);
            if i < front.len() {
                assert(goes_by(front[i], name));
                let k = choose|k: int| 0 <= k < names.len() && names[k] == name;
                assert(described_names(devices)[k] == name);
            } else {
                assert(described_names(devices)[names.len() as int] == name);
            }
        }
    }
}

/// Whether a name is the one that a device is shown by: the first of its further lines,
/// or that of its role where it has none.
pub open spec fn is_shown_name(description: DeviceDescription, name: Seq<char>) -> bool {
    if description.extended@.len() > 0 {
        name == description.extended@[0]@
    } else {
        name == description.name@
    }
}

/// A device is shown by the name that the user knows it by, and by that of its role only
/// where it has no other.
pub proof fn law_device_is_shown_by_the_users_name(description: &DeviceDescription, name: String)
    requires
        call_ensures(device_display_name, (description,), name),
    ensures
        is_shown_name(*description, name@),
{
}

/// The list of names holds that of each device that could be described, in order: a
/// further device adds its own at the end, or nothing.
pub proof fn law_each_device_adds_its_name(
    devices: &Vec<Option<DeviceDescription>>,
    names: Vec<String>,
    some: Seq<Option<DeviceDescription>>,
    device: Option<DeviceDescription>,
)
    requires
        call_ensures(device_names, (devices,), names),
    ensures
        texts(names@) == described_names(devices@),
        described_names(Seq::<Option<DeviceDescription>>::empty()).len() == 0,
        device is None ==> described_names(some.push(device)) == described_names(some),
        device matches Some(description) ==> {
            let longer = described_names(some.push(device));
            &&& longer.len() == described_names(some).len() + 1
            &&& longer.drop_last() == described_names(some)
            &&& is_shown_name(description, longer.last())
        },
{
    assert(some.push(device).drop_last() =~= some);
    if device is Some {
        assert(described_names(some.push(device)).drop_last() =~= described_names(some));
    }
}

/// The device that is found for a name is the first that is shown by exactly that name,
/// and one is found wherever there is any.
pub proof fn law_first_device_of_the_name_is_found(
    devices: &Vec<Option<DeviceDescription>>,
    name: &String,
    found: Option<usize>,
)
    requires
        call_ensures(find_device, (devices, name), found),
    ensures
        found matches Some(at) ==> {
            &&& at < devices@.len()
            &&& devices@[at as int] matches Some(description) && is_shown_name(description, name@)
        },
        forall|i: int|
            0 <= i < devices@.len() && (found matches Some(at) ==> i < at) ==> (
            #[trigger] devices@[i] matches Some(description) ==> !is_shown_name(
                description,
                name@,
            )),
{
    assert forall|i: int|
        0 <= i < devices@.len() && (found matches Some(at) ==> i < at) implies (
    #[trigger] devices@[i] matches Some(description) ==> !is_shown_name(description, name@)) by {
        assert(!goes_by(devices@[i], name@));
    }
}

} // verus!
