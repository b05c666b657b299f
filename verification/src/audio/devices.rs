//! Which output devices are offered and which one is opened.
//!
//! The sound system lists every device that it knows of, most of which are of no
//! use: some cannot play, one throws all sound away, and where a sound server
//! runs, those that talk to the hardware take it away from every other program.

use vstd::prelude::*;
use crate::text::{join_names, same, separated};

verus! {

/// What the system's own output device is called.
pub const DEFAULT_DEVICE_LABEL: &'static str = "系统默认";

/// What the sound system says of a device.
#[derive(Debug)]
pub struct DeviceInfo {
    /// The name under which the sound system addresses it.
    pub driver: Option<String>,
    /// The name for people.
    pub name: Option<String>,
    /// Whether it states a configuration for playing.
    pub has_output_config: bool,
}

/// Whether a device is the sound server itself.
pub open spec fn server_pcm(driver: Seq<char>) -> bool {
    driver == "pipewire"@ || driver == "pulse"@
}

/// Whether a device goes through the sound server.
pub open spec fn server_routed(driver: Seq<char>) -> bool {
    driver == "default"@ || server_pcm(driver)
}

/// Whether a device is the sound server itself.
pub fn is_sound_server_pcm(driver: &str) -> (r: bool)
    ensures
        r == server_pcm(driver@),
{
    same(driver, "pipewire") || same(driver, "pulse")
}

/// Whether a device goes through the sound server, and so shares the hardware.
pub fn is_server_routed(driver: &str) -> (r: bool)
    ensures
        r == server_routed(driver@),
{
    same(driver, "default") || is_sound_server_pcm(driver)
}

/// Whether a sound server runs: one of the devices is the server itself.
pub open spec fn server_runs(devices: Seq<DeviceInfo>) -> bool {
    exists|i: int|
        0 <= i < devices.len() && (#[trigger] devices[i].driver matches Some(driver)
            && server_pcm(driver@))
}

/// Whether a sound server runs.
pub fn sound_server_present(devices: &Vec<DeviceInfo>) -> (r: bool)
    ensures
        r == server_runs(devices@),
{
    let mut i: usize = 0;
    while i < devices.len()
        invariant
            i <= devices@.len(),
            forall|j: int|
                0 <= j < i ==> !(#[trigger] devices@[j].driver matches Some(driver)
                    && server_pcm(driver@)),
        decreases devices@.len() - i,
    {
        match &devices[i].driver {
            Some(driver) => {
                if is_sound_server_pcm(driver.as_str()) {
                    return true;
                }
            },
            None => {},
        }
        i = i + 1;
    }
    false
}

/// Whether a device is fit to be offered: it does not throw the sound away, it
/// goes through the sound server where one runs, and it can play.
pub open spec fn fit(device: DeviceInfo, server: bool) -> bool {
    &&& !(device.driver matches Some(driver) && driver@ == "null"@)
    &&& server ==> (device.driver matches Some(driver) && server_routed(driver@))
    &&& device.has_output_config
}

fn is_fit(device: &DeviceInfo, server: bool) -> (r: bool)
    ensures
        r == fit(*device, server),
{
    match &device.driver {
        Some(driver) => {
            let driver = driver.as_str();
            !same(driver, "null") && (!server || is_server_routed(driver))
                && device.has_output_config
        },
        None => !server && device.has_output_config,
    }
}

/// The name of a device; a device without one has the empty name.
pub open spec fn name_of(device: DeviceInfo) -> Seq<char> {
    match device.name {
        Some(name) => name@,
        None => Seq::empty(),
    }
}

fn name_text(device: &DeviceInfo) -> (r: String)
    ensures
        r@ == name_of(*device),
{
    match &device.name {
        Some(name) => name.clone(),
        None => String::new(),
    }
}

/// Whether the `i`-th device is offered: it is fit, and no fit device before it
/// has its name.
pub open spec fn offered(devices: Seq<DeviceInfo>, i: int) -> bool {
    let server = server_runs(devices);
    &&& 0 <= i < devices.len()
    &&& fit(devices[i], server)
    &&& forall|j: int|
        0 <= j < i ==> !(fit(#[trigger] devices[j], server) && name_of(devices[j]) == name_of(
            devices[i],
        ))
}

/// The offered ones among the first `n` devices, by their place in the list.
pub open spec fn offered_below(devices: Seq<DeviceInfo>, n: int) -> Seq<int>
    decreases n,
{
    if n <= 0 {
        Seq::empty()
    } else if offered(devices, n - 1) {
        offered_below(devices, n - 1).push(n - 1)
    } else {
        offered_below(devices, n - 1)
    }
}

fn is_offered(devices: &Vec<DeviceInfo>, i: usize, server: bool) -> (r: bool)
    requires
        i < devices@.len(),
        server == server_runs(devices@),
    ensures
        r == offered(devices@, i as int),
{
    if !is_fit(&devices[i], server) {
        return false;
    }
    let name = name_text(&devices[i]);
    let mut j: usize = 0;
    while j < i
        invariant
            j <= i < devices@.len(),
            server == server_runs(devices@),
            name@ == name_of(devices@[i as int]),
            forall|k: int|
                0 <= k < j ==> !(fit(#[trigger] devices@[k], server) && name_of(devices@[k])
                    == name@),
        decreases i - j,
    {
        if is_fit(&devices[j], server) && same(name_text(&devices[j]).as_str(), name.as_str()) {
            assert(fit(devices@[j as int], server));
            return false;
        }
        j = j + 1;
    }
    true
}

/// The devices to offer, by their place in the list, in its order.
pub fn output_devices(devices: &Vec<DeviceInfo>) -> (r: Vec<usize>)
    ensures
        r@.map_values(|i: usize| i as int) == offered_below(devices@, devices@.len() as int),
        forall|k: int| 0 <= k < r@.len() ==> #[trigger] r@[k] < devices@.len(),
{
    let server = sound_server_present(devices);
    let mut out: Vec<usize> = Vec::new();
    let mut i: usize = 0;
    while i < devices.len()
        invariant
            i <= devices@.len(),
            server == server_runs(devices@),
            out@.map_values(|i: usize| i as int) == offered_below(devices@, i as int),
            forall|k: int| 0 <= k < out@.len() ==> #[trigger] out@[k] < devices@.len(),
        decreases devices@.len() - i,
    {
        if is_offered(devices, i, server) {
            let ghost so_far = out@;
            out.push(i);
            assert(out@.map_values(|i: usize| i as int) =~= so_far.map_values(
                |i: usize| i as int,
            ).push(i as int));
        }
        i = i + 1;
    }
    out
}

/// The names of the offered ones among the first `n` devices.
pub open spec fn names_below(devices: Seq<DeviceInfo>, n: int) -> Seq<Seq<char>>
    decreases n,
{
    if n <= 0 {
        Seq::empty()
    } else {
        match devices[n - 1].name {
            Some(name) if offered(devices, n - 1) => names_below(devices, n - 1).push(name@),
            _ => names_below(devices, n - 1),
        }
    }
}

/// The names of the devices to offer, for a choice in the settings.
pub fn list_output_devices(devices: &Vec<DeviceInfo>) -> (r: Vec<String>)
    ensures
        r@.map_values(|s: String| s@) == names_below(devices@, devices@.len() as int),
{
    let server = sound_server_present(devices);
    let mut out: Vec<String> = Vec::new();
    let mut i: usize = 0;
    assert(out@.map_values(|s: String| s@) =~= Seq::<Seq<char>>::empty());
    while i < devices.len()
        invariant
            i <= devices@.len(),
            server == server_runs(devices@),
            out@.map_values(|s: String| s@) == names_below(devices@, i as int),
        decreases devices@.len() - i,
    {
        let kept = is_offered(devices, i, server);
        match &devices[i].name {
            Some(name) => {
                if kept {
                    let ghost so_far = out@;
                    out.push(name.clone());
                    assert(out@.map_values(|s: String| s@) =~= so_far.map_values(
                        |s: String| s@,
                    ).push(name@));
                }
            },
            None => {},
        }
        i = i + 1;
    }
    out
}

/// Whether the `i`-th device is offered and the sound system addresses it as
/// `driver`.
pub open spec fn addressed_as(devices: Seq<DeviceInfo>, i: int, driver: Seq<char>) -> bool {
    offered(devices, i) && (devices[i].driver matches Some(d) && d@ == driver)
}

/// What the system's own device is called.
pub open spec fn label_of_default(devices: Seq<DeviceInfo>) -> Seq<char> {
    match opt_first_default(devices, 0) {
        Some(i) => match devices[i].name {
            Some(name) => name@,
            None => DEFAULT_DEVICE_LABEL@,
        },
        None => DEFAULT_DEVICE_LABEL@,
    }
}

/// What the system's own device is called: the name of the first offered device
/// that the sound system addresses as its default, else a fixed label.
pub fn default_label(devices: &Vec<DeviceInfo>) -> (r: String)
    ensures
        r@ == label_of_default(devices@),
{
    let server = sound_server_present(devices);
    let mut i: usize = 0;
    while i < devices.len()
        invariant
            i <= devices@.len(),
            server == server_runs(devices@),
            opt_first_default(devices@, 0) == opt_first_default(devices@, i as int),
        decreases devices@.len() - i,
    {
        let is_default = match &devices[i].driver {
            Some(driver) => same(driver.as_str(), "default"),
            None => false,
        };
        if is_default && is_offered(devices, i, server) {
            return match &devices[i].name {
                Some(name) => name.clone(),
                None => DEFAULT_DEVICE_LABEL.to_owned(),
            };
        }
        i = i + 1;
    }
    DEFAULT_DEVICE_LABEL.to_owned()
}

/// The first device from `from` on that is offered and addressed as the default.
pub open spec fn opt_first_default(devices: Seq<DeviceInfo>, from: int) -> Option<int>
    decreases devices.len() - from,
{
    if from < 0 || from >= devices.len() {
        None
    } else if addressed_as(devices, from, "default"@) {
        Some(from)
    } else {
        opt_first_default(devices, from + 1)
    }
}

/// Finds the offered device with this name. The error names those that there
/// are.
pub fn find_device(devices: &Vec<DeviceInfo>, name: &str) -> (r: Result<usize, String>)
    ensures
        match r {
            Ok(i) => offered(devices@, i as int) && (devices@[i as int].name matches Some(n)
                && n@ == name@),
            Err(text) => {
                &&& forall|i: int| #[trigger]
                    offered(devices@, i) ==> !(devices@[i].name matches Some(n) && n@ == name@)
                &&& text@ == "找不到音频输出设备「"@ + name@ + "」，当前可用："@ + separated(
                    names_below(devices@, devices@.len() as int),
                    "、"@,
                )
            },
        },
{
    let server = sound_server_present(devices);
    let mut i: usize = 0;
    while i < devices.len()
        invariant
            i <= devices@.len(),
            server == server_runs(devices@),
            forall|j: int|
                0 <= j < i && #[trigger] offered(devices@, j) ==> !(
                devices@[j].name matches Some(n) && n@ == name@),
        decreases devices@.len() - i,
    {
        let named = match &devices[i].name {
            Some(n) => same(n.as_str(), name),
            None => false,
        };
        if named && is_offered(devices, i, server) {
            return Ok(i);
        }
        i = i + 1;
    }
    let names = list_output_devices(devices);
    let mut text = "找不到音频输出设备「".to_owned();
    text.append(name);
    text.append("」，当前可用：");
    let list = join_names(&names, "、");
    text.append(list.as_str());
    Err(text)
}

/// One way to open an output.
#[derive(Debug, PartialEq, Eq)]
pub enum OpenAttempt {
    /// The device at this place in the list.
    Device { index: usize, label: String },
    /// The system's own device, which the sound server provides, and no other.
    ServerDefault { label: String },
    /// The system's own device, or whatever else can be opened.
    BareDefault { label: String },
}

/// What is tried in turn to open an output: the requested device where it is
/// offered, then the system's own. Where a sound server runs, nothing but its
/// own entry stands in for that.
pub fn open_attempts(requested: Option<&str>, devices: &Vec<DeviceInfo>) -> (r: Vec<OpenAttempt>)
    ensures
        1 <= r@.len() <= 2,
        match r@.last() {
            OpenAttempt::ServerDefault { label } => server_runs(devices@) && label@
                == label_of_default(devices@),
            OpenAttempt::BareDefault { label } => !server_runs(devices@) && label@
                == label_of_default(devices@),
            OpenAttempt::Device { index, label } => false,
        },
        r@.len() == 2 <==> (requested matches Some(name) && exists|i: int| #[trigger]
            offered(devices@, i) && (devices@[i].name matches Some(n) && n@ == name@)),
        r@.len() == 2 ==> (r@[0] matches OpenAttempt::Device { index, label } && requested
            matches Some(name) && label@ == name@ && offered(devices@, index as int) && (
        devices@[index as int].name matches Some(n) && n@ == name@)),
{
    let mut out: Vec<OpenAttempt> = Vec::new();
    match requested {
        Some(name) => match find_device(devices, name) {
            Ok(index) => {
                out.push(OpenAttempt::Device { index, label: name.to_owned() });
            },
            Err(_) => {},
        },
        None => {},
    }
    let label = default_label(devices);
    if sound_server_present(devices) {
        out.push(OpenAttempt::ServerDefault { label });
    } else {
        out.push(OpenAttempt::BareDefault { label });
    }
    out
}

/// Where a sound server runs, no offered device takes the hardware for itself.
pub proof fn offered_devices_share_the_hardware(devices: Seq<DeviceInfo>, i: int)
    requires
        server_runs(devices),
        offered(devices, i),
    ensures
        devices[i].driver matches Some(driver) && server_routed(driver@),
{
}

/// No two offered devices have the same name.
pub proof fn offered_names_are_distinct(devices: Seq<DeviceInfo>, i: int, j: int)
    requires
        offered(devices, i),
        offered(devices, j),
        name_of(devices[i]) == name_of(devices[j]),
    ensures
        i == j,
{
}

/// Without a sound server every device that can play is offered once; with one, those that
/// go through it. Devices that lead nowhere are never offered.
pub proof fn devices_that_can_play_are_offered(devices: Seq<DeviceInfo>, i: int)
    requires
        0 <= i < devices.len(),
        forall|j: int| 0 <= j < i ==> name_of(#[trigger] devices[j]) != name_of(devices[i]),
    ensures
        !server_runs(devices) && devices[i].has_output_config && !(devices[i].driver is Some && (
        devices[i].driver->0)@ == "null"@) ==> offered(devices, i),
        server_runs(devices) && devices[i].has_output_config && devices[i].driver is Some && ((
        devices[i].driver->0)@ == "default"@ || (devices[i].driver->0)@ == "pipewire"@ || (
        devices[i].driver->0)@ == "pulse"@) ==> offered(devices, i),
        !devices[i].has_output_config ==> !offered(devices, i),
        devices[i].driver is Some && (devices[i].driver->0)@ == "null"@ ==> !offered(devices, i),
{
    reveal_strlit("null");
    reveal_strlit("default");
    reveal_strlit("pipewire");
    reveal_strlit("pulse");
    assert("null"@.len() == 4 && "default"@.len() == 7 && "pipewire"@.len() == 8 && "pulse"@.len()
        == 5);
}

/// Every offered device with a name can be chosen by it, and nothing else can.
pub proof fn offered_devices_can_be_chosen(devices: Seq<DeviceInfo>, n: int, name: Seq<char>)
    requires
        0 <= n <= devices.len(),
    ensures
        names_below(devices, n).contains(name) <==> exists|i: int|
            0 <= i < n && #[trigger] offered(devices, i) && devices[i].name is Some && (
            devices[i].name->0)@ == name,
    decreases n,
{
    if n > 0 {
        offered_devices_can_be_chosen(devices, n - 1, name);
        let before = names_below(devices, n - 1);
        if devices[n - 1].name is Some && offered(devices, n - 1) {
            let own = (devices[n - 1].name->0)@;
            assert(names_below(devices, n) == before.push(own));
            if name == own {
                assert(before.push(own)[before.len() as int] == name);
                assert(offered(devices, n - 1));
            }
            if before.contains(name) {
                let k = choose|k: int| 0 <= k < before.len() && before[k] == name;
                assert(before.push(own)[k] == name);
            }
            if before.push(own).contains(name) && name != own {
                let k = choose|k: int| 0 <= k < before.push(own).len() && before.push(own)[k] == name;
                assert(before[k] == name);
            }
        }
    }
}

} // verus!
