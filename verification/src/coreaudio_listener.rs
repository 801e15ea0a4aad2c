//! Which CoreAudio property listeners are installed, and what their
//! notifications mean.
//!
//! Objects, selectors, scopes and elements are the numbers of the CoreAudio API;
//! selectors and scopes are four-character codes.

use vstd::prelude::*;

verus! {

/// `asrt`: the actual sample rate of a device.
pub const ACTUAL_SAMPLE_RATE: u32 = 0x6173_7274;

/// `nsrt`: the nominal sample rate of a device.
pub const NOMINAL_SAMPLE_RATE: u32 = 0x6e73_7274;

/// `livn`: whether a device is alive.
pub const DEVICE_IS_ALIVE: u32 = 0x6c69_766e;

/// `dIn `: the default input device.
pub const DEFAULT_INPUT_DEVICE: u32 = 0x6449_6e20;

/// `dOut`: the default output device.
pub const DEFAULT_OUTPUT_DEVICE: u32 = 0x644f_7574;

/// `glob`: the global scope.
pub const SCOPE_GLOBAL: u32 = 0x676c_6f62;

/// The main element.
pub const ELEMENT_MAIN: u32 = 0;

/// The audio system itself.
pub const SYSTEM_OBJECT: u32 = 1;

/// No object.
pub const UNKNOWN_OBJECT: u32 = 0;

/// The address of a property of an audio object.
#[derive(Debug, Clone, Copy, PartialEq, Eq, Structural)]
pub struct PropertyAddress {
    pub selector: u32,
    pub scope: u32,
    pub element: u32,
}

/// A listener for one property of one object.
#[derive(Debug, Clone, Copy, PartialEq, Eq, Structural)]
pub struct Registration {
    pub object: u32,
    pub address: PropertyAddress,
}

/// What is known of a default device.
#[derive(Debug, Clone, Copy, PartialEq, Eq, Structural)]
pub struct DeviceInfo {
    pub id: u32,
    /// The actual sample rate.
    pub hz: u32,
}

/// AudioPropertyChange represents a more readable representation of CoreAudio property
/// changes we want to listen for.
#[derive(Debug, Clone, Copy, PartialEq, Eq, Structural)]
pub enum AudioPropertyChange {
    ActualSampleRate { hz: u32 },  // The actual sample rate in Hz
    NominalSampleRate { hz: u32 },  // The nominal sample rate in Hz
    DeviceIsAlive,
    HardwareDefaultInputDevice { id: u32, hz: u32 },
    HardwareDefaultOutputDevice { id: u32, hz: u32 },
    Unknown,
}

/// The address of a property in the global scope.
pub open spec fn global_address(selector: u32) -> PropertyAddress {
    PropertyAddress { selector, scope: SCOPE_GLOBAL, element: ELEMENT_MAIN }
}

/// The listeners for a given output device: its rates and whether it is alive,
/// and the default devices of the system.
pub open spec fn listeners(output: u32) -> Seq<Registration> {
    seq![
        Registration { object: output, address: global_address(ACTUAL_SAMPLE_RATE) },
        Registration { object: output, address: global_address(NOMINAL_SAMPLE_RATE) },
        Registration { object: output, address: global_address(DEVICE_IS_ALIVE) },
        Registration { object: SYSTEM_OBJECT, address: global_address(DEFAULT_INPUT_DEVICE) },
        Registration { object: SYSTEM_OBJECT, address: global_address(DEFAULT_OUTPUT_DEVICE) },
    ]
}

/// What a changed property means. A change of the nominal rate is reported as
/// the actual rate that follows from it.
pub open spec fn meaning(selector: u32, output: DeviceInfo, input: DeviceInfo) -> AudioPropertyChange {
    if selector == ACTUAL_SAMPLE_RATE || selector == NOMINAL_SAMPLE_RATE {
        AudioPropertyChange::ActualSampleRate { hz: output.hz }
    } else if selector == DEVICE_IS_ALIVE {
        AudioPropertyChange::DeviceIsAlive
    } else if selector == DEFAULT_INPUT_DEVICE {
        AudioPropertyChange::HardwareDefaultInputDevice { id: input.id, hz: input.hz }
    } else if selector == DEFAULT_OUTPUT_DEVICE {
        AudioPropertyChange::HardwareDefaultOutputDevice { id: output.id, hz: output.hz }
    } else {
        AudioPropertyChange::Unknown
    }
}

/// Whether the meaning of a changed property holds the rate of the output device.
pub open spec fn needs_output_rate(selector: u32) -> bool {
    ||| selector == ACTUAL_SAMPLE_RATE
    ||| selector == NOMINAL_SAMPLE_RATE
    ||| selector == DEFAULT_OUTPUT_DEVICE
}

/// Whether the meaning of a changed property holds the rate of the input device.
pub open spec fn needs_input_rate(selector: u32) -> bool {
    selector == DEFAULT_INPUT_DEVICE
}

/// The default devices whose rates have to be read for a notification.
#[derive(Debug, Clone, Copy, PartialEq, Eq, Structural)]
pub struct RatesNeeded {
    pub output: bool,
    pub input: bool,
}

impl RatesNeeded {
    /// The rates that some changed property is reported with.
    pub open spec fn for_changes(addresses: Seq<PropertyAddress>) -> RatesNeeded {
        RatesNeeded {
            output: exists|i: int|
                0 <= i < addresses.len() && needs_output_rate((#[trigger] addresses[i]).selector),
            input: exists|i: int|
                0 <= i < addresses.len() && needs_input_rate((#[trigger] addresses[i]).selector),
        }
    }
}

/// Decides which rates have to be read for the properties that changed at once.
pub fn rates_needed(addresses: &Vec<PropertyAddress>) -> (needed: RatesNeeded)
    ensures
        needed.output == exists|i: int|
            0 <= i < addresses@.len() && needs_output_rate((#[trigger] addresses@[i]).selector),
        needed.input == exists|i: int|
            0 <= i < addresses@.len() && needs_input_rate((#[trigger] addresses@[i]).selector),
        needed == RatesNeeded::for_changes(addresses@),
{
    let mut needed = RatesNeeded { output: false, input: false };
    let mut i: usize = 0;
    while i < addresses.len()
        invariant
            i <= addresses@.len(),
            needed.output == exists|j: int|
                0 <= j < i && needs_output_rate((#[trigger] addresses@[j]).selector),
            needed.input == exists|j: int|
                0 <= j < i && needs_input_rate((#[trigger] addresses@[j]).selector),
        decreases addresses.len() - i,
    {
        let selector: u32 = addresses[i].selector;
        if selector == ACTUAL_SAMPLE_RATE || selector == NOMINAL_SAMPLE_RATE || selector
            == DEFAULT_OUTPUT_DEVICE {
            needed.output = true;
        }
        if selector == DEFAULT_INPUT_DEVICE {
            needed.input = true;
        }
        assert(addresses@[i as int].selector == selector);
        i += 1;
    }
    needed
}

/// Helper function to create a property address.
pub fn get_property_address(selector: u32, scope: u32, element: u32) -> (address: PropertyAddress)
    ensures
        address == (PropertyAddress { selector, scope, element }),
{
    PropertyAddress { selector, scope, element }
}

fn registration(object: u32, selector: u32) -> (entry: Registration)
    ensures
        entry == (Registration { object, address: global_address(selector) }),
{
    Registration { object, address: get_property_address(selector, SCOPE_GLOBAL, ELEMENT_MAIN) }
}

fn listener_list(output: u32) -> (list: Vec<Registration>)
    ensures
        list@ == listeners(output),
{
    let mut list: Vec<Registration> = Vec::new();
    list.push(registration(output, ACTUAL_SAMPLE_RATE));
    list.push(registration(output, NOMINAL_SAMPLE_RATE));
    list.push(registration(output, DEVICE_IS_ALIVE));
    list.push(registration(SYSTEM_OBJECT, DEFAULT_INPUT_DEVICE));
    list.push(registration(SYSTEM_OBJECT, DEFAULT_OUTPUT_DEVICE));
    assert(list@ =~= listeners(output));
    list
}

/// Keeps track of the installed listeners.
#[derive(Debug)]
pub struct CoreAudioListener {
    pub default_input_device: u32,
    pub default_output_device: u32,
    pub is_listening: bool,  // used to prevent double registration and teardown
    pub has_client_data: bool,  // whether the callback's data is allocated
}

impl CoreAudioListener {
    /// The listeners that a start installs.
    pub open spec fn to_install(self) -> Seq<Registration> {
        if self.is_listening || self.default_output_device == UNKNOWN_OBJECT {
            Seq::empty()
        } else {
            listeners(self.default_output_device)
        }
    }

    /// The listeners that a stop removes.
    pub open spec fn to_remove(self) -> Seq<Registration> {
        if self.is_listening && self.has_client_data {
            listeners(self.default_output_device)
        } else {
            Seq::empty()
        }
    }

    /// Tracks the given default devices; nothing is installed.
    pub fn new(default_output_device: u32, default_input_device: u32) -> (listener: Self)
        ensures
            listener.default_output_device == default_output_device,
            listener.default_input_device == default_input_device,
            !listener.is_listening,
            !listener.has_client_data,
    {
        CoreAudioListener {
            default_input_device,
            default_output_device,
            is_listening: false,
            has_client_data: false,
        }
    }

    /// Begins to listen. Returns the listeners to install: none if already
    /// listening, or if there is no output device.
    pub fn start(&mut self) -> (install: Vec<Registration>)
        ensures
            install@ == old(self).to_install(),
            final(self).is_listening,
            final(self).has_client_data == (old(self).has_client_data || old(
                self,
            ).to_install().len() > 0),
            final(self).default_input_device == old(self).default_input_device,
            final(self).default_output_device == old(self).default_output_device,
    {
        if self.is_listening {
            return Vec::new();
        }
        self.is_listening = true;
        if self.default_output_device == UNKNOWN_OBJECT {
            return Vec::new();
        }
        self.has_client_data = true;
        listener_list(self.default_output_device)
    }

    /// Stops listening. Returns the listeners to remove: none if not listening,
    /// or if none were installed.
    pub fn stop(&mut self) -> (remove: Vec<Registration>)
        ensures
            remove@ == old(self).to_remove(),
            !final(self).is_listening,
            final(self).has_client_data == (old(self).has_client_data && !old(self).is_listening),
            final(self).default_input_device == old(self).default_input_device,
            final(self).default_output_device == old(self).default_output_device,
    {
        if !self.is_listening {
            return Vec::new();
        }
        self.is_listening = false;
        if !self.has_client_data {
            return Vec::new();
        }
        self.has_client_data = false;
        listener_list(self.default_output_device)
    }

    /// Stops listening to the old default devices and begins to listen to the new
    /// ones. Returns the listeners to remove and those to install.
    pub fn rebuild(&mut self, default_output_device: u32, default_input_device: u32) -> (change: (
        Vec<Registration>,
        Vec<Registration>,
    ))
        ensures
            change.0@ == old(self).to_remove(),
            change.1@ == if default_output_device == UNKNOWN_OBJECT {
                Seq::empty()
            } else {
                listeners(default_output_device)
            },
            final(self).is_listening,
            final(self).default_output_device == default_output_device,
            final(self).default_input_device == default_input_device,
            final(self).has_client_data == (default_output_device != UNKNOWN_OBJECT || (old(
                self,
            ).has_client_data && !old(self).is_listening)),
    {
        let remove = self.stop();
        self.default_output_device = default_output_device;
        self.default_input_device = default_input_device;
        let install = self.start();
        (remove, install)
    }
}

/// What one notification means.
pub fn property_change(selector: u32, output: DeviceInfo, input: DeviceInfo) -> (change:
    AudioPropertyChange)
    ensures
        change == meaning(selector, output, input),
{
    if selector == ACTUAL_SAMPLE_RATE || selector == NOMINAL_SAMPLE_RATE {
        AudioPropertyChange::ActualSampleRate { hz: output.hz }
    } else if selector == DEVICE_IS_ALIVE {
        AudioPropertyChange::DeviceIsAlive
    } else if selector == DEFAULT_INPUT_DEVICE {
        AudioPropertyChange::HardwareDefaultInputDevice { id: input.id, hz: input.hz }
    } else if selector == DEFAULT_OUTPUT_DEVICE {
        AudioPropertyChange::HardwareDefaultOutputDevice { id: output.id, hz: output.hz }
    } else {
        AudioPropertyChange::Unknown
    }
}

/// The events for the properties that changed at once, in order.
pub fn device_changed_listener(
    addresses: &Vec<PropertyAddress>,
    output: DeviceInfo,
    input: DeviceInfo,
) -> (changes: Vec<AudioPropertyChange>)
    ensures
        changes@ == addresses@.map_values(
            |address: PropertyAddress| meaning(address.selector, output, input),
        ),
{
    let mut changes: Vec<AudioPropertyChange> = Vec::new();
    let ghost expected = addresses@.map_values(
        |address: PropertyAddress| meaning(address.selector, output, input),
    );
    let mut i: usize = 0;
    while i < addresses.len()
        invariant
            i <= addresses@.len(),
            expected == addresses@.map_values(
                |address: PropertyAddress| meaning(address.selector, output, input),
            ),
            changes@ == expected.take(i as int),
        decreases addresses.len() - i,
    {
        changes.push(property_change(addresses[i].selector, output, input));
        assert(expected.take(i + 1) =~= expected.take(i as int).push(expected[i as int]));
        i += 1;
    }
    assert(expected.take(expected.len() as int) =~= expected);
    changes
}

/// A rate that need not be read has no part in what a changed property means.
pub proof fn law_unneeded_rates_do_not_matter(
    selector: u32,
    output: DeviceInfo,
    input: DeviceInfo,
    output_hz: u32,
    input_hz: u32,
)
    ensures
        !needs_output_rate(selector) ==> meaning(
            selector,
            DeviceInfo { hz: output_hz, ..output },
            input,
        ) == meaning(selector, output, input),
        !needs_input_rate(selector) ==> meaning(
            selector,
            output,
            DeviceInfo { hz: input_hz, ..input },
        ) == meaning(selector, output, input),
{
}

/// Stopping removes exactly the listeners that starting installed.
pub proof fn law_stop_removes_what_start_installed(
    before: CoreAudioListener,
    started: CoreAudioListener,
)
    requires
        !before.is_listening,
        !before.has_client_data,
        started.is_listening,
        started.has_client_data == (before.to_install().len() > 0),
        started.default_output_device == before.default_output_device,
    ensures
        started.to_remove() == before.to_install(),
{
}

/// A listener that listens installs nothing again, and one that does not listen
/// removes nothing again.
pub proof fn law_no_double_registration(listener: CoreAudioListener)
    ensures
        listener.is_listening ==> listener.to_install().len() == 0,
        !listener.is_listening ==> listener.to_remove().len() == 0,
{
}

} // verus!
