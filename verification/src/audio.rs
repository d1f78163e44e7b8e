//! Choosing the microphone, and what a finished capture must hold.
use vstd::prelude::*;

use crate::text::{concat3, str_eq};

verus! {

/// Which input device to open.
#[derive(Clone, Copy, Debug, PartialEq, Eq, Structural)]
pub enum InputDevice {
    /// The system's default input device.
    Default,
    /// The device at this position in the host's device list.
    Listed(usize),
}

/// The device at some position of the host's list is called `name` (a device whose
/// description could not be read has no name).
pub open spec fn device_named(entry: Option<String>, name: Seq<char>) -> bool {
    entry matches Some(n) && n@ == name
}

/// The error for a configured device that is not connected.
pub open spec fn spec_device_not_found(name: Seq<char>) -> Seq<char> {
    "Input device '"@ + name + "' not found"@
}

/// Picks the input device: the default one when none is configured, otherwise the
/// first listed device with the configured name; an error when there is none.
pub fn select_input_device(requested: Option<&str>, device_names: &Vec<Option<String>>) -> (choice:
    Result<InputDevice, String>)
    ensures
        match requested {
            None => choice == Ok::<InputDevice, String>(InputDevice::Default),
            Some(name) => match choice {
                Ok(InputDevice::Listed(i)) => {
                    &&& i < device_names@.len()
                    &&& device_named(device_names@[i as int], name@)
                    &&& forall|j: int| 0 <= j < i ==> !device_named(#[trigger] device_names@[j], name@)
                },
                Ok(InputDevice::Default) => false,
                Err(message) => {
                    &&& message@ == spec_device_not_found(name@)
                    &&& forall|j: int|
                        0 <= j < device_names@.len() ==> !device_named(#[trigger] device_names@[j], name@)
                },
            },
        },
{
    let name = match requested {
        None => return Ok(InputDevice::Default),
        Some(name) => name,
    };
    let n: usize = device_names.len();
    let mut i: usize = 0;
    while i < n
        invariant
            n == device_names@.len(),
            requested == Some(name),
            i <= n,
            forall|j: int| 0 <= j < i ==> !device_named(#[trigger] device_names@[j], name@),
        decreases n - i,
    {
        match &device_names[i] {
            Some(candidate) => {
                if str_eq(candidate.as_str(), name) {
                    return Ok(InputDevice::Listed(i));
                }
            },
            None => {},
        }
        i = i + 1;
    }
    Err(concat3("Input device '", name, "' not found"))
}

/// The error when no device is configured and the system has no default input.
pub fn no_default_device_message() -> (message: &'static str)
    ensures
        message@ == "No default input device available"@,
{
    "No default input device available"
}

/// A stopped capture is usable only if it recorded something.
pub fn check_captured(samples: usize) -> (checked: Result<(), &'static str>)
    ensures
        samples > 0 ==> checked is Ok,
        samples == 0 ==> (checked matches Err(m) && m@ == "No audio captured"@),
{
    if samples == 0 {
        Err("No audio captured")
    } else {
        Ok(())
    }
}

} // verus!
