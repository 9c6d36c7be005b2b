//! The audio output devices that can be captured from.

use vstd::prelude::*;
use vstd::string::*;

verus! {

/// An audio output device.
#[derive(Debug, Clone)]
pub struct OutputDevice {
    pub id: String,
    pub name: String,
    pub is_default: bool,
}

/// The identifier of the default output device.
pub const DEFAULT_OUTPUT_ID: &'static str = "default-output";

/// The name shown for the default output device.
pub const DEFAULT_OUTPUT_NAME: &'static str = "Default output device";

/// The output devices on offer: the default output device only.
pub fn list_output_devices() -> (r: Vec<OutputDevice>)
    ensures
        r.len() == 1,
        r[0].id@ == DEFAULT_OUTPUT_ID@,
        r[0].name@ == DEFAULT_OUTPUT_NAME@,
        r[0].is_default,
{
    let mut devices: Vec<OutputDevice> = Vec::new();
    devices.push(
        OutputDevice {
            id: String::from_str(DEFAULT_OUTPUT_ID),
            name: String::from_str(DEFAULT_OUTPUT_NAME),
            is_default: true,
        },
    );
    devices
}

} // verus!
