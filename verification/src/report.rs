//! How errors and devices are shown to a reader.

use vstd::prelude::*;
use vstd::string::*;
use crate::types::{Error, NeoDevice, NeoEvent};

verus! {

/// An event as `{:#?}` prints it: its fields, one on each line.
pub uninterp spec fn event_debug_text(event: NeoEvent) -> Seq<char>;

/// The standard library's pretty debug format of an event. What the format
/// looks like is the standard library's affair, so its result is left as a
/// name.
#[verifier::external_body]
fn event_debug(event: &NeoEvent) -> (text: String)
    ensures
        text@ == event_debug_text(*event),
{
    format!("{:#?}", event)
}

impl Error {
    /// The words of an error.
    pub open spec fn message_text(self) -> Seq<char> {
        match self {
            Error::NoDevicesFound => "No Devices Found!"@,
            Error::ErrorOccurred(event) => "Error Occurred: ("@ + event_debug_text(event) + ")"@,
            Error::CriticalError(text) => "Critical Error: "@ + text@,
            Error::DeviceInvalid => "Device Invalid"@,
        }
    }

    /// Puts an error into words.
    pub fn message(&self) -> (text: String)
        ensures
            text@ == self.message_text(),
    {
        match self {
            Error::NoDevicesFound => "No Devices Found!".to_owned(),
            Error::ErrorOccurred(event) => {
                let mut text = "Error Occurred: (".to_owned();
                text.append(event_debug(event).as_str());
                text.append(")");
                text
            },
            Error::CriticalError(critical) => {
                let mut text = "Critical Error: ".to_owned();
                text.append(critical.as_str());
                text
            },
            Error::DeviceInvalid => "Device Invalid".to_owned(),
        }
    }
}

impl NeoDevice {
    /// A device as a debugger shows it, given the description that the native
    /// library has of it.
    pub fn to_repr(description: &str) -> (text: String)
        ensures
            text@ == "<NeoDevice "@ + description@,
    {
        let mut text = "<NeoDevice ".to_owned();
        text.append(description);
        text
    }
}

} // verus!
