//! The later reading of the native calls.
//!
//! It differs from that of [`crate::safe`] in three calls: finding no device
//! is no error, a device that is not open is no error, and whether a device is
//! valid is asked with a look at the last-error slot. The other calls are read
//! alike and are the same functions.

use vstd::prelude::*;
use crate::outcome::{answered, is_answered, Outcome};
use crate::types::NeoDevice;

pub use crate::safe::{
    close_device, describe_device, get_device_events, get_device_events_buffer, get_digital_io,
    get_events, get_events_buffer, get_last_error, get_messages, get_messages_buffer,
    get_polling_message_limit, get_product_name, get_product_name_for_type,
    get_supported_devices, get_supported_devices_buffer, get_timestamp_resolution, go_offline,
    go_online, is_online, open_device, serial_num_to_string, set_digital_io,
    set_polling_message_limit, text_buffer, transmit, transmit_messages,
};

verus! {

/// Reads the call of `icsneo_findAllDevices` that counts the devices, and
/// makes the buffer for them. The last-error slot is read whatever the count.
pub fn find_all_devices_buffer(count: usize) -> (outcome: Outcome<Vec<NeoDevice>>)
    ensures
        outcome matches Outcome::Deferred { otherwise: Ok(buffer) } && NeoDevice::is_buffer(
            buffer@,
            count as nat,
        ),
{
    Outcome::Deferred { otherwise: Ok(NeoDevice::buffer(count)) }
}

/// Reads the call of `icsneo_findAllDevices` that fills the buffer. The
/// last-error slot is read; the devices are the whole buffer as it was made.
pub fn find_all_devices(devices: Vec<NeoDevice>) -> (outcome: Outcome<Vec<NeoDevice>>)
    ensures
        outcome.defers_to(devices),
{
    Outcome::Deferred { otherwise: Ok(devices) }
}

/// Reads the return of `icsneo_isValidNeoDevice`. The last-error slot is read
/// whatever the answer.
pub fn is_valid_neodevice(valid: bool) -> (outcome: Outcome<bool>)
    ensures
        outcome.defers_to(valid),
{
    Outcome::Deferred { otherwise: Ok(valid) }
}

/// Reads the return of `icsneo_isOpen`: a device that is not open is no error
/// unless the native library left an event.
pub fn is_open(open: bool) -> (outcome: Outcome<bool>)
    ensures
        is_answered(outcome, open),
{
    answered(open)
}

} // verus!
