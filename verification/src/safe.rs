//! What each native call's return means.
//!
//! Every function here is named after the call that it reads and takes what
//! the native function gave back. Where a native function is called twice,
//! first to learn how much it has to say and then to have it said, the
//! function that ends in `_buffer` reads the first call and makes the buffer
//! for the second.

use vstd::prelude::*;
use vstd::utf8::*;
use crate::outcome::{answered, checked, is_answered, is_checked, Outcome};
use crate::text::{c_text, is_text_read, read_text, zeroed};
use crate::types::{Error, ErrorView, NeoDevice, NeoEvent, NeoMessage};

verus! {

/// The reading of the call that asks a native function how many entries it
/// has: a failure is read as [`is_checked`] says, a success gives `buffer`,
/// which has to hold `count` entries.
pub open spec fn is_buffer_outcome<T>(
    outcome: Outcome<Vec<T>>,
    success: bool,
    count: nat,
    message: Seq<char>,
) -> bool {
    if success {
        outcome matches Outcome::Settled(Ok(buffer)) && buffer@.len() == count
    } else {
        outcome.defers_to_error(ErrorView::CriticalError(message))
    }
}

/// Reads the call of `icsneo_getMessages` that asks how many messages wait,
/// and makes the buffer for them.
pub fn get_messages_buffer(success: bool, count: usize) -> (outcome: Outcome<Vec<NeoMessage>>)
    ensures
        is_buffer_outcome(
            outcome,
            success,
            count as nat,
            "Bug() get_last_error() should have had an error"@,
        ),
        success ==> NeoMessage::is_buffer(outcome->Settled_0->Ok_0@, count as nat),
{
    if success {
        Outcome::Settled(Ok(NeoMessage::buffer(count)))
    } else {
        checked(false, Vec::new(), "Bug() get_last_error() should have had an error")
    }
}

/// Reads the call of `icsneo_getMessages` that fills the buffer. The messages
/// are the whole buffer as it was made, however many of them the native
/// library wrote.
pub fn get_messages(success: bool, messages: Vec<NeoMessage>) -> (outcome: Outcome<
    Vec<NeoMessage>,
>)
    ensures
        is_checked(outcome, success, messages, "Bug() get_last_error() should have had an error"@),
{
    checked(success, messages, "Bug() get_last_error() should have had an error")
}

/// Reads the call that asks a native function for the length of a text, and
/// makes the buffer for the text: `count` bytes and one more for the zero byte
/// that ends it.
///
/// Asked for a length, a native function reports a failure. A reported success
/// is therefore an error.
pub fn text_buffer(success: bool, count: usize) -> (result: Result<Vec<u8>, Error>)
    requires
        !success ==> count < usize::MAX,
    ensures
        success ==> (result matches Err(error) && error@ == ErrorView::CriticalError(
            "icsneo_serialNumToString() failed to query length!"@,
        )),
        !success ==> (result matches Ok(buffer) && buffer@ == Seq::new(
            (count + 1) as nat,
            |i: int| 0u8,
        )),
{
    if success {
        Err(Error::CriticalError("icsneo_serialNumToString() failed to query length!".to_owned()))
    } else {
        Ok(zeroed(count + 1))
    }
}

/// The reading of the call that has a native function write a text to
/// `buffer`: on success the text in the buffer as [`is_text_read`] says, on
/// failure the event in the last-error slot, and the critical error `failure`
/// where the slot is empty.
pub open spec fn is_text_outcome(
    outcome: Outcome<String>,
    success: bool,
    buffer: Seq<u8>,
    failure: Seq<char>,
    complaint: Seq<char>,
) -> bool {
    if success {
        outcome matches Outcome::Settled(result) && is_text_read(result, buffer, complaint)
    } else {
        outcome.defers_to_error(ErrorView::CriticalError(failure))
    }
}

/// A call that has a text written gives a text exactly when the native
/// function reported success and the text in the buffer is UTF-8, and then
/// the text that the buffer holds. The last-error slot is read exactly when
/// the native function reported a failure, and has no say in a success.
pub proof fn lemma_text_outcome_gives_text_iff(
    outcome: Outcome<String>,
    success: bool,
    buffer: Seq<u8>,
    failure: Seq<char>,
    complaint: Seq<char>,
    last_error: Option<NeoEvent>,
)
    requires
        is_text_outcome(outcome, success, buffer, failure, complaint),
    ensures
        outcome.resolved(last_error) is Ok <==> success && valid_utf8(c_text(buffer)),
        outcome.resolved(last_error) matches Ok(text) ==> text@ == decode_utf8(c_text(buffer)),
        outcome is Deferred <==> !success,
{
}

fn text_outcome(success: bool, buffer: &[u8], failure: &str, complaint: &str) -> (outcome: Outcome<
    String,
>)
    ensures
        is_text_outcome(outcome, success, buffer@, failure@, complaint@),
{
    if success {
        Outcome::Settled(read_text(buffer, complaint))
    } else {
        Outcome::Deferred { otherwise: Err(Error::CriticalError(failure.to_owned())) }
    }
}

/// Reads the call of `icsneo_serialNumToString` that writes the serial number
/// to `buffer`.
pub fn serial_num_to_string(success: bool, buffer: &[u8]) -> (outcome: Outcome<String>)
    ensures
        is_text_outcome(
            outcome,
            success,
            buffer@,
            "icsneo_serialNumToString() failed to convert!"@,
            "Failed to convert serial number buffer to CString: "@,
        ),
{
    text_outcome(
        success,
        buffer,
        "icsneo_serialNumToString() failed to convert!",
        "Failed to convert serial number buffer to CString: ",
    )
}

/// Reads the call of `icsneo_describeDevice` that writes the description to
/// `buffer`.
pub fn describe_device(success: bool, buffer: &[u8]) -> (outcome: Outcome<String>)
    ensures
        is_text_outcome(
            outcome,
            success,
            buffer@,
            "icsneo_describeDevice() failed!"@,
            "Failed to device description buffer to CString: "@,
        ),
{
    text_outcome(
        success,
        buffer,
        "icsneo_describeDevice() failed!",
        "Failed to device description buffer to CString: ",
    )
}

/// Reads the call of `icsneo_getProductName` that writes the name to `buffer`.
pub fn get_product_name(success: bool, buffer: &[u8]) -> (outcome: Outcome<String>)
    ensures
        is_text_outcome(
            outcome,
            success,
            buffer@,
            "icsneo_getProductName() failed!"@,
            "Failed to device description buffer to CString: "@,
        ),
{
    text_outcome(
        success,
        buffer,
        "icsneo_getProductName() failed!",
        "Failed to device description buffer to CString: ",
    )
}

/// Reads the call of `icsneo_getProductNameForType` that writes the name to
/// `buffer`.
pub fn get_product_name_for_type(success: bool, buffer: &[u8]) -> (outcome: Outcome<String>)
    ensures
        is_text_outcome(
            outcome,
            success,
            buffer@,
            "icsneo_getProductNameForType() failed!"@,
            "Failed to device description buffer to CString: "@,
        ),
{
    text_outcome(
        success,
        buffer,
        "icsneo_getProductNameForType() failed!",
        "Failed to device description buffer to CString: ",
    )
}

/// Reads the call of `icsneo_getDeviceEvents` that asks how many events the
/// device has, and makes the buffer for them.
pub fn get_device_events_buffer(success: bool, count: usize) -> (outcome: Outcome<Vec<NeoEvent>>)
    ensures
        is_buffer_outcome(outcome, success, count as nat, "icsneo_getDeviceEvents() failed!"@),
        success ==> NeoEvent::is_buffer(outcome->Settled_0->Ok_0@, count as nat),
{
    if success {
        Outcome::Settled(Ok(NeoEvent::buffer(count)))
    } else {
        checked(false, Vec::new(), "icsneo_getDeviceEvents() failed!")
    }
}

/// Reads the call of `icsneo_getDeviceEvents` that fills the buffer.
pub fn get_device_events(success: bool, events: Vec<NeoEvent>) -> (outcome: Outcome<Vec<NeoEvent>>)
    ensures
        is_checked(outcome, success, events, "icsneo_getDeviceEvents() failed!"@),
{
    checked(success, events, "icsneo_getDeviceEvents() failed!")
}

/// Reads the call of `icsneo_getEvents` that asks how many events there are,
/// and makes the buffer for them.
pub fn get_events_buffer(success: bool, count: usize) -> (outcome: Outcome<Vec<NeoEvent>>)
    ensures
        is_buffer_outcome(outcome, success, count as nat, "icsneo_getEvents() failed!"@),
        success ==> NeoEvent::is_buffer(outcome->Settled_0->Ok_0@, count as nat),
{
    if success {
        Outcome::Settled(Ok(NeoEvent::buffer(count)))
    } else {
        checked(false, Vec::new(), "icsneo_getEvents() failed!")
    }
}

/// Reads the call of `icsneo_getEvents` that fills the buffer.
pub fn get_events(success: bool, events: Vec<NeoEvent>) -> (outcome: Outcome<Vec<NeoEvent>>)
    ensures
        is_checked(outcome, success, events, "icsneo_getEvents() failed!"@),
{
    checked(success, events, "icsneo_getEvents() failed!")
}

/// Reads the call of `icsneo_getSupportedDevices` that asks how many device
/// types there are, and makes the buffer for them, all zero.
pub fn get_supported_devices_buffer(success: bool, count: usize) -> (outcome: Outcome<Vec<u32>>)
    ensures
        is_buffer_outcome(outcome, success, count as nat, "icsneo_getSupportedDevices() failed!"@),
        success ==> outcome->Settled_0->Ok_0@ == Seq::new(count as nat, |i: int| 0u32),
{
    if success {
        let buffer = vec![0u32; count];
        assert(buffer@ =~= Seq::new(count as nat, |i: int| 0u32));
        Outcome::Settled(Ok(buffer))
    } else {
        checked(false, Vec::new(), "icsneo_getSupportedDevices() failed!")
    }
}

/// Reads the call of `icsneo_getSupportedDevices` that fills the buffer.
pub fn get_supported_devices(success: bool, device_types: Vec<u32>) -> (outcome: Outcome<Vec<u32>>)
    ensures
        is_checked(outcome, success, device_types, "icsneo_getSupportedDevices() failed!"@),
{
    checked(success, device_types, "icsneo_getSupportedDevices() failed!")
}

/// Reads the call of `icsneo_findAllDevices` that counts the devices, and
/// makes the buffer for them. The last-error slot is read whatever the count;
/// with the slot empty, no device is an error of its own.
pub fn find_all_devices_buffer(count: usize) -> (outcome: Outcome<Vec<NeoDevice>>)
    ensures
        count == 0 ==> outcome.defers_to_error(ErrorView::NoDevicesFound),
        count > 0 ==> (outcome matches Outcome::Deferred { otherwise: Ok(buffer) }
            && NeoDevice::is_buffer(buffer@, count as nat)),
{
    if count == 0 {
        Outcome::Deferred { otherwise: Err(Error::NoDevicesFound) }
    } else {
        Outcome::Deferred { otherwise: Ok(NeoDevice::buffer(count)) }
    }
}

/// Reads the call of `icsneo_findAllDevices` that fills the buffer. `found` is
/// the count that this call reported. Where it is zero, that is the error and
/// the last-error slot is left alone; otherwise the slot is read, and the
/// devices are the whole buffer as it was made.
pub fn find_all_devices(found: usize, devices: Vec<NeoDevice>) -> (outcome: Outcome<Vec<NeoDevice>>)
    ensures
        found == 0 ==> outcome.settles_on_error(ErrorView::NoDevicesFound),
        found > 0 ==> outcome.defers_to(devices),
{
    if found == 0 {
        Outcome::Settled(Err(Error::NoDevicesFound))
    } else {
        Outcome::Deferred { otherwise: Ok(devices) }
    }
}

/// Reads what `icsneo_getLastError` gave: the event that it wrote, where it
/// reported one.
pub fn get_last_error(reported: bool, event: NeoEvent) -> (last_error: Option<NeoEvent>)
    ensures
        last_error == if reported {
            Some(event)
        } else {
            None
        },
{
    if reported {
        Some(event)
    } else {
        None
    }
}

/// Reads the return of `icsneo_openDevice`.
pub fn open_device(success: bool) -> (outcome: Outcome<()>)
    ensures
        is_checked(outcome, success, (), "Bug() get_last_error() should have had an error"@),
{
    checked(success, (), "Bug() get_last_error() should have had an error")
}

/// Reads the return of `icsneo_closeDevice`.
pub fn close_device(success: bool) -> (outcome: Outcome<()>)
    ensures
        is_checked(outcome, success, (), "Bug: get_last_error() should have had errors."@),
{
    checked(success, (), "Bug: get_last_error() should have had errors.")
}

/// Reads the return of `icsneo_isOpen` as that of a call that fails where it
/// returns `false`: a device that is not open is an error.
pub fn is_open(open: bool) -> (outcome: Outcome<bool>)
    ensures
        is_checked(outcome, open, true, "Bug: get_last_error() should have had errors."@),
{
    checked(open, open, "Bug: get_last_error() should have had errors.")
}

/// Reads the return of `icsneo_goOnline`.
pub fn go_online(success: bool) -> (outcome: Outcome<()>)
    ensures
        is_checked(outcome, success, (), "Couldn't go online"@),
{
    checked(success, (), "Couldn't go online")
}

/// Reads the return of `icsneo_goOffline`.
pub fn go_offline(success: bool) -> (outcome: Outcome<()>)
    ensures
        is_checked(outcome, success, (), "Couldn't go offline"@),
{
    checked(success, (), "Couldn't go offline")
}

/// Reads the return of `icsneo_isOnline`: a device that is not online is no
/// error unless the native library left an event.
pub fn is_online(online: bool) -> (outcome: Outcome<bool>)
    ensures
        is_answered(outcome, online),
{
    answered(online)
}

/// Reads the return of `icsneo_getPollingMessageLimit`, which is the limit, or
/// -1 for a device that the native library does not know.
pub fn get_polling_message_limit(count: i32) -> (result: Result<i32, Error>)
    ensures
        count == -1 ==> (result matches Err(error) && error@ == ErrorView::DeviceInvalid),
        count != -1 ==> result == Ok::<i32, Error>(count),
{
    if count == -1 {
        Err(Error::DeviceInvalid)
    } else {
        Ok(count)
    }
}

/// Reads the return of `icsneo_setPollingMessageLimit`.
pub fn set_polling_message_limit(success: bool) -> (outcome: Outcome<()>)
    ensures
        is_checked(outcome, success, (), "Bug: get_last_error() should have had errors"@),
{
    checked(success, (), "Bug: get_last_error() should have had errors")
}

/// Reads the return of `icsneo_transmit`.
pub fn transmit(success: bool) -> (outcome: Outcome<()>)
    ensures
        is_checked(outcome, success, (), "Bug: get_last_error() should have had errors"@),
{
    checked(success, (), "Bug: get_last_error() should have had errors")
}

/// Reads the return of `icsneo_transmitMessages`.
pub fn transmit_messages(success: bool) -> (outcome: Outcome<()>)
    ensures
        is_checked(outcome, success, (), "Bug: get_last_error() should have had errors"@),
{
    checked(success, (), "Bug: get_last_error() should have had errors")
}

/// Reads the return of `icsneo_getTimestampResolution` and the resolution that
/// it wrote.
pub fn get_timestamp_resolution(success: bool, resolution: u16) -> (outcome: Outcome<u16>)
    ensures
        is_checked(outcome, success, resolution, "icsneo_getTimestampResolution() failed!"@),
{
    checked(success, resolution, "icsneo_getTimestampResolution() failed!")
}

/// Reads the return of `icsneo_getDigitalIO` and the level that it wrote.
pub fn get_digital_io(success: bool, value: bool) -> (outcome: Outcome<bool>)
    ensures
        is_checked(outcome, success, value, "icsneo_getDigitalIO() failed!"@),
{
    checked(success, value, "icsneo_getDigitalIO() failed!")
}

/// Reads the return of `icsneo_setDigitalIO`.
pub fn set_digital_io(success: bool) -> (outcome: Outcome<()>)
    ensures
        is_checked(outcome, success, (), "icsneo_setDigitalIO() failed!"@),
{
    checked(success, (), "icsneo_setDigitalIO() failed!")
}

} // verus!
