//! The readings of `libicsneo::safe`, driven by a stand-in for the native
//! library.

use libicsneo::outcome::{answered, checked, Outcome};
use libicsneo::safe::{
    close_device, describe_device, find_all_devices, find_all_devices_buffer, get_device_events,
    get_device_events_buffer, get_digital_io, get_events, get_events_buffer, get_last_error,
    get_messages, get_messages_buffer, get_polling_message_limit, get_product_name,
    get_product_name_for_type, get_supported_devices, get_supported_devices_buffer,
    get_timestamp_resolution, go_offline, go_online, is_online, is_open, open_device,
    serial_num_to_string, set_digital_io, set_polling_message_limit, text_buffer, transmit,
    transmit_messages,
};
use libicsneo::text::c_string;
use libicsneo::types::{Error, NeoDevice, NeoEvent, NeoMessage};

/// What the native library would write for a serial number.
fn native_serial_text(num: u32) -> &'static str {
    match num {
        50000 => "50000",
        783132957 => "CY9999",
        _ => "",
    }
}

/// What the native library would make of a serial number's text.
fn native_serial_num(text: &[u8]) -> u32 {
    match text {
        b"50000\0" => 50000,
        b"CY9999\0" => 783132957,
        _ => u32::MAX,
    }
}

/// Stands in for `icsneo_serialNumToString`: without a buffer it reports the
/// length and fails; with one it writes the text and a zero byte.
fn native_serial_num_to_string(num: u32, buffer: Option<&mut Vec<u8>>, count: &mut usize) -> bool {
    let text = native_serial_text(num).as_bytes();
    match buffer {
        None => {
            *count = text.len();
            false
        }
        Some(buffer) => {
            if buffer.len() <= text.len() {
                return false;
            }
            buffer[..text.len()].copy_from_slice(text);
            buffer[text.len()] = 0;
            *count = text.len();
            true
        }
    }
}

/// Reads the last-error slot where the outcome asks for it, and only then.
fn conclude<T>(outcome: Outcome<T>, slot: &mut Option<NeoEvent>) -> Result<T, Error> {
    if outcome.is_deferred() {
        outcome.resolve(slot.take())
    } else {
        outcome.resolve(None)
    }
}

fn run_serial_num_to_string(num: u32) -> Result<String, Error> {
    let mut slot = None;
    let mut count = 0usize;
    let success = native_serial_num_to_string(num, None, &mut count);
    let mut buffer = text_buffer(success, count)?;
    let success = native_serial_num_to_string(num, Some(&mut buffer), &mut count);
    conclude(serial_num_to_string(success, &buffer), &mut slot)
}

fn run_serial_string_to_num(serial_str: &str) -> u32 {
    let serial = c_string(serial_str).unwrap();
    native_serial_num(&serial)
}

fn event(number: u32) -> NeoEvent {
    let mut event = NeoEvent::new();
    event.event_number = number;
    event.severity = 0x30;
    event
}

fn critical(text: &str) -> Error {
    Error::CriticalError(text.to_string())
}

#[test]
fn safe_test_serial_num_to_string() {
    let result = run_serial_num_to_string(50000);
    assert_eq!("50000".to_string(), result.unwrap());

    let result = run_serial_num_to_string(783132957);
    assert_eq!("CY9999".to_string(), result.unwrap());
}

#[test]
fn safe_test_serial_string_to_num() {
    assert_eq!(50000, run_serial_string_to_num("50000"));
    assert_eq!(783132957, run_serial_string_to_num("CY9999"));
}

#[test]
fn safe_test_get_last_error() {
    assert!(get_last_error(false, NeoEvent::new()).is_none());
}

#[test]
fn get_last_error_gives_the_reported_event() {
    assert_eq!(get_last_error(true, event(7)), Some(event(7)));
    assert_eq!(get_last_error(false, event(7)), None);
}

#[test]
fn safe_test_find_all_devices() {
    // No device is connected: the count is zero, the slot is empty.
    let mut slot = None;
    match conclude(find_all_devices_buffer(0), &mut slot) {
        Err(e) => match e {
            Error::NoDevicesFound => assert!(true),
            _ => assert!(false),
        },
        _ => assert!(false),
    };
    // Two devices are connected.
    let buffer = conclude(find_all_devices_buffer(2), &mut slot).unwrap();
    assert_eq!(buffer, vec![NeoDevice::new(), NeoDevice::new()]);
    let mut devices = buffer;
    devices[0].handle = 11;
    devices[1].handle = 12;
    match conclude(find_all_devices(2, devices.clone()), &mut slot) {
        Ok(found) => assert_eq!(found, devices),
        _ => assert!(false),
    };
}

#[test]
fn find_all_devices_reads_the_slot_whatever_the_count() {
    assert!(find_all_devices_buffer(0).is_deferred());
    assert!(find_all_devices_buffer(3).is_deferred());
    assert_eq!(
        find_all_devices_buffer(3).resolve(Some(event(1))),
        Err(Error::ErrorOccurred(event(1)))
    );
    assert_eq!(
        find_all_devices_buffer(0).resolve(Some(event(1))),
        Err(Error::ErrorOccurred(event(1)))
    );
}

#[test]
fn find_all_devices_with_none_written_leaves_the_slot_alone() {
    let outcome = find_all_devices(0, vec![NeoDevice::new()]);
    assert!(!outcome.is_deferred());
    assert_eq!(outcome.resolve(Some(event(1))), Err(Error::NoDevicesFound));
    let outcome = find_all_devices(1, vec![NeoDevice::new()]);
    assert!(outcome.is_deferred());
    assert_eq!(outcome.resolve(Some(event(1))), Err(Error::ErrorOccurred(event(1))));
}

#[test]
#[should_panic]
fn test_is_open() {
    // The native call answers `false` for a device that it does not know and
    // leaves no event: that is an error, and unwrapping it panics.
    let mut slot = None;
    assert_eq!(conclude(is_open(false), &mut slot).unwrap(), false);
}

#[test]
fn is_open_is_true_or_an_error() {
    assert_eq!(is_open(true), Outcome::Settled(Ok(true)));
    assert_eq!(
        is_open(false).resolve(None),
        Err(critical("Bug: get_last_error() should have had errors."))
    );
    assert_eq!(is_open(false).resolve(Some(event(2))), Err(Error::ErrorOccurred(event(2))));
}

#[test]
fn test_open_device() {
    assert_eq!(open_device(true), Outcome::Settled(Ok(())));
    assert_eq!(
        open_device(false),
        Outcome::Deferred {
            otherwise: Err(critical("Bug() get_last_error() should have had an error"))
        }
    );
    assert_eq!(open_device(false).resolve(Some(event(3))), Err(Error::ErrorOccurred(event(3))));
}

#[test]
fn test_close_device() {
    assert_eq!(close_device(true), Outcome::Settled(Ok(())));
    assert_eq!(
        close_device(false).resolve(None),
        Err(critical("Bug: get_last_error() should have had errors."))
    );
}

#[test]
fn test_online() {
    assert_eq!(go_online(true).resolve(None), Ok(()));
    assert_eq!(go_online(false).resolve(None), Err(critical("Couldn't go online")));
    assert_eq!(go_offline(true).resolve(None), Ok(()));
    assert_eq!(go_offline(false).resolve(None), Err(critical("Couldn't go offline")));
    assert_eq!(is_online(true), Outcome::Settled(Ok(true)));
    assert_eq!(is_online(false), Outcome::Deferred { otherwise: Ok(false) });
    assert_eq!(is_online(false).resolve(None), Ok(false));
    assert_eq!(is_online(false).resolve(Some(event(4))), Err(Error::ErrorOccurred(event(4))));
}

#[test]
fn a_settled_outcome_leaves_the_slot_alone() {
    let mut slot = Some(event(9));
    assert_eq!(conclude(open_device(true), &mut slot), Ok(()));
    assert_eq!(slot, Some(event(9)));
    assert_eq!(conclude(open_device(false), &mut slot), Err(Error::ErrorOccurred(event(9))));
    assert_eq!(slot, None);
}

#[test]
fn checked_and_answered_read_as_they_say() {
    assert_eq!(checked(true, 5u16, "failed"), Outcome::Settled(Ok(5u16)));
    assert_eq!(
        checked(false, 5u16, "failed"),
        Outcome::Deferred { otherwise: Err(critical("failed")) }
    );
    assert_eq!(answered(true), Outcome::Settled(Ok(true)));
    assert_eq!(answered(false), Outcome::Deferred { otherwise: Ok(false) });
    assert!(!checked(true, (), "failed").is_deferred());
    assert!(checked(false, (), "failed").is_deferred());
}

#[test]
fn polling_message_limit_is_the_count_unless_minus_one() {
    assert_eq!(get_polling_message_limit(-1), Err(Error::DeviceInvalid));
    assert_eq!(get_polling_message_limit(0), Ok(0));
    assert_eq!(get_polling_message_limit(20000), Ok(20000));
    assert_eq!(get_polling_message_limit(-2), Ok(-2));
}

#[test]
fn status_calls_carry_their_own_words() {
    let words = "Bug: get_last_error() should have had errors";
    assert_eq!(set_polling_message_limit(false).resolve(None), Err(critical(words)));
    assert_eq!(transmit(false).resolve(None), Err(critical(words)));
    assert_eq!(transmit_messages(false).resolve(None), Err(critical(words)));
    assert_eq!(set_polling_message_limit(true).resolve(None), Ok(()));
    assert_eq!(transmit(true).resolve(None), Ok(()));
    assert_eq!(transmit_messages(true).resolve(None), Ok(()));
    assert_eq!(get_timestamp_resolution(true, 25).resolve(None), Ok(25));
    assert_eq!(
        get_timestamp_resolution(false, 25).resolve(None),
        Err(critical("icsneo_getTimestampResolution() failed!"))
    );
    assert_eq!(get_digital_io(true, true).resolve(None), Ok(true));
    assert_eq!(get_digital_io(true, false).resolve(None), Ok(false));
    assert_eq!(
        get_digital_io(false, true).resolve(None),
        Err(critical("icsneo_getDigitalIO() failed!"))
    );
    assert_eq!(set_digital_io(true).resolve(None), Ok(()));
    assert_eq!(
        set_digital_io(false).resolve(None),
        Err(critical("icsneo_setDigitalIO() failed!"))
    );
}

#[test]
fn text_buffer_has_room_for_the_zero_byte() {
    assert_eq!(text_buffer(false, 6), Ok(vec![0u8; 7]));
    assert_eq!(text_buffer(false, 0), Ok(vec![0u8; 1]));
    assert_eq!(
        text_buffer(true, 6),
        Err(critical("icsneo_serialNumToString() failed to query length!"))
    );
}

#[test]
fn text_calls_read_the_buffer_or_fail_in_their_own_words() {
    assert_eq!(
        describe_device(true, b"neoVI FIRE 2 CY9999\0\0").resolve(None),
        Ok("neoVI FIRE 2 CY9999".to_string())
    );
    assert_eq!(
        describe_device(false, b"\0").resolve(None),
        Err(critical("icsneo_describeDevice() failed!"))
    );
    assert_eq!(
        get_product_name(true, b"ValueCAN 4-2\0").resolve(None),
        Ok("ValueCAN 4-2".to_string())
    );
    assert_eq!(
        get_product_name(false, b"\0").resolve(None),
        Err(critical("icsneo_getProductName() failed!"))
    );
    assert_eq!(
        get_product_name_for_type(true, b"RAD-Galaxy\0").resolve(None),
        Ok("RAD-Galaxy".to_string())
    );
    assert_eq!(
        get_product_name_for_type(false, b"\0").resolve(Some(event(5))),
        Err(Error::ErrorOccurred(event(5)))
    );
    assert_eq!(
        serial_num_to_string(false, b"\0").resolve(None),
        Err(critical("icsneo_serialNumToString() failed to convert!"))
    );
    assert!(!describe_device(true, b"x\0").is_deferred());
    assert!(describe_device(false, b"x\0").is_deferred());
}

#[test]
fn a_text_that_is_not_utf8_is_a_critical_error() {
    assert_eq!(
        serial_num_to_string(true, &[b'C', 0xff, b'9', 0]).resolve(None),
        Err(critical(
            "Failed to convert serial number buffer to CString: invalid utf-8 sequence of 1 bytes from index 1"
        ))
    );
    assert_eq!(
        describe_device(true, &[0xe2, 0x82, 0]).resolve(None),
        Err(critical(
            "Failed to device description buffer to CString: incomplete utf-8 byte sequence from index 0"
        ))
    );
}

#[test]
fn buffers_are_zeroed_and_of_the_count_reported() {
    assert_eq!(
        get_messages_buffer(true, 3).resolve(None),
        Ok(vec![NeoMessage::new(), NeoMessage::new(), NeoMessage::new()])
    );
    assert_eq!(get_messages_buffer(true, 0).resolve(None), Ok(vec![]));
    assert_eq!(
        get_messages_buffer(false, 3).resolve(None),
        Err(critical("Bug() get_last_error() should have had an error"))
    );
    assert_eq!(
        get_events_buffer(true, 2).resolve(None),
        Ok(vec![NeoEvent::new(), NeoEvent::new()])
    );
    assert_eq!(
        get_events_buffer(false, 2).resolve(None),
        Err(critical("icsneo_getEvents() failed!"))
    );
    assert_eq!(get_device_events_buffer(true, 1).resolve(None), Ok(vec![NeoEvent::new()]));
    assert_eq!(
        get_device_events_buffer(false, 1).resolve(None),
        Err(critical("icsneo_getDeviceEvents() failed!"))
    );
    assert_eq!(get_supported_devices_buffer(true, 4).resolve(None), Ok(vec![0u32; 4]));
    assert_eq!(
        get_supported_devices_buffer(false, 4).resolve(None),
        Err(critical("icsneo_getSupportedDevices() failed!"))
    );
    let zero = NeoMessage::new();
    assert_eq!(zero.timestamp, 0);
    assert_eq!(zero.message_type, 0);
    assert_eq!(zero.reserved2, [0u8; 26]);
}

#[test]
fn filled_buffers_come_back_whole() {
    let mut messages = vec![NeoMessage::new(), NeoMessage::new()];
    messages[0].timestamp = 1234;
    messages[0].message_type = 1;
    assert_eq!(get_messages(true, messages.clone()).resolve(None), Ok(messages.clone()));
    assert_eq!(
        get_messages(false, messages).resolve(Some(event(6))),
        Err(Error::ErrorOccurred(event(6)))
    );
    let events = vec![event(1), NeoEvent::new()];
    assert_eq!(get_events(true, events.clone()).resolve(None), Ok(events.clone()));
    assert_eq!(
        get_events(false, events.clone()).resolve(None),
        Err(critical("icsneo_getEvents() failed!"))
    );
    assert_eq!(get_device_events(true, events.clone()).resolve(None), Ok(events.clone()));
    assert_eq!(
        get_device_events(false, events).resolve(None),
        Err(critical("icsneo_getDeviceEvents() failed!"))
    );
    assert_eq!(get_supported_devices(true, vec![1, 8, 0]).resolve(None), Ok(vec![1, 8, 0]));
    assert_eq!(
        get_supported_devices(false, vec![1, 8, 0]).resolve(None),
        Err(critical("icsneo_getSupportedDevices() failed!"))
    );
}
