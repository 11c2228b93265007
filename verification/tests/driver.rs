use tomu_usb_simple_client::colour::Colour;
use tomu_usb_simple_client::driver::TomuUsbSimple;
use tomu_usb_simple_client::error::Error;
use tomu_usb_simple_client::usb::ControlOutRequest;
use tomu_usb_simple_client::usb::ControlType;
use tomu_usb_simple_client::usb::DeviceInfo;
use tomu_usb_simple_client::usb::Recipient;
use tomu_usb_simple_client::usb::CONFIGURATION;
use tomu_usb_simple_client::usb::INTERFACE;
use tomu_usb_simple_client::usb::PRODUCT_ID;
use tomu_usb_simple_client::usb::TRANSFER_TIMEOUT_MS;
use tomu_usb_simple_client::usb::VENDOR_ID;

fn target() -> DeviceInfo {
    DeviceInfo {
        vendor_id: 0x1209,
        product_id: 0x70b1,
    }
}

fn bystander(vendor_id: u16, product_id: u16) -> DeviceInfo {
    DeviceInfo {
        vendor_id,
        product_id,
    }
}

fn check_led_request(req: &ControlOutRequest, value: u16) {
    assert_eq!(req.control_type, ControlType::Vendor);
    assert_eq!(req.recipient, Recipient::Device);
    assert_eq!(req.request, 0u8);
    assert_eq!(req.value, value);
    assert_eq!(req.index, 0u16);
    assert!(req.data.is_empty());
    assert_eq!(req.timeout_ms, 500u64);
}

#[test]
fn colour_encodings_are_fixed() {
    assert_eq!(Colour::Off.value(), 0);
    assert_eq!(Colour::Green.value(), 1);
    assert_eq!(Colour::Red.value(), 2);
    assert_eq!(Colour::Both.value(), 3);
}

#[test]
fn colour_encoding_round_trips() {
    for colour in [Colour::Off, Colour::Green, Colour::Red, Colour::Both] {
        assert_eq!(Colour::from_value(colour.value()), Some(colour));
    }
    for value in 0u16..4 {
        assert_eq!(Colour::from_value(value).expect("decodes").value(), value);
    }
}

#[test]
fn colour_decoding_rejects_unknown_values() {
    assert_eq!(Colour::from_value(4), None);
    assert_eq!(Colour::from_value(255), None);
    assert_eq!(Colour::from_value(u16::MAX), None);
}

#[test]
fn wire_constants() {
    assert_eq!(VENDOR_ID, 0x1209);
    assert_eq!(PRODUCT_ID, 0x70b1);
    assert_eq!(TRANSFER_TIMEOUT_MS, 500);
    assert_eq!(CONFIGURATION, 1);
    assert_eq!(INTERFACE, 0);
}

#[test]
fn open_with_no_devices_is_device_not_found() {
    let r = TomuUsbSimple::open(Ok(Vec::new()));
    assert!(matches!(r, Err(Error::DeviceNotFound)));
}

#[test]
fn open_with_no_matching_device_is_device_not_found() {
    let devices = vec![
        bystander(0x1209, 0x0001),
        bystander(0xffff, 0x70b1),
        bystander(0x046d, 0xc077),
    ];
    let r = TomuUsbSimple::open(Ok(devices));
    assert!(matches!(r, Err(Error::DeviceNotFound)));
}

#[test]
fn open_when_enumeration_fails_is_transport_error() {
    let r = TomuUsbSimple::open(Err(String::from("permission denied")));
    match r {
        Err(Error::TransportError(cause)) => assert_eq!(cause, "permission denied"),
        other => panic!("expected a transport error, got {:?}", other.map(|p| p.1)),
    }
}

#[test]
fn open_selects_the_first_matching_device() {
    let devices = vec![
        bystander(0x1209, 0x0001),
        target(),
        target(),
        bystander(0xffff, 0xffff),
    ];
    let (_, index) = TomuUsbSimple::open(Ok(devices)).expect("a device matches");
    assert_eq!(index, 1);
}

#[test]
fn led_builds_the_fixed_vendor_request_for_every_state() {
    let (mut handle, _) = TomuUsbSimple::open(Ok(vec![target()])).expect("a device matches");
    for (colour, value) in [
        (Colour::Off, 0u16),
        (Colour::Green, 1u16),
        (Colour::Red, 2u16),
        (Colour::Both, 3u16),
    ] {
        let req = handle.led(colour);
        check_led_request(&req, value);
    }
}

#[test]
fn led_repeats_the_identical_transfer_without_deduplication() {
    let (mut handle, _) = TomuUsbSimple::open(Ok(vec![target()])).expect("a device matches");
    let first = handle.led(Colour::Green);
    let second = handle.led(Colour::Green);
    assert_eq!(first, second);
    check_led_request(&first, 1);
    check_led_request(&second, 1);
}

#[test]
fn led_scenario_red_both_off() {
    let (mut handle, index) = TomuUsbSimple::open(Ok(vec![target()])).expect("a device matches");
    assert_eq!(index, 0);
    assert_eq!(handle.led(Colour::Red).value, 2);
    assert_eq!(handle.led(Colour::Both).value, 3);
    assert_eq!(handle.led(Colour::Off).value, 0);
}

#[test]
fn error_messages_name_the_kind_and_keep_the_cause() {
    let not_found = Error::DeviceNotFound;
    assert_eq!(not_found.kind_message(), "Device not found");
    assert_eq!(not_found.cause(), None);

    let transport = Error::TransportError(String::from("no usb stack"));
    assert_eq!(transport.kind_message(), "USB error");
    assert_eq!(transport.cause().map(String::as_str), Some("no usb stack"));

    let transfer = Error::TransferError(String::from("transfer timed out"));
    assert_eq!(transfer.kind_message(), "USB transfer error");
    assert_eq!(transfer.cause().map(String::as_str), Some("transfer timed out"));
}
