use vstd::prelude::*;
use crate::colour::Colour;

verus! {

/// Vendor identifier of the Tomu `usb_simple` device.
pub const VENDOR_ID: u16 = 0x1209;

/// Product identifier of the Tomu `usb_simple` device.
pub const PRODUCT_ID: u16 = 0x70b1;

/// The only request code the firmware defines.
pub const LED_REQUEST: u8 = 0;

/// The `index` field of the LED request; the firmware ignores it.
pub const LED_INDEX: u16 = 0;

/// Timeout applied to every control transfer, in milliseconds.
pub const TRANSFER_TIMEOUT_MS: u64 = 500;

/// The USB configuration selected on platforms where whole-device
/// control transfers are allowed.
pub const CONFIGURATION: u8 = 1;

/// The interface claimed on platforms that require interface-level
/// access for control transfers.
pub const INTERFACE: u8 = 0;

/// What enumeration yields of one USB device: the identifying pair
/// from its descriptor.
#[derive(Clone, Copy, Debug, PartialEq, Eq, Structural)]
pub struct DeviceInfo {
    pub vendor_id: u16,
    pub product_id: u16,
}

/// Whether a device carries the fixed vendor/product pair of the
/// `usb_simple` firmware.
pub open spec fn is_target_device(d: DeviceInfo) -> bool {
    d.vendor_id == VENDOR_ID && d.product_id == PRODUCT_ID
}

impl DeviceInfo {
    /// The filter predicate applied during enumeration.
    pub fn matches_target(&self) -> (r: bool)
        ensures
            r == is_target_device(*self),
    {
        self.vendor_id == VENDOR_ID && self.product_id == PRODUCT_ID
    }
}

/// The `bmRequestType` type field of a control transfer.
#[derive(Clone, Copy, Debug, PartialEq, Eq, Structural)]
pub enum ControlType {
    Standard,
    Class,
    Vendor,
}

/// The `bmRequestType` recipient field of a control transfer.
#[derive(Clone, Copy, Debug, PartialEq, Eq, Structural)]
pub enum Recipient {
    Device,
    Interface,
    Endpoint,
    Other,
}

/// A host-to-device control transfer, ready for the transport to issue
/// against the opened device with the given timeout.
#[derive(Debug, PartialEq, Eq)]
pub struct ControlOutRequest {
    pub control_type: ControlType,
    pub recipient: Recipient,
    pub request: u8,
    pub value: u16,
    pub index: u16,
    pub data: Vec<u8>,
    pub timeout_ms: u64,
}

/// The one transfer shape the firmware defines: a vendor request to the
/// device, request code 0, the LED state's encoding in the `value`
/// field, index 0, an empty data stage, and the fixed timeout.
pub open spec fn is_led_request(r: ControlOutRequest, c: Colour) -> bool {
    &&& r.control_type == ControlType::Vendor
    &&& r.recipient == Recipient::Device
    &&& r.request == LED_REQUEST
    &&& r.value == c.value_spec()
    &&& r.index == LED_INDEX
    &&& r.data@.len() == 0
    &&& r.timeout_ms == TRANSFER_TIMEOUT_MS
}

/// Two transfers built for the same LED state carry identical
/// parameters: the request is a function of the state alone, so
/// repeating a state repeats the exact same transfer.
pub proof fn lemma_same_colour_same_request(a: ControlOutRequest, b: ControlOutRequest, c: Colour)
    requires
        is_led_request(a, c),
        is_led_request(b, c),
    ensures
        a.control_type == b.control_type,
        a.recipient == b.recipient,
        a.request == b.request,
        a.value == b.value,
        a.index == b.index,
        a.data@ == b.data@,
        a.timeout_ms == b.timeout_ms,
{
    assert(a.data@ =~= b.data@);
}

} // verus!
