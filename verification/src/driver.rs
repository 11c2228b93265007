use vstd::prelude::*;
use crate::colour::Colour;
use crate::error::Error;
use crate::usb::ControlOutRequest;
use crate::usb::ControlType;
use crate::usb::DeviceInfo;
use crate::usb::Recipient;
use crate::usb::LED_INDEX;
use crate::usb::LED_REQUEST;
use crate::usb::TRANSFER_TIMEOUT_MS;
use crate::usb::is_led_request;
use crate::usb::is_target_device;

verus! {

/// No device before index `i` of the enumeration carries the target
/// vendor/product pair.
pub open spec fn no_target_before(devices: Seq<DeviceInfo>, i: int) -> bool {
    forall|j: int| 0 <= j < i ==> !is_target_device(devices[j])
}

/// A connection to the Tomu `usb_simple` firmware.
///
/// The handle is the decision core of the driver: `open` turns what
/// enumeration yielded into either the device to open or the error the
/// attempt ends with, and `led` builds the one control transfer that
/// sets the LEDs. The transport that actually enumerates, opens the
/// device and issues the transfers sits outside; the handle records in
/// ghost state the LED states it has built transfers for, in order, so
/// that each call is pinned to exactly one fresh transfer.
pub struct TomuUsbSimple {
    issued: Ghost<Seq<Colour>>,
}

impl TomuUsbSimple {
    /// The LED states this handle has built transfers for, oldest first.
    pub closed spec fn issued(self) -> Seq<Colour> {
        self.issued@
    }

    /// Decide the outcome of an open attempt from what enumeration
    /// yielded.
    ///
    /// A single enumeration pass and no retry: if enumeration itself
    /// failed, the attempt ends with `TransportError` wrapping the
    /// cause; if no device matched the fixed vendor/product pair, with
    /// `DeviceNotFound`; otherwise the first matching device is
    /// selected, and its index is returned beside the fresh handle for
    /// the transport to open and set up.
    pub fn open(enumeration: Result<Vec<DeviceInfo>, String>) -> (r: Result<
        (TomuUsbSimple, usize),
        Error,
    >)
        ensures
            match enumeration {
                Ok(devices) => match r {
                    Ok(p) => {
                        &&& p.1 < devices@.len()
                        &&& is_target_device(devices@[p.1 as int])
                        &&& no_target_before(devices@, p.1 as int)
                        &&& p.0.issued() == Seq::<Colour>::empty()
                    },
                    Err(e) => e is DeviceNotFound && no_target_before(
                        devices@,
                        devices@.len() as int,
                    ),
                },
                Err(cause) => (r matches Err(e) && e matches Error::TransportError(c) && c@
                    == cause@),
            },
    {
        match enumeration {
            Ok(devices) => {
                let mut i: usize = 0;
                while i < devices.len()
                    invariant
                        enumeration == Ok::<Vec<DeviceInfo>, String>(devices),
                        i <= devices.len(),
                        no_target_before(devices@, i as int),
                    decreases devices.len() - i,
                {
                    if devices[i].matches_target() {
                        let handle = TomuUsbSimple { issued: Ghost(Seq::empty()) };
                        proof {
                            assert(handle.issued() =~= Seq::<Colour>::empty());
                        }
                        return Ok((handle, i));
                    }
                    i = i + 1;
                }
                Err(Error::DeviceNotFound)
            },
            Err(cause) => Err(Error::TransportError(cause)),
        }
    }

    /// Build the control transfer that sets the LEDs to `colour`.
    ///
    /// Every call yields exactly one fresh transfer with the fixed
    /// wire parameters — vendor request to the device, request code 0,
    /// the state's encoding as the `value` field, index 0, empty data
    /// stage, 500 ms timeout. Nothing is cached or deduplicated:
    /// repeating a state appends one more identical transfer.
    pub fn led(&mut self, colour: Colour) -> (r: ControlOutRequest)
        ensures
            is_led_request(r, colour),
            final(self).issued() == old(self).issued().push(colour),
    {
        let ghost previous = self.issued@;
        let r = ControlOutRequest {
            control_type: ControlType::Vendor,
            recipient: Recipient::Device,
            request: LED_REQUEST,
            value: colour.value(),
            index: LED_INDEX,
            data: Vec::new(),
            timeout_ms: TRANSFER_TIMEOUT_MS,
        };
        self.issued = Ghost(previous.push(colour));
        r
    }
}

} // verus!
