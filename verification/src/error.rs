use vstd::prelude::*;

verus! {

/// The driver's error taxonomy. Exactly three kinds; no failure is
/// swallowed or retried, every one surfaces to the caller.
#[derive(Debug, PartialEq, Eq)]
pub enum Error {
    /// Enumeration completed but no device matched the fixed
    /// vendor/product pair.
    DeviceNotFound,
    /// Failure at the USB stack level during enumeration, opening,
    /// configuration selection or interface claiming; carries the
    /// underlying cause.
    TransportError(String),
    /// Failure of a specific control transfer (timeout, stall, device
    /// disconnected); carries the underlying cause.
    TransferError(String),
}

impl Error {
    /// A short human-readable description of the error's kind; the
    /// wrapped cause, where there is one, is reached through `cause`.
    pub fn kind_message(&self) -> (r: &'static str)
        ensures
            self is DeviceNotFound ==> r@ == "Device not found"@,
            self is TransportError ==> r@ == "USB error"@,
            self is TransferError ==> r@ == "USB transfer error"@,
    {
        match self {
            Error::DeviceNotFound => "Device not found",
            Error::TransportError(_) => "USB error",
            Error::TransferError(_) => "USB transfer error",
        }
    }

    /// The wrapped underlying cause, where there is one: only
    /// `DeviceNotFound` carries none.
    pub fn cause(&self) -> (r: Option<&String>)
        ensures
            self is DeviceNotFound <==> r is None,
            self matches Error::TransportError(t) ==> (r matches Some(c) && c@ == t@),
            self matches Error::TransferError(t) ==> (r matches Some(c) && c@ == t@),
    {
        match self {
            Error::DeviceNotFound => None,
            Error::TransportError(t) => Some(t),
            Error::TransferError(t) => Some(t),
        }
    }
}

} // verus!
