use vstd::prelude::*;

verus! {

/// The LED states the `usb_simple` firmware understands.
///
/// Each state maps to a fixed small integer that is transmitted as the
/// control transfer's `value` field. The integers are part of the wire
/// contract with the firmware and must not be renumbered.
#[derive(Clone, Copy, Debug, PartialEq, Eq, PartialOrd, Ord, Structural)]
pub enum Colour {
    /// Turn off both LEDs.
    Off,
    /// Turn on the green LED only.
    Green,
    /// Turn on the red LED only.
    Red,
    /// Turn on both the green and red LEDs.
    Both,
}

impl Colour {
    /// The wire encoding of this LED state: Off is 0, Green is 1,
    /// Red is 2, Both is 3.
    pub open spec fn value_spec(self) -> u16 {
        match self {
            Colour::Off => 0u16,
            Colour::Green => 1u16,
            Colour::Red => 2u16,
            Colour::Both => 3u16,
        }
    }

    /// The integer sent in the control transfer's `value` field.
    pub fn value(self) -> (r: u16)
        ensures
            r == self.value_spec(),
    {
        match self {
            Colour::Off => 0u16,
            Colour::Green => 1u16,
            Colour::Red => 2u16,
            Colour::Both => 3u16,
        }
    }

    /// The LED state a wire value decodes to, if any: only 0 through 3
    /// stand for a state.
    pub open spec fn from_value_spec(v: u16) -> Option<Colour> {
        if v == 0u16 {
            Some(Colour::Off)
        } else if v == 1u16 {
            Some(Colour::Green)
        } else if v == 2u16 {
            Some(Colour::Red)
        } else if v == 3u16 {
            Some(Colour::Both)
        } else {
            None
        }
    }

    /// Decode a wire value back into an LED state.
    pub fn from_value(v: u16) -> (r: Option<Colour>)
        ensures
            r == Colour::from_value_spec(v),
    {
        if v == 0u16 {
            Some(Colour::Off)
        } else if v == 1u16 {
            Some(Colour::Green)
        } else if v == 2u16 {
            Some(Colour::Red)
        } else if v == 3u16 {
            Some(Colour::Both)
        } else {
            None
        }
    }
}

/// Every LED state round-trips through its wire encoding: decoding the
/// encoded value yields the state again.
pub proof fn lemma_colour_value_round_trip(c: Colour)
    ensures
        Colour::from_value_spec(c.value_spec()) == Some(c),
{
}

/// The wire encoding distinguishes the LED states: two states with the
/// same encoding are the same state.
pub proof fn lemma_colour_value_injective(a: Colour, b: Colour)
    ensures
        a.value_spec() == b.value_spec() ==> a == b,
{
}

/// Every wire value that decodes to an LED state is that state's own
/// encoding: decoding then encoding yields the value again.
pub proof fn lemma_colour_value_decode_encode(v: u16)
    ensures
        Colour::from_value_spec(v) matches Some(c) ==> c.value_spec() == v,
{
}

} // verus!
