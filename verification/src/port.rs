//! Intel GMA connector ports and their integer ABI values.

use vstd::prelude::*;

verus! {

/// Intel GMA connector port values from coreboot's `libgfxinit.h`.
#[derive(Debug, Clone, Copy, PartialEq, Eq, Structural)]
pub enum Port {
    Disabled,
    Lvds,
    Edp,
    Dp1,
    Dp2,
    Dp3,
    Hdmi1,
    Hdmi2,
    Hdmi3,
    Analog,
}

/// Invalid raw port value.
#[derive(Debug, Clone, Copy, PartialEq, Eq, Structural)]
pub struct InvalidPort(pub i32);

impl Port {
    /// The ABI value of a port, as `libgfxinit.h` numbers them.
    pub open spec fn raw_value(self) -> i32 {
        match self {
            Port::Disabled => 0,
            Port::Lvds => 1,
            Port::Edp => 2,
            Port::Dp1 => 3,
            Port::Dp2 => 4,
            Port::Dp3 => 5,
            Port::Hdmi1 => 6,
            Port::Hdmi2 => 7,
            Port::Hdmi3 => 8,
            Port::Analog => 9,
        }
    }

    /// Return the integer ABI value expected by `gma_read_edid`.
    pub fn as_raw(self) -> (raw: i32)
        ensures
            raw == self.raw_value(),
    {
        match self {
            Port::Disabled => 0,
            Port::Lvds => 1,
            Port::Edp => 2,
            Port::Dp1 => 3,
            Port::Dp2 => 4,
            Port::Dp3 => 5,
            Port::Hdmi1 => 6,
            Port::Hdmi2 => 7,
            Port::Hdmi3 => 8,
            Port::Analog => 9,
        }
    }
}

/// The port that an ABI value names, or the value itself as the error when
/// it names none.
pub open spec fn port_from_raw(value: i32) -> Result<Port, InvalidPort> {
    if value == 0 {
        Ok(Port::Disabled)
    } else if value == 1 {
        Ok(Port::Lvds)
    } else if value == 2 {
        Ok(Port::Edp)
    } else if value == 3 {
        Ok(Port::Dp1)
    } else if value == 4 {
        Ok(Port::Dp2)
    } else if value == 5 {
        Ok(Port::Dp3)
    } else if value == 6 {
        Ok(Port::Hdmi1)
    } else if value == 7 {
        Ok(Port::Hdmi2)
    } else if value == 8 {
        Ok(Port::Hdmi3)
    } else if value == 9 {
        Ok(Port::Analog)
    } else {
        Err(InvalidPort(value))
    }
}

impl TryFrom<i32> for Port {
    type Error = InvalidPort;

    fn try_from(value: i32) -> (port: Result<Port, InvalidPort>)
        ensures
            port == port_from_raw(value),
    {
        match value {
            0 => Ok(Port::Disabled),
            1 => Ok(Port::Lvds),
            2 => Ok(Port::Edp),
            3 => Ok(Port::Dp1),
            4 => Ok(Port::Dp2),
            5 => Ok(Port::Dp3),
            6 => Ok(Port::Hdmi1),
            7 => Ok(Port::Hdmi2),
            8 => Ok(Port::Hdmi3),
            9 => Ok(Port::Analog),
            raw => Err(InvalidPort(raw)),
        }
    }
}

impl vstd::std_specs::convert::TryFromSpecImpl<i32> for Port {
    open spec fn obeys_try_from_spec() -> bool {
        true
    }

    open spec fn try_from_spec(value: i32) -> Result<Port, InvalidPort> {
        port_from_raw(value)
    }
}

/// Every port's ABI value converts back to that same port.
pub proof fn lemma_port_raw_round_trip(port: Port)
    ensures
        port_from_raw(port.raw_value()) == Ok::<Port, InvalidPort>(port),
        0 <= port.raw_value() <= 9,
{
}

/// A raw value converts to a port exactly when it lies in `0..=9`; the port
/// it converts to has that value, and any other value comes back unchanged
/// inside `InvalidPort`.
pub proof fn lemma_port_from_raw_exact(value: i32)
    ensures
        port_from_raw(value) is Ok <==> 0 <= value <= 9,
        port_from_raw(value) matches Ok(port) ==> port.raw_value() == value,
        port_from_raw(value) matches Err(err) ==> err == InvalidPort(value),
{
}

/// Two ports with the same ABI value are the same port.
pub proof fn lemma_port_raw_injective(a: Port, b: Port)
    ensures
        a.raw_value() == b.raw_value() ==> a == b,
{
}

} // verus!
