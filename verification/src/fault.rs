//! The two kinds of failure that end the loop.

use vstd::prelude::*;

verus! {

/// The touch controller's bus could not be read or written.
#[derive(Clone, Copy, Debug, PartialEq, Eq, Structural)]
pub struct BusFault {
    /// The code that the bus driver gave.
    pub code: i32,
}

/// The panel refused or timed out on a transfer.
#[derive(Clone, Copy, Debug, PartialEq, Eq, Structural)]
pub struct PanelFault {
    /// The code that the panel driver gave.
    pub code: i32,
}

/// What stopped the loop. Neither kind is retried.
#[derive(Clone, Copy, Debug, PartialEq, Eq, Structural)]
pub enum Fault {
    /// The touch controller failed.
    Bus(BusFault),
    /// The panel failed.
    Panel(PanelFault),
}

impl Fault {
    /// The driver's code, whichever side failed.
    pub open spec fn code_of(self) -> i32 {
        match self {
            Fault::Bus(f) => f.code,
            Fault::Panel(f) => f.code,
        }
    }

    /// The driver's code, whichever side failed.
    pub fn code(&self) -> (c: i32)
        ensures
            c == self.code_of(),
    {
        match self {
            Fault::Bus(f) => f.code,
            Fault::Panel(f) => f.code,
        }
    }

    /// Whether the touch controller is the side that failed.
    pub fn is_bus(&self) -> (r: bool)
        ensures
            r == (*self is Bus),
    {
        match self {
            Fault::Bus(_) => true,
            Fault::Panel(_) => false,
        }
    }
}

} // verus!
