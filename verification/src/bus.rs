//! Bus transfers: one-to-many assignments from a source register
//! (optionally bit-masked, optionally accumulator-gated) to a set of
//! destination registers.

use vstd::prelude::*;
use crate::types::{Register, RegisterSet, Word};

// Sources and destinations for bus transfers.
// Those are always 1:n (i. e. "Transfer the word in IAR to SAR and to X.").
// Not all registers are allowed as source and destination.
pub use Xfer as BusXfer;

verus! {

// Potential source bitmasks:
pub const SOURCE_BITMASK_FULL: u32 = 0xFFFFFFFF;

pub const SOURCE_BITMASK_BASIC_PAYLOAD: u32 = 0x0FFFFFFF;

pub const SOURCE_BITMASK_EXTENDED_PAYLOAD: u32 = 0x00FFFFFF;

/// The registers the bus can read from.
pub open spec fn valid_source(r: Register) -> bool {
    match r {
        Register::Acc => true,
        Register::One => true,
        Register::Z => true,
        Register::Iar => true,
        Register::Ir => true,
        Register::Sir => true,
        _ => false,
    }
}

/// The registers the bus can write to: at least one, and none outside
/// {ACC, X, Y, IAR, IR, SAR, SIR}.
pub open spec fn valid_destinations(d: RegisterSet) -> bool {
    !d.spec_is_empty() && !d.one && !d.z
}

/// Which masks the hardware can apply: the payload masks when reading
/// from IR, the full mask everywhere else.
pub open spec fn spec_valid_source_bitmask(source: Register, source_bitmask: Word) -> bool {
    match source {
        Register::Ir => source_bitmask == Word(SOURCE_BITMASK_BASIC_PAYLOAD) || source_bitmask
            == Word(SOURCE_BITMASK_EXTENDED_PAYLOAD),
        _ => source_bitmask == Word(SOURCE_BITMASK_FULL),
    }
}

// A bus transfer holds a source and 1...n destinations:
#[derive(Copy, Clone, PartialEq, Eq, Structural, Debug)]
pub struct Xfer {
    pub source: Register,
    pub destinations: RegisterSet,
    // Some bus transfers require to apply a source bitmask.
    // We always propagate (source & bitmask) on the bus.
    pub source_bitmask: Word,
    // A bus transfer can be executed "accumulator-dependent".
    // This is specifically important for the JMN instruction and
    // translates to: "Execute the transfer if and only if ACC < 0."
    pub is_acc_dependent: bool,
}

impl Xfer {
    /// Does this transfer respect the hardware's constraints on sources,
    /// destinations and masks?
    pub open spec fn wf(self) -> bool {
        valid_source(self.source) && valid_destinations(self.destinations)
            && spec_valid_source_bitmask(self.source, self.source_bitmask)
    }

    pub(crate) fn new(source: Register, destinations: RegisterSet, source_bitmask: Word) -> (x:
        Xfer)
        requires
            valid_source(source),
            valid_destinations(destinations),
            spec_valid_source_bitmask(source, source_bitmask),
        ensures
            x == (Xfer { source, destinations, source_bitmask, is_acc_dependent: false }),
    {
        Xfer { source, destinations, source_bitmask, is_acc_dependent: false }
    }

    pub fn source(&self) -> (r: Register)
        ensures
            r == self.source,
    {
        self.source
    }

    pub fn destinations(&self) -> (r: RegisterSet)
        ensures
            r == self.destinations,
    {
        self.destinations
    }

    pub fn source_bitmask(&self) -> (r: Word)
        ensures
            r == self.source_bitmask,
    {
        self.source_bitmask
    }

    pub fn is_acc_dependent(&self) -> (r: bool)
        ensures
            r == self.is_acc_dependent,
    {
        self.is_acc_dependent
    }

    pub(crate) fn make_acc_dependent(&mut self)
        ensures
            *final(self) == (Xfer { is_acc_dependent: true, ..*old(self) }),
    {
        self.is_acc_dependent = true;
    }
}

} // verus!
