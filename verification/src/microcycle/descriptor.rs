//! A microcycle descriptor encapsulates an optional bus transfer, an
//! optional ALU signal and an optional memory signal.

use vstd::prelude::*;
use crate::types::{Register, RegisterSet, Word};
use crate::bus::{self, Xfer as BusXfer};
use crate::unit::{ALUOperation, MemoryAccess};

verus! {

#[derive(Copy, Clone, PartialEq, Eq, Structural, Debug)]
pub struct Descriptor {
    pub bus_xfer: Option<BusXfer>,
    pub alu_op: Option<ALUOperation>,
    pub mem_access: Option<MemoryAccess>,
}

impl Descriptor {
    /// Does the bus transfer, if there is one, respect the hardware's
    /// constraints?
    pub open spec fn wf(self) -> bool {
        match self.bus_xfer {
            Some(x) => x.wf(),
            None => true,
        }
    }

    // Builder pattern:
    pub(crate) fn empty() -> (d: Descriptor)
        ensures
            d == (Descriptor {
                bus_xfer: None::<BusXfer>,
                alu_op: None::<ALUOperation>,
                mem_access: None::<MemoryAccess>,
            }),
    {
        Descriptor { bus_xfer: None, alu_op: None, mem_access: None }
    }

    // Full source bitmask:
    pub(crate) fn with_bus_xfer(self, source: Register, destinations: RegisterSet) -> (d:
        Descriptor)
        requires
            bus::valid_source(source),
            bus::valid_destinations(destinations),
            source != Register::Ir,
        ensures
            d == (Descriptor {
                bus_xfer: Some(
                    BusXfer {
                        source,
                        destinations,
                        source_bitmask: Word(bus::SOURCE_BITMASK_FULL),
                        is_acc_dependent: false,
                    },
                ),
                ..self
            }),
    {
        Descriptor {
            bus_xfer: Some(BusXfer::new(source, destinations, Word(bus::SOURCE_BITMASK_FULL))),
            ..self
        }
    }

    // Custom source bitmask:
    pub(crate) fn with_masked_bus_xfer(
        self,
        source: Register,
        destinations: RegisterSet,
        source_bitmask: Word,
    ) -> (d: Descriptor)
        requires
            bus::valid_source(source),
            bus::valid_destinations(destinations),
            bus::spec_valid_source_bitmask(source, source_bitmask),
        ensures
            d == (Descriptor {
                bus_xfer: Some(
                    BusXfer { source, destinations, source_bitmask, is_acc_dependent: false },
                ),
                ..self
            }),
    {
        Descriptor { bus_xfer: Some(BusXfer::new(source, destinations, source_bitmask)), ..self }
    }

    // Mark as accumulator-dependent:
    pub(crate) fn acc_dependent(self) -> (d: Descriptor)
        requires
            self.bus_xfer matches Some(_),
        ensures
            d == (Descriptor {
                bus_xfer: Some(
                    BusXfer { is_acc_dependent: true, ..self.bus_xfer.unwrap() },
                ),
                ..self
            }),
    {
        match self.bus_xfer {
            Some(mut x) => {
                x.make_acc_dependent();
                Descriptor { bus_xfer: Some(x), ..self }
            },
            None => self,
        }
    }

    pub(crate) fn with_alu_op(self, alu_op: ALUOperation) -> (d: Descriptor)
        ensures
            d == (Descriptor { alu_op: Some(alu_op), ..self }),
    {
        Descriptor { alu_op: Some(alu_op), ..self }
    }

    pub(crate) fn with_mem_access(self, mem_access: MemoryAccess) -> (d: Descriptor)
        ensures
            d == (Descriptor { mem_access: Some(mem_access), ..self }),
    {
        Descriptor { mem_access: Some(mem_access), ..self }
    }
}

} // verus!
