//! The descriptor table of the fetch phase (microcycles 1 to 5), the
//! same for every instruction.

use vstd::prelude::*;
use crate::types::{Register, RegisterSet, Word};
use crate::bus::{self, Xfer as BusXfer};
use crate::unit::{ALUOperation, MemoryAccess};
use super::descriptor::Descriptor;

verus! {

/// The fetch phase: load the word at IAR into IR while incrementing IAR
/// through the ALU.
pub open spec fn descriptor_spec(microcycle: u8) -> Descriptor {
    if microcycle == 1 {
        Descriptor {
            bus_xfer: Some(
                BusXfer {
                    source: Register::Iar,
                    destinations: RegisterSet::spec_single(Register::Sar).spec_plus(Register::X),
                    source_bitmask: Word(bus::SOURCE_BITMASK_FULL),
                    is_acc_dependent: false,
                },
            ),
            alu_op: None,
            mem_access: Some(MemoryAccess::Read),
        }
    } else if microcycle == 2 {
        Descriptor {
            bus_xfer: Some(
                BusXfer {
                    source: Register::One,
                    destinations: RegisterSet::spec_single(Register::Y),
                    source_bitmask: Word(bus::SOURCE_BITMASK_FULL),
                    is_acc_dependent: false,
                },
            ),
            alu_op: Some(ALUOperation::Add),
            mem_access: None,
        }
    } else if microcycle == 4 {
        Descriptor {
            bus_xfer: Some(
                BusXfer {
                    source: Register::Z,
                    destinations: RegisterSet::spec_single(Register::Iar),
                    source_bitmask: Word(bus::SOURCE_BITMASK_FULL),
                    is_acc_dependent: false,
                },
            ),
            alu_op: None,
            mem_access: None,
        }
    } else if microcycle == 5 {
        Descriptor {
            bus_xfer: Some(
                BusXfer {
                    source: Register::Sir,
                    destinations: RegisterSet::spec_single(Register::Ir),
                    source_bitmask: Word(bus::SOURCE_BITMASK_FULL),
                    is_acc_dependent: false,
                },
            ),
            alu_op: None,
            mem_access: None,
        }
    } else {
        Descriptor { bus_xfer: None, alu_op: None, mem_access: None }
    }
}

// Return the microcycle descriptor for the microcycle in [1, 5]:
pub fn descriptor(microcycle: u8) -> (d: Descriptor)
    requires
        1 <= microcycle <= 5,
    ensures
        d == descriptor_spec(microcycle),
        d.wf(),
{
    match microcycle {
        1 => Descriptor::empty().with_bus_xfer(
            Register::Iar,
            RegisterSet::single(Register::Sar).plus(Register::X),
        ).with_mem_access(MemoryAccess::Read),
        2 => Descriptor::empty().with_bus_xfer(Register::One, RegisterSet::single(Register::Y))
            .with_alu_op(ALUOperation::Add),
        4 => Descriptor::empty().with_bus_xfer(Register::Z, RegisterSet::single(Register::Iar)),
        5 => Descriptor::empty().with_bus_xfer(Register::Sir, RegisterSet::single(Register::Ir)),
        _ => Descriptor::empty(),
    }
}

} // verus!
