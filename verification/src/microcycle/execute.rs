//! The descriptor tables of the execute phase (microcycles 6 to 12), one
//! per instruction.

use vstd::prelude::*;
use crate::types::{Instruction, Register, RegisterSet, Word};
use crate::bus::{self, Xfer as BusXfer};
use crate::unit::{ALUOperation, MemoryAccess};
use super::descriptor::Descriptor;

verus! {

/// A plain (not accumulator-gated) bus transfer.
pub open spec fn spec_xfer(source: Register, destinations: RegisterSet, mask: Word) -> BusXfer {
    BusXfer { source, destinations, source_bitmask: mask, is_acc_dependent: false }
}

pub open spec fn spec_empty_descriptor() -> Descriptor {
    Descriptor { bus_xfer: None, alu_op: None, mem_access: None }
}

/// The shared table of ADD/AND/OR/XOR/EQL: fetch the operand through SAR,
/// move ACC and the operand into X and Y, run the ALU, and write Z back
/// to ACC.
pub open spec fn arithmetic_spec(microcycle: u8, op: ALUOperation) -> Descriptor {
    if microcycle == 6 {
        Descriptor {
            bus_xfer: Some(
                spec_xfer(
                    Register::Ir,
                    RegisterSet::spec_single(Register::Sar),
                    Word(bus::SOURCE_BITMASK_BASIC_PAYLOAD),
                ),
            ),
            alu_op: None,
            mem_access: Some(MemoryAccess::Read),
        }
    } else if microcycle == 7 {
        Descriptor {
            bus_xfer: Some(
                spec_xfer(
                    Register::Acc,
                    RegisterSet::spec_single(Register::X),
                    Word(bus::SOURCE_BITMASK_FULL),
                ),
            ),
            alu_op: None,
            mem_access: None,
        }
    } else if microcycle == 10 {
        Descriptor {
            bus_xfer: Some(
                spec_xfer(
                    Register::Sir,
                    RegisterSet::spec_single(Register::Y),
                    Word(bus::SOURCE_BITMASK_FULL),
                ),
            ),
            alu_op: Some(op),
            mem_access: None,
        }
    } else if microcycle == 12 {
        Descriptor {
            bus_xfer: Some(
                spec_xfer(
                    Register::Z,
                    RegisterSet::spec_single(Register::Acc),
                    Word(bus::SOURCE_BITMASK_FULL),
                ),
            ),
            alu_op: None,
            mem_access: None,
        }
    } else {
        spec_empty_descriptor()
    }
}

pub open spec fn load_value_spec(microcycle: u8) -> Descriptor {
    if microcycle == 6 {
        Descriptor {
            bus_xfer: Some(
                spec_xfer(
                    Register::Ir,
                    RegisterSet::spec_single(Register::Sar),
                    Word(bus::SOURCE_BITMASK_BASIC_PAYLOAD),
                ),
            ),
            alu_op: None,
            mem_access: Some(MemoryAccess::Read),
        }
    } else if microcycle == 10 {
        Descriptor {
            bus_xfer: Some(
                spec_xfer(
                    Register::Sir,
                    RegisterSet::spec_single(Register::Acc),
                    Word(bus::SOURCE_BITMASK_FULL),
                ),
            ),
            alu_op: None,
            mem_access: None,
        }
    } else {
        spec_empty_descriptor()
    }
}

pub open spec fn store_value_spec(microcycle: u8) -> Descriptor {
    if microcycle == 6 {
        Descriptor {
            bus_xfer: Some(
                spec_xfer(
                    Register::Ir,
                    RegisterSet::spec_single(Register::Sar),
                    Word(bus::SOURCE_BITMASK_BASIC_PAYLOAD),
                ),
            ),
            alu_op: None,
            mem_access: None,
        }
    } else if microcycle == 7 {
        Descriptor {
            bus_xfer: Some(
                spec_xfer(
                    Register::Acc,
                    RegisterSet::spec_single(Register::Sir),
                    Word(bus::SOURCE_BITMASK_FULL),
                ),
            ),
            alu_op: None,
            mem_access: Some(MemoryAccess::Write),
        }
    } else {
        spec_empty_descriptor()
    }
}

pub open spec fn load_constant_spec(microcycle: u8) -> Descriptor {
    if microcycle == 6 {
        Descriptor {
            bus_xfer: Some(
                spec_xfer(
                    Register::Ir,
                    RegisterSet::spec_single(Register::Acc),
                    Word(bus::SOURCE_BITMASK_BASIC_PAYLOAD),
                ),
            ),
            alu_op: None,
            mem_access: None,
        }
    } else {
        spec_empty_descriptor()
    }
}

pub open spec fn jump_spec(microcycle: u8) -> Descriptor {
    if microcycle == 6 {
        Descriptor {
            bus_xfer: Some(
                spec_xfer(
                    Register::Ir,
                    RegisterSet::spec_single(Register::Iar),
                    Word(bus::SOURCE_BITMASK_BASIC_PAYLOAD),
                ),
            ),
            alu_op: None,
            mem_access: None,
        }
    } else {
        spec_empty_descriptor()
    }
}

pub open spec fn jump_if_negative_spec(microcycle: u8) -> Descriptor {
    if microcycle == 6 {
        Descriptor {
            bus_xfer: Some(
                BusXfer {
                    source: Register::Ir,
                    destinations: RegisterSet::spec_single(Register::Iar),
                    source_bitmask: Word(bus::SOURCE_BITMASK_BASIC_PAYLOAD),
                    is_acc_dependent: true,
                },
            ),
            alu_op: None,
            mem_access: None,
        }
    } else {
        spec_empty_descriptor()
    }
}

pub open spec fn not_spec(microcycle: u8) -> Descriptor {
    if microcycle == 6 {
        Descriptor {
            bus_xfer: Some(
                spec_xfer(
                    Register::Acc,
                    RegisterSet::spec_single(Register::X),
                    Word(bus::SOURCE_BITMASK_FULL),
                ),
            ),
            alu_op: Some(ALUOperation::Not),
            mem_access: None,
        }
    } else if microcycle == 8 {
        Descriptor {
            bus_xfer: Some(
                spec_xfer(
                    Register::Z,
                    RegisterSet::spec_single(Register::Acc),
                    Word(bus::SOURCE_BITMASK_FULL),
                ),
            ),
            alu_op: None,
            mem_access: None,
        }
    } else {
        spec_empty_descriptor()
    }
}

pub open spec fn rotate_right_spec(microcycle: u8) -> Descriptor {
    if microcycle == 6 {
        Descriptor {
            bus_xfer: Some(
                spec_xfer(
                    Register::Acc,
                    RegisterSet::spec_single(Register::X),
                    Word(bus::SOURCE_BITMASK_FULL),
                ),
            ),
            alu_op: None,
            mem_access: None,
        }
    } else if microcycle == 7 {
        Descriptor {
            bus_xfer: Some(
                spec_xfer(
                    Register::Ir,
                    RegisterSet::spec_single(Register::Y),
                    Word(bus::SOURCE_BITMASK_EXTENDED_PAYLOAD),
                ),
            ),
            alu_op: Some(ALUOperation::RotateRight),
            mem_access: None,
        }
    } else if microcycle == 9 {
        Descriptor {
            bus_xfer: Some(
                spec_xfer(
                    Register::Z,
                    RegisterSet::spec_single(Register::Acc),
                    Word(bus::SOURCE_BITMASK_FULL),
                ),
            ),
            alu_op: None,
            mem_access: None,
        }
    } else {
        spec_empty_descriptor()
    }
}

/// The execute phase descriptor for the microcycle in [6, 12] and the
/// current instruction. The payloads of the instruction variants play no
/// role here: the operand is extracted from the raw word in IR through
/// masked bus transfers.
pub open spec fn descriptor_spec(microcycle: u8, instruction: Instruction) -> Descriptor {
    match instruction {
        Instruction::Add(_) => arithmetic_spec(microcycle, ALUOperation::Add),
        Instruction::And(_) => arithmetic_spec(microcycle, ALUOperation::And),
        Instruction::Or(_) => arithmetic_spec(microcycle, ALUOperation::Or),
        Instruction::Xor(_) => arithmetic_spec(microcycle, ALUOperation::Xor),
        Instruction::LoadValue(_) => load_value_spec(microcycle),
        Instruction::StoreValue(_) => store_value_spec(microcycle),
        Instruction::LoadConstant(_) => load_constant_spec(microcycle),
        Instruction::Jump(_) => jump_spec(microcycle),
        Instruction::JumpIfNegative(_) => jump_if_negative_spec(microcycle),
        Instruction::Equals(_) => arithmetic_spec(microcycle, ALUOperation::Equals),
        Instruction::Halt => spec_empty_descriptor(),
        Instruction::Not => not_spec(microcycle),
        Instruction::RotateRight(_) => rotate_right_spec(microcycle),
        Instruction::NoOperation => spec_empty_descriptor(),
    }
}

// Return the microcycle descriptor for the microcycle in [6, 12] and the
// current instruction:
pub fn descriptor(microcycle: u8, instruction: Instruction) -> (d: Descriptor)
    requires
        6 <= microcycle <= 12,
    ensures
        d == descriptor_spec(microcycle, instruction),
        d.wf(),
{
    match instruction {
        Instruction::Add(_) => descriptor_arithmetic(microcycle, ALUOperation::Add),
        Instruction::And(_) => descriptor_arithmetic(microcycle, ALUOperation::And),
        Instruction::Or(_) => descriptor_arithmetic(microcycle, ALUOperation::Or),
        Instruction::Xor(_) => descriptor_arithmetic(microcycle, ALUOperation::Xor),
        Instruction::LoadValue(_) => descriptor_load_value(microcycle),
        Instruction::StoreValue(_) => descriptor_store_value(microcycle),
        Instruction::LoadConstant(_) => descriptor_load_constant(microcycle),
        Instruction::Jump(_) => descriptor_jump(microcycle),
        Instruction::JumpIfNegative(_) => descriptor_jump_if_negative(microcycle),
        Instruction::Equals(_) => descriptor_arithmetic(microcycle, ALUOperation::Equals),
        Instruction::Halt => descriptor_halt(microcycle),
        Instruction::Not => descriptor_not(microcycle),
        Instruction::RotateRight(_) => descriptor_rotate_right(microcycle),
        Instruction::NoOperation => descriptor_no_operation(microcycle),
    }
}

fn descriptor_arithmetic(microcycle: u8, op: ALUOperation) -> (d: Descriptor)
    ensures
        d == arithmetic_spec(microcycle, op),
        d.wf(),
{
    match microcycle {
        6 => Descriptor::empty().with_masked_bus_xfer(
            Register::Ir,
            RegisterSet::single(Register::Sar),
            Word(bus::SOURCE_BITMASK_BASIC_PAYLOAD),
        ).with_mem_access(MemoryAccess::Read),
        7 => Descriptor::empty().with_bus_xfer(Register::Acc, RegisterSet::single(Register::X)),
        10 => Descriptor::empty().with_bus_xfer(Register::Sir, RegisterSet::single(Register::Y))
            .with_alu_op(op),
        12 => Descriptor::empty().with_bus_xfer(Register::Z, RegisterSet::single(Register::Acc)),
        _ => Descriptor::empty(),
    }
}

fn descriptor_load_value(microcycle: u8) -> (d: Descriptor)
    ensures
        d == load_value_spec(microcycle),
        d.wf(),
{
    match microcycle {
        6 => Descriptor::empty().with_masked_bus_xfer(
            Register::Ir,
            RegisterSet::single(Register::Sar),
            Word(bus::SOURCE_BITMASK_BASIC_PAYLOAD),
        ).with_mem_access(MemoryAccess::Read),
        10 => Descriptor::empty().with_bus_xfer(Register::Sir, RegisterSet::single(Register::Acc)),
        _ => Descriptor::empty(),
    }
}

fn descriptor_store_value(microcycle: u8) -> (d: Descriptor)
    ensures
        d == store_value_spec(microcycle),
        d.wf(),
{
    match microcycle {
        6 => Descriptor::empty().with_masked_bus_xfer(
            Register::Ir,
            RegisterSet::single(Register::Sar),
            Word(bus::SOURCE_BITMASK_BASIC_PAYLOAD),
        ),
        7 => Descriptor::empty().with_bus_xfer(Register::Acc, RegisterSet::single(Register::Sir))
            .with_mem_access(MemoryAccess::Write),
        _ => Descriptor::empty(),
    }
}

fn descriptor_load_constant(microcycle: u8) -> (d: Descriptor)
    ensures
        d == load_constant_spec(microcycle),
        d.wf(),
{
    match microcycle {
        6 => Descriptor::empty().with_masked_bus_xfer(
            Register::Ir,
            RegisterSet::single(Register::Acc),
            Word(bus::SOURCE_BITMASK_BASIC_PAYLOAD),
        ),
        _ => Descriptor::empty(),
    }
}

fn descriptor_jump(microcycle: u8) -> (d: Descriptor)
    ensures
        d == jump_spec(microcycle),
        d.wf(),
{
    match microcycle {
        6 => Descriptor::empty().with_masked_bus_xfer(
            Register::Ir,
            RegisterSet::single(Register::Iar),
            Word(bus::SOURCE_BITMASK_BASIC_PAYLOAD),
        ),
        _ => Descriptor::empty(),
    }
}

fn descriptor_jump_if_negative(microcycle: u8) -> (d: Descriptor)
    ensures
        d == jump_if_negative_spec(microcycle),
        d.wf(),
{
    match microcycle {
        6 => Descriptor::empty().with_masked_bus_xfer(
            Register::Ir,
            RegisterSet::single(Register::Iar),
            Word(bus::SOURCE_BITMASK_BASIC_PAYLOAD),
        ).acc_dependent(),
        _ => Descriptor::empty(),
    }
}

fn descriptor_halt(microcycle: u8) -> (d: Descriptor)
    ensures
        d == spec_empty_descriptor(),
        d.wf(),
{
    Descriptor::empty()
}

fn descriptor_not(microcycle: u8) -> (d: Descriptor)
    ensures
        d == not_spec(microcycle),
        d.wf(),
{
    match microcycle {
        6 => Descriptor::empty().with_bus_xfer(Register::Acc, RegisterSet::single(Register::X))
            .with_alu_op(ALUOperation::Not),
        8 => Descriptor::empty().with_bus_xfer(Register::Z, RegisterSet::single(Register::Acc)),
        _ => Descriptor::empty(),
    }
}

fn descriptor_rotate_right(microcycle: u8) -> (d: Descriptor)
    ensures
        d == rotate_right_spec(microcycle),
        d.wf(),
{
    match microcycle {
        6 => Descriptor::empty().with_bus_xfer(Register::Acc, RegisterSet::single(Register::X)),
        7 => Descriptor::empty().with_masked_bus_xfer(
            Register::Ir,
            RegisterSet::single(Register::Y),
            Word(bus::SOURCE_BITMASK_EXTENDED_PAYLOAD),
        ).with_alu_op(ALUOperation::RotateRight),
        9 => Descriptor::empty().with_bus_xfer(Register::Z, RegisterSet::single(Register::Acc)),
        _ => Descriptor::empty(),
    }
}

fn descriptor_no_operation(microcycle: u8) -> (d: Descriptor)
    ensures
        d == spec_empty_descriptor(),
        d.wf(),
{
    Descriptor::empty()
}

} // verus!
