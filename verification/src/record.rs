//! Flat summaries of microcycles and whole instruction cycles, for
//! observers that render or record the machine's progress.

use vstd::prelude::*;
use crate::types::{Flag, Instruction, Word};
use crate::unit::{ALUOperation, MemoryAccess, MemoryType};
use crate::mima::{descriptor_for, fetch_address_ok, step_spec, MachineState, Mima};
use crate::microcycle::Descriptor as MicrocycleDescriptor;

verus! {

// Information about register / flag values and changes is stored in an
// enum to record changes:
#[derive(Copy, Clone, PartialEq, Eq, Debug)]
pub enum Value<T> {
    Stasis(T),
    Change(T, T),
}

impl<T: Copy> Value<T> {
    pub open spec fn spec_initial(self) -> T {
        match self {
            Value::Change(w, _) => w,
            Value::Stasis(w) => w,
        }
    }

    pub open spec fn spec_final(self) -> T {
        match self {
            Value::Stasis(w) => w,
            Value::Change(_, w) => w,
        }
    }

    /// The value before the recorded step.
    pub fn initial_value(&self) -> (r: T)
        ensures
            r == self.spec_initial(),
    {
        match self {
            Value::Change(w, _) => *w,
            Value::Stasis(w) => *w,
        }
    }

    /// The value after the recorded step.
    pub fn final_value(&self) -> (r: T)
        ensures
            r == self.spec_final(),
    {
        match self {
            Value::Stasis(w) => *w,
            Value::Change(_, w) => *w,
        }
    }
}

/// A stasis when nothing changed, a change otherwise.
pub open spec fn value_diff<T>(before: T, after: T) -> Value<T> {
    if before == after {
        Value::Stasis(before)
    } else {
        Value::Change(before, after)
    }
}

pub type RegisterValue = Value<Word>;

pub type FlagValue = Value<Flag>;

impl Value<Word> {
    fn make_diff(self, new: Word) -> (r: Value<Word>)
        requires
            self matches Value::Stasis(_),
        ensures
            r == value_diff(self.spec_initial(), new),
    {
        match self {
            Value::Stasis(prev) => {
                if prev.0 != new.0 {
                    Value::Change(prev, new)
                } else {
                    Value::Stasis(prev)
                }
            },
            Value::Change(_, _) => unreached(),
        }
    }
}

impl Value<Flag> {
    fn make_diff(self, new: Flag) -> (r: Value<Flag>)
        requires
            self matches Value::Stasis(_),
        ensures
            r == value_diff(self.spec_initial(), new),
    {
        match self {
            Value::Stasis(prev) => {
                if prev.0 != new.0 {
                    Value::Change(prev, new)
                } else {
                    Value::Stasis(prev)
                }
            },
            Value::Change(_, _) => unreached(),
        }
    }
}

// This struct allows to record a "flat" summary of all events that occur
// during a microcycle. For all registers, there are old and new values.
// We also include information about ALU and memory work at the beginning
// of the cycle.
pub struct MicrocycleSummary {
    // Arithmetic unit registers (without ONE, it is constant):
    pub acc: RegisterValue,
    pub x: RegisterValue,
    pub y: RegisterValue,
    pub z: RegisterValue,
    // ALU work (at the beginning of the microcycle):
    pub alu_work: Option<(ALUOperation, u8)>,
    // Control unit registers:
    pub iar: RegisterValue,
    pub ir: RegisterValue,
    // Control unit flags:
    pub run: FlagValue,
    pub tra: FlagValue,
    // Microcycle index and instruction:
    pub microcycle: u8,
    pub instruction: Option<Instruction>,
    // Memory unit registers:
    pub sar: RegisterValue,
    pub sir: RegisterValue,
    // Memory work (at the beginning of the microcycle):
    pub mem_work: Option<(MemoryType, MemoryAccess, u8)>,
    // The descriptor for this microcycle:
    pub descriptor: MicrocycleDescriptor,
}

/// The summary of one microcycle, as a function of the states before
/// and after it.
pub open spec fn spec_summary(s0: MachineState, s1: MachineState) -> MicrocycleSummary {
    MicrocycleSummary {
        acc: value_diff(s0.au.acc, s1.au.acc),
        x: value_diff(s0.au.x, s1.au.x),
        y: value_diff(s0.au.y, s1.au.y),
        z: value_diff(s0.au.z, s1.au.z),
        alu_work: match s0.au.work {
            Some(w) => Some((w.op, w.remaining_cycles)),
            None => None,
        },
        iar: value_diff(s0.cu.iar, s1.cu.iar),
        ir: value_diff(s0.cu.ir, s1.cu.ir),
        run: value_diff(s0.cu.status.run, s1.cu.status.run),
        tra: value_diff(s0.cu.status.tra, s1.cu.status.tra),
        microcycle: s0.cu.microcycle,
        instruction: s0.cu.instruction,
        sar: value_diff(s0.mu.sar, s1.mu.sar),
        sir: value_diff(s0.mu.sir, s1.mu.sir),
        mem_work: match s0.mu.work {
            Some(w) => Some((w.mem_type, w.access, w.remaining_cycles)),
            None => None,
        },
        descriptor: descriptor_for(s0),
    }
}

impl MicrocycleSummary {
    /// Run one microcycle and record the state diff around it. A halted
    /// machine yields no summary.
    pub fn record_microcycle(mima: &mut Mima) -> (r: Option<MicrocycleSummary>)
        requires
            old(mima).wf(),
            fetch_address_ok(old(mima).state()),
        ensures
            !old(mima).state().cu.status.run.0 ==> *final(mima) == *old(mima) && r matches None,
            old(mima).state().cu.status.run.0 ==> {
                &&& final(mima).state() == step_spec(old(mima).state())
                &&& final(mima).wf()
                &&& r == Some(spec_summary(old(mima).state(), step_spec(old(mima).state())))
            },
    {
        // Record the state before executing the microcycle (everything
        // still in stasis):
        let mut acc = RegisterValue::Stasis(mima.arithmetic_unit.acc);
        let mut x = RegisterValue::Stasis(mima.arithmetic_unit.x);
        let mut y = RegisterValue::Stasis(mima.arithmetic_unit.y);
        let mut z = RegisterValue::Stasis(mima.arithmetic_unit.z);
        let alu_work = match mima.arithmetic_unit.work() {
            Some(work) => Some((work.op, work.remaining_cycles)),
            None => None,
        };
        let mut iar = RegisterValue::Stasis(mima.control_unit.iar);
        let mut ir = RegisterValue::Stasis(mima.control_unit.ir);
        let mut run = FlagValue::Stasis(mima.control_unit.status().run);
        let mut tra = FlagValue::Stasis(mima.control_unit.status().tra);
        let microcycle = mima.control_unit.microcycle();
        let instruction = mima.control_unit.instruction();
        let mut sar = RegisterValue::Stasis(mima.memory_unit.sar);
        let mut sir = RegisterValue::Stasis(mima.memory_unit.sir);
        let mem_work = match mima.memory_unit.work() {
            Some(work) => Some((work.mem_type, work.access, work.remaining_cycles)),
            None => None,
        };
        // Now execute the cycle. If it returns nothing because the MiMA
        // is stopped, we are done. Otherwise, we have the descriptor.
        match mima.perform_microcycle() {
            Some(descriptor) => {
                // Look for changes in the registers / flags:
                acc = acc.make_diff(mima.arithmetic_unit.acc);
                x = x.make_diff(mima.arithmetic_unit.x);
                y = y.make_diff(mima.arithmetic_unit.y);
                z = z.make_diff(mima.arithmetic_unit.z);
                iar = iar.make_diff(mima.control_unit.iar);
                ir = ir.make_diff(mima.control_unit.ir);
                run = run.make_diff(mima.control_unit.status().run);
                tra = tra.make_diff(mima.control_unit.status().tra);
                sar = sar.make_diff(mima.memory_unit.sar);
                sir = sir.make_diff(mima.memory_unit.sir);
                // Summarize everything:
                Some(
                    MicrocycleSummary {
                        acc,
                        x,
                        y,
                        z,
                        alu_work,
                        iar,
                        ir,
                        run,
                        tra,
                        microcycle,
                        instruction,
                        sar,
                        sir,
                        mem_work,
                        descriptor,
                    },
                )
            },
            None => None,
        }
    }

    /// Is the bus transfer of this microcycle actually carried out: a
    /// transfer is present, and it is either unconditional or the
    /// accumulator's sign bit was set on entry.
    pub fn is_bus_active(&self) -> (r: bool)
        ensures
            r == match self.descriptor.bus_xfer {
                Some(xfer) => !xfer.is_acc_dependent || (self.acc.spec_initial().0
                    & 0x80000000u32) != 0,
                None => false,
            },
    {
        match &self.descriptor.bus_xfer {
            Some(xfer) => {
                if xfer.is_acc_dependent() {
                    (self.acc.initial_value().0 & 0x80000000u32) != 0
                } else {
                    true
                }
            },
            None => false,
        }
    }
}

pub struct CycleSummary {
    // The accumulator and the program counter:
    pub acc: RegisterValue,
    pub iar: RegisterValue,
    // The flags:
    pub run: FlagValue,
    pub tra: FlagValue,
    // The instruction that has been executed:
    pub instruction: Instruction,
}

impl CycleSummary {
    /// The end-to-end diff of one whole instruction cycle, folded from
    /// the summaries of its first and last microcycle.
    pub fn from_microcycle_summaries(start: &MicrocycleSummary, end: &MicrocycleSummary) -> (r:
        CycleSummary)
        requires
            start.microcycle == 1,
            end.microcycle == 12,
            end.instruction matches Some(_),
        ensures
            r.acc == value_diff(start.acc.spec_initial(), end.acc.spec_final()),
            r.iar == value_diff(start.iar.spec_initial(), end.iar.spec_final()),
            r.run == value_diff(start.run.spec_initial(), end.run.spec_final()),
            r.tra == value_diff(start.tra.spec_initial(), end.tra.spec_final()),
            Some(r.instruction) == end.instruction,
    {
        // Calculate the state diff between the two microcycles:
        let acc = RegisterValue::Stasis(start.acc.initial_value()).make_diff(
            end.acc.final_value(),
        );
        let iar = RegisterValue::Stasis(start.iar.initial_value()).make_diff(
            end.iar.final_value(),
        );
        let run = FlagValue::Stasis(start.run.initial_value()).make_diff(end.run.final_value());
        let tra = FlagValue::Stasis(start.tra.initial_value()).make_diff(end.tra.final_value());
        // Take the instruction from the end:
        let instruction = match end.instruction {
            Some(instruction) => instruction,
            None => unreached(),
        };
        CycleSummary { acc, iar, run, tra, instruction }
    }
}

} // verus!
