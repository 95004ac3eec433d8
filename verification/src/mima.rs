//! The machine itself: the three units, the bus dispatcher and the
//! microcycle step function, together with the machine invariant and the
//! step transition stated as one spec function.

use vstd::prelude::*;
use crate::types::{
    Flag, Instruction, Register, RegisterSet, Word, ADDRESS_SPACE_WORDS,
    LINEAR_ADDRESS_SPACE_WORDS,
};
use crate::unit::{arithmetic, control, memory};
use crate::unit::{
    ALUOperation, ArithmeticUnit, ControlUnit, MemoryAccess, MemoryType, MemoryUnit,
};
use crate::bus::Xfer as BusXfer;
use crate::microcycle::{self, Descriptor as MicrocycleDescriptor};

verus! {

/// The whole observable machine state: the arithmetic and control units
/// as they are, and the memory unit through its observable state.
pub struct MachineState {
    pub au: ArithmeticUnit,
    pub cu: ControlUnit,
    pub mu: memory::State,
}

/// The word a bus transfer reads from its source register.
pub open spec fn source_value(s: MachineState, r: Register) -> Word {
    match r {
        Register::Acc => s.au.acc,
        Register::One => s.au.one,
        Register::Z => s.au.z,
        Register::Iar => s.cu.iar,
        Register::Ir => s.cu.ir,
        Register::Sir => s.mu.sir,
        _ => Word(0),
    }
}

/// Write one word to every register in the destination set. All
/// destinations receive the same value, from the same snapshot of the
/// source. (ONE and Z are never bus destinations.)
pub open spec fn write_destinations(s: MachineState, d: RegisterSet, v: Word) -> MachineState {
    MachineState {
        au: ArithmeticUnit {
            acc: if d.acc {
                v
            } else {
                s.au.acc
            },
            x: if d.x {
                v
            } else {
                s.au.x
            },
            y: if d.y {
                v
            } else {
                s.au.y
            },
            ..s.au
        },
        cu: ControlUnit {
            iar: if d.iar {
                v
            } else {
                s.cu.iar
            },
            ir: if d.ir {
                v
            } else {
                s.cu.ir
            },
            ..s.cu
        },
        mu: memory::State {
            sar: if d.sar {
                v
            } else {
                s.mu.sar
            },
            sir: if d.sir {
                v
            } else {
                s.mu.sir
            },
            ..s.mu
        },
    }
}

/// One bus transfer: an accumulator-dependent transfer only happens when
/// ACC's sign bit is set; otherwise the masked source value goes to every
/// destination.
pub open spec fn bus_spec(s: MachineState, x: BusXfer) -> MachineState {
    if x.is_acc_dependent && (s.au.acc.0 & 0x80000000u32) == 0 {
        s
    } else {
        write_destinations(s, x.destinations, Word(x.source_bitmask.0 & source_value(s, x.source).0))
    }
}

/// Signal the ALU: capture X and Y and start the countdown.
pub open spec fn alu_signal_spec(s: MachineState, op: ALUOperation) -> MachineState {
    MachineState {
        au: ArithmeticUnit {
            work: Some(
                arithmetic::Work {
                    op,
                    x: s.au.x,
                    y: s.au.y,
                    remaining_cycles: arithmetic::MICROCYCLES_PER_OP,
                },
            ),
            ..s.au
        },
        ..s
    }
}

/// Signal the memory: classify the access from SAR, capture SAR and SIR
/// and start the countdown. A device IO access is framed by raising and
/// clearing TRA within the same microcycle, so TRA is unchanged at its
/// end.
pub open spec fn mem_signal_spec(s: MachineState, access: MemoryAccess) -> MachineState {
    MachineState {
        mu: memory::State {
            work: Some(
                memory::Work {
                    mem_type: memory::spec_from_address(s.mu.sar),
                    access,
                    sar: s.mu.sar,
                    sir: s.mu.sir,
                    remaining_cycles: memory::MICROCYCLES_PER_ACCESS,
                },
            ),
            ..s.mu
        },
        ..s
    }
}

/// The descriptor the machine follows in its current microcycle: the
/// execute table when an instruction is loaded, the fetch table
/// otherwise.
pub open spec fn descriptor_for(s: MachineState) -> MicrocycleDescriptor {
    match s.cu.instruction {
        Some(instruction) => microcycle::execute::descriptor_spec(s.cu.microcycle, instruction),
        None => microcycle::fetch::descriptor_spec(s.cu.microcycle),
    }
}

/// Process a descriptor: bus transfer first, then the ALU signal, then
/// the memory signal.
pub open spec fn apply_descriptor_spec(s: MachineState, d: MicrocycleDescriptor) -> MachineState {
    let s1 = match d.bus_xfer {
        Some(x) => bus_spec(s, x),
        None => s,
    };
    let s2 = match d.alu_op {
        Some(op) => alu_signal_spec(s1, op),
        None => s1,
    };
    match d.mem_access {
        Some(access) => mem_signal_spec(s2, access),
        None => s2,
    }
}

/// One microcycle of a running machine: poll the ALU, poll the memory,
/// process the current descriptor, and end the microcycle in the control
/// unit.
pub open spec fn step_spec(s: MachineState) -> MachineState {
    let sp = MachineState {
        au: arithmetic::spec_poll(s.au),
        mu: memory::spec_poll(s.mu),
        ..s
    };
    let sd = apply_descriptor_spec(sp, descriptor_for(s));
    MachineState { cu: control::spec_end_microcycle(sd.cu), ..sd }
}

/// The instructions whose execute phase runs the ALU on ACC and a fetched
/// operand.
pub open spec fn is_arithmetic_instruction(i: Instruction) -> bool {
    match i {
        Instruction::Add(_) => true,
        Instruction::And(_) => true,
        Instruction::Or(_) => true,
        Instruction::Xor(_) => true,
        Instruction::Equals(_) => true,
        _ => false,
    }
}

/// The instructions whose execute phase reads memory at microcycle 6.
pub open spec fn is_memory_reading_instruction(i: Instruction) -> bool {
    is_arithmetic_instruction(i) || i matches Instruction::LoadValue(_)
}

pub open spec fn work_countdown_alu(w: Option<arithmetic::Work>) -> Option<u8> {
    match w {
        Some(work) => Some(work.remaining_cycles),
        None => None,
    }
}

pub open spec fn work_countdown_mem(w: Option<memory::Work>) -> Option<u8> {
    match w {
        Some(work) => Some(work.remaining_cycles),
        None => None,
    }
}

/// Where the ALU countdown stands at the entry of each microcycle, as a
/// function of the counter and the current instruction. `None` means the
/// ALU is idle.
pub open spec fn alu_work_shape(microcycle: u8, instruction: Option<Instruction>) -> Option<u8> {
    match instruction {
        None => {
            // Fetch phase: the increment of IAR is signalled at 2.
            if microcycle == 3 {
                Some(1u8)
            } else if microcycle == 4 {
                Some(0u8)
            } else {
                None
            }
        },
        Some(i) => {
            if i == Instruction::Not && microcycle == 7 {
                Some(1u8)
            } else if i == Instruction::Not && microcycle == 8 {
                Some(0u8)
            } else if i matches Instruction::RotateRight(_) && microcycle == 8 {
                Some(1u8)
            } else if i matches Instruction::RotateRight(_) && microcycle == 9 {
                Some(0u8)
            } else if is_arithmetic_instruction(i) && microcycle == 11 {
                Some(1u8)
            } else if is_arithmetic_instruction(i) && microcycle == 12 {
                Some(0u8)
            } else {
                None
            }
        },
    }
}

/// Where the memory countdown stands at the entry of each microcycle.
pub open spec fn mem_work_shape(microcycle: u8, instruction: Option<Instruction>) -> Option<u8> {
    match instruction {
        None => {
            // Fetch phase: the instruction read is signalled at 1.
            if microcycle == 2 {
                Some(3u8)
            } else if microcycle == 3 {
                Some(2u8)
            } else if microcycle == 4 {
                Some(1u8)
            } else if microcycle == 5 {
                Some(0u8)
            } else {
                None
            }
        },
        Some(i) => {
            if is_memory_reading_instruction(i) {
                if microcycle == 7 {
                    Some(3u8)
                } else if microcycle == 8 {
                    Some(2u8)
                } else if microcycle == 9 {
                    Some(1u8)
                } else if microcycle == 10 {
                    Some(0u8)
                } else {
                    None
                }
            } else if i matches Instruction::StoreValue(_) {
                if microcycle == 8 {
                    Some(3u8)
                } else if microcycle == 9 {
                    Some(2u8)
                } else if microcycle == 10 {
                    Some(1u8)
                } else if microcycle == 11 {
                    Some(0u8)
                } else {
                    None
                }
            } else {
                None
            }
        },
    }
}

/// The machine invariant between microcycles: the counter is in range,
/// an instruction is loaded exactly during the execute phase, no device
/// transfer is mid-flight, SAR holds a valid address, the pending work of
/// both units matches the countdown shape of the current microcycle, and
/// pending memory work is consistent.
pub open spec fn wf_state(s: MachineState) -> bool {
    &&& 1 <= s.cu.microcycle <= 12
    &&& (s.cu.instruction matches Some(_)) <==> 6 <= s.cu.microcycle
    &&& s.cu.status.tra == Flag(false)
    &&& s.mu.sar.0 < ADDRESS_SPACE_WORDS
    &&& work_countdown_alu(s.au.work) == alu_work_shape(s.cu.microcycle, s.cu.instruction)
    &&& work_countdown_mem(s.mu.work) == mem_work_shape(s.cu.microcycle, s.cu.instruction)
    &&& (s.mu.work matches Some(w) ==> w.sar.0 < ADDRESS_SPACE_WORDS && ((w.mem_type
        == MemoryType::Linear) <==> w.sar.0 < LINEAR_ADDRESS_SPACE_WORDS))
    &&& s.mu.mem.len() == LINEAR_ADDRESS_SPACE_WORDS
}

/// A fetch at microcycle 1 reads memory at IAR, so IAR must be a valid
/// address there; everywhere else the step is safe by the invariant.
pub open spec fn fetch_address_ok(s: MachineState) -> bool {
    (s.cu.status.run.0 && s.cu.microcycle == 1) ==> s.cu.iar.0 < ADDRESS_SPACE_WORDS
}

/// Mask facts the bus dispatcher relies on.
proof fn lemma_mask_bounds()
    by (bit_vector)
    ensures
        forall|v: u32| #![auto] (0xFFFFFFFFu32 & v) == v,
        forall|v: u32| #![auto] (0x0FFFFFFFu32 & v) < 0x10000000,
        forall|v: u32| #![auto] (0x00FFFFFFu32 & v) < 0x10000000,
{
}

/// The machine step preserves the machine invariant.
pub proof fn lemma_step_preserves_wf(s: MachineState)
    requires
        wf_state(s),
        fetch_address_ok(s),
        s.cu.status.run.0,
    ensures
        wf_state(step_spec(s)),
{
    lemma_mask_bounds();
}

/// The machine state after `n` microcycle steps. A halted machine stays
/// as it is, exactly as `perform_microcycle` leaves it alone.
pub open spec fn steps_spec(s: MachineState, n: nat) -> MachineState
    decreases n,
{
    if n == 0 {
        s
    } else {
        let p = steps_spec(s, (n - 1) as nat);
        if p.cu.status.run.0 {
            step_spec(p)
        } else {
            p
        }
    }
}

/// Microcycle counter law: starting from counter 1, after `n` steps the
/// counter equals `(n % 12) + 1`, so long as no halt instruction has
/// completed (that is, no step so far started at counter 12 with the
/// halt instruction loaded), and the machine is still running.
pub proof fn lemma_microcycle_counter(s: MachineState, n: nat)
    requires
        s.cu.status.run.0,
        s.cu.microcycle == 1,
        forall|k: nat|
            k < n ==> !((#[trigger] steps_spec(s, k)).cu.microcycle == 12 && steps_spec(
                s,
                k,
            ).cu.instruction == Some(Instruction::Halt)),
    ensures
        steps_spec(s, n).cu.status.run.0,
        steps_spec(s, n).cu.microcycle == (n % 12) + 1,
    decreases n,
{
    if n > 0 {
        lemma_microcycle_counter(s, (n - 1) as nat);
        assert(steps_spec(s, (n - 1) as nat).cu.microcycle == ((n - 1) % 12) + 1);
        assert((n - 1) % 12 == 11 ==> n % 12 == 0) by (nonlinear_arith);
        assert((n - 1) % 12 < 11 ==> n % 12 == (n - 1) % 12 + 1) by (nonlinear_arith);
    }
}

/// A machine as the loaders leave a fresh one: every register cleared,
/// ONE holding 1, counter 1, running, and the given linear memory.
pub open spec fn loaded_state(mem: Seq<Word>) -> MachineState {
    MachineState {
        au: ArithmeticUnit {
            acc: Word(0),
            one: Word(1),
            x: Word(0),
            y: Word(0),
            z: Word(0),
            work: None,
        },
        cu: ControlUnit {
            iar: Word(0),
            ir: Word(0),
            status: control::Status { run: Flag(true), tra: Flag(false) },
            microcycle: 1,
            instruction: None,
        },
        mu: memory::State { sar: Word(0), sir: Word(0), work: None, mem },
    }
}

pub proof fn lemma_loaded_state_wf(mem: Seq<Word>)
    requires
        mem.len() == LINEAR_ADDRESS_SPACE_WORDS,
    ensures
        wf_state(loaded_state(mem)),
{
}

/// Halt completion: on a machine whose memory holds a halt instruction
/// at address 0, the twelfth step completes that instruction and clears
/// RUN, so the thirteenth call of `perform_microcycle` returns `None`.
#[verifier::rlimit(100)]
pub proof fn lemma_halt_program(mem: Seq<Word>)
    requires
        mem.len() == LINEAR_ADDRESS_SPACE_WORDS,
        Instruction::spec_decode(mem[0]) == Instruction::Halt,
    ensures
        forall|k: nat| k < 12 ==> (#[trigger] steps_spec(loaded_state(mem), k)).cu.status.run.0,
        !steps_spec(loaded_state(mem), 12).cu.status.run.0,
{
    lemma_mask_bounds();
    let s0 = loaded_state(mem);
    // Fetch: the instruction read is signalled at 1, IAR is incremented
    // through the ALU, and the halt instruction is decoded at the end of
    // microcycle 5.
    let s1 = step_spec(s0);
    assert(s1 == (MachineState {
        cu: ControlUnit { microcycle: 2, ..s0.cu },
        mu: memory::State {
            work: Some(
                memory::Work {
                    mem_type: MemoryType::Linear,
                    access: MemoryAccess::Read,
                    sar: Word(0),
                    sir: Word(0),
                    remaining_cycles: 3,
                },
            ),
            ..s0.mu
        },
        ..s0
    }));
    let s2 = step_spec(s1);
    assert(s2 == (MachineState {
        au: ArithmeticUnit {
            y: Word(1),
            work: Some(
                arithmetic::Work {
                    op: ALUOperation::Add,
                    x: Word(0),
                    y: Word(1),
                    remaining_cycles: 1,
                },
            ),
            ..s1.au
        },
        cu: ControlUnit { microcycle: 3, ..s1.cu },
        mu: memory::State {
            work: Some(
                memory::Work {
                    mem_type: MemoryType::Linear,
                    access: MemoryAccess::Read,
                    sar: Word(0),
                    sir: Word(0),
                    remaining_cycles: 2,
                },
            ),
            ..s1.mu
        },
    }));
    let s3 = step_spec(s2);
    assert(s3 == (MachineState {
        au: ArithmeticUnit {
            work: Some(
                arithmetic::Work {
                    op: ALUOperation::Add,
                    x: Word(0),
                    y: Word(1),
                    remaining_cycles: 0,
                },
            ),
            ..s2.au
        },
        cu: ControlUnit { microcycle: 4, ..s2.cu },
        mu: memory::State {
            work: Some(
                memory::Work {
                    mem_type: MemoryType::Linear,
                    access: MemoryAccess::Read,
                    sar: Word(0),
                    sir: Word(0),
                    remaining_cycles: 1,
                },
            ),
            ..s2.mu
        },
    }));
    let s4 = step_spec(s3);
    assert(s4 == (MachineState {
        au: ArithmeticUnit { z: Word(1), work: None, ..s3.au },
        cu: ControlUnit { iar: Word(1), microcycle: 5, ..s3.cu },
        mu: memory::State {
            work: Some(
                memory::Work {
                    mem_type: MemoryType::Linear,
                    access: MemoryAccess::Read,
                    sar: Word(0),
                    sir: Word(0),
                    remaining_cycles: 0,
                },
            ),
            ..s3.mu
        },
    }));
    let s5 = step_spec(s4);
    assert(s5 == (MachineState {
        cu: ControlUnit {
            ir: mem[0],
            microcycle: 6,
            instruction: Some(Instruction::Halt),
            ..s4.cu
        },
        mu: memory::State { sir: mem[0], work: None, ..s4.mu },
        ..s4
    })) by {
        assert(step_spec(s4).cu.ir == Word(mem[0].0));
        assert(Word(mem[0].0) == mem[0]);
    };
    // Execute: the halt instruction has an empty descriptor for every
    // microcycle; the counter just advances until 12 clears RUN.
    let s6 = step_spec(s5);
    assert(s6 == (MachineState { cu: ControlUnit { microcycle: 7, ..s5.cu }, ..s5 }));
    let s7 = step_spec(s6);
    assert(s7 == (MachineState { cu: ControlUnit { microcycle: 8, ..s5.cu }, ..s5 }));
    let s8 = step_spec(s7);
    assert(s8 == (MachineState { cu: ControlUnit { microcycle: 9, ..s5.cu }, ..s5 }));
    let s9 = step_spec(s8);
    assert(s9 == (MachineState { cu: ControlUnit { microcycle: 10, ..s5.cu }, ..s5 }));
    let s10 = step_spec(s9);
    assert(s10 == (MachineState { cu: ControlUnit { microcycle: 11, ..s5.cu }, ..s5 }));
    let s11 = step_spec(s10);
    assert(s11 == (MachineState { cu: ControlUnit { microcycle: 12, ..s5.cu }, ..s5 }));
    let s12 = step_spec(s11);
    assert(!s12.cu.status.run.0);
    assert(steps_spec(s0, 1) == s1);
    assert(steps_spec(s0, 2) == s2);
    assert(steps_spec(s0, 3) == s3);
    assert(steps_spec(s0, 4) == s4);
    assert(steps_spec(s0, 5) == s5);
    assert(steps_spec(s0, 6) == s6);
    assert(steps_spec(s0, 7) == s7);
    assert(steps_spec(s0, 8) == s8);
    assert(steps_spec(s0, 9) == s9);
    assert(steps_spec(s0, 10) == s10);
    assert(steps_spec(s0, 11) == s11);
    assert(steps_spec(s0, 12) == s12);
    assert forall|k: nat| k < 12 implies (#[trigger] steps_spec(
        loaded_state(mem),
        k,
    )).cu.status.run.0 by {
        if k == 0 {
            assert(steps_spec(s0, 0).cu.status.run.0);
        } else if k <= 5 {
            assert(steps_spec(s0, k).cu.status.run.0);
        } else {
            assert(steps_spec(s0, k).cu.status.run.0);
        }
    };
}

pub struct Mima {
    // The units of the MiMA:
    pub arithmetic_unit: ArithmeticUnit,
    pub control_unit: ControlUnit,
    pub memory_unit: MemoryUnit,
}

impl Mima {
    /// The whole observable machine state.
    pub open spec fn state(self) -> MachineState {
        MachineState {
            au: self.arithmetic_unit,
            cu: self.control_unit,
            mu: self.memory_unit.state(),
        }
    }

    /// The machine invariant between microcycles.
    pub open spec fn wf(self) -> bool {
        wf_state(self.state())
    }

    pub fn new() -> (m: Mima)
        ensures
            m.wf(),
            m.state().au == (ArithmeticUnit {
                acc: Word(0),
                one: Word(1),
                x: Word(0),
                y: Word(0),
                z: Word(0),
                work: None::<arithmetic::Work>,
            }),
            m.state().cu == (ControlUnit {
                iar: Word(0),
                ir: Word(0),
                status: control::Status { run: Flag(true), tra: Flag(false) },
                microcycle: 1,
                instruction: None::<Instruction>,
            }),
            m.state().mu.sar == Word(0),
            m.state().mu.sir == Word(0),
            m.state().mu.work matches None,
            m.state().mu.mem == Seq::new(
                LINEAR_ADDRESS_SPACE_WORDS as nat,
                |i: int| memory::initial_word(),
            ),
    {
        Mima {
            arithmetic_unit: ArithmeticUnit::new(),
            control_unit: ControlUnit::new(),
            memory_unit: MemoryUnit::new(),
        }
    }

    // Perform a microcycle.
    // Return the descriptor in the end to allow graphical output of the
    // microcycle.
    pub fn perform_microcycle(&mut self) -> (r: Option<MicrocycleDescriptor>)
        requires
            old(self).wf(),
            fetch_address_ok(old(self).state()),
        ensures
            !old(self).state().cu.status.run.0 ==> *final(self) == *old(self) && r matches None,
            old(self).state().cu.status.run.0 ==> {
                &&& final(self).state() == step_spec(old(self).state())
                &&& r == Some(descriptor_for(old(self).state()))
                &&& final(self).wf()
            },
    {
        // Is the MiMA running?
        // Otherwise, we don't do anything.
        if !self.control_unit.is_running() {
            return None;
        }
        // First, let arithmetic and memory unit continue pending work:
        self.arithmetic_unit.poll_work();
        self.memory_unit.poll_work();

        // Get the current microcycle index from the control unit:
        let microcycle = self.control_unit.microcycle();

        // Obtain the microcycle descriptor and process it.
        // If there is an instruction inside the control unit, we are
        // already in the execute stage. Otherwise, a fetch is in progress.
        let microcycle_desc = match self.control_unit.instruction() {
            Some(instruction) => microcycle::execute_descriptor(microcycle, instruction),
            None => microcycle::fetch_descriptor(microcycle),
        };

        proof {
            lemma_mask_bounds();
            let s0 = old(self).state();
            let d = descriptor_for(s0);
            let m = s0.cu.microcycle;
            match s0.cu.instruction {
                None => {
                    assert(d.mem_access matches Some(_) ==> m == 1);
                },
                Some(i) => {
                    assert(d.mem_access matches Some(_) ==> m == 6 || m == 7);
                },
            }
        }
        self.process_microcycle_descriptor(&microcycle_desc);

        // The control unit ends the microcycle by manipulating the
        // instruction and incrementing the counter.
        self.control_unit.end_microcycle();

        proof {
            lemma_step_preserves_wf(old(self).state());
        }

        // Return the descriptor to the caller for it to be rendered
        // graphically.
        Some(microcycle_desc)
    }

    // Process the given microcycle descriptor.
    fn process_microcycle_descriptor(&mut self, microcycle_desc: &MicrocycleDescriptor)
        requires
            microcycle_desc.wf(),
            microcycle_desc.alu_op matches Some(_) ==> old(self).arithmetic_unit.work matches None,
            microcycle_desc.mem_access matches Some(_) ==> {
                &&& old(self).memory_unit.work matches None
                &&& !old(self).control_unit.status.tra.0
                &&& (match microcycle_desc.bus_xfer {
                    Some(x) => bus_spec(old(self).state(), x),
                    None => old(self).state(),
                }).mu.sar.0 < ADDRESS_SPACE_WORDS
            },
        ensures
            final(self).state() == apply_descriptor_spec(old(self).state(), *microcycle_desc),
    {
        // Is there a bus transfer?
        match &microcycle_desc.bus_xfer {
            Some(bus_xfer) => self.perform_bus_xfer(bus_xfer),
            None => {},
        }
        // Do we have to signal the ALU?
        match microcycle_desc.alu_op {
            Some(alu_op) => self.perform_alu_signal(alu_op),
            None => {},
        }
        // Do we have to signal the memory?
        match microcycle_desc.mem_access {
            Some(mem_access) => self.perform_mem_signal(mem_access),
            None => {},
        }
    }

    fn perform_bus_xfer(&mut self, bus_xfer: &BusXfer)
        requires
            bus_xfer.wf(),
        ensures
            final(self).state() == bus_spec(old(self).state(), *bus_xfer),
    {
        // Cancel accumulator-dependent bus transfers that are not
        // satisfied:
        if bus_xfer.is_acc_dependent() && ((self.arithmetic_unit.acc.0 & 0x80000000u32) == 0) {
            return ;
        }
        // Fetch the source and mask it accordingly:
        let value = Word(
            bus_xfer.source_bitmask().0 & (match bus_xfer.source() {
                Register::Acc => self.arithmetic_unit.acc,
                Register::One => self.arithmetic_unit.one,
                Register::Z => self.arithmetic_unit.z,
                Register::Iar => self.control_unit.iar,
                Register::Ir => self.control_unit.ir,
                Register::Sir => self.memory_unit.sir,
                _ => unreached(),
            }).0,
        );
        // Write it to all indicated destinations:
        let destinations = bus_xfer.destinations();
        if destinations.acc {
            self.arithmetic_unit.acc = value;
        }
        if destinations.x {
            self.arithmetic_unit.x = value;
        }
        if destinations.y {
            self.arithmetic_unit.y = value;
        }
        if destinations.iar {
            self.control_unit.iar = value;
        }
        if destinations.ir {
            self.control_unit.ir = value;
        }
        if destinations.sar {
            self.memory_unit.sar = value;
        }
        if destinations.sir {
            self.memory_unit.sir = value;
        }
    }

    fn perform_alu_signal(&mut self, alu_op: ALUOperation)
        requires
            old(self).arithmetic_unit.work matches None,
        ensures
            final(self).state() == alu_signal_spec(old(self).state(), alu_op),
    {
        self.arithmetic_unit.signal_alu(alu_op);
    }

    fn perform_mem_signal(&mut self, mem_access: MemoryAccess)
        requires
            old(self).memory_unit.work matches None,
            old(self).memory_unit.sar.0 < ADDRESS_SPACE_WORDS,
            !old(self).control_unit.status.tra.0,
        ensures
            final(self).state() == mem_signal_spec(old(self).state(), mem_access),
    {
        // If the memory access will be I/O, we have to frame it with the
        // TRA bit:
        let is_xfer = match MemoryType::from_address(self.memory_unit.sar) {
            MemoryType::Linear => false,
            MemoryType::DeviceIO => true,
        };
        if is_xfer {
            self.control_unit.start_xfer();
        }
        self.memory_unit.signal_memory(mem_access);
        if is_xfer {
            self.control_unit.stop_xfer();
        }
    }
}

} // verus!
