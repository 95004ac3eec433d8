//! The control unit: IAR, IR, the RUN/TRA status flags, the microcycle
//! counter and the instruction currently being executed.

use vstd::prelude::*;
use crate::types::{Flag, Instruction, Word};

verus! {

// The control unit encapsulates a status field.
// It contains various flags.
#[derive(Copy, Clone, PartialEq, Eq, Structural, Debug)]
pub struct Status {
    // The RUN flag indicates if the MiMA is running (true) or halted (false).
    pub run: Flag,
    // The TRA flag indicates if control has been handed over to an external device.
    pub tra: Flag,
}

impl Status {
    pub fn new() -> (s: Status)
        ensures
            s == (Status { run: Flag(true), tra: Flag(false) }),
    {
        Status { run: Flag(true), tra: Flag(false) }
    }
}

pub struct Unit {
    // "Instruktionsadressregister" (IAR)
    // Holds the memory address of the next instruction to be loaded and processed
    // Also known as PC (Program Counter) or IP (Instruction Pointer)
    pub iar: Word,
    // "Instruktionsregister" (IR)
    // Holds the instruction that is currently processed
    pub ir: Word,
    // The status field:
    pub status: Status,
    // The microcycle counter
    // It holds the index of the microcycle we are about to perform next (always in [1, 12]):
    pub microcycle: u8,
    // The current instruction (only available during microcycles [6, 12]):
    pub instruction: Option<Instruction>,
}

/// The end of a microcycle: on counter 5 the instruction is decoded from
/// IR, on counter 12 a halt instruction clears RUN and the instruction is
/// dropped; the counter then advances cyclically from 12 back to 1.
pub open spec fn spec_end_microcycle(u: Unit) -> Unit {
    let instruction = if u.microcycle == 5 {
        Some(Instruction::spec_decode(u.ir))
    } else if u.microcycle == 12 {
        None
    } else {
        u.instruction
    };
    let status = if u.microcycle == 12 && u.instruction == Some(Instruction::Halt) {
        Status { run: Flag(false), ..u.status }
    } else {
        u.status
    };
    let microcycle: u8 = if u.microcycle == 12 {
        1
    } else {
        (u.microcycle + 1) as u8
    };
    Unit { microcycle, instruction, status, ..u }
}

impl Unit {
    pub fn new() -> (u: Unit)
        ensures
            u == (Unit {
                iar: Word(0),
                ir: Word(0),
                status: Status { run: Flag(true), tra: Flag(false) },
                microcycle: 1,
                instruction: None::<Instruction>,
            }),
    {
        Unit { iar: Word(0), ir: Word(0), status: Status::new(), microcycle: 1, instruction: None }
    }

    pub fn status(&self) -> (s: Status)
        ensures
            s == self.status,
    {
        self.status
    }

    pub fn microcycle(&self) -> (m: u8)
        ensures
            m == self.microcycle,
    {
        self.microcycle
    }

    pub fn instruction(&self) -> (i: Option<Instruction>)
        ensures
            i == self.instruction,
    {
        self.instruction
    }

    pub fn is_running(&self) -> (r: bool)
        ensures
            r == self.status.run.0,
    {
        self.status.run.0
    }

    pub fn end_microcycle(&mut self)
        requires
            1 <= old(self).microcycle <= 12,
            old(self).microcycle == 12 ==> old(self).instruction matches Some(_),
        ensures
            *final(self) == spec_end_microcycle(*old(self)),
    {
        match self.microcycle {
            5 => {
                // The fetch phase ends now. We can decode the instruction from IR.
                self.instruction = Some(Instruction::decode(self.ir));
            },
            12 => {
                // If the instruction is HLT, we reset the RUN flag now to stop the MiMA.
                match self.instruction {
                    Some(Instruction::Halt) => {
                        self.status.run = Flag(false);
                    },
                    _ => {},
                }
                // The execute phase ends now. Drop the instruction.
                self.instruction = None;
            },
            _ => {},
        }
        // Set the counter for the next microcycle:
        if self.microcycle == 12 {
            // Back to fetching:
            self.microcycle = 1;
        } else {
            self.microcycle = self.microcycle + 1;
        }
    }

    /// Raise the TRA flag at the start of a device transfer. No transfer
    /// may be in progress.
    pub fn start_xfer(&mut self)
        requires
            !old(self).status.tra.0,
        ensures
            *final(self) == (Unit {
                status: Status { tra: Flag(true), ..old(self).status },
                ..*old(self)
            }),
    {
        self.status.tra = Flag(true);
    }

    /// Clear the TRA flag at the end of a device transfer. A transfer must
    /// be in progress.
    pub fn stop_xfer(&mut self)
        requires
            old(self).status.tra.0,
        ensures
            *final(self) == (Unit {
                status: Status { tra: Flag(false), ..old(self).status },
                ..*old(self)
            }),
    {
        self.status.tra = Flag(false);
    }
}

} // verus!
